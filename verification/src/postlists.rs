//! Post lists of the metadata-file generation of the engine: which posts a
//! list shows (by category, tag or search line) and the HTML table of them.

use vstd::prelude::*;
use vstd::string::*;
use crate::text::{concat2, concat3, str_eq, str_contains, contains, push_char};
use crate::tell::{decimal, decimal_string};

verus! {

/// What a post list is narrowed to. The first filter set wins: category,
/// then tag, then search line.
pub struct PostListFilter {
    pub category: Option<String>,
    pub tag: Option<String>,
    pub searchline: Option<String>,
}

/// A post list page: its filters, if any.
pub struct Postlist {
    pub filters: Option<PostListFilter>,
}

/// When a piece of content was published and last altered (seconds).
pub struct Dates {
    pub published: i64,
    pub altered: Option<i64>,
}

/// The metadata of a piece of content that post lists read.
pub struct ContentMeta {
    pub id: String,
    pub title: String,
    pub short: Option<String>,
    pub kind: String,
    pub category: Option<String>,
    pub tags: Vec<String>,
    pub dates: Option<Dates>,
}

/// Whether a piece of content is a post.
pub open spec fn is_post(m: ContentMeta) -> bool {
    m.kind@ == "post"@
}

/// The views of a list of strings.
pub open spec fn views(v: Seq<String>) -> Seq<Seq<char>> {
    v.map_values(|s: String| s@)
}

/// Whether a post passes the filters, given the text of its content
/// (`content`, used by the search line only).
pub open spec fn passes(f: Option<PostListFilter>, p: ContentMeta, content: Seq<char>) -> bool {
    match f {
        None => true,
        Some(f) => match f.category {
            Some(c) => match p.category {
                Some(pc) => pc@ == c@,
                None => c@ == ""@,
            },
            None => match f.tag {
                Some(t) => views(p.tags@).contains(t@),
                None => match f.searchline {
                    Some(s) => contains(content, s@) || contains(p.title@, s@) || (p.short matches Some(d)
                        && contains(d@, s@)) || views(p.tags@).contains(s@),
                    None => true,
                },
            },
        },
    }
}

/// What the filters of a post list ask of a post. No filters: every post.
/// A category: the posts of that category (a post without one only for the
/// empty category), whatever else is set. Otherwise a tag: the posts that
/// carry it at any position of their tags. Otherwise a search line: the
/// posts whose content, title or description contains it, or that carry it
/// as a tag, and no other.
pub proof fn law_post_filters(f: PostListFilter, p: ContentMeta, content: Seq<char>)
    ensures
        passes(None, p, content),
        f.category matches Some(c) && p.category matches Some(pc) && pc@ == c@ ==> passes(
            Some(f),
            p,
            content,
        ),
        f.category matches Some(c) && p.category matches Some(pc) && pc@ != c@ ==> !passes(
            Some(f),
            p,
            content,
        ),
        f.category matches Some(c) ==> (p.category is None ==> (passes(Some(f), p, content) <==> c@
            == ""@)),
        f.tag matches Some(t) ==> (f.category is None ==> (forall|i: int|
            0 <= i < p.tags@.len() && (#[trigger] p.tags@[i])@ == t@ ==> passes(Some(f), p, content))),
        f.tag matches Some(t) ==> (f.category is None && (forall|i: int|
            0 <= i < p.tags@.len() ==> (#[trigger] p.tags@[i])@ != t@) ==> !passes(Some(f), p, content)),
        f.searchline matches Some(q) ==> (f.category is None && f.tag is None ==> {
            &&& contains(content, q@) ==> passes(Some(f), p, content)
            &&& contains(p.title@, q@) ==> passes(Some(f), p, content)
            &&& (p.short matches Some(d) && contains(d@, q@)) ==> passes(Some(f), p, content)
            &&& (forall|i: int| 0 <= i < p.tags@.len() && (#[trigger] p.tags@[i])@ == q@ ==> passes(
                Some(f),
                p,
                content,
            ))
            &&& (!contains(content, q@) && !contains(p.title@, q@) && !(p.short matches Some(d)
                && contains(d@, q@)) && (forall|i: int| 0 <= i < p.tags@.len() ==> (
            #[trigger] p.tags@[i])@ != q@)) ==> !passes(Some(f), p, content)
        }),
        f.category is None && f.tag is None && f.searchline is None ==> passes(Some(f), p, content),
{
    lemma_views_contains(p.tags@);
}

proof fn lemma_views_contains(v: Seq<String>)
    ensures
        forall|t: Seq<char>, i: int| 0 <= i < v.len() && #[trigger] v[i]@ == t ==> #[trigger] views(v).contains(t),
{
    assert forall|t: Seq<char>, i: int| 0 <= i < v.len() && #[trigger] v[i]@ == t implies #[trigger] views(v).contains(t) by {
        assert(views(v)[i] == t);
    }
}

/// Whether the filters search through the posts' text.
pub open spec fn searches(f: Option<PostListFilter>) -> bool {
    f matches Some(f) && f.category is None && f.tag is None && f.searchline is Some
}

/// Whether `v` holds an element equal to `s`.
fn has_string(v: &Vec<String>, s: &str) -> (r: bool)
    ensures
        r == views(v@).contains(s@),
{
    let mut k: usize = 0;
    while k < v.len()
        invariant
            k <= v@.len(),
            forall|j: int| 0 <= j < k ==> v@[j]@ != s@,
        decreases v@.len() - k,
    {
        if str_eq(v[k].as_str(), s) {
            assert(views(v@)[k as int] == s@);
            return true;
        }
        k = k + 1;
    }
    assert forall|j: int| 0 <= j < views(v@).len() implies views(v@)[j] != s@ by {
        assert(views(v@)[j] == v@[j]@);
    }
    false
}

/// Whether a post passes the filters; `content` is its content's text.
pub fn post_passes(f: &Option<PostListFilter>, p: &ContentMeta, content: &str) -> (r: bool)
    requires
        searches(*f) ==> p.short is Some,
    ensures
        r == passes(*f, *p, content@),
{
    match f {
        None => true,
        Some(f) => match &f.category {
            Some(c) => match &p.category {
                Some(pc) => str_eq(pc.as_str(), c.as_str()),
                None => str_eq("", c.as_str()),
            },
            None => match &f.tag {
                Some(t) => has_string(&p.tags, t.as_str()),
                None => match &f.searchline {
                    Some(s) => {
                        let in_content = str_contains(content, s.as_str());
                        let in_title = str_contains(p.title.as_str(), s.as_str());
                        let in_desc = match &p.short {
                            Some(d) => str_contains(d.as_str(), s.as_str()),
                            None => false,
                        };
                        let in_tags = has_string(&p.tags, s.as_str());
                        in_content || in_title || in_desc || in_tags
                    },
                    None => true,
                },
            },
        },
    }
}

/// The decimal representation of a signed number.
pub open spec fn signed_decimal(n: i64) -> Seq<char> {
    if n < 0 {
        seq!['-'] + decimal((-n) as nat)
    } else {
        decimal(n as nat)
    }
}

/// The decimal representation of a signed number.
pub fn signed_decimal_string(n: i64) -> (r: String)
    ensures
        r@ == signed_decimal(n),
{
    if n < 0 {
        let m: u64 = if n == i64::MIN {
            9223372036854775808u64
        } else {
            (-n) as u64
        };
        let digits = decimal_string(m);
        let mut r = String::new();
        push_char(&mut r, '-');
        r.append(digits.as_str());
        assert(r@ =~= seq!['-'] + digits@);
        r
    } else {
        decimal_string(n as u64)
    }
}

/// A row of the table as values: publication stamp, id, title HTML,
/// category and description HTML.
pub type RowView = (i64, Seq<char>, Seq<char>, Seq<char>, Seq<char>);

/// A post as one row of the table: its publication stamp, id, title and
/// description rendered as HTML, and category.
pub struct PostRow {
    pub published: i64,
    pub id: String,
    pub title_html: String,
    pub category: String,
    pub description_html: String,
}

impl PostRow {
    /// The row as values.
    pub open spec fn view_row(&self) -> RowView {
        (self.published, self.id@, self.title_html@, self.category@, self.description_html@)
    }
}

/// The head of the post table.
pub open spec fn table_head() -> Seq<char> {
    "<table class=\"post-listpreview\"><tr id=\"post-listpreview-h\"><th id=\"h-post-date\">Posted on</th><th id=\"h-post-title\">Title</th><th id=\"h-post-category\">Category</th></tr>"@
}

/// The two table rows of a post.
pub open spec fn row_html(r: RowView) -> Seq<char> {
    "<tr><td class=\"post-date\"><span class=\"unparsedtimestamp post-date\">"@ + signed_decimal(
        r.0,
    ) + "</span></td><td><a href=\"/p/"@ + r.1 + "\"><span class=\"post-title\">"@ + r.2
        + "</span></a></td><td class=\"post-category\"><a href=\"/c/"@ + r.3 + "\">"@ + r.3
        + "</a></td></tr><tr><td></td><td class=\"post-desc\"><p>"@ + r.4 + "</p></td></tr>"@
}

/// The rows of all posts, in order.
pub open spec fn rows_html(s: Seq<RowView>) -> Seq<char>
    decreases s.len(),
{
    if s.len() == 0 {
        Seq::empty()
    } else {
        rows_html(s.drop_last()) + row_html(s.last())
    }
}

/// The post list: a table of the posts, or `No results.` when there are
/// none.
pub open spec fn postlist_html(s: Seq<RowView>) -> Seq<char> {
    if s.len() == 0 {
        "<p>No results.</p>"@
    } else {
        table_head() + rows_html(s) + "</table>"@
    }
}

/// The two table rows of a post.
pub fn post_row_html(r: &PostRow) -> (out: String)
    ensures
        out@ == row_html(r.view_row()),
{
    let stamp = signed_decimal_string(r.published);
    let mut o = concat3(
        "<tr><td class=\"post-date\"><span class=\"unparsedtimestamp post-date\">",
        stamp.as_str(),
        "</span></td><td><a href=\"/p/",
    );
    o.append(r.id.as_str());
    o.append("\"><span class=\"post-title\">");
    o.append(r.title_html.as_str());
    o.append("</span></a></td><td class=\"post-category\"><a href=\"/c/");
    o.append(r.category.as_str());
    o.append("\">");
    o.append(r.category.as_str());
    o.append("</a></td></tr><tr><td></td><td class=\"post-desc\"><p>");
    o.append(r.description_html.as_str());
    o.append("</p></td></tr>");
    o
}

/// The views of a list of rows.
pub open spec fn row_views(s: Seq<PostRow>) -> Seq<RowView> {
    s.map_values(|r: PostRow| r.view_row())
}

/// The post list of the rows, in order.
pub fn postlist_table(rows: &Vec<PostRow>) -> (r: String)
    ensures
        r@ == postlist_html(row_views(rows@)),
{
    if rows.len() == 0 {
        return String::from_str("<p>No results.</p>");
    }
    let mut t = String::from_str(
        "<table class=\"post-listpreview\"><tr id=\"post-listpreview-h\"><th id=\"h-post-date\">Posted on</th><th id=\"h-post-title\">Title</th><th id=\"h-post-category\">Category</th></tr>",
    );
    let ghost head = t@;
    let mut k: usize = 0;
    while k < rows.len()
        invariant
            k <= rows@.len(),
            head == table_head(),
            t@ == head + rows_html(row_views(rows@.take(k as int))),
        decreases rows@.len() - k,
    {
        assert(row_views(rows@.take(k + 1)).drop_last() =~= row_views(rows@.take(k as int)));
        assert(row_views(rows@.take(k + 1)).last() == rows@[k as int].view_row());
        let row = post_row_html(&rows[k]);
        t.append(row.as_str());
        k = k + 1;
    }
    assert(rows@.take(k as int) =~= rows@);
    t.append("</table>");
    t
}

/// HTML of markdown compiled with the `markdown` crate's default options
/// (`to_html_with_options` with `Options::default()`, dangerous HTML not
/// allowed), or `None` where it reports an error.
pub uninterp spec fn markdown_default(src: Seq<char>) -> Option<Seq<char>>;

/// Compiles markdown to HTML with the `markdown` crate's default options;
/// the result is named `markdown_default` of the input.
#[verifier::external_body]
fn markdown_to_html_default(src: &str) -> (r: Option<String>)
    ensures
        match r {
            Some(h) => markdown_default(src@) == Some(h@),
            None => markdown_default(src@) is None,
        },
{
    markdown::to_html_with_options(src, &markdown::Options::default()).ok()
}

/// The stamp a post is listed with: its publication date, or 1 where it has
/// no dates.
pub open spec fn stamp_of(p: ContentMeta) -> i64 {
    match p.dates {
        Some(d) => d.published,
        None => 1,
    }
}

/// An optional text, or the empty text.
pub open spec fn or_empty(o: Option<String>) -> Seq<char> {
    match o {
        Some(s) => s@,
        None => Seq::empty(),
    }
}

/// The row of a post, its title and description compiled from markdown, or
/// `None` where the compiler reports an error.
pub open spec fn row_of(p: ContentMeta) -> Option<RowView> {
    match (markdown_default(p.title@), markdown_default(or_empty(p.short))) {
        (Some(t), Some(d)) => Some((stamp_of(p), p.id@, t, or_empty(p.category), d)),
        _ => None,
    }
}

/// The row of a post; see `row_of`.
pub fn post_row(p: &ContentMeta) -> (r: Option<PostRow>)
    ensures
        match row_of(*p) {
            Some(v) => r matches Some(row) && row.view_row() == v,
            None => r is None,
        },
{
    let category = match &p.category {
        Some(c) => c.clone(),
        None => String::new(),
    };
    let description = match &p.short {
        Some(s) => s.clone(),
        None => String::new(),
    };
    let published = match &p.dates {
        Some(d) => d.published,
        None => 1,
    };
    let t = markdown_to_html_default(p.title.as_str());
    let d = markdown_to_html_default(description.as_str());
    match (t, d) {
        (Some(t), Some(d)) => Some(
            PostRow { published, id: p.id.clone(), title_html: t, category, description_html: d },
        ),
        _ => None,
    }
}

/// The rows a post list shows: one per post (in the order of the metadata
/// file) that passes the filters, its content text taken from `contents`;
/// `None` where a row cannot be compiled.
pub open spec fn listed_rows(published: Seq<ContentMeta>, contents: Seq<String>, f: Option<PostListFilter>) -> Option<Seq<RowView>>
    decreases published.len(),
{
    if published.len() == 0 {
        Some(Seq::empty())
    } else {
        match listed_rows(published.drop_last(), contents.drop_last(), f) {
            None => None,
            Some(rest) => if is_post(published.last()) && passes(f, published.last(), contents.last()@) {
                match row_of(published.last()) {
                    Some(r) => Some(rest.push(r)),
                    None => None,
                }
            } else {
                Some(rest)
            },
        }
    }
}

/// The post list page of a post list: the posts of `published` (each with
/// its content text at the same position of `contents`, read by a search
/// line) that pass its filters, as a table. `None` where the markdown
/// compiler reported an error.
pub fn postlist_table_gen(postlist: &Postlist, published: &Vec<ContentMeta>, contents: &Vec<String>) -> (r:
    Option<String>)
    requires
        contents@.len() == published@.len(),
        searches(postlist.filters) ==> forall|k: int|
            0 <= k < published@.len() && is_post(#[trigger] published@[k]) ==> published@[k].short is Some,
    ensures
        match listed_rows(published@, contents@, postlist.filters) {
            Some(rows) => r matches Some(h) && h@ == postlist_html(rows),
            None => r is None,
        },
{
    let mut rows: Vec<PostRow> = Vec::new();
    let mut i: usize = 0;
    while i < published.len()
        invariant
            i <= published@.len(),
            contents@.len() == published@.len(),
            searches(postlist.filters) ==> forall|k: int|
                0 <= k < published@.len() && is_post(#[trigger] published@[k]) ==> published@[k].short is Some,
            listed_rows(published@.take(i as int), contents@.take(i as int), postlist.filters)
                == Some(row_views(rows@)),
        decreases published@.len() - i,
    {
        assert(published@.take(i + 1).drop_last() =~= published@.take(i as int));
        assert(contents@.take(i + 1).drop_last() =~= contents@.take(i as int));
        if str_eq(published[i].kind.as_str(), "post") && post_passes(
            &postlist.filters,
            &published[i],
            contents[i].as_str(),
        ) {
            match post_row(&published[i]) {
                Some(row) => {
                    let ghost before = rows@;
                    let ghost rv = row.view_row();
                    rows.push(row);
                    assert(row_views(rows@) =~= row_views(before).push(rv));
                },
                None => {
                    proof {
                        lemma_listed_rows_none(published@, contents@, postlist.filters, i as int + 1);
                    }
                    return None;
                },
            }
        }
        i = i + 1;
    }
    assert(published@.take(i as int) =~= published@);
    assert(contents@.take(i as int) =~= contents@);
    Some(postlist_table(&rows))
}

/// Once a prefix of the list cannot be compiled, neither can the list.
proof fn lemma_listed_rows_none(
    published: Seq<ContentMeta>,
    contents: Seq<String>,
    f: Option<PostListFilter>,
    i: int,
)
    requires
        0 <= i <= published.len(),
        contents.len() == published.len(),
        listed_rows(published.take(i), contents.take(i), f) is None,
    ensures
        listed_rows(published, contents, f) is None,
    decreases published.len() - i,
{
    if i < published.len() {
        assert(published.take(i + 1).drop_last() =~= published.take(i));
        assert(contents.take(i + 1).drop_last() =~= contents.take(i));
        lemma_listed_rows_none(published, contents, f, i + 1);
    } else {
        assert(published.take(i) =~= published);
        assert(contents.take(i) =~= contents);
    }
}

} // verus!
