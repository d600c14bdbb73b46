//! Content written as JSON blocks (paragraphs, headers, lists, images,
//! links, embedded HTML or markdown) and its rendering to HTML.

use vstd::prelude::*;
use vstd::string::*;
use crate::text::{concat3, owned};

verus! {

/// JSON text that is known to hold a list of content blocks.
pub struct ContentBlocksJson {
    json: String,
}

impl ContentBlocksJson {
    /// The JSON text.
    pub closed spec fn json_spec(&self) -> Seq<char> {
        self.json@
    }

    /// The JSON text.
    pub fn as_str(&self) -> (r: &str)
        ensures
            r@ == self.json_spec(),
    {
        self.json.as_str()
    }

    /// Wraps JSON text whose parse into content blocks has been tried:
    /// accepted when the parse succeeded, otherwise refused with
    /// `Could not parse JSON.`.
    pub fn from_checked(json: String, parsed_ok: bool) -> (r: Result<ContentBlocksJson, String>)
        ensures
            parsed_ok ==> (r matches Ok(c) && c.json_spec() == json@),
            !parsed_ok ==> (r matches Err(e) && e@ == "Could not parse JSON."@),
    {
        if parsed_ok {
            Ok(ContentBlocksJson { json })
        } else {
            Err(String::from_str("Could not parse JSON."))
        }
    }

    /// Renders the blocks parsed from this JSON; a failed parse hands its
    /// message on. The parse itself is a serde parse into the block type,
    /// made by the caller and handed in as `parsed`: nothing here ties it to
    /// this JSON text, and the result depends on `parsed` alone.
    pub fn to_html(&self, parsed: Result<Vec<ContentBlock>, String>) -> (r: Result<String, String>)
        requires
            parsed matches Ok(b) ==> renderable_all(b@),
        ensures
            parsed matches Ok(b) ==> (r matches Ok(h) && h@ == blocks_html(b@)),
            parsed matches Err(e) ==> r == Err::<String, String>(e),
    {
        match parsed {
            Ok(blocks) => Ok(blocks.to_html()),
            Err(e) => Err(e),
        }
    }
}

/// One block of content.
pub enum ContentBlock {
    Paragraph { inner: String },
    Header1 { inner: String },
    Header2 { inner: String },
    Header3 { inner: String },
    Header4 { inner: String },
    Header5 { inner: String },
    Header6 { inner: String },
    ListItem { inner: Inner },
    UnorderedList { inner: Vec<ContentBlock> },
    OrderedList { inner: Vec<ContentBlock> },
    Blockquote { inner: Inner },
    Code { inner: Inner },
    CodeBlock { inner: Inner },
    Image { src: String, alt: Option<String> },
    Link { href: String, inner: Inner },
    HorizontalRule,
    DivBlock { inner: Vec<ContentBlock> },
    SpanBlock { inner: Inner },
    Button { inner: Inner },
    Html { content: String },
    Markdown { content: String },
}

/// The inside of a block: plain text or nested blocks.
pub enum Inner {
    Elements(Vec<ContentBlock>),
    Text(String),
}

/// The HTML that GitHub-flavoured markdown compiles to (`markdown` crate,
/// `to_html_with_options` with `Options::gfm()`), or `None` where it
/// reports an error.
pub uninterp spec fn markdown_gfm(src: Seq<char>) -> Option<Seq<char>>;

/// Compiles GitHub-flavoured markdown to HTML with the `markdown` crate's
/// `to_html_with_options` and `Options::gfm()`. The result is named, not
/// stated: it is `markdown_gfm` of the input.
#[verifier::external_body]
pub(crate) fn markdown_to_html_gfm(src: &str) -> (r: Option<String>)
    ensures
        match r {
            Some(h) => markdown_gfm(src@) == Some(h@),
            None => markdown_gfm(src@) is None,
        },
{
    markdown::to_html_with_options(src, &markdown::Options::gfm()).ok()
}

/// Whether a block can be rendered (div, span and button blocks cannot).
pub open spec fn renderable(b: ContentBlock) -> bool
    decreases b,
{
    match b {
        ContentBlock::ListItem { inner } => renderable_inner(inner),
        ContentBlock::UnorderedList { inner } => renderable_all(inner@),
        ContentBlock::OrderedList { inner } => renderable_all(inner@),
        ContentBlock::Blockquote { inner } => renderable_inner(inner),
        ContentBlock::Code { inner } => renderable_inner(inner),
        ContentBlock::CodeBlock { inner } => renderable_inner(inner),
        ContentBlock::Link { inner, .. } => renderable_inner(inner),
        ContentBlock::DivBlock { .. } => false,
        ContentBlock::SpanBlock { .. } => false,
        ContentBlock::Button { .. } => false,
        _ => true,
    }
}

/// Whether the inside of a block can be rendered.
pub open spec fn renderable_inner(i: Inner) -> bool
    decreases i,
{
    match i {
        Inner::Elements(v) => renderable_all(v@),
        Inner::Text(_) => true,
    }
}

/// Whether every block of a list can be rendered.
pub open spec fn renderable_all(s: Seq<ContentBlock>) -> bool
    decreases s,
{
    forall|k: int| 0 <= k < s.len() ==> renderable(#[trigger] s[k])
}

/// `<tag>` + body + `</tag>`.
pub open spec fn wrap(open_tag: Seq<char>, body: Seq<char>, close_tag: Seq<char>) -> Seq<char> {
    open_tag + body + close_tag
}

/// The HTML of a block.
pub open spec fn block_html(b: ContentBlock) -> Seq<char>
    decreases b,
{
    match b {
        ContentBlock::Paragraph { inner } => wrap("<p>"@, inner@, "</p>"@),
        ContentBlock::Header1 { inner } => wrap("<h1>"@, inner@, "</h1>"@),
        ContentBlock::Header2 { inner } => wrap("<h2>"@, inner@, "</h2>"@),
        ContentBlock::Header3 { inner } => wrap("<h3>"@, inner@, "</h3>"@),
        ContentBlock::Header4 { inner } => wrap("<h4>"@, inner@, "</h4>"@),
        ContentBlock::Header5 { inner } => wrap("<h5>"@, inner@, "</h5>"@),
        ContentBlock::Header6 { inner } => wrap("<h6>"@, inner@, "</h6>"@),
        ContentBlock::ListItem { inner } => wrap("<li>"@, inner_html(inner), "</li>"@),
        ContentBlock::UnorderedList { inner } => wrap("<ul>"@, blocks_html(inner@), "</ul>"@),
        ContentBlock::OrderedList { inner } => wrap("<ol>"@, blocks_html(inner@), "</ol>"@),
        ContentBlock::Blockquote { inner } => wrap(
            "<blockquote>"@,
            inner_html(inner),
            "</blockquote>"@,
        ),
        ContentBlock::Code { inner } => wrap("<code>"@, inner_html(inner), "</code>"@),
        ContentBlock::CodeBlock { inner } => wrap("<pre>"@, inner_html(inner), "</pre>"@),
        ContentBlock::Image { src, alt } => match alt {
            Some(a) => "<img src=\""@ + src@ + "\" alt=\""@ + a@ + "\">"@,
            None => "<img src=\""@ + src@ + "\">"@,
        },
        ContentBlock::Link { href, inner } => "<a href=\""@ + href@ + "\">"@ + inner_html(inner)
            + "</a>"@,
        ContentBlock::HorizontalRule => "<hr>"@,
        ContentBlock::Html { content } => content@,
        ContentBlock::Markdown { content } => match markdown_gfm(content@) {
            Some(h) => h,
            None => "An error occurred while rendering this markdown."@,
        },
        _ => Seq::empty(),
    }
}

/// The HTML of the inside of a block.
pub open spec fn inner_html(i: Inner) -> Seq<char>
    decreases i,
{
    match i {
        Inner::Text(t) => t@,
        Inner::Elements(v) => blocks_html(v@),
    }
}

/// The HTML of a list of blocks: each block's HTML, in order.
pub open spec fn blocks_html(s: Seq<ContentBlock>) -> Seq<char>
    decreases s,
{
    if s.len() == 0 {
        Seq::empty()
    } else {
        blocks_html(s.drop_last()) + block_html(s.last())
    }
}

/// Rendering to HTML.
pub trait ToHtml {
    fn to_html(&self) -> String;
}

/// The HTML of a block.
pub fn block_to_html(b: &ContentBlock) -> (r: String)
    requires
        renderable(*b),
    ensures
        r@ == block_html(*b),
    decreases b,
{
    match b {
        ContentBlock::Paragraph { inner } => concat3("<p>", inner.as_str(), "</p>"),
        ContentBlock::Header1 { inner } => concat3("<h1>", inner.as_str(), "</h1>"),
        ContentBlock::Header2 { inner } => concat3("<h2>", inner.as_str(), "</h2>"),
        ContentBlock::Header3 { inner } => concat3("<h3>", inner.as_str(), "</h3>"),
        ContentBlock::Header4 { inner } => concat3("<h4>", inner.as_str(), "</h4>"),
        ContentBlock::Header5 { inner } => concat3("<h5>", inner.as_str(), "</h5>"),
        ContentBlock::Header6 { inner } => concat3("<h6>", inner.as_str(), "</h6>"),
        ContentBlock::ListItem { inner } => {
            let h = inner_to_html(inner);
            concat3("<li>", h.as_str(), "</li>")
        },
        ContentBlock::UnorderedList { inner } => {
            let h = blocks_to_html(inner);
            concat3("<ul>", h.as_str(), "</ul>")
        },
        ContentBlock::OrderedList { inner } => {
            let h = blocks_to_html(inner);
            concat3("<ol>", h.as_str(), "</ol>")
        },
        ContentBlock::Blockquote { inner } => {
            let h = inner_to_html(inner);
            concat3("<blockquote>", h.as_str(), "</blockquote>")
        },
        ContentBlock::Code { inner } => {
            let h = inner_to_html(inner);
            concat3("<code>", h.as_str(), "</code>")
        },
        ContentBlock::CodeBlock { inner } => {
            let h = inner_to_html(inner);
            concat3("<pre>", h.as_str(), "</pre>")
        },
        ContentBlock::Image { src, alt } => match alt {
            Some(a) => {
                let mut r = String::from_str("<img src=\"");
                r.append(src.as_str());
                r.append("\" alt=\"");
                r.append(a.as_str());
                r.append("\">");
                r
            },
            None => concat3("<img src=\"", src.as_str(), "\">"),
        },
        ContentBlock::Link { href, inner } => {
            let h = inner_to_html(inner);
            let mut r = String::from_str("<a href=\"");
            r.append(href.as_str());
            r.append("\">");
            r.append(h.as_str());
            r.append("</a>");
            r
        },
        ContentBlock::HorizontalRule => String::from_str("<hr>"),
        ContentBlock::Html { content } => content.clone(),
        ContentBlock::Markdown { content } => match markdown_to_html_gfm(content.as_str()) {
            Some(html) => html,
            None => String::from_str("An error occurred while rendering this markdown."),
        },
        ContentBlock::DivBlock { .. } => String::new(),
        ContentBlock::SpanBlock { .. } => String::new(),
        ContentBlock::Button { .. } => String::new(),
    }
}

/// The HTML of the inside of a block.
pub fn inner_to_html(i: &Inner) -> (r: String)
    requires
        renderable_inner(*i),
    ensures
        r@ == inner_html(*i),
    decreases i,
{
    match i {
        Inner::Text(text) => text.clone(),
        Inner::Elements(elements) => blocks_to_html(elements),
    }
}

/// The HTML of a list of blocks.
pub fn blocks_to_html(v: &Vec<ContentBlock>) -> (r: String)
    requires
        renderable_all(v@),
    ensures
        r@ == blocks_html(v@),
    decreases v,
{
    let mut html = String::new();
    let mut k: usize = 0;
    while k < v.len()
        invariant
            k <= v@.len(),
            renderable_all(v@),
            html@ == blocks_html(v@.take(k as int)),
        decreases v@.len() - k,
    {
        proof {
            assert(v@.take(k + 1).drop_last() =~= v@.take(k as int));
            assert(v@.take(k + 1).last() == v@[k as int]);
            assert(renderable(v@[k as int]));
            assert(decreases_to!(v => v@[k as int]));
        }
        let h = block_to_html(&v[k]);
        html.append(h.as_str());
        k = k + 1;
    }
    assert(v@.take(k as int) =~= v@);
    html
}

impl ToHtml for ContentBlock {
    /// The HTML of a renderable block.
    fn to_html(&self) -> (r: String)
        ensures
            renderable(*self) ==> r@ == block_html(*self),
    {
        if is_renderable(self) {
            block_to_html(self)
        } else {
            String::new()
        }
    }
}

impl ToHtml for Inner {
    /// The HTML of the renderable inside of a block.
    fn to_html(&self) -> (r: String)
        ensures
            renderable_inner(*self) ==> r@ == inner_html(*self),
    {
        if is_renderable_inner(self) {
            inner_to_html(self)
        } else {
            String::new()
        }
    }
}

impl ToHtml for Vec<ContentBlock> {
    /// The HTML of a list of renderable blocks.
    fn to_html(&self) -> (r: String)
        ensures
            renderable_all(self@) ==> r@ == blocks_html(self@),
    {
        if is_renderable_all(self) {
            blocks_to_html(self)
        } else {
            String::new()
        }
    }
}

/// Whether a block can be rendered.
pub fn is_renderable(b: &ContentBlock) -> (r: bool)
    ensures
        r == renderable(*b),
    decreases b,
{
    match b {
        ContentBlock::ListItem { inner } => is_renderable_inner(inner),
        ContentBlock::UnorderedList { inner } => is_renderable_all(inner),
        ContentBlock::OrderedList { inner } => is_renderable_all(inner),
        ContentBlock::Blockquote { inner } => is_renderable_inner(inner),
        ContentBlock::Code { inner } => is_renderable_inner(inner),
        ContentBlock::CodeBlock { inner } => is_renderable_inner(inner),
        ContentBlock::Link { inner, .. } => is_renderable_inner(inner),
        ContentBlock::DivBlock { .. } => false,
        ContentBlock::SpanBlock { .. } => false,
        ContentBlock::Button { .. } => false,
        _ => true,
    }
}

/// Whether the inside of a block can be rendered.
pub fn is_renderable_inner(i: &Inner) -> (r: bool)
    ensures
        r == renderable_inner(*i),
    decreases i,
{
    match i {
        Inner::Elements(v) => is_renderable_all(v),
        Inner::Text(_) => true,
    }
}

/// Whether every block of a list can be rendered.
pub fn is_renderable_all(v: &Vec<ContentBlock>) -> (r: bool)
    ensures
        r == renderable_all(v@),
    decreases v,
{
    let mut k: usize = 0;
    while k < v.len()
        invariant
            k <= v@.len(),
            forall|j: int| 0 <= j < k ==> renderable(#[trigger] v@[j]),
        decreases v@.len() - k,
    {
        proof {
            assert(decreases_to!(v => v@[k as int]));
        }
        if !is_renderable(&v[k]) {
            return false;
        }
        k = k + 1;
    }
    true
}

/// Rendering two lists of blocks one after the other gives the HTML of the
/// first followed by the HTML of the second: every block is rendered on its
/// own, in order.
pub proof fn law_blocks_html_concat(a: Seq<ContentBlock>, b: Seq<ContentBlock>)
    ensures
        blocks_html(a + b) == blocks_html(a) + blocks_html(b),
    decreases b.len(),
{
    if b.len() == 0 {
        assert(a + b =~= a);
        assert(blocks_html(a) + Seq::<char>::empty() =~= blocks_html(a));
    } else {
        law_blocks_html_concat(a, b.drop_last());
        assert((a + b).drop_last() =~= a + b.drop_last());
        assert((a + b).last() == b.last());
        assert(blocks_html(a) + blocks_html(b.drop_last()) + block_html(b.last()) =~= blocks_html(
            a,
        ) + (blocks_html(b.drop_last()) + block_html(b.last())));
    }
}

/// A single renderable block renders, as a list, to its own HTML.
pub proof fn law_single_block(b: ContentBlock)
    ensures
        blocks_html(seq![b]) == block_html(b),
{
    let s = seq![b];
    assert(s.drop_last() =~= Seq::<ContentBlock>::empty());
    assert(blocks_html(s.drop_last()) == Seq::<char>::empty());
    assert(s.last() == b);
    assert(blocks_html(s) == blocks_html(s.drop_last()) + block_html(s.last()));
    assert(Seq::<char>::empty() + block_html(b) =~= block_html(b));
}

} // verus!
