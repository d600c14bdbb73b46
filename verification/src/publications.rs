//! The list of publications of a site (pages, posts and post lists) and the
//! questions asked of it: lookups by id, the not-found and root pages,
//! validation, and filtered or sorted lists of posts.

use vstd::prelude::*;
use vstd::string::*;
use crate::config::{CynthiaConfClone, copy_opt_string};
use crate::text::{str_eq, str_contains, contains};

verus! {

/// When a publication was published and last altered.
pub struct CynthiaPublicationDates {
    pub altered: u64,
    pub published: u64,
}

/// Which posts a post list shows, and in what order.
pub enum PostListFilter {
    /// All posts, newest first.
    Latest,
    /// All posts, oldest first.
    Oldest,
    Tag(String),
    Category(String),
    Author(String),
    Search(String),
}

/// The markup of a piece of content.
pub enum ContentType {
    Html(String),
    Markdown(String),
    PlainText(String),
}

/// Where the content of a publication comes from.
pub enum PublicationContent {
    Inline(ContentType),
    External { source: ContentType },
    Local { source: ContentType },
}

/// The author of a post.
pub struct Author {
    pub name: Option<String>,
    pub thumbnail: Option<String>,
    pub link: Option<String>,
}

/// A post, as listed in post lists.
pub struct PostPublication {
    pub id: String,
    pub title: String,
    pub short: Option<String>,
    pub dates: CynthiaPublicationDates,
    pub thumbnail: Option<String>,
    pub category: Option<String>,
    pub tags: Vec<String>,
    pub author: Option<Author>,
    pub postcontent: PublicationContent,
    pub scene_override: Option<String>,
}

/// A publication of the site.
pub enum CynthiaPublication {
    Page {
        id: String,
        title: String,
        description: Option<String>,
        thumbnail: Option<String>,
        dates: CynthiaPublicationDates,
        pagecontent: PublicationContent,
        scene_override: Option<String>,
    },
    Post {
        id: String,
        title: String,
        short: Option<String>,
        dates: CynthiaPublicationDates,
        thumbnail: Option<String>,
        category: Option<String>,
        tags: Vec<String>,
        author: Option<Author>,
        postcontent: PublicationContent,
        scene_override: Option<String>,
    },
    PostList {
        id: String,
        title: String,
        short: Option<String>,
        filter: PostListFilter,
        scene_override: Option<String>,
    },
}

/// The list of publications of a site.
pub type CynthiaPublicationList = Vec<CynthiaPublication>;

/// A list of posts.
pub type CynthiaPostList = Vec<PostPublication>;

/// A post with its tags taken as a sequence.
pub struct PostView {
    pub id: String,
    pub title: String,
    pub short: Option<String>,
    pub dates: CynthiaPublicationDates,
    pub thumbnail: Option<String>,
    pub category: Option<String>,
    pub tags: Seq<String>,
    pub author: Option<Author>,
    pub postcontent: PublicationContent,
    pub scene_override: Option<String>,
}

/// A publication with the tags of a post taken as a sequence.
pub enum PublicationView {
    Page {
        id: String,
        title: String,
        description: Option<String>,
        thumbnail: Option<String>,
        dates: CynthiaPublicationDates,
        pagecontent: PublicationContent,
        scene_override: Option<String>,
    },
    Post(PostView),
    PostList {
        id: String,
        title: String,
        short: Option<String>,
        filter: PostListFilter,
        scene_override: Option<String>,
    },
}

impl DeepView for PostPublication {
    type V = PostView;

    open spec fn deep_view(&self) -> PostView {
        PostView {
            id: self.id,
            title: self.title,
            short: self.short,
            dates: self.dates,
            thumbnail: self.thumbnail,
            category: self.category,
            tags: self.tags@,
            author: self.author,
            postcontent: self.postcontent,
            scene_override: self.scene_override,
        }
    }
}

impl DeepView for CynthiaPublication {
    type V = PublicationView;

    open spec fn deep_view(&self) -> PublicationView {
        match *self {
            CynthiaPublication::Page {
                id,
                title,
                description,
                thumbnail,
                dates,
                pagecontent,
                scene_override,
            } => PublicationView::Page {
                id,
                title,
                description,
                thumbnail,
                dates,
                pagecontent,
                scene_override,
            },
            CynthiaPublication::Post {
                id,
                title,
                short,
                dates,
                thumbnail,
                category,
                tags,
                author,
                postcontent,
                scene_override,
            } => PublicationView::Post(
                PostView {
                    id,
                    title,
                    short,
                    dates,
                    thumbnail,
                    category,
                    tags: tags@,
                    author,
                    postcontent,
                    scene_override,
                },
            ),
            CynthiaPublication::PostList { id, title, short, filter, scene_override } =>
                PublicationView::PostList { id, title, short, filter, scene_override },
        }
    }
}

// ---------------------------------------------------------------------------
// Copies
// ---------------------------------------------------------------------------

impl CynthiaPublicationDates {
    pub fn copy(&self) -> (r: CynthiaPublicationDates)
        ensures
            r == *self,
    {
        CynthiaPublicationDates { altered: self.altered, published: self.published }
    }
}

impl ContentType {
    pub fn copy(&self) -> (r: ContentType)
        ensures
            r == *self,
    {
        match self {
            ContentType::Html(s) => ContentType::Html(s.clone()),
            ContentType::Markdown(s) => ContentType::Markdown(s.clone()),
            ContentType::PlainText(s) => ContentType::PlainText(s.clone()),
        }
    }

    /// The text of the content, whatever its markup.
    pub fn get_inner(&self) -> (r: String)
        ensures
            r@ == self.inner_spec()@,
    {
        match self {
            ContentType::Html(c) => c.clone(),
            ContentType::Markdown(c) => c.clone(),
            ContentType::PlainText(c) => c.clone(),
        }
    }

    pub open spec fn inner_spec(&self) -> String {
        match *self {
            ContentType::Html(c) => c,
            ContentType::Markdown(c) => c,
            ContentType::PlainText(c) => c,
        }
    }
}

impl PublicationContent {
    pub fn copy(&self) -> (r: PublicationContent)
        ensures
            r == *self,
    {
        match self {
            PublicationContent::Inline(c) => PublicationContent::Inline(c.copy()),
            PublicationContent::External { source } => PublicationContent::External {
                source: source.copy(),
            },
            PublicationContent::Local { source } => PublicationContent::Local {
                source: source.copy(),
            },
        }
    }
}

impl Author {
    pub fn copy(&self) -> (r: Author)
        ensures
            r == *self,
    {
        Author {
            name: copy_opt_string(&self.name),
            thumbnail: copy_opt_string(&self.thumbnail),
            link: copy_opt_string(&self.link),
        }
    }
}

pub fn copy_opt_author(o: &Option<Author>) -> (r: Option<Author>)
    ensures
        r == *o,
{
    match o {
        Some(a) => Some(a.copy()),
        None => None,
    }
}

impl PostListFilter {
    pub fn copy(&self) -> (r: PostListFilter)
        ensures
            r == *self,
    {
        match self {
            PostListFilter::Latest => PostListFilter::Latest,
            PostListFilter::Oldest => PostListFilter::Oldest,
            PostListFilter::Tag(s) => PostListFilter::Tag(s.clone()),
            PostListFilter::Category(s) => PostListFilter::Category(s.clone()),
            PostListFilter::Author(s) => PostListFilter::Author(s.clone()),
            PostListFilter::Search(s) => PostListFilter::Search(s.clone()),
        }
    }
}

/// A copy of a list of strings.
pub fn copy_strings(v: &Vec<String>) -> (r: Vec<String>)
    ensures
        r@ == v@,
{
    let mut r: Vec<String> = Vec::new();
    let mut i: usize = 0;
    while i < v.len()
        invariant
            i <= v@.len(),
            r@ == v@.subrange(0, i as int),
        decreases v@.len() - i,
    {
        r.push(v[i].clone());
        i = i + 1;
        assert(r@ =~= v@.subrange(0, i as int));
    }
    assert(r@ =~= v@);
    r
}

impl PostPublication {
    pub fn copy(&self) -> (r: PostPublication)
        ensures
            r.deep_view() == self.deep_view(),
    {
        PostPublication {
            id: self.id.clone(),
            title: self.title.clone(),
            short: copy_opt_string(&self.short),
            dates: self.dates.copy(),
            thumbnail: copy_opt_string(&self.thumbnail),
            category: copy_opt_string(&self.category),
            tags: copy_strings(&self.tags),
            author: copy_opt_author(&self.author),
            postcontent: self.postcontent.copy(),
            scene_override: copy_opt_string(&self.scene_override),
        }
    }
}

impl CynthiaPublication {
    pub fn copy(&self) -> (r: CynthiaPublication)
        ensures
            r.deep_view() == self.deep_view(),
    {
        match self {
            CynthiaPublication::Page {
                id,
                title,
                description,
                thumbnail,
                dates,
                pagecontent,
                scene_override,
            } => CynthiaPublication::Page {
                id: id.clone(),
                title: title.clone(),
                description: copy_opt_string(description),
                thumbnail: copy_opt_string(thumbnail),
                dates: dates.copy(),
                pagecontent: pagecontent.copy(),
                scene_override: copy_opt_string(scene_override),
            },
            CynthiaPublication::Post {
                id,
                title,
                short,
                dates,
                thumbnail,
                category,
                tags,
                author,
                postcontent,
                scene_override,
            } => CynthiaPublication::Post {
                id: id.clone(),
                title: title.clone(),
                short: copy_opt_string(short),
                dates: dates.copy(),
                thumbnail: copy_opt_string(thumbnail),
                category: copy_opt_string(category),
                tags: copy_strings(tags),
                author: copy_opt_author(author),
                postcontent: postcontent.copy(),
                scene_override: copy_opt_string(scene_override),
            },
            CynthiaPublication::PostList { id, title, short, filter, scene_override } =>
                CynthiaPublication::PostList {
                id: id.clone(),
                title: title.clone(),
                short: copy_opt_string(short),
                filter: filter.copy(),
                scene_override: copy_opt_string(scene_override),
            },
        }
    }

    /// The id of the publication.
    pub open spec fn id_spec(&self) -> Seq<char> {
        match *self {
            CynthiaPublication::Page { id, .. } => id@,
            CynthiaPublication::Post { id, .. } => id@,
            CynthiaPublication::PostList { id, .. } => id@,
        }
    }

    /// The scene the publication asks for, if any.
    pub open spec fn scene_spec(&self) -> Option<String> {
        match *self {
            CynthiaPublication::Page { scene_override, .. } => scene_override,
            CynthiaPublication::Post { scene_override, .. } => scene_override,
            CynthiaPublication::PostList { scene_override, .. } => scene_override,
        }
    }

    /// The id of the publication.
    pub fn get_id(&self) -> (r: String)
        ensures
            r@ == self.id_spec(),
    {
        match self {
            CynthiaPublication::Page { id, .. } => id.clone(),
            CynthiaPublication::Post { id, .. } => id.clone(),
            CynthiaPublication::PostList { id, .. } => id.clone(),
        }
    }

    /// The scene the publication asks for, if any.
    pub fn get_scene_name(&self) -> (r: Option<String>)
        ensures
            r == self.scene_spec(),
    {
        match self {
            CynthiaPublication::Page { scene_override, .. } => copy_opt_string(scene_override),
            CynthiaPublication::Post { scene_override, .. } => copy_opt_string(scene_override),
            CynthiaPublication::PostList { scene_override, .. } => copy_opt_string(
                scene_override,
            ),
        }
    }
}

// ---------------------------------------------------------------------------
// Lookups in the publication list
// ---------------------------------------------------------------------------

/// Index of the first publication of `s` that satisfies `pred`.
pub open spec fn first_match(s: Seq<CynthiaPublication>, pred: spec_fn(CynthiaPublication) -> bool) -> Option<int>
    decreases s.len(),
{
    if s.len() == 0 {
        None
    } else if pred(s[0]) {
        Some(0)
    } else {
        match first_match(s.skip(1), pred) {
            Some(i) => Some(i + 1),
            None => None,
        }
    }
}

pub proof fn lemma_first_match_at(s: Seq<CynthiaPublication>, pred: spec_fn(CynthiaPublication) -> bool, i: int)
    requires
        0 <= i < s.len(),
        forall|j: int| 0 <= j < i ==> !pred(s[j]),
        pred(s[i]),
    ensures
        first_match(s, pred) == Some(i),
    decreases i,
{
    if i > 0 {
        lemma_first_match_at(s.skip(1), pred, i - 1);
    }
}

pub proof fn lemma_first_match_none(s: Seq<CynthiaPublication>, pred: spec_fn(CynthiaPublication) -> bool)
    requires
        forall|j: int| 0 <= j < s.len() ==> !pred(s[j]),
    ensures
        first_match(s, pred) is None,
    decreases s.len(),
{
    if s.len() > 0 {
        lemma_first_match_none(s.skip(1), pred);
    }
}

pub proof fn lemma_first_match_bounds(s: Seq<CynthiaPublication>, pred: spec_fn(CynthiaPublication) -> bool)
    ensures
        first_match(s, pred) matches Some(i) ==> 0 <= i < s.len() && pred(s[i]),
        first_match(s, pred) is None ==> forall|j: int| 0 <= j < s.len() ==> !pred(s[j]),
    decreases s.len(),
{
    if s.len() > 0 {
        lemma_first_match_bounds(s.skip(1), pred);
        assert forall|j: int| 1 <= j < s.len() implies s.skip(1)[j - 1] == s[j] by {}
    }
}

/// The publication at the first match, as a deep view.
pub open spec fn found(s: Seq<CynthiaPublication>, pred: spec_fn(CynthiaPublication) -> bool) -> Option<PublicationView> {
    match first_match(s, pred) {
        Some(i) => Some(s[i].deep_view()),
        None => None,
    }
}

/// The deep view of an optional publication.
pub open spec fn opt_view(o: Option<CynthiaPublication>) -> Option<PublicationView> {
    match o {
        Some(p) => Some(p.deep_view()),
        None => None,
    }
}

/// A publication with the given id.
pub open spec fn has_id(id: Seq<char>) -> spec_fn(CynthiaPublication) -> bool {
    |p: CynthiaPublication| p.id_spec() == id
}

/// A page that may answer for missing pages: its id is the configured
/// not-found id, `404` or `notfound`.
pub open spec fn is_notfound_page(notfound: Seq<char>) -> spec_fn(CynthiaPublication) -> bool {
    |p: CynthiaPublication|
        p is Page && (p.id_spec() == notfound || p.id_spec() == "404"@ || p.id_spec()
            == "notfound"@)
}

/// A page that may answer for the site's root: its id is `root`, empty or
/// `/`.
pub open spec fn is_root_page() -> spec_fn(CynthiaPublication) -> bool {
    |p: CynthiaPublication|
        p is Page && (p.id_spec() == "root"@ || p.id_spec() == ""@ || p.id_spec() == "/"@)
}

/// No two publications share an id.
pub open spec fn ids_unique(s: Seq<CynthiaPublication>) -> bool {
    forall|i: int, j: int| 0 <= i < j < s.len() ==> s[i].id_spec() != s[j].id_spec()
}

/// What `validate` checks of a publication list.
pub open spec fn valid_list(s: Seq<CynthiaPublication>, notfound: Seq<char>) -> bool {
    &&& ids_unique(s)
    &&& first_match(s, is_notfound_page(notfound)) is Some
    &&& first_match(s, is_root_page()) is Some
    &&& s.len() > 0
}

/// The posts of a publication list, in order.
pub open spec fn posts_of(s: Seq<CynthiaPublication>) -> Seq<PostView>
    decreases s.len(),
{
    if s.len() == 0 {
        Seq::empty()
    } else {
        let rest = posts_of(s.drop_last());
        match s.last().deep_view() {
            PublicationView::Post(p) => rest.push(p),
            _ => rest,
        }
    }
}

/// Whether a publication is a page.
fn is_page(p: &CynthiaPublication) -> (r: bool)
    ensures
        r == (*p is Page),
{
    match p {
        CynthiaPublication::Page { .. } => true,
        _ => false,
    }
}

/// Questions asked of a site's publication list.
pub trait CynthiaPublicationListTrait {
    fn only_posts(&self) -> CynthiaPostList;

    fn get_notfound(&self, config: CynthiaConfClone) -> Option<CynthiaPublication>;

    fn get_root(&self) -> Option<CynthiaPublication>;

    fn get_by_id(&self, id: String) -> Option<CynthiaPublication>;

    fn validate(&self, config: CynthiaConfClone) -> bool;
}

impl CynthiaPublicationListTrait for Vec<CynthiaPublication> {
    /// The posts among the publications, in order.
    fn only_posts(&self) -> (r: CynthiaPostList)
        ensures
            r.deep_view() == posts_of(self@),
    {
        let mut p: Vec<PostPublication> = Vec::new();
        let mut i: usize = 0;
        while i < self.len()
            invariant
                i <= self@.len(),
                p.deep_view() == posts_of(self@.subrange(0, i as int)),
            decreases self@.len() - i,
        {
            let ghost before = p.deep_view();
            proof {
                assert(self@.subrange(0, i + 1).drop_last() =~= self@.subrange(0, i as int));
                assert(self@.subrange(0, i + 1).last() == self@[i as int]);
            }
            match &self[i] {
                CynthiaPublication::Post {
                    id,
                    title,
                    short,
                    dates,
                    thumbnail,
                    category,
                    tags,
                    author,
                    postcontent,
                    scene_override,
                } => {
                    let post = PostPublication {
                        id: id.clone(),
                        title: title.clone(),
                        short: copy_opt_string(short),
                        dates: dates.copy(),
                        thumbnail: copy_opt_string(thumbnail),
                        category: copy_opt_string(category),
                        tags: copy_strings(tags),
                        author: copy_opt_author(author),
                        postcontent: postcontent.copy(),
                        scene_override: copy_opt_string(scene_override),
                    };
                    p.push(post);
                    assert(p.deep_view() =~= before.push(post.deep_view()));
                },
                _ => {},
            }
            i = i + 1;
        }
        assert(self@.subrange(0, i as int) =~= self@);
        p
    }

    /// The page that answers for missing pages: the first page whose id is
    /// the configured not-found id, `404` or `notfound`.
    fn get_notfound(&self, config: CynthiaConfClone) -> (r: Option<CynthiaPublication>)
        ensures
            opt_view(r) == found(self@, is_notfound_page(config.site.notfound_page@)),
    {
        let notfound = config.site.notfound_page;
        let ghost pred = is_notfound_page(notfound@);
        let mut i: usize = 0;
        while i < self.len()
            invariant
                i <= self@.len(),
                pred == is_notfound_page(notfound@),
                notfound@ == config.site.notfound_page@,
                forall|j: int| 0 <= j < i ==> !pred(self@[j]),
            decreases self@.len() - i,
        {
            let id = self[i].get_id();
            if is_page(&self[i]) && (str_eq(id.as_str(), notfound.as_str()) || str_eq(
                id.as_str(),
                "404",
            ) || str_eq(id.as_str(), "notfound")) {
                proof {
                    assert(pred(self@[i as int]));
                    lemma_first_match_at(self@, pred, i as int);
                }
                return Some(self[i].copy());
            }
            i = i + 1;
        }
        proof {
            lemma_first_match_none(self@, pred);
        }
        None
    }

    /// The page that answers for the site's root: the first page whose id
    /// is `root`, empty or `/`.
    fn get_root(&self) -> (r: Option<CynthiaPublication>)
        ensures
            opt_view(r) == found(self@, is_root_page()),
    {
        let ghost pred = is_root_page();
        let mut i: usize = 0;
        while i < self.len()
            invariant
                i <= self@.len(),
                pred == is_root_page(),
                forall|j: int| 0 <= j < i ==> !pred(self@[j]),
            decreases self@.len() - i,
        {
            let id = self[i].get_id();
            if is_page(&self[i]) && (str_eq(id.as_str(), "root") || str_eq(id.as_str(), "")
                || str_eq(id.as_str(), "/")) {
                proof {
                    lemma_first_match_at(self@, pred, i as int);
                }
                return Some(self[i].copy());
            }
            i = i + 1;
        }
        proof {
            lemma_first_match_none(self@, pred);
        }
        None
    }

    /// The first publication with the given id.
    fn get_by_id(&self, id: String) -> (r: Option<CynthiaPublication>)
        ensures
            opt_view(r) == found(self@, has_id(id@)),
    {
        let ghost pred = has_id(id@);
        let mut i: usize = 0;
        while i < self.len()
            invariant
                i <= self@.len(),
                pred == has_id(id@),
                forall|j: int| 0 <= j < i ==> !pred(self@[j]),
            decreases self@.len() - i,
        {
            let pid = self[i].get_id();
            if str_eq(pid.as_str(), id.as_str()) {
                proof {
                    lemma_first_match_at(self@, pred, i as int);
                }
                return Some(self[i].copy());
            }
            i = i + 1;
        }
        proof {
            lemma_first_match_none(self@, pred);
        }
        None
    }

    /// A publication list is valid when no two publications share an id,
    /// a not-found page and a root page are present, and it is not empty.
    fn validate(&self, config: CynthiaConfClone) -> (r: bool)
        ensures
            r == valid_list(self@, config.site.notfound_page@),
    {
        let mut unique = true;
        let mut i: usize = 0;
        while i < self.len()
            invariant
                i <= self@.len(),
                unique == (forall|a: int, b: int|
                    0 <= a < b < i ==> self@[a].id_spec() != self@[b].id_spec()),
            decreases self@.len() - i,
        {
            let id_i = self[i].get_id();
            let mut j: usize = 0;
            let mut clash = false;
            while j < i
                invariant
                    i < self@.len(),
                    j <= i,
                    id_i@ == self@[i as int].id_spec(),
                    clash == (exists|a: int| 0 <= a < j && self@[a].id_spec() == self@[i as int].id_spec()),
                decreases i - j,
            {
                let id_j = self[j].get_id();
                if str_eq(id_j.as_str(), id_i.as_str()) {
                    clash = true;
                }
                j = j + 1;
            }
            if clash {
                unique = false;
            }
            i = i + 1;
        }
        let notfound_exists = self.get_notfound(config).is_some();
        let root_exists = self.get_root().is_some();
        let itemsin = self.len() != 0;
        unique && notfound_exists && root_exists && itemsin
    }
}

// ---------------------------------------------------------------------------
// Post lists
// ---------------------------------------------------------------------------

/// The sort key of a post: when it was published.
pub open spec fn published(p: PostView) -> u64 {
    p.dates.published
}

/// `x` placed into `s` after every leading post published no earlier than
/// it.
pub open spec fn insert_latest(s: Seq<PostView>, x: PostView) -> Seq<PostView>
    decreases s.len(),
{
    if s.len() == 0 {
        seq![x]
    } else if published(s[0]) >= published(x) {
        seq![s[0]] + insert_latest(s.skip(1), x)
    } else {
        seq![x] + s
    }
}

/// `x` placed into `s` after every leading post published no later than it.
pub open spec fn insert_oldest(s: Seq<PostView>, x: PostView) -> Seq<PostView>
    decreases s.len(),
{
    if s.len() == 0 {
        seq![x]
    } else if published(s[0]) <= published(x) {
        seq![s[0]] + insert_oldest(s.skip(1), x)
    } else {
        seq![x] + s
    }
}

/// The posts newest first; posts published at the same second keep their
/// order (a stable sort).
pub open spec fn sort_latest(s: Seq<PostView>) -> Seq<PostView>
    decreases s.len(),
{
    if s.len() == 0 {
        s
    } else {
        insert_latest(sort_latest(s.drop_last()), s.last())
    }
}

/// The posts oldest first; posts published at the same second keep their
/// order (a stable sort).
pub open spec fn sort_oldest(s: Seq<PostView>) -> Seq<PostView>
    decreases s.len(),
{
    if s.len() == 0 {
        s
    } else {
        insert_oldest(sort_oldest(s.drop_last()), s.last())
    }
}

/// Whether a post passes a selecting filter (`Latest` and `Oldest` pass
/// every post).
pub open spec fn post_matches(f: PostListFilter, p: PostView) -> bool {
    match f {
        PostListFilter::Latest => true,
        PostListFilter::Oldest => true,
        PostListFilter::Tag(t) => exists|i: int| 0 <= i < p.tags.len() && p.tags[i]@ == t@,
        PostListFilter::Category(c) => p.category is Some && p.category->0@ == c@,
        PostListFilter::Author(a) => p.author is Some && p.author->0.name is Some
            && p.author->0.name->0@ == a@,
        PostListFilter::Search(q) => contains(p.title@, q@) || (p.short is Some && contains(
            p.short->0@,
            q@,
        )),
    }
}

/// The posts of `s` that pass `f`, in order.
pub open spec fn filtered(s: Seq<PostView>, f: PostListFilter) -> Seq<PostView>
    decreases s.len(),
{
    if s.len() == 0 {
        s
    } else if post_matches(f, s.last()) {
        filtered(s.drop_last(), f).push(s.last())
    } else {
        filtered(s.drop_last(), f)
    }
}

/// What a post list shows for a filter.
pub open spec fn filter_result(s: Seq<PostView>, f: PostListFilter) -> Seq<PostView> {
    match f {
        PostListFilter::Latest => sort_latest(s),
        PostListFilter::Oldest => sort_oldest(s),
        _ => filtered(s, f),
    }
}

/// Index of the last post of `s` with the given id.
pub open spec fn last_with_id(s: Seq<PostView>, id: Seq<char>) -> Option<int>
    decreases s.len(),
{
    if s.len() == 0 {
        None
    } else if s.last().id@ == id {
        Some(s.len() - 1)
    } else {
        last_with_id(s.drop_last(), id)
    }
}

proof fn lemma_insert_latest_at(s: Seq<PostView>, x: PostView, j: int)
    requires
        0 <= j <= s.len(),
        forall|k: int| 0 <= k < j ==> published(s[k]) >= published(x),
        j < s.len() ==> published(s[j]) < published(x),
    ensures
        insert_latest(s, x) == s.take(j).push(x) + s.skip(j),
    decreases j,
{
    if j == 0 {
        if s.len() == 0 {
            assert(s.take(0).push(x) + s.skip(0) =~= seq![x]);
        } else {
            assert(s.take(0).push(x) + s.skip(0) =~= seq![x] + s);
        }
    } else {
        lemma_insert_latest_at(s.skip(1), x, j - 1);
        assert(s.take(j).push(x) + s.skip(j) =~= seq![s[0]] + (s.skip(1).take(j - 1).push(x)
            + s.skip(1).skip(j - 1)));
    }
}

proof fn lemma_insert_oldest_at(s: Seq<PostView>, x: PostView, j: int)
    requires
        0 <= j <= s.len(),
        forall|k: int| 0 <= k < j ==> published(s[k]) <= published(x),
        j < s.len() ==> published(s[j]) > published(x),
    ensures
        insert_oldest(s, x) == s.take(j).push(x) + s.skip(j),
    decreases j,
{
    if j == 0 {
        if s.len() == 0 {
            assert(s.take(0).push(x) + s.skip(0) =~= seq![x]);
        } else {
            assert(s.take(0).push(x) + s.skip(0) =~= seq![x] + s);
        }
    } else {
        lemma_insert_oldest_at(s.skip(1), x, j - 1);
        assert(s.take(j).push(x) + s.skip(j) =~= seq![s[0]] + (s.skip(1).take(j - 1).push(x)
            + s.skip(1).skip(j - 1)));
    }
}

/// Sorts posts by publication second, newest first when `newest_first`,
/// keeping the order of posts published at the same second.
fn sort_posts(posts: &Vec<PostPublication>, newest_first: bool) -> (r: Vec<PostPublication>)
    ensures
        newest_first ==> r.deep_view() == sort_latest(posts.deep_view()),
        !newest_first ==> r.deep_view() == sort_oldest(posts.deep_view()),
{
    let mut out: Vec<PostPublication> = Vec::new();
    let mut i: usize = 0;
    while i < posts.len()
        invariant
            i <= posts@.len(),
            newest_first ==> out.deep_view() == sort_latest(posts.deep_view().take(i as int)),
            !newest_first ==> out.deep_view() == sort_oldest(posts.deep_view().take(i as int)),
        decreases posts@.len() - i,
    {
        let x = posts[i].copy();
        let key = x.dates.published;
        let mut j: usize = 0;
        while j < out.len()
            invariant
                j <= out@.len(),
                forall|k: int|
                    0 <= k < j ==> (if newest_first {
                        published(out.deep_view()[k]) >= key
                    } else {
                        published(out.deep_view()[k]) <= key
                    }),
            ensures
                j <= out@.len(),
                forall|k: int|
                    0 <= k < j ==> (if newest_first {
                        published(out.deep_view()[k]) >= key
                    } else {
                        published(out.deep_view()[k]) <= key
                    }),
                j < out@.len() ==> (if newest_first {
                    published(out.deep_view()[j as int]) < key
                } else {
                    published(out.deep_view()[j as int]) > key
                }),
            decreases out@.len() - j,
        {
            let kj = out[j].dates.published;
            if newest_first && kj < key {
                break;
            }
            if !newest_first && kj > key {
                break;
            }
            j = j + 1;
        }
        let ghost before = out.deep_view();
        proof {
            assert(posts.deep_view().take(i + 1).drop_last() =~= posts.deep_view().take(i as int));
            assert(posts.deep_view().take(i + 1).last() == x.deep_view());
            if newest_first {
                lemma_insert_latest_at(before, x.deep_view(), j as int);
            } else {
                lemma_insert_oldest_at(before, x.deep_view(), j as int);
            }
        }
        out.insert(j, x);
        proof {
            assert(out.deep_view() =~= before.take(j as int).push(x.deep_view()) + before.skip(
                j as int,
            ));
        }
        i = i + 1;
    }
    assert(posts.deep_view().take(i as int) =~= posts.deep_view());
    out
}

/// Whether a list of strings holds one equal to `s`.
pub fn strings_contain(v: &Vec<String>, s: &str) -> (r: bool)
    ensures
        r == exists|i: int| 0 <= i < v@.len() && v@[i]@ == s@,
{
    let mut i: usize = 0;
    while i < v.len()
        invariant
            i <= v@.len(),
            forall|k: int| 0 <= k < i ==> v@[k]@ != s@,
        decreases v@.len() - i,
    {
        if str_eq(v[i].as_str(), s) {
            return true;
        }
        i = i + 1;
    }
    false
}

/// Whether a post passes a selecting filter.
pub fn matches_filter(f: &PostListFilter, p: &PostPublication) -> (r: bool)
    ensures
        r == post_matches(*f, p.deep_view()),
{
    match f {
        PostListFilter::Latest => true,
        PostListFilter::Oldest => true,
        PostListFilter::Tag(t) => {
            let r = strings_contain(&p.tags, t.as_str());
            assert(p.deep_view().tags == p.tags@);
            r
        },
        PostListFilter::Category(c) => match &p.category {
            Some(x) => str_eq(x.as_str(), c.as_str()),
            None => false,
        },
        PostListFilter::Author(a) => match &p.author {
            Some(au) => match &au.name {
                Some(n) => str_eq(n.as_str(), a.as_str()),
                None => false,
            },
            None => false,
        },
        PostListFilter::Search(q) => {
            if str_contains(p.title.as_str(), q.as_str()) {
                true
            } else {
                match &p.short {
                    Some(sh) => str_contains(sh.as_str(), q.as_str()),
                    None => false,
                }
            }
        },
    }
}

/// Questions asked of a list of posts.
pub trait PostLists {
    fn filter(&self, filter: PostListFilter) -> Vec<PostPublication>;

    fn get_by_id(&self, id: String) -> Option<CynthiaPublication>;
}

impl PostLists for Vec<PostPublication> {
    /// The posts a post list shows: all of them newest first (`Latest`) or
    /// oldest first (`Oldest`), keeping the order of posts published at the
    /// same second; otherwise, in their own order, those with the tag, in
    /// the category, by the author, or whose title or short description
    /// holds the search text.
    fn filter(&self, filter: PostListFilter) -> (r: Vec<PostPublication>)
        ensures
            r.deep_view() == filter_result(self.deep_view(), filter),
    {
        match filter {
            PostListFilter::Latest => sort_posts(self, true),
            PostListFilter::Oldest => sort_posts(self, false),
            _ => {
                let mut out: Vec<PostPublication> = Vec::new();
                let mut i: usize = 0;
                while i < self.len()
                    invariant
                        i <= self@.len(),
                        !(filter is Latest) && !(filter is Oldest),
                        out.deep_view() == filtered(self.deep_view().take(i as int), filter),
                    decreases self@.len() - i,
                {
                    proof {
                        assert(self.deep_view().take(i + 1).drop_last() =~= self.deep_view().take(
                            i as int,
                        ));
                        assert(self.deep_view().take(i + 1).last() == self@[i as int].deep_view());
                    }
                    if matches_filter(&filter, &self[i]) {
                        let ghost before = out.deep_view();
                        let p = self[i].copy();
                        out.push(p);
                        assert(out.deep_view() =~= before.push(p.deep_view()));
                    }
                    i = i + 1;
                }
                assert(self.deep_view().take(i as int) =~= self.deep_view());
                out
            },
        }
    }

    /// The last post with the given id, as a publication.
    fn get_by_id(&self, id: String) -> (r: Option<CynthiaPublication>)
        ensures
            match last_with_id(self.deep_view(), id@) {
                Some(i) => r matches Some(p) && p.deep_view() == PublicationView::Post(
                    self.deep_view()[i],
                ),
                None => r is None,
            },
    {
        let mut a: Option<CynthiaPublication> = None;
        let mut i: usize = 0;
        while i < self.len()
            invariant
                i <= self@.len(),
                match last_with_id(self.deep_view().take(i as int), id@) {
                    Some(k) => a matches Some(p) && p.deep_view() == PublicationView::Post(
                        self.deep_view()[k],
                    ),
                    None => a is None,
                },
            decreases self@.len() - i,
        {
            proof {
                assert(self.deep_view().take(i + 1).drop_last() =~= self.deep_view().take(
                    i as int,
                ));
                assert(self.deep_view().take(i + 1).last() == self@[i as int].deep_view());
            }
            if str_eq(self[i].id.as_str(), id.as_str()) {
                let p = &self[i];
                a = Some(
                    CynthiaPublication::Post {
                        id: p.id.clone(),
                        title: p.title.clone(),
                        short: copy_opt_string(&p.short),
                        dates: p.dates.copy(),
                        thumbnail: copy_opt_string(&p.thumbnail),
                        category: copy_opt_string(&p.category),
                        tags: copy_strings(&p.tags),
                        author: copy_opt_author(&p.author),
                        postcontent: p.postcontent.copy(),
                        scene_override: copy_opt_string(&p.scene_override),
                    },
                );
            }
            i = i + 1;
        }
        assert(self.deep_view().take(i as int) =~= self.deep_view());
        a
    }
}

// ---------------------------------------------------------------------------
// Laws of post lists
// ---------------------------------------------------------------------------

/// Posts ordered newest first.
pub open spec fn newest_first(s: Seq<PostView>) -> bool {
    forall|i: int, j: int| 0 <= i < j < s.len() ==> published(s[i]) >= published(s[j])
}

/// Posts ordered oldest first.
pub open spec fn oldest_first(s: Seq<PostView>) -> bool {
    forall|i: int, j: int| 0 <= i < j < s.len() ==> published(s[i]) <= published(s[j])
}

proof fn lemma_insert_latest_parts(s: Seq<PostView>, x: PostView)
    ensures
        insert_latest(s, x).to_multiset() == s.to_multiset().insert(x),
        insert_latest(s, x).len() == s.len() + 1,
        forall|k: int|
            0 <= k < insert_latest(s, x).len() ==> #[trigger] insert_latest(s, x)[k] == x
                || exists|m: int| 0 <= m < s.len() && insert_latest(s, x)[k] == s[m],
        newest_first(s) ==> newest_first(insert_latest(s, x)),
    decreases s.len(),
{
    broadcast use vstd::seq_lib::lemma_seq_union_to_multiset_commutative;
    broadcast use vstd::multiset::group_multiset_axioms;

    let r = insert_latest(s, x);
    if s.len() == 0 {
        assert(r =~= s.push(x));
        vstd::seq_lib::to_multiset_build(s, x);
    } else if published(s[0]) >= published(x) {
        let rest = s.skip(1);
        lemma_insert_latest_parts(rest, x);
        let ir = insert_latest(rest, x);
        assert(s =~= rest.insert(0, s[0]));
        assert(r =~= ir.insert(0, s[0]));
        vstd::seq_lib::to_multiset_insert(rest, 0, s[0]);
        vstd::seq_lib::to_multiset_insert(ir, 0, s[0]);
        assert(r.to_multiset() =~= s.to_multiset().insert(x));
        assert forall|k: int| 0 <= k < r.len() implies #[trigger] r[k] == x || exists|m: int|
            0 <= m < s.len() && r[k] == s[m] by {
            if k == 0 {
                assert(r[k] == s[0]);
            } else {
                assert(r[k] == ir[k - 1]);
                if ir[k - 1] != x {
                    let m = choose|m: int| 0 <= m < rest.len() && ir[k - 1] == rest[m];
                    assert(r[k] == s[m + 1]);
                }
            }
        }
        if newest_first(s) {
            assert forall|i: int, j: int| 0 <= i < j < r.len() implies published(r[i]) >= published(
                r[j],
            ) by {
                if i == 0 {
                    assert(r[j] == ir[j - 1]);
                    if ir[j - 1] != x {
                        let m = choose|m: int| 0 <= m < rest.len() && ir[j - 1] == rest[m];
                        assert(rest[m] == s[m + 1]);
                    }
                } else {
                    assert(r[i] == ir[i - 1] && r[j] == ir[j - 1]);
                }
            }
        }
    } else {
        assert(r =~= s.insert(0, x));
        vstd::seq_lib::to_multiset_insert(s, 0, x);
        assert forall|k: int| 0 <= k < r.len() implies #[trigger] r[k] == x || exists|m: int|
            0 <= m < s.len() && r[k] == s[m] by {
            if k > 0 {
                assert(r[k] == s[k - 1]);
            }
        }
        if newest_first(s) {
            assert forall|i: int, j: int| 0 <= i < j < r.len() implies published(r[i]) >= published(
                r[j],
            ) by {
                if i == 0 {
                    assert(published(s[0]) >= published(s[j - 1]) || j - 1 == 0);
                }
            }
        }
    }
}

proof fn lemma_insert_oldest_parts(s: Seq<PostView>, x: PostView)
    ensures
        insert_oldest(s, x).to_multiset() == s.to_multiset().insert(x),
        insert_oldest(s, x).len() == s.len() + 1,
        forall|k: int|
            0 <= k < insert_oldest(s, x).len() ==> #[trigger] insert_oldest(s, x)[k] == x
                || exists|m: int| 0 <= m < s.len() && insert_oldest(s, x)[k] == s[m],
        oldest_first(s) ==> oldest_first(insert_oldest(s, x)),
    decreases s.len(),
{
    broadcast use vstd::seq_lib::lemma_seq_union_to_multiset_commutative;
    broadcast use vstd::multiset::group_multiset_axioms;

    let r = insert_oldest(s, x);
    if s.len() == 0 {
        assert(r =~= s.push(x));
        vstd::seq_lib::to_multiset_build(s, x);
    } else if published(s[0]) <= published(x) {
        let rest = s.skip(1);
        lemma_insert_oldest_parts(rest, x);
        let ir = insert_oldest(rest, x);
        assert(s =~= rest.insert(0, s[0]));
        assert(r =~= ir.insert(0, s[0]));
        vstd::seq_lib::to_multiset_insert(rest, 0, s[0]);
        vstd::seq_lib::to_multiset_insert(ir, 0, s[0]);
        assert(r.to_multiset() =~= s.to_multiset().insert(x));
        assert forall|k: int| 0 <= k < r.len() implies #[trigger] r[k] == x || exists|m: int|
            0 <= m < s.len() && r[k] == s[m] by {
            if k == 0 {
                assert(r[k] == s[0]);
            } else {
                assert(r[k] == ir[k - 1]);
                if ir[k - 1] != x {
                    let m = choose|m: int| 0 <= m < rest.len() && ir[k - 1] == rest[m];
                    assert(r[k] == s[m + 1]);
                }
            }
        }
        if oldest_first(s) {
            assert forall|i: int, j: int| 0 <= i < j < r.len() implies published(r[i]) <= published(
                r[j],
            ) by {
                if i == 0 {
                    assert(r[j] == ir[j - 1]);
                    if ir[j - 1] != x {
                        let m = choose|m: int| 0 <= m < rest.len() && ir[j - 1] == rest[m];
                        assert(rest[m] == s[m + 1]);
                    }
                } else {
                    assert(r[i] == ir[i - 1] && r[j] == ir[j - 1]);
                }
            }
        }
    } else {
        assert(r =~= s.insert(0, x));
        vstd::seq_lib::to_multiset_insert(s, 0, x);
        assert forall|k: int| 0 <= k < r.len() implies #[trigger] r[k] == x || exists|m: int|
            0 <= m < s.len() && r[k] == s[m] by {
            if k > 0 {
                assert(r[k] == s[k - 1]);
            }
        }
        if oldest_first(s) {
            assert forall|i: int, j: int| 0 <= i < j < r.len() implies published(r[i]) <= published(
                r[j],
            ) by {
                if i == 0 {
                    assert(published(s[0]) <= published(s[j - 1]) || j - 1 == 0);
                }
            }
        }
    }
}

/// A `Latest` post list shows every post exactly as often as the list holds
/// it, newest first.
pub proof fn law_latest_sorted_permutation(s: Seq<PostView>)
    ensures
        sort_latest(s).to_multiset() == s.to_multiset(),
        sort_latest(s).len() == s.len(),
        newest_first(sort_latest(s)),
    decreases s.len(),
{
    broadcast use vstd::multiset::group_multiset_axioms;

    if s.len() == 0 {
    } else {
        law_latest_sorted_permutation(s.drop_last());
        lemma_insert_latest_parts(sort_latest(s.drop_last()), s.last());
        vstd::seq_lib::to_multiset_build(s.drop_last(), s.last());
        assert(s.drop_last().push(s.last()) =~= s);
    }
}

/// An `Oldest` post list shows every post exactly as often as the list
/// holds it, oldest first.
pub proof fn law_oldest_sorted_permutation(s: Seq<PostView>)
    ensures
        sort_oldest(s).to_multiset() == s.to_multiset(),
        sort_oldest(s).len() == s.len(),
        oldest_first(sort_oldest(s)),
    decreases s.len(),
{
    broadcast use vstd::multiset::group_multiset_axioms;

    if s.len() == 0 {
    } else {
        law_oldest_sorted_permutation(s.drop_last());
        lemma_insert_oldest_parts(sort_oldest(s.drop_last()), s.last());
        vstd::seq_lib::to_multiset_build(s.drop_last(), s.last());
        assert(s.drop_last().push(s.last()) =~= s);
    }
}

/// What each filter asks of a post: a tag filter takes a post that carries
/// the tag at any position of its tags and no other; a category or author
/// filter a post with exactly that category or author name; a search a post
/// whose title or description contains the search text; the orderings take
/// every post.
pub proof fn law_filter_criteria(p: PostView, key: String)
    ensures
        forall|i: int| 0 <= i < p.tags.len() && (#[trigger] p.tags[i])@ == key@ ==> post_matches(
            PostListFilter::Tag(key),
            p,
        ),
        (forall|i: int| 0 <= i < p.tags.len() ==> (#[trigger] p.tags[i])@ != key@) ==> !post_matches(
            PostListFilter::Tag(key),
            p,
        ),
        p.category matches Some(c) && c@ == key@ ==> post_matches(PostListFilter::Category(key), p),
        !(p.category matches Some(c) && c@ == key@) ==> !post_matches(PostListFilter::Category(key), p),
        p.author matches Some(a) && a.name matches Some(n) && n@ == key@ ==> post_matches(
            PostListFilter::Author(key),
            p,
        ),
        !(p.author matches Some(a) && a.name matches Some(n) && n@ == key@) ==> !post_matches(
            PostListFilter::Author(key),
            p,
        ),
        contains(p.title@, key@) ==> post_matches(PostListFilter::Search(key), p),
        p.short matches Some(d) && contains(d@, key@) ==> post_matches(PostListFilter::Search(key), p),
        !contains(p.title@, key@) && !(p.short matches Some(d) && contains(d@, key@)) ==> !post_matches(
            PostListFilter::Search(key),
            p,
        ),
        post_matches(PostListFilter::Latest, p),
        post_matches(PostListFilter::Oldest, p),
{
    assert forall|i: int| 0 <= i < p.tags.len() && (#[trigger] p.tags[i])@ == key@ implies post_matches(
        PostListFilter::Tag(key),
        p,
    ) by {
        assert(exists|j: int| 0 <= j < p.tags.len() && p.tags[j]@ == key@);
    }
}

/// A selecting post list shows only posts that pass its filter, and every
/// post that passes it.
pub proof fn law_filter_selects(s: Seq<PostView>, f: PostListFilter)
    ensures
        forall|k: int| 0 <= k < filtered(s, f).len() ==> post_matches(f, #[trigger] filtered(s, f)[k]),
        forall|k: int| 0 <= k < s.len() && post_matches(f, s[k]) ==> filtered(s, f).contains(#[trigger] s[k]),
        filtered(s, f).len() <= s.len(),
    decreases s.len(),
{
    if s.len() > 0 {
        law_filter_selects(s.drop_last(), f);
        let r = filtered(s.drop_last(), f);
        if post_matches(f, s.last()) {
            assert forall|k: int| 0 <= k < s.len() && post_matches(f, s[k]) implies filtered(s, f).contains(
                #[trigger] s[k],
            ) by {
                if k < s.len() - 1 {
                    assert(s.drop_last()[k] == s[k]);
                    let m = choose|m: int| 0 <= m < r.len() && r[m] == s[k];
                    assert(r.push(s.last())[m] == s[k]);
                } else {
                    assert(r.push(s.last())[r.len() as int] == s[k]);
                }
            }
        } else {
            assert forall|k: int| 0 <= k < s.len() && post_matches(f, s[k]) implies filtered(s, f).contains(
                #[trigger] s[k],
            ) by {
                assert(s.drop_last()[k] == s[k]);
            }
        }
    }
}

} // verus!
