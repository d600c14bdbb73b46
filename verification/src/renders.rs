//! Turning a publication into a served page: which publication a page id
//! asks for, which scene and template render it, how fetched content becomes
//! HTML, and the HTML document around the rendered body.

use vstd::prelude::*;
use vstd::string::*;
use crate::config::{CynthiaConfClone, Scene, SceneCollectionTrait, copy_opt_string, first_named, default_scene_spec, is_default_scene};
use crate::json_html::{markdown_gfm, markdown_to_html_gfm};
use crate::publications::{
    CynthiaPublication, CynthiaPublicationListTrait, CynthiaPublicationDates, ContentType,
    PublicationContent, Author, CynthiaPostList, found, opt_view, has_id, is_root_page,
    is_notfound_page, valid_list, copy_opt_author, copy_strings, PublicationView,
};
use crate::text::{str_eq, concat2, concat3, contains, occurs_at};

verus! {

/// What checking a page id finds.
pub enum PGIDCheckResponse {
    /// The page is there.
    Found,
    Error,
    NotFound,
}

/// The outcome of rendering a publication.
pub enum RenderrerResponse {
    Error,
    NotFound,
    /// The rendered HTML.
    Rendered(String),
}

impl RenderrerResponse {
    /// Whether the rendering succeeded.
    pub fn is_ok(&self) -> (r: bool)
        ensures
            r == (*self is Rendered),
    {
        match self {
            RenderrerResponse::Rendered(_) => true,
            _ => false,
        }
    }

    /// Whether the publication was not found.
    pub fn is_not_found(&self) -> (r: bool)
        ensures
            r == (*self is NotFound),
    {
        match self {
            RenderrerResponse::NotFound => true,
            _ => false,
        }
    }

    /// Whether the rendering failed.
    pub fn is_error(&self) -> (r: bool)
        ensures
            r == (*self is Error),
    {
        match self {
            RenderrerResponse::Error => true,
            _ => false,
        }
    }

    /// The rendered HTML, or the empty string when there is none.
    pub fn unwrap(self) -> (r: String)
        ensures
            self matches RenderrerResponse::Rendered(s) ==> r == s,
            !(self is Rendered) ==> r@ == Seq::<char>::empty(),
    {
        match self {
            RenderrerResponse::Rendered(s) => s,
            _ => String::new(),
        }
    }

    /// A copy of this outcome.
    pub fn copy(&self) -> (r: RenderrerResponse)
        ensures
            r == *self,
    {
        match self {
            RenderrerResponse::Error => RenderrerResponse::Error,
            RenderrerResponse::NotFound => RenderrerResponse::NotFound,
            RenderrerResponse::Rendered(s) => RenderrerResponse::Rendered(s.clone()),
        }
    }

    /// Passes the rendered HTML of a successful outcome through `then`;
    /// other outcomes stay as they are. Hands back the outcome.
    pub fn within<F: Fn(String) -> String>(&mut self, then: F) -> (r: &Self)
        requires
            *old(self) matches RenderrerResponse::Rendered(s) ==> call_requires(then, (s,)),
        ensures
            *old(self) matches RenderrerResponse::Rendered(s) ==> (*final(self) matches RenderrerResponse::Rendered(t)
                && call_ensures(then, (s,), t)),
            !(*old(self) is Rendered) ==> *final(self) == *old(self),
            *r == *final(self),
    {
        let ob = self.copy();
        if self.is_ok() {
            let inner = ob.unwrap();
            let new_inner = then(inner);
            *self = RenderrerResponse::Rendered(new_inner);
        }
        self
    }
}

/// The id a page request looks up: `root` for the empty id.
pub open spec fn page_id_for(pgid: Seq<char>) -> Seq<char> {
    if pgid == ""@ {
        "root"@
    } else {
        pgid
    }
}

/// What checking a page id against a publication list gives: an error for
/// an invalid list; the page when present; otherwise not-found when the
/// configured not-found page is present, and an error when it is not.
pub open spec fn check_pgid_spec(
    pgid: Seq<char>,
    published: Seq<CynthiaPublication>,
    notfound: Seq<char>,
) -> PGIDCheckResponse {
    if !valid_list(published, notfound) {
        PGIDCheckResponse::Error
    } else if found(published, has_id(page_id_for(pgid))) is Some {
        PGIDCheckResponse::Found
    } else if found(published, has_id(notfound)) is Some {
        PGIDCheckResponse::NotFound
    } else {
        PGIDCheckResponse::Error
    }
}

/// Checks a page id against the site's publication list.
pub fn check_pgid(pgid: String, published: &Vec<CynthiaPublication>, config: CynthiaConfClone) -> (r:
    PGIDCheckResponse)
    ensures
        r == check_pgid_spec(pgid@, published@, config.site.notfound_page@),
{
    let page_id = if str_eq(pgid.as_str(), "") {
        String::from_str("root")
    } else {
        pgid
    };
    let notfound = config.site.notfound_page.clone();
    if !published.validate(config) {
        return PGIDCheckResponse::Error;
    }
    let publication = published.get_by_id(page_id);
    if publication.is_none() {
        let publication = published.get_by_id(notfound);
        if publication.is_none() {
            PGIDCheckResponse::Error
        } else {
            PGIDCheckResponse::NotFound
        }
    } else {
        PGIDCheckResponse::Found
    }
}

/// Which publication a page id selects for rendering.
pub enum RenderTarget {
    /// Render this publication.
    Render(CynthiaPublication),
    /// Nothing has the id, but a not-found page exists.
    NotFound,
    /// Nothing has the id, and there is no not-found page either.
    Error,
}

/// The publication a page id asks for: the root page for the empty id,
/// otherwise the first publication with that id.
pub open spec fn selected(pgid: Seq<char>, published: Seq<CynthiaPublication>) -> Option<
    PublicationView,
> {
    if pgid == ""@ {
        found(published, is_root_page())
    } else {
        found(published, has_id(pgid))
    }
}

/// Selects the publication a page id asks for: the root page for the empty
/// id, otherwise the first publication with that id; when there is none,
/// not-found if the list has a not-found page and an error if it has not.
pub fn select_publication(pgid: String, published: &Vec<CynthiaPublication>, config: CynthiaConfClone) -> (r:
    RenderTarget)
    ensures
        selected(pgid@, published@) matches Some(v) ==> (r matches RenderTarget::Render(p) && p.deep_view() == v),
        selected(pgid@, published@) is None && found(
            published@,
            is_notfound_page(config.site.notfound_page@),
        ) is Some ==> r is NotFound,
        selected(pgid@, published@) is None && found(
            published@,
            is_notfound_page(config.site.notfound_page@),
        ) is None ==> r is Error,
{
    let publication = if str_eq(pgid.as_str(), "") {
        published.get_root()
    } else {
        published.get_by_id(pgid)
    };
    match publication {
        Some(pb) => RenderTarget::Render(pb),
        None => {
            if published.get_notfound(config).is_none() {
                RenderTarget::Error
            } else {
                RenderTarget::NotFound
            }
        },
    }
}

/// The scene a publication is rendered with: the scene it names (none when
/// the configuration lacks it), or the configuration's default scene.
pub fn fetch_scene(publication: CynthiaPublication, config: CynthiaConfClone) -> (r: Option<Scene>)
    ensures
        publication.scene_spec() matches Some(s) ==> r == (match first_named(
            config.scenes@,
            s@,
        ) {
            Some(i) => Some(config.scenes@[i]),
            None => None,
        }),
        publication.scene_spec() is None && config.scenes@.len() > 0 ==> r == Some(
            default_scene_spec(config.scenes@, config.scenes@[0]),
        ),
        publication.scene_spec() is None ==> r is Some,
        publication.scene_spec() is None && config.scenes@.len() == 0 ==> (r matches Some(d)
            && is_default_scene(d)),
{
    let scene = publication.get_scene_name();
    match scene {
        Some(s) => config.scenes.get_by_name(s.as_str()),
        None => Some(config.scenes.get_default()),
    }
}

/// Content fetched for a page or post.
pub enum FetchedContent {
    Error,
    Fetched(ContentType),
}

impl FetchedContent {
    /// The HTML of fetched content: only content that has become HTML
    /// renders; anything else is an error.
    pub fn unwrap_html(self) -> (r: RenderrerResponse)
        ensures
            self matches FetchedContent::Fetched(ContentType::Html(h)) ==> r == RenderrerResponse::Rendered(h),
            !(self matches FetchedContent::Fetched(ContentType::Html(_))) ==> r is Error,
    {
        match self {
            FetchedContent::Fetched(c) => match c {
                ContentType::Html(h) => RenderrerResponse::Rendered(h),
                _ => RenderrerResponse::Error,
            },
            FetchedContent::Error => RenderrerResponse::Error,
        }
    }
}

/// Where the text of a piece of content is to be had.
pub enum ContentSource {
    /// The text itself.
    Inline(String),
    /// A URL to fetch the text from.
    Url(String),
    /// A file to read the text from.
    File(String),
}

/// Where to get the text of a publication's content, and the markup it is
/// written in: inline text as it stands, external content from its URL,
/// local content from its file under `./cynthiaFiles/publications/`.
pub fn content_source(content: &PublicationContent) -> (r: (ContentSource, ContentType))
    ensures
        content matches PublicationContent::Inline(c) ==> (r.0 matches ContentSource::Inline(t)
            && t@ == c.inner_spec()@ && r.1 == c),
        content matches PublicationContent::External { source } ==> (r.0 matches ContentSource::Url(
            u,
        ) && u@ == source.inner_spec()@ && r.1 == source),
        content matches PublicationContent::Local { source } ==> (r.0 matches ContentSource::File(
            f,
        ) && f@ == "./cynthiaFiles/publications/"@ + source.inner_spec()@ && r.1 == source),
{
    match content {
        PublicationContent::Inline(c) => (ContentSource::Inline(c.get_inner()), c.copy()),
        PublicationContent::External { source } => (
            ContentSource::Url(source.get_inner()),
            source.copy(),
        ),
        PublicationContent::Local { source } => {
            let inner = source.get_inner();
            (
                ContentSource::File(concat2("./cynthiaFiles/publications/", inner.as_str())),
                source.copy(),
            )
        },
    }
}

/// What fetched text becomes once rendered to HTML.
pub open spec fn converted(target: ContentType, raw: Seq<char>) -> Option<Seq<char>> {
    match target {
        ContentType::Html(_) => Some(raw),
        ContentType::Markdown(_) => markdown_gfm(raw),
        ContentType::PlainText(_) => Some("<pre>"@ + raw + "</pre>"@),
    }
}

/// Renders fetched text by its markup: HTML as it stands, markdown through
/// the GitHub-flavoured markdown compiler, plain text inside `<pre>`.
pub fn convert_content(target: &ContentType, raw: String) -> (r: FetchedContent)
    ensures
        match converted(*target, raw@) {
            Some(h) => r matches FetchedContent::Fetched(ContentType::Html(x)) && x@ == h,
            None => r is Error,
        },
{
    match target {
        ContentType::Html(_) => FetchedContent::Fetched(ContentType::Html(raw)),
        ContentType::Markdown(_) => match markdown_to_html_gfm(raw.as_str()) {
            Some(html) => FetchedContent::Fetched(ContentType::Html(html)),
            None => FetchedContent::Error,
        },
        ContentType::PlainText(_) => FetchedContent::Fetched(
            ContentType::Html(concat3("<pre>", raw.as_str(), "</pre>")),
        ),
    }
}

// ---------------------------------------------------------------------------
// Page assembly
// ---------------------------------------------------------------------------

/// The data a page or post template is rendered with: its metadata.
pub struct PageLikePublicationTemplateDataMeta {
    pub id: String,
    pub title: String,
    pub desc: Option<String>,
    pub category: Option<String>,
    pub tags: Vec<String>,
    pub author: Option<Author>,
    pub dates: CynthiaPublicationDates,
    pub thumbnail: Option<String>,
}

/// The data a page or post template is rendered with.
pub struct PageLikePublicationTemplateData {
    pub meta: PageLikePublicationTemplateDataMeta,
    pub content: String,
}

/// The data a post-list template is rendered with.
pub struct PostListPublicationTemplateData {
    pub meta: PageLikePublicationTemplateDataMeta,
    pub posts: CynthiaPostList,
}

/// The parts of a scene that rendering one publication needs.
pub struct PublicationScene {
    pub template: String,
    pub stylesheet: Option<String>,
    pub script: Option<String>,
    pub kind: String,
}

/// The kind of a publication, as templates are filed: `page`, `post` or
/// `postlist`.
pub open spec fn kind_of(p: CynthiaPublication) -> Seq<char> {
    match p {
        CynthiaPublication::Page { .. } => "page"@,
        CynthiaPublication::Post { .. } => "post"@,
        CynthiaPublication::PostList { .. } => "postlist"@,
    }
}

/// The template a scene uses for a publication of this kind.
pub open spec fn template_of(p: CynthiaPublication, scene: Scene) -> Seq<char> {
    match p {
        CynthiaPublication::Page { .. } => scene.templates.page@,
        CynthiaPublication::Post { .. } => scene.templates.post@,
        CynthiaPublication::PostList { .. } => scene.templates.postlist@,
    }
}

/// The template, stylesheet, script and kind for rendering a publication
/// with a scene.
pub fn publication_scene(publication: &CynthiaPublication, scene: &Scene) -> (r: PublicationScene)
    ensures
        r.kind@ == kind_of(*publication),
        r.template@ == template_of(*publication, *scene),
        r.stylesheet == scene.stylefile,
        r.script == scene.script,
{
    match publication {
        CynthiaPublication::Page { .. } => PublicationScene {
            template: scene.templates.page.clone(),
            stylesheet: copy_opt_string(&scene.stylefile),
            script: copy_opt_string(&scene.script),
            kind: String::from_str("page"),
        },
        CynthiaPublication::Post { .. } => PublicationScene {
            template: scene.templates.post.clone(),
            stylesheet: copy_opt_string(&scene.stylefile),
            script: copy_opt_string(&scene.script),
            kind: String::from_str("post"),
        },
        CynthiaPublication::PostList { .. } => PublicationScene {
            template: scene.templates.postlist.clone(),
            stylesheet: copy_opt_string(&scene.stylefile),
            script: copy_opt_string(&scene.script),
            kind: String::from_str("postlist"),
        },
    }
}

/// The metadata templates see of a publication: pages give their
/// description, posts their short text, category, author and tags, post
/// lists their short text with zeroed dates; what a kind lacks is empty.
pub fn publication_meta(publication: &CynthiaPublication) -> (r: PageLikePublicationTemplateDataMeta)
    ensures
        r.id@ == publication.id_spec(),
        publication matches CynthiaPublication::Page { title, description, thumbnail, dates, .. }
            ==> (r.title == title && r.desc == description && r.category is None && r.author is None
            && r.tags@.len() == 0 && r.dates == dates && r.thumbnail == thumbnail),
        publication matches CynthiaPublication::Post {
            title,
            short,
            dates,
            thumbnail,
            category,
            author,
            tags,
            ..
        } ==> (r.title == title && r.desc == short && r.category == category && r.author == author
            && r.tags@ == tags@ && r.dates == dates && r.thumbnail == thumbnail),
        publication matches CynthiaPublication::PostList { title, short, .. } ==> (r.title == title
            && r.desc == short && r.category is None && r.author is None && r.tags@.len() == 0
            && r.dates.altered == 0 && r.dates.published == 0 && r.thumbnail is None),
{
    match publication {
        CynthiaPublication::Page { id, title, description, thumbnail, dates, .. } =>
            PageLikePublicationTemplateDataMeta {
            id: id.clone(),
            title: title.clone(),
            desc: copy_opt_string(description),
            category: None,
            author: None,
            tags: Vec::new(),
            dates: dates.copy(),
            thumbnail: copy_opt_string(thumbnail),
        },
        CynthiaPublication::Post {
            id,
            title,
            short,
            dates,
            thumbnail,
            category,
            author,
            tags,
            ..
        } => PageLikePublicationTemplateDataMeta {
            id: id.clone(),
            title: title.clone(),
            desc: copy_opt_string(short),
            category: copy_opt_string(category),
            author: copy_opt_author(author),
            dates: dates.copy(),
            thumbnail: copy_opt_string(thumbnail),
            tags: copy_strings(tags),
        },
        CynthiaPublication::PostList { id, title, short, .. } => PageLikePublicationTemplateDataMeta {
            id: id.clone(),
            title: title.clone(),
            desc: copy_opt_string(short),
            category: None,
            tags: Vec::new(),
            author: None,
            dates: CynthiaPublicationDates { altered: 0, published: 0 },
            thumbnail: None,
        },
    }
}

/// Where the template of a kind lives, relative to the site's folder: in
/// the kind's own folder under `cynthiaFiles/templates` (`posts`, `pages`,
/// `postlists`), with the `.handlebars` extension.
pub fn template_file(kind: &str, template: &str) -> (r: String)
    ensures
        r@ == "cynthiaFiles/templates/"@ + kind@ + "s/"@ + template@ + ".handlebars"@,
{
    let mut r = String::from_str("cynthiaFiles/templates/");
    r.append(kind);
    r.append("s/");
    r.append(template);
    r.append(".handlebars");
    r
}

/// Where an asset lives, relative to the site's folder:
/// `./cynthiaFiles/assets/<file>`.
pub fn asset_file(file: &str) -> (r: String)
    ensures
        r@ == "./cynthiaFiles/assets/"@ + file@,
{
    concat2("./cynthiaFiles/assets/", file)
}

/// The `<title>` line: the publication's title, followed by ` - ` and the
/// scene's site name when it has one.
pub open spec fn title_line(title: Seq<char>, sitename: Option<String>) -> Seq<char> {
    "\n\t\t<title>"@ + title + (match sitename {
        Some(s) => " - "@ + s@,
        None => Seq::empty(),
    }) + "</title>"@
}

/// A `<meta name=... content=...>` line for an optional value.
pub open spec fn meta_line(name: Seq<char>, value: Option<String>) -> Seq<char> {
    match value {
        Some(v) => "\n\t\t<meta name=\""@ + name + "\" content=\""@ + v@ + "\" />"@,
        None => Seq::empty(),
    }
}

/// The author's name, when the author has one.
pub open spec fn author_name(a: Option<Author>) -> Option<String> {
    match a {
        Some(au) => au.name,
        None => None,
    }
}

/// The `og:image` line for an optional thumbnail.
pub open spec fn thumbnail_line(value: Option<String>) -> Seq<char> {
    match value {
        Some(v) => "\n\t\t<meta property=\"og:image\" content=\""@ + v@ + "\" />"@,
        None => Seq::empty(),
    }
}

/// The script that hands the page its version, publication data and kind.
pub open spec fn cynthia_script(version: Seq<char>, meta_json: Seq<char>, kind: Seq<char>) -> Seq<
    char,
> {
    "<script>const cynthia = {version: '"@ + version + "', publicationdata: JSON.parse(`"@
        + meta_json + "`), kind: '"@ + kind + "'};</script>"@
}

/// The opening of the `<head>`: charset, title, viewport, generator and
/// robots lines.
pub open spec fn head_opening(title: Seq<char>, sitename: Option<String>) -> Seq<char> {
    "\n\t<head>"@ + "\n\t\t<meta charset=\"utf-8\" />"@ + title_line(title, sitename)
        + "\n\t\t<meta name=\"viewport\" content=\"width=device-width, initial-scale=1.0\" />"@
        + "\n\t\t<meta name=\"generator\" content=\"strawmelonjuice-Cynthia\" />"@
        + "\n\t\t<meta name=\"robots\" content=\"index, follow\" />"@
}

/// The closing lines of the `<head>`: author, category, description and
/// thumbnail, as far as the publication has them.
pub open spec fn head_closing(meta: PageLikePublicationTemplateDataMeta) -> Seq<char> {
    meta_line("author"@, author_name(meta.author)) + meta_line("category"@, meta.category)
        + meta_line("description"@, meta.desc) + thumbnail_line(meta.thumbnail) + "\n\t</head>"@
}

/// The `<head>` of a rendered page.
pub open spec fn head_spec(
    meta: PageLikePublicationTemplateDataMeta,
    sitename: Option<String>,
    css: Option<String>,
    version: Seq<char>,
    meta_json: Seq<char>,
    kind: Seq<char>,
) -> Seq<char> {
    head_opening(meta.title@, sitename) + (match css {
        Some(c) => c@,
        None => Seq::empty(),
    }) + cynthia_script(version, meta_json, kind) + head_closing(meta)
}

/// Appends a `<meta name=... content=...>` line for an optional value.
fn push_meta_line(head: &mut String, name: &str, value: &Option<String>)
    ensures
        final(head)@ == old(head)@ + meta_line(name@, *value),
{
    match value {
        Some(v) => {
            let line = meta_line_text(name, v.as_str());
            head.append(line.as_str());
        },
        None => {
            assert(head@ =~= head@ + Seq::<char>::empty());
        },
    }
}

fn meta_line_text(name: &str, v: &str) -> (r: String)
    ensures
        r@ == "\n\t\t<meta name=\""@ + name@ + "\" content=\""@ + v@ + "\" />"@,
{
    let mut r = String::from_str("\n\t\t<meta name=\"");
    r.append(name);
    r.append("\" content=\"");
    r.append(v);
    r.append("\" />");
    r
}

fn render_head_opening(title: &str, sitename: &Option<String>) -> (r: String)
    ensures
        r@ == head_opening(title@, *sitename),
{
    let mut t = String::from_str("\n\t\t<title>");
    t.append(title);
    match sitename {
        Some(s) => {
            t.append(" - ");
            t.append(s.as_str());
        },
        None => {
            assert(t@ =~= t@ + Seq::<char>::empty());
        },
    }
    t.append("</title>");
    let mut head = String::from_str("\n\t<head>");
    head.append("\n\t\t<meta charset=\"utf-8\" />");
    head.append(t.as_str());
    head.append("\n\t\t<meta name=\"viewport\" content=\"width=device-width, initial-scale=1.0\" />");
    head.append("\n\t\t<meta name=\"generator\" content=\"strawmelonjuice-Cynthia\" />");
    head.append("\n\t\t<meta name=\"robots\" content=\"index, follow\" />");
    head
}

fn render_cynthia_script(version: &str, meta_json: &str, kind: &str) -> (r: String)
    ensures
        r@ == cynthia_script(version@, meta_json@, kind@),
{
    let mut r = String::from_str("<script>const cynthia = {version: '");
    r.append(version);
    r.append("', publicationdata: JSON.parse(`");
    r.append(meta_json);
    r.append("`), kind: '");
    r.append(kind);
    r.append("'};</script>");
    r
}

fn render_head_closing(meta: &PageLikePublicationTemplateDataMeta) -> (r: String)
    ensures
        r@ == head_closing(*meta),
{
    let author_name: Option<String> = match &meta.author {
        Some(a) => copy_opt_string(&a.name),
        None => None,
    };
    let mut head = String::new();
    push_meta_line(&mut head, "author", &author_name);
    push_meta_line(&mut head, "category", &meta.category);
    push_meta_line(&mut head, "description", &meta.desc);
    match &meta.thumbnail {
        Some(t) => {
            head.append("\n\t\t<meta property=\"og:image\" content=\"");
            head.append(t.as_str());
            head.append("\" />");
        },
        None => {
            assert(head@ =~= head@ + Seq::<char>::empty());
        },
    }
    head.append("\n\t</head>");
    assert(head@ =~= head_closing(*meta));
    head
}

/// The `<head>` of a rendered page: charset, title (with the scene's site
/// name), viewport, generator and robots lines, the inlined stylesheet if
/// any, the script that hands the page its data, then author, category,
/// description and thumbnail lines for what the publication has.
pub fn render_head(
    meta: &PageLikePublicationTemplateDataMeta,
    sitename: &Option<String>,
    css: &Option<String>,
    version: &str,
    meta_json: &str,
    kind: &str,
) -> (r: String)
    ensures
        r@ == head_spec(*meta, *sitename, *css, version@, meta_json@, kind@),
{
    let mut head = render_head_opening(meta.title.as_str(), sitename);
    match css {
        Some(c) => head.append(c.as_str()),
        None => {
            assert(head@ =~= head@ + Seq::<char>::empty());
        },
    }
    let script = render_cynthia_script(version, meta_json, kind);
    head.append(script.as_str());
    let closing = render_head_closing(meta);
    head.append(closing.as_str());
    head
}

/// The whole served document around a head and a body.
pub open spec fn document_spec(version: Seq<char>, head: Seq<char>, body: Seq<char>) -> Seq<char> {
    "<!DOCTYPE html>\n<html>\n<!--\n\nGenerated and hosted through Cynthia v"@ + version
        + ", by Strawmelonjuice.\nAlso see:\t<https://github.com/strawmelonjuice/CynthiaWebsiteEngine>\n-->\n"@
        + head + "\n<body>"@ + body + "</body></html>"@
}

/// The served document: a comment naming the generator, the head, and the
/// body.
pub fn render_document(version: &str, head: &str, body: &str) -> (r: String)
    ensures
        r@ == document_spec(version@, head@, body@),
{
    let mut r = String::from_str(
        "<!DOCTYPE html>\n<html>\n<!--\n\nGenerated and hosted through Cynthia v",
    );
    r.append(version);
    r.append(
        ", by Strawmelonjuice.\nAlso see:\t<https://github.com/strawmelonjuice/CynthiaWebsiteEngine>\n-->\n",
    );
    r.append(head);
    r.append("\n<body>");
    r.append(body);
    r.append("</body></html>");
    r
}

/// The body of a served page: the rendered template, followed by the
/// inlined script if the scene has one.
pub open spec fn body_spec(rendered: Seq<char>, script: Option<String>) -> Seq<char> {
    rendered + match script {
        Some(s) => s@,
        None => Seq::empty(),
    }
}

/// The page served for a rendered publication: its head (with the scene's
/// site name, the inlined stylesheet and the publication's metadata) and
/// its body (the rendered template followed by the inlined script).
pub fn assemble_page(
    meta: &PageLikePublicationTemplateDataMeta,
    sitename: &Option<String>,
    css: &Option<String>,
    version: &str,
    meta_json: &str,
    kind: &str,
    rendered: String,
    script: &Option<String>,
) -> (r: String)
    ensures
        r@ == document_spec(
            version@,
            head_spec(*meta, *sitename, *css, version@, meta_json@, kind@),
            body_spec(rendered@, *script),
        ),
{
    let head = render_head(meta, sitename, css, version, meta_json, kind);
    let mut body = rendered;
    match script {
        Some(s) => body.append(s.as_str()),
        None => {
            assert(body@ =~= body@ + Seq::<char>::empty());
        },
    }
    render_document(version, head.as_str(), body.as_str())
}

proof fn lemma_contains_left(p: Seq<char>, s: Seq<char>, x: Seq<char>)
    requires
        contains(s, x),
    ensures
        contains(p + s, x),
{
    let i = choose|i: int| occurs_at(s, x, i);
    assert((p + s).subrange(p.len() + i, p.len() + i + x.len()) =~= s.subrange(i, i + x.len()));
    assert(occurs_at(p + s, x, p.len() + i));
}

proof fn lemma_contains_right(s: Seq<char>, q: Seq<char>, x: Seq<char>)
    requires
        contains(s, x),
    ensures
        contains(s + q, x),
{
    let i = choose|i: int| occurs_at(s, x, i);
    assert((s + q).subrange(i, i + x.len()) =~= s.subrange(i, i + x.len()));
    assert(occurs_at(s + q, x, i));
}

/// Every served page names its publication in its `<title>`, followed, when
/// the scene has a site name, by ` - ` and that site name.
pub proof fn law_page_title_names_site(
    meta: PageLikePublicationTemplateDataMeta,
    sitename: Option<String>,
    css: Option<String>,
    version: Seq<char>,
    meta_json: Seq<char>,
    kind: Seq<char>,
    body: Seq<char>,
)
    ensures
        sitename matches Some(n) ==> contains(
            document_spec(version, head_spec(meta, sitename, css, version, meta_json, kind), body),
            "<title>"@ + meta.title@ + " - "@ + n@ + "</title>"@,
        ),
        sitename is None ==> contains(
            document_spec(version, head_spec(meta, sitename, css, version, meta_json, kind), body),
            "<title>"@ + meta.title@ + "</title>"@,
        ),
{
    reveal_strlit("\n\t\t<title>");
    reveal_strlit("\n\t\t");
    reveal_strlit("<title>");
    let t = meta.title@;
    let x = match sitename {
        Some(n) => "<title>"@ + t + " - "@ + n@ + "</title>"@,
        None => "<title>"@ + t + "</title>"@,
    };
    let tl = title_line(t, sitename);
    assert(tl =~= "\n\t\t"@ + x);
    assert(tl.subrange(3, 3 + x.len() as int) =~= x);
    assert(occurs_at(tl, x, 3));
    let h1 = "\n\t<head>"@ + "\n\t\t<meta charset=\"utf-8\" />"@;
    lemma_contains_left(h1, tl, x);
    let s1 = h1 + tl;
    let v = "\n\t\t<meta name=\"viewport\" content=\"width=device-width, initial-scale=1.0\" />"@;
    let g = "\n\t\t<meta name=\"generator\" content=\"strawmelonjuice-Cynthia\" />"@;
    let r = "\n\t\t<meta name=\"robots\" content=\"index, follow\" />"@;
    lemma_contains_right(s1, v, x);
    lemma_contains_right(s1 + v, g, x);
    lemma_contains_right(s1 + v + g, r, x);
    let ho = head_opening(t, sitename);
    assert(ho == s1 + v + g + r);
    let cp = match css {
        Some(c) => c@,
        None => Seq::empty(),
    };
    let sc = cynthia_script(version, meta_json, kind);
    let cl = head_closing(meta);
    lemma_contains_right(ho, cp, x);
    lemma_contains_right(ho + cp, sc, x);
    lemma_contains_right(ho + cp + sc, cl, x);
    let head = head_spec(meta, sitename, css, version, meta_json, kind);
    assert(head == ho + cp + sc + cl);
    let pre = "<!DOCTYPE html>\n<html>\n<!--\n\nGenerated and hosted through Cynthia v"@ + version
        + ", by Strawmelonjuice.\nAlso see:\t<https://github.com/strawmelonjuice/CynthiaWebsiteEngine>\n-->\n"@;
    lemma_contains_left(pre, head, x);
    lemma_contains_right(pre + head, "\n<body>"@, x);
    lemma_contains_right(pre + head + "\n<body>"@, body, x);
    lemma_contains_right(pre + head + "\n<body>"@ + body, "</body></html>"@, x);
}

} // verus!
