use cynthiaweb::config::{CynthiaConf, CynthiaConfig, Runtimes, Scene};
use cynthiaweb::publications::{
    Author, ContentType, CynthiaPublication, CynthiaPublicationDates,
    CynthiaPublicationListTrait, PostListFilter, PostLists, PostPublication, PublicationContent,
};
use cynthiaweb::renders::{
    asset_file, check_pgid, content_source, convert_content, fetch_scene, render_document,
    select_publication, template_file, ContentSource, FetchedContent, PGIDCheckResponse,
    RenderTarget, RenderrerResponse,
};

fn dates(p: u64) -> CynthiaPublicationDates {
    CynthiaPublicationDates { altered: p, published: p }
}

fn page(id: &str) -> CynthiaPublication {
    CynthiaPublication::Page {
        id: id.to_string(),
        title: format!("Page {}", id),
        description: None,
        thumbnail: None,
        dates: dates(1),
        pagecontent: PublicationContent::Inline(ContentType::Html("<p>x</p>".to_string())),
        scene_override: None,
    }
}

fn post_pub(id: &str, at: u64, tags: &[&str], category: Option<&str>) -> PostPublication {
    PostPublication {
        id: id.to_string(),
        title: format!("Post {}", id),
        short: Some(format!("About {}", id)),
        dates: dates(at),
        thumbnail: None,
        category: category.map(|c| c.to_string()),
        tags: tags.iter().map(|t| t.to_string()).collect(),
        author: Some(Author { name: Some("Mar".to_string()), thumbnail: None, link: None }),
        postcontent: PublicationContent::Inline(ContentType::Markdown("# x".to_string())),
        scene_override: None,
    }
}

fn as_publication(p: PostPublication) -> CynthiaPublication {
    CynthiaPublication::Post {
        id: p.id,
        title: p.title,
        short: p.short,
        dates: p.dates,
        thumbnail: p.thumbnail,
        category: p.category,
        tags: p.tags,
        author: p.author,
        postcontent: p.postcontent,
        scene_override: p.scene_override,
    }
}

fn config() -> cynthiaweb::config::CynthiaConfClone {
    let mut c = CynthiaConf::default_with_runtimes(Runtimes { ext_js_rt: "disabled".to_string() });
    c.site.notfound_page = "404".to_string();
    c.clone()
}

fn site() -> Vec<CynthiaPublication> {
    vec![page("root"), page("404"), as_publication(post_pub("p1", 5, &["a"], Some("news")))]
}

#[test]
fn ids_and_inner_text() {
    assert_eq!(page("root").get_id(), "root");
    assert_eq!(ContentType::Markdown("m".to_string()).get_inner(), "m");
    assert!(page("x").get_scene_name().is_none());
}

#[test]
fn publication_list_questions() {
    let s = site();
    assert!(s.validate(config()));
    assert_eq!(s.only_posts().len(), 1);
    assert_eq!(s.get_root().unwrap().get_id(), "root");
    assert_eq!(s.get_notfound(config()).unwrap().get_id(), "404");
    assert_eq!(s.get_by_id("p1".to_string()).unwrap().get_id(), "p1");
    assert!(s.get_by_id("nope".to_string()).is_none());
    let dup = vec![page("root"), page("404"), page("root")];
    assert!(!dup.validate(config()));
    let no_root = vec![page("404")];
    assert!(!no_root.validate(config()));
}

#[test]
fn post_lists_sort_and_filter() {
    let posts = vec![
        post_pub("a", 10, &["x"], Some("news")),
        post_pub("b", 30, &["y"], None),
        post_pub("c", 20, &["x", "y"], Some("news")),
    ];
    let ids = |v: Vec<PostPublication>| v.into_iter().map(|p| p.id).collect::<Vec<String>>();
    assert_eq!(ids(posts.filter(PostListFilter::Latest)), vec!["b", "c", "a"]);
    assert_eq!(ids(posts.filter(PostListFilter::Oldest)), vec!["a", "c", "b"]);
    assert_eq!(ids(posts.filter(PostListFilter::Tag("x".to_string()))), vec!["a", "c"]);
    assert_eq!(ids(posts.filter(PostListFilter::Category("news".to_string()))), vec!["a", "c"]);
    assert_eq!(ids(posts.filter(PostListFilter::Author("Mar".to_string()))), vec!["a", "b", "c"]);
    assert_eq!(ids(posts.filter(PostListFilter::Search("About b".to_string()))), vec!["b"]);
    assert_eq!(ids(posts.filter(PostListFilter::Search("Post".to_string()))), vec!["a", "b", "c"]);
    assert_eq!(PostLists::get_by_id(&posts, "c".to_string()).unwrap().get_id(), "c");
}

#[test]
fn equal_dates_keep_their_order() {
    let posts = vec![post_pub("a", 10, &[], None), post_pub("b", 10, &[], None)];
    let latest: Vec<String> = posts.filter(PostListFilter::Latest).into_iter().map(|p| p.id).collect();
    assert_eq!(latest, vec!["a", "b"]);
}

#[test]
fn page_id_checks() {
    let s = site();
    assert!(matches!(check_pgid("p1".to_string(), &s, config()), PGIDCheckResponse::Found));
    assert!(matches!(check_pgid("".to_string(), &s, config()), PGIDCheckResponse::Found));
    assert!(matches!(check_pgid("zz".to_string(), &s, config()), PGIDCheckResponse::NotFound));
    let broken = vec![page("root")];
    assert!(matches!(check_pgid("root".to_string(), &broken, config()), PGIDCheckResponse::Error));
}

#[test]
fn selecting_publications() {
    let s = site();
    match select_publication("".to_string(), &s, config()) {
        RenderTarget::Render(p) => assert_eq!(p.get_id(), "root"),
        _ => panic!("expected the root page"),
    }
    assert!(matches!(select_publication("zz".to_string(), &s, config()), RenderTarget::NotFound));
    let no_404 = vec![page("root")];
    assert!(matches!(select_publication("zz".to_string(), &no_404, config()), RenderTarget::Error));
}

#[test]
fn scenes_of_publications() {
    let mut c = config();
    let mut blog = Scene::default();
    blog.name = "blog".to_string();
    c.scenes.push(blog);
    let mut p = page("x");
    if let CynthiaPublication::Page { scene_override, .. } = &mut p {
        *scene_override = Some("blog".to_string());
    }
    assert_eq!(fetch_scene(p, c.clone()).unwrap().name, "blog");
    assert_eq!(fetch_scene(page("y"), c.clone()).unwrap().name, "default");
    let mut q = page("z");
    if let CynthiaPublication::Page { scene_override, .. } = &mut q {
        *scene_override = Some("missing".to_string());
    }
    assert!(fetch_scene(q, c).is_none());
}

#[test]
fn content_sources_and_conversion() {
    let (src, _) = content_source(&PublicationContent::Local {
        source: ContentType::Markdown("a.md".to_string()),
    });
    assert!(matches!(src, ContentSource::File(f) if f == "./cynthiaFiles/publications/a.md"));
    let (src, _) = content_source(&PublicationContent::External {
        source: ContentType::Html("https://x/y".to_string()),
    });
    assert!(matches!(src, ContentSource::Url(u) if u == "https://x/y"));
    match convert_content(&ContentType::PlainText(String::new()), "a<b".to_string()) {
        FetchedContent::Fetched(ContentType::Html(h)) => assert_eq!(h, "<pre>a<b</pre>"),
        _ => panic!("expected html"),
    }
    match convert_content(&ContentType::Markdown(String::new()), "*a*".to_string()) {
        FetchedContent::Fetched(ContentType::Html(h)) => assert_eq!(h, "<p><em>a</em></p>"),
        _ => panic!("expected html"),
    }
    assert!(matches!(
        FetchedContent::Fetched(ContentType::Markdown("x".to_string())).unwrap_html(),
        RenderrerResponse::Error
    ));
}

#[test]
fn renderer_responses() {
    let mut r = RenderrerResponse::Rendered("a".to_string());
    assert!(r.is_ok());
    assert_eq!(r.within(|s| format!("<{}>", s)).copy().unwrap(), "<a>");
    assert_eq!(r.copy().unwrap(), "<a>");
    let mut n = RenderrerResponse::NotFound;
    assert!(n.within(|s| s + "!").is_not_found());
    assert!(n.is_not_found());
    assert!(RenderrerResponse::Error.is_error());
}

#[test]
fn files_and_documents() {
    assert_eq!(template_file("page", "default"), "cynthiaFiles/templates/pages/default.handlebars");
    assert_eq!(template_file("post", "default"), "cynthiaFiles/templates/posts/default.handlebars");
    assert_eq!(asset_file("a.css"), "./cynthiaFiles/assets/a.css");
    let d = render_document("3.0.0", "<head></head>", "hi");
    assert!(d.starts_with("<!DOCTYPE html>\n<html>\n<!--\n\nGenerated and hosted through Cynthia v3.0.0"));
    assert!(d.ends_with("<head></head>\n<body>hi</body></html>"));
}
