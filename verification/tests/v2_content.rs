use cynthiaweb::contentservers::{
    escape_json, escape_known_problematic_chars, favicon_tag, find_mimetype, finish_page,
    generate_menus, hosted_file, html_escape, is_error_content, mime_essence, page_head,
    pageinfo_sidebar, pagemeta_script, plugin_command_json, plugin_input, post_metatags,
    postlist_page, render_markup, shows_pageinfo, strip_trailing_slash, substitute_commands,
    template_output, content_location, ContentLocation, Handlebar, Menulink, MimeKind,
    ModeConfig, PageContent, plugin_commands, combine_page, page_vars_json_text, PageVars,
};
use cynthiaweb::postlists::{
    post_passes, postlist_table, postlist_table_gen, signed_decimal_string, ContentMeta, Dates,
    PostListFilter, PostRow, Postlist,
};

fn meta(id: &str, kind: &str, cat: Option<&str>, tags: &[&str]) -> ContentMeta {
    ContentMeta {
        id: id.to_string(),
        title: format!("T{}", id),
        short: Some(format!("d{}", id)),
        kind: kind.to_string(),
        category: cat.map(|c| c.to_string()),
        tags: tags.iter().map(|t| t.to_string()).collect(),
        dates: Some(Dates { published: 100, altered: None }),
    }
}

#[test]
fn signed_numbers() {
    assert_eq!(signed_decimal_string(0), "0");
    assert_eq!(signed_decimal_string(-42), "-42");
    assert_eq!(signed_decimal_string(i64::MIN), "-9223372036854775808");
    assert_eq!(signed_decimal_string(1700000000), "1700000000");
}

#[test]
fn empty_post_list_says_no_results() {
    assert_eq!(postlist_table(&vec![]), "<p>No results.</p>");
    let none = postlist_table_gen(&Postlist { filters: None }, &vec![meta("p", "page", None, &[])], &vec![String::new()]);
    assert_eq!(none.unwrap(), "<p>No results.</p>");
}

#[test]
fn post_list_table_rows() {
    let row = PostRow {
        published: 5,
        id: "a".to_string(),
        title_html: "<p>A</p>".to_string(),
        category: "c".to_string(),
        description_html: "<p>d</p>".to_string(),
    };
    let t = postlist_table(&vec![row]);
    assert_eq!(
        t,
        "<table class=\"post-listpreview\"><tr id=\"post-listpreview-h\"><th id=\"h-post-date\">Posted on</th><th id=\"h-post-title\">Title</th><th id=\"h-post-category\">Category</th></tr><tr><td class=\"post-date\"><span class=\"unparsedtimestamp post-date\">5</span></td><td><a href=\"/p/a\"><span class=\"post-title\"><p>A</p></span></a></td><td class=\"post-category\"><a href=\"/c/c\">c</a></td></tr><tr><td></td><td class=\"post-desc\"><p><p>d</p></p></td></tr></table>"
    );
}

#[test]
fn post_list_filters() {
    let published = vec![
        meta("a", "post", Some("news"), &["x"]),
        meta("p", "page", Some("news"), &["x"]),
        meta("b", "post", None, &["y"]),
    ];
    let contents = vec!["alpha".to_string(), String::new(), "beta".to_string()];
    let cat = Postlist {
        filters: Some(PostListFilter { category: Some("news".to_string()), tag: None, searchline: None }),
    };
    let t = postlist_table_gen(&cat, &published, &contents).unwrap();
    assert!(t.contains("/p/a"));
    assert!(!t.contains("/p/b"));
    assert!(!t.contains("/p/p"));
    let empty_cat = PostListFilter { category: Some(String::new()), tag: None, searchline: None };
    assert!(post_passes(&Some(empty_cat), &published[2], ""));
    let tag = Some(PostListFilter { category: None, tag: Some("y".to_string()), searchline: None });
    assert!(post_passes(&tag, &published[2], ""));
    assert!(!post_passes(&tag, &published[0], ""));
    let search = Some(PostListFilter { category: None, tag: None, searchline: Some("bet".to_string()) });
    assert!(post_passes(&search, &published[2], "beta"));
    assert!(!post_passes(&search, &published[0], "alpha"));
    let t = postlist_table_gen(&Postlist { filters: search }, &published, &contents).unwrap();
    assert!(t.contains("/p/b"));
    assert!(t.contains("<p>Tb</p>"));
}

#[test]
fn markup_of_page_content() {
    match render_markup("HTML", "<a & 'b'>") {
        PageContent::Html(h) => assert_eq!(h, "<div id=\"pagecontent\">&lt;a &amp; &#039;b&#039;&gt;</div>"),
        _ => panic!("expected html"),
    }
    match render_markup("raw", "x") {
        PageContent::Html(h) => assert_eq!(h, "<div><pre>x</pre></div>"),
        _ => panic!("expected html"),
    }
    match render_markup("", "*a*") {
        PageContent::Html(h) => assert_eq!(h, "<div id=\"pagecontent\"><p><em>a</em></p></div>"),
        _ => panic!("expected html"),
    }
    assert!(matches!(render_markup("docx", "x"), PageContent::TypeError));
    assert_eq!(html_escape("\"q\""), "&quot;q&quot;");
    assert_eq!(content_location("inline"), ContentLocation::Inline);
    assert_eq!(content_location("ftp"), ContentLocation::Unknown);
    assert_eq!(postlist_page("News", "<table></table>"), "<h1>News</h1><table></table>");
}

#[test]
fn menus() {
    let mode = ModeConfig {
        sitename: "S".to_string(),
        favicon: None,
        stylefile: "s.css".to_string(),
        handlebar: Handlebar { post: "post".to_string(), page: "page".to_string() },
        menulinks: vec![
            Menulink { name: "Home".to_string(), href: "/".to_string() },
            Menulink { name: "About".to_string(), href: "/p/about".to_string() },
        ],
        menu2links: vec![Menulink { name: "Home".to_string(), href: "/".to_string() }],
        pageinfooverride: None,
    };
    let m = generate_menus(Some(&mode), "/");
    assert_eq!(
        m.menu1,
        "<a href=\"/\" class=\"menulink active\">Home</a><a href=\"/p/about\" class=\"menulink\">About</a>"
    );
    assert_eq!(m.menu2, "<a href=\"/\" class=\"active\">Home</a>");
    let none = generate_menus(None, "/");
    assert_eq!(none.menu1, "");
    assert_eq!(none.menu2, "");
}

#[test]
fn page_pieces() {
    assert!(is_error_content("404error"));
    assert!(!is_error_content("<p>x</p>"));
    assert_eq!(escape_known_problematic_chars("a—b–c€"), "a&#8212;b&#8211;c&#8364;");
    assert_eq!(plugin_command_json("[\"x\",\"{{{input}}}\"]", "hi"), "[\"x\",\"hi\"]");
    assert_eq!(plugin_input("a\"b"), "a\\\"b");
    assert_eq!(plugin_input("\u{1}x\n\\"), "\\u0001x\\n\\\\");
    let cmds = vec!["run".to_string(), "TOKEN".to_string()];
    assert_eq!(substitute_commands(&cmds, "TOKEN", "body"), vec!["run".to_string(), "body".to_string()]);
    assert_eq!(
        plugin_commands("[\"mod.js\",\"{{{input}}}\",\"TOKEN\"]", "a\"b", "TOKEN"),
        Some(vec!["mod.js".to_string(), "a\"b".to_string(), "a\"b".to_string()])
    );
    assert_eq!(plugin_commands("not json {{{input}}}", "x", "TOKEN"), None);
    assert_eq!(favicon_tag(&Some("f.ico".to_string())), "<link rel=\"shortcut icon\" href=\"/assets/f.ico\" type=\"image/x-icon\"/>");
    assert_eq!(favicon_tag(&None), "");
    assert!(shows_pageinfo("post", Some(false), None));
    assert!(shows_pageinfo("page", None, Some(true)));
    assert!(!shows_pageinfo("page", Some(false), Some(true)));
    assert!(!shows_pageinfo("page", None, None));
    assert_eq!(pageinfo_sidebar(false), "");
    assert!(pageinfo_sidebar(true).starts_with("<span class=\"pageinfosidebar\""));
    assert_eq!(pagemeta_script("{}"), "<script>\n\t\tconst pagemetainfo = JSON.parse(`{}`);\n\t</script>");
    assert_eq!(template_output("R", "J"), "\nR\n\n\n\n<script>J</script>\n\n</html>");
    assert!(finish_page("2", "X").ends_with("-->\n\n\n\n\rX"));
    assert_eq!(post_metatags("page", "t", &None, &None, &None), "");
    let tags = post_metatags("post", "t", &None, &Some("i.png".to_string()), &None);
    assert!(tags.contains("<meta name=\"description\" content=\"No description available.\">"));
    assert!(tags.contains("<meta name=\"og:image\" content=\"i.png\">"));
    assert!(tags.contains("<meta name=\"author\" content=\"Unknown author.\">"));
    let head = page_head("css", "fav", "meta", "Site", "Title");
    assert!(head.contains("<style>\n\tcss\n\t</style>"));
    assert!(head.contains("<title>Site&ensp;&ndash;&ensp;Title</title>"));
}

#[test]
fn routes_and_files() {
    assert_eq!(strip_trailing_slash("about/"), "about");
    assert_eq!(strip_trailing_slash("about//"), "about/");
    assert_eq!(strip_trailing_slash(""), "");
    assert_eq!(find_mimetype("\"Logo.PNG\""), MimeKind::Png);
    assert_eq!(find_mimetype("a.tar.js"), MimeKind::JavaScript);
    assert_eq!(find_mimetype("README"), MimeKind::Plain);
    assert_eq!(mime_essence(find_mimetype("x.svg")), "image/svg+xml");
    assert_eq!(mime_essence(MimeKind::Icon), "image/vnd.microsoft.icon");
    assert_eq!(
        hosted_file("static/a.js", "plug", "dist", "static").unwrap(),
        "./plugins/plug/dist/a.js"
    );
    assert_eq!(hosted_file("other/a.js", "plug", "dist", "static/"), None);
}

#[test]
fn json_escaping() {
    assert_eq!(escape_json("a\"b\n"), "a\\\"b\\n");
    assert_eq!(escape_json("a b"), "a\\u0020b");
    assert_eq!(escape_json("\\"), "\\");
    assert_eq!(escape_json("é"), "\\u00E9");
    assert_eq!(escape_json("😀"), "\\uD83D\\uDE00");
    assert_eq!(escape_json("\t\r\u{8}\u{c}"), "\\t\\r\\b\\f");
}

#[test]
fn json_escape_writes_only_visible_ascii() {
    let out = escape_json(" \u{e9}\u{1F600}\n\t\"\\x\u{7f}");
    assert!(out.chars().all(|c| c.is_ascii_graphic()));
    assert_eq!(out, "\\u0020\\u00E9\\uD83D\\uDE00\\n\\t\\\"\\x\\u007F");
}

fn vars() -> PageVars {
    PageVars {
        head: "<style></style>".to_string(),
        content: "<p>a & \"b\"</p>".to_string(),
        menu1: "m1".to_string(),
        menu2: "m2".to_string(),
        infoshow: String::new(),
    }
}

#[test]
fn page_vars_as_json() {
    assert_eq!(
        page_vars_json_text(&vars()),
        "{\"head\":\"<style></style>\",\"content\":\"<p>a & \\\"b\\\"</p>\",\"menu1\":\"m1\",\"menu2\":\"m2\",\"infoshow\":\"\"}"
    );
}

#[test]
fn pages_are_combined_through_the_template() {
    let t = "<head>{{{head}}}</head><nav>{{menu1}}|{{menu2}}</nav><main>{{{content}}}</main>";
    assert_eq!(
        combine_page("raw", t, &vars(), "js()"),
        Some("\n<head><style></style></head><nav>m1|m2</nav><main><p>a & \"b\"</p></main>\n\n\n\n<script>js()</script>\n\n</html>".to_string())
    );
    assert_eq!(combine_page("404error", t, &vars(), "js()"), Some("404error".to_string()));
    assert_eq!(combine_page("raw", "{{#if}}", &vars(), "js()"), None);
}

#[test]
fn json_escaped_text_parses_back() {
    let src = " caf\u{e9} \u{1F600}\n\t\"quoted\"\u{7f}\u{1}/end";
    let lit = format!("\"{}\"", escape_json(src));
    let back: String = serde_json::from_str(&lit).unwrap();
    assert_eq!(back, src);
}
