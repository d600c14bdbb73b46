use cynthiaweb::inlines::{
    clean_css_command, css_embed_id, minified_script_tag, minified_style_tag, runtime_is_bun,
    script_embed_id, terser_command, unminified_script_tag, unminified_style_tag,
};
use cynthiaweb::plugin_server::EPSResponseBody;
use cynthiaweb::renders::PGIDCheckResponse;
use cynthiaweb::requests::{
    display_uri, fit_uri, ip_or_unknown, makeshift_header_json, page_answer, page_id_of,
    page_uri_of, plugin_verdict, request_line, request_source_label, status_text, urlspace,
    PageAnswer, PluginVerdict, RequestSource,
};
use cynthiaweb::tell::CynthiaColors;

#[test]
fn page_urls() {
    assert_eq!(urlspace(), (27, 30));
    assert_eq!(page_uri_of(""), "root");
    assert_eq!(page_uri_of("/a"), "/a");
    assert_eq!(page_id_of("//a/b"), "a/b");
    assert_eq!(page_id_of("root"), "root");
    assert_eq!(display_uri(""), "/");
}

#[test]
fn urls_fit_their_column() {
    assert_eq!(fit_uri("/a", 5, 8), "   /a");
    assert_eq!(fit_uri("/abcdefghij", 5, 8), "/abcdefg");
    assert_eq!(fit_uri("", 2, 8), "  ");
}

#[test]
fn request_lines() {
    let line = request_line("GET:200", true, "/p", "1.2.3.4", RequestSource::Cache);
    assert_eq!(
        line,
        format!(
            "{}\t{}\t\t\t{}\t{}",
            "GET:200".color_ok_green(),
            format!("{:>27.30}", "/p"),
            "1.2.3.4".color_lightblue(),
            "cache".color_green()
        )
    );
    assert_eq!(request_source_label(RequestSource::NotFound), "not found".color_red());
    assert_eq!(ip_or_unknown(None), "<unknown IP>");
    assert_eq!(status_text(true, true), "POST:200");
    assert_eq!(status_text(false, false), "GET:404");
    assert_eq!(makeshift_header_json("[(\"a\", \"b\")]"), "[[\"a\", \"b\"]]");
}

#[test]
fn verdicts() {
    assert_eq!(plugin_verdict(&EPSResponseBody::NoneOk), PluginVerdict::Continue);
    assert_eq!(plugin_verdict(&EPSResponseBody::Disabled), PluginVerdict::Continue);
    assert_eq!(
        plugin_verdict(&EPSResponseBody::WebResponse { append_headers: vec![], response_body: String::new() }),
        PluginVerdict::Respond
    );
    assert_eq!(plugin_verdict(&EPSResponseBody::Error { message: None }), PluginVerdict::Fail);
    assert_eq!(page_answer(&PGIDCheckResponse::NotFound), PageAnswer::NotFoundPage);
    assert_eq!(page_answer(&PGIDCheckResponse::Found), PageAnswer::Page);
}

#[test]
fn inline_assets() {
    assert!(runtime_is_bun("/usr/bin/bun"));
    assert_eq!(script_embed_id("main"), "script:main");
    assert_eq!(css_embed_id("main"), "css:main");
    let (runner, args) = terser_command("bun", "a.js");
    assert_eq!(runner, "bunx");
    assert_eq!(args, vec!["terser", "a.js", "--compress", "--keep-fnames", "--keep-classnames"]);
    let (runner, args) = clean_css_command("node", "a.css");
    assert_eq!(runner, "npx");
    assert_eq!(args, vec!["--yes", "clean-css-cli@4", "-O2", "--inline", "none", "a.css"]);
    assert!(minified_script_tag("x").starts_with("<script>"));
    assert!(unminified_script_tag("x").ends_with("x</script>"));
    assert!(minified_style_tag("y").contains("y\n\n"));
    assert!(unminified_style_tag("y").ends_with("y</style>"));
}
