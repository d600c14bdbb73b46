use cynthiaweb::assets::{
    cache_index_add, cache_index_lookup, choose_runtime, clean_css_args, direct_return,
    minified_css_text, minified_js_text, package_runner, random_cache_name, terser_args,
    CacheIndexEntry, JsRuntime,
};
use cynthiaweb::plugins::{
    add_to_manifest, choice_answer, choice_prompt, dependency_failure, find_in_index,
    install_progress, npm_package_name, plugin_host, plugin_index_url, remove_from_manifest,
    safe_tarball_url, tarball_url_found, CynthiaPluginManifestItem, CynthiaPluginRepoItem,
    PluginHost,
};

fn item(id: &str, v: &str) -> CynthiaPluginManifestItem {
    CynthiaPluginManifestItem { id: id.to_string(), version: v.to_string() }
}

fn pairs(m: &[CynthiaPluginManifestItem]) -> Vec<(String, String)> {
    m.iter().map(|i| (i.id.clone(), i.version.clone())).collect()
}

#[test]
fn manifest_updates() {
    let mut m = vec![item("a", "1"), item("b", "1")];
    add_to_manifest(&mut m, "b", "2");
    assert_eq!(pairs(&m), vec![("a".into(), "1".into()), ("b".into(), "2".into())]);
    add_to_manifest(&mut m, "c", "latest");
    assert_eq!(m.len(), 3);
    assert_eq!(m[2].version, "latest");
    let r = remove_from_manifest(&m, "a");
    assert_eq!(pairs(&r), vec![("b".into(), "2".into()), ("c".into(), "latest".into())]);
}

#[test]
fn plugin_index() {
    let idx = vec![
        CynthiaPluginRepoItem { id: "x".into(), host: "NPM".into(), referrer: "@s/x".into() },
        CynthiaPluginRepoItem { id: "y".into(), host: "direct-tar".into(), referrer: "https://t/y.tgz".into() },
    ];
    assert_eq!(find_in_index(&idx, "y"), Some(1));
    assert_eq!(find_in_index(&idx, "z"), None);
    assert_eq!(plugin_host(&idx[0].host), PluginHost::Npm);
    assert_eq!(plugin_host(&idx[1].host), PluginHost::DirectTar);
    assert_eq!(plugin_host("git"), PluginHost::Other);
    assert_eq!(npm_package_name("@s/x", "1.0.0"), "@s/x@1.0.0");
    assert_eq!(
        plugin_index_url("2"),
        "https://raw.githubusercontent.com/CynthiaWebsiteEngine/Plugins/2/index.json"
    );
    assert!(!tarball_url_found("none"));
}

#[test]
fn tarball_urls_are_encoded() {
    assert_eq!(
        safe_tarball_url("https://registry.npmjs.org/@s/x/-/x-1.0.0.tgz\n"),
        "https://registry.npmjs.org/%40s/x/-/x-1.0.0.tgz"
    );
    assert_eq!(safe_tarball_url("a b"), "a%20b");
    assert_eq!(safe_tarball_url("\u{e9}~x_y.z-1"), "%C3%A9~x_y.z-1");
}

#[test]
fn terminal_questions() {
    assert_eq!(choice_prompt("Go", true), "Go (Y/n)?");
    assert_eq!(choice_prompt("Go", false), "Go (y/N)?");
    assert_eq!(choice_answer("Y\n", false), Some(true));
    assert_eq!(choice_answer("n\r\n", true), Some(false));
    assert_eq!(choice_answer("\r\n", true), Some(true));
    assert_eq!(choice_answer("\n", true), None);
    assert_eq!(choice_answer("maybe\n", true), None);
    assert_eq!(install_progress(1, 3, "x"), "Installing plugin 1/3: x");
    assert_eq!(dependency_failure("a\nb\r"), "Installing dependencies failed:\n\n\ta\n\tb\t");
}

#[test]
fn cache_index() {
    let mut idx: Vec<CacheIndexEntry> = vec![];
    cache_index_add(&mut idx, "f".into(), "/c/1".into(), 100);
    cache_index_add(&mut idx, "f".into(), "/c/2".into(), 180);
    cache_index_add(&mut idx, "g".into(), "/c/3".into(), 190);
    let l = cache_index_lookup(&idx, "f", 50, 200);
    assert_eq!(l.hit, Some(1));
    assert_eq!(l.stale, vec![0]);
    let none = cache_index_lookup(&idx, "f", 10, 200);
    assert_eq!(none.hit, None);
    assert_eq!(none.stale, vec![0, 1]);
    let n = random_cache_name();
    assert!((10000000..999999999).contains(&n));
}

#[test]
fn runtimes_and_minifying() {
    assert_eq!(choose_runtime(true, true), JsRuntime::Bun);
    assert_eq!(choose_runtime(false, true), JsRuntime::Node);
    assert_eq!(choose_runtime(false, false), JsRuntime::NotFound);
    assert_eq!(package_runner(JsRuntime::Node), Some("npx"));
    assert_eq!(terser_args(JsRuntime::Bun, "a.js")[0], "terser");
    assert_eq!(terser_args(JsRuntime::Node, "a.js")[0], "--yes");
    assert_eq!(clean_css_args(JsRuntime::Bun, "a.css").last().unwrap(), "a.css");
    assert!(minified_js_text("X").contains("\n\nX\n\n"));
    assert!(minified_css_text("Y").starts_with("\n\r/* Minified internally by Cynthia using clean-css */"));
    let args = vec!["returndirect".to_string(), "payload".to_string()];
    assert_eq!(direct_return(&args), Some("payload".to_string()));
    assert_eq!(direct_return(&vec!["run.js".to_string()]), None);
}
