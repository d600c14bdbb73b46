use cynthiaweb::config::{
    c_404, c_cache, c_logs, c_max_cache_size, c_port, choose_js_runtime, initial_config,
    js_runtime_candidates, js_runtime_needs_probe, validate_js_runtime, Cache, CynthiaConf,
    CynthiaConfig, Lifetimes, Runtimes, Scene, SceneCollectionTrait, Site,
};

fn runtimes(rt: &str) -> Runtimes {
    Runtimes { ext_js_rt: rt.to_string() }
}

#[test]
fn defaults() {
    assert_eq!(c_port(), 3000);
    assert_eq!(c_404(), "404");
    assert_eq!(c_max_cache_size(), 536870912);
    let l = Lifetimes::default();
    assert_eq!((l.stylesheets, l.javascript, l.forwarded, l.assets, l.served), (72000, 1200, 1600, 1600, 50));
    assert_eq!(c_cache().max_cache_size, 536870912);
    assert_eq!(Cache::default().max_cache_size, 536870912);
    let logs = c_logs().unwrap();
    assert_eq!(logs.file_loglevel, Some(3));
    assert_eq!(logs.term_loglevel, Some(2));
    assert_eq!(logs.logfile.as_deref(), Some("cynthia.log"));
    let s = Site::default();
    assert_eq!(s.notfound_page, "");
    assert!(!s.meta.enable_tags);
}

#[test]
fn default_scene_and_lookups() {
    let d = Scene::default();
    assert_eq!(d.get_name(), "default");
    let mut other = Scene::default();
    other.name = "blog".to_string();
    other.sitename = Some("Blog".to_string());
    let scenes = vec![d, other];
    assert!(scenes.validate());
    assert_eq!(scenes.get_by_name("blog").unwrap().sitename.as_deref(), Some("Blog"));
    assert!(scenes.get_by_name("nope").is_none());
    assert_eq!(scenes.get_default().name, "default");
    let empty: Vec<Scene> = vec![];
    assert!(!empty.validate());
}

#[test]
fn default_configuration() {
    let c = CynthiaConf::default_with_runtimes(runtimes("bun"));
    assert_eq!(c.port, 3000);
    assert_eq!(c.scenes.len(), 1);
    assert_eq!(c.runtimes.ext_js_rt, "bun");
    assert_eq!(c.plugins.len(), 1);
}

#[test]
fn clones_keep_the_settings() {
    let c = initial_config(runtimes("node"), "My site");
    let handle = c.clone();
    assert_eq!(handle.port, c.port);
    assert_eq!(handle.site.og_sitename, "My site");
    let back = handle.hard_clone();
    assert_eq!(back.site.og_sitename, "My site");
    assert_eq!(back.scenes[0].sitename.as_deref(), Some("My site"));
    assert_eq!(back.runtimes.ext_js_rt, "node");
    let again = CynthiaConfig::clone(&back);
    assert_eq!(again.scenes.len(), 1);
}

#[test]
fn runtime_choice_and_validation() {
    let c = js_runtime_candidates();
    assert_eq!(c, vec!["bun".to_string(), "deno".to_string(), "node".to_string()]);
    assert_eq!(choose_js_runtime(&c, &vec![false, true, true]), "deno");
    assert_eq!(choose_js_runtime(&c, &vec![false, false, false]), "disabled");
    assert!(validate_js_runtime("disabled", None).is_ok());
    assert!(validate_js_runtime("bun", Some(true)).is_ok());
    assert!(validate_js_runtime("bun", Some(false)).is_err());
    assert!(validate_js_runtime("bun", None).is_err());
    assert!(!js_runtime_needs_probe("disabled"));
    assert!(js_runtime_needs_probe("node"));
}
