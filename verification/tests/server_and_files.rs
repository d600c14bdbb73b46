use cynthiaweb::config::{CynthiaConf, CynthiaConfig, Runtimes};
use cynthiaweb::files::{file_cache_id, fs_get_cached, fs_get_store, get_lifetime, FilePriority};
use cynthiaweb::plugin_server::EPSCommunicationData;
use cynthiaweb::server::ServerContext;

fn context() -> ServerContext {
    ServerContext {
        config: CynthiaConf::default_with_runtimes(Runtimes { ext_js_rt: "disabled".to_string() }),
        cache: vec![],
        request_count: 0,
        start_time: 0,
        external_plugin_server: EPSCommunicationData::new(),
    }
}

#[test]
fn stored_pages_are_found_again() {
    let mut c = context();
    c.store_cache_at("p", b"hello", 100, 1000).unwrap();
    let hit = c.get_cache_at("p", 0, 1050).unwrap();
    assert_eq!(hit.0, b"hello".to_vec());
    assert_eq!(hit.1, 1000);
    assert!(c.get_cache_at("q", 0, 1050).is_none());
}

#[test]
fn expired_entries_are_dropped() {
    let mut c = context();
    c.store_cache_at("a", b"1", 10, 100).unwrap();
    c.store_cache_at("b", b"22", 50, 100).unwrap();
    assert_eq!(c.estimate_cache_size(), 3);
    c.evaluate_cache_at(110);
    assert_eq!(c.cache.len(), 1);
    assert_eq!(c.cache[0].id, "b");
    assert!(c.get_cache_at("a", 0, 111).is_none());
}

#[test]
fn max_age_limits_hits() {
    let mut c = context();
    c.store_cache_at("a", b"x", 50, 100).unwrap();
    // with a max age, only an entry whose expiry already passed is handed out
    assert!(c.get_cache_at("a", 5, 101).is_none());
    assert!(c.get_cache_at("a", 0, 101).is_some());
}

#[test]
fn overflowing_expiry_is_refused() {
    let mut c = context();
    assert!(c.store_cache_at("a", b"x", u64::MAX, 10).is_err());
    assert!(c.cache.is_empty());
}

#[test]
fn clearing_and_the_manager_tick() {
    let mut c = context();
    c.store_cache_at("a", b"xyz", 0, 5).unwrap();
    c.config.cache.max_cache_size = 2;
    assert!(c.cache_manager_tick());
    assert!(c.cache.is_empty());
    c.store_cache_at("a", b"x", u64::MAX - 10, 5).unwrap();
    c.config.cache.max_cache_size = 10;
    assert!(!c.cache_manager_tick());
    assert_eq!(c.cache.len(), 1);
    c.clear_cache();
    assert_eq!(c.estimate_cache_size(), 0);
}

#[test]
fn lifetimes_by_priority() {
    let conf = context().config.clone();
    assert_eq!(get_lifetime(FilePriority::Permanent, conf.clone()), 0);
    assert_eq!(get_lifetime(FilePriority::High, conf.clone()), 6400);
    assert_eq!(get_lifetime(FilePriority::Normal, conf.clone()), 1600);
    assert_eq!(get_lifetime(FilePriority::Low, conf.clone()), 400);
    assert_eq!(get_lifetime(FilePriority::Once, conf.clone()), 1);
    assert_eq!(get_lifetime(FilePriority::Custom(9), conf), 9);
}

#[test]
fn files_go_through_the_cache() {
    let mut c = context();
    assert_eq!(file_cache_id("a.css"), "fs:a.css");
    assert!(fs_get_cached(&mut c, "a.css", FilePriority::Normal).is_none());
    let r = fs_get_store(&mut c, "a.css", FilePriority::Normal, Ok(b"body".to_vec()));
    assert_eq!(r, Ok(b"body".to_vec()));
    assert_eq!(c.cache[0].id, "fs:a.css");
    let e = fs_get_store(&mut c, "b.css", FilePriority::Normal, Err("missing".to_string()));
    assert_eq!(e, Err("missing".to_string()));
}
