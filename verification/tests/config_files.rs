use cynthiaweb::config_files::{
    after_write, choose_config_location_option, comment_this, config_file_name, config_formats,
    display_path, interpret_error, normalize_format, parse_format, render_config_file,
    stale_config_files, target_format, AfterWrite, CommentStyle, ConfigFormat, ConfigLocations,
    ConvertError,
};

fn paths() -> Vec<String> {
    config_formats().iter().map(|f| format!("/site/{}", config_file_name(*f))).collect()
}

#[test]
fn config_files_are_looked_for_in_order() {
    assert_eq!(
        config_formats(),
        vec![ConfigFormat::Js, ConfigFormat::Dhall, ConfigFormat::Toml, ConfigFormat::JsonC]
    );
    let found = choose_config_location_option(&paths(), &vec![false, true, true, false]).unwrap();
    assert_eq!(found.format(), ConfigFormat::Dhall);
    assert_eq!(found.path(), "/site/Cynthia.dhall");
    let copy = found.clone();
    assert_eq!(copy.path(), "/site/Cynthia.dhall");
    assert!(choose_config_location_option(&paths(), &vec![false, false, false, false]).is_none());
    let loc = ConfigLocations::at(ConfigFormat::Toml, "x".to_string());
    assert_eq!(loc.format(), ConfigFormat::Toml);
}

#[test]
fn format_names() {
    assert_eq!(normalize_format("JavaScript"), "js");
    assert_eq!(normalize_format("TOML"), "toml");
    assert_eq!(parse_format("jsonc"), Some(ConfigFormat::JsonC));
    assert_eq!(parse_format("yaml"), None);
    assert_eq!(config_file_name(ConfigFormat::Js), "CynthiaConfig.js");
    assert_eq!(config_file_name(ConfigFormat::JsonC), "Cynthia.jsonc");
}

#[test]
fn conversions_refused() {
    match target_format(Some(ConfigFormat::Toml), "toml") {
        Err(e @ ConvertError::SameFormat(ConfigFormat::Toml)) => assert_eq!(
            e.message(),
            "You are trying to convert a TOML configuration to TOML. This is not possible."
        ),
        _ => panic!("expected a refusal"),
    }
    match target_format(Some(ConfigFormat::Js), "javascript") {
        Err(ConvertError::SameFormat(ConfigFormat::Js)) => {}
        _ => panic!("expected a refusal"),
    }
    match target_format(None, "YAML") {
        Err(e @ ConvertError::UnknownFormat(_)) => assert_eq!(
            e.message(),
            "Could not interpret format `yaml`! Please use `jsonc`, `dhall` or `toml`."
        ),
        _ => panic!("expected an unknown format"),
    }
    assert!(matches!(target_format(Some(ConfigFormat::Toml), "dhall"), Ok(ConfigFormat::Dhall)));
}

#[test]
fn comments_per_style() {
    assert_eq!(
        comment_this(CommentStyle::Json, "port"),
        "// The port on which Cynthia hosts, since Cynthia was designed to be reverse-proxied, this port is usually higher than 1000.\n\"port\":"
    );
    assert_eq!(comment_this(CommentStyle::Json, "pages"), "// todo: Comment this:\n\"pages\":");
    assert_eq!(comment_this(CommentStyle::Dhall, "pages"), "-- todo: Comment this:\n  pages =");
    assert_eq!(comment_this(CommentStyle::Toml, "pages"), "# todo: Comment this:\npages = ");
    assert_eq!(
        comment_this(CommentStyle::Dhall, "cache"),
        "-- The cache configuration for Cynthia.\n  cache ="
    );
    let multi = comment_this(CommentStyle::Toml, "cache.lifetimes");
    assert!(multi.starts_with("# These rules are set for a reason"));
    assert!(multi.contains("\n# Higher caching"));
    assert!(multi.ends_with("\nlifetimes = "));
    let multi_json = comment_this(CommentStyle::Json, "cache.lifetimes");
    assert!(multi_json.starts_with("/*\nThese rules"));
    assert!(multi_json.ends_with("\n*/\n\"lifetimes\":"));
}

#[test]
fn jsonc_file_is_commented() {
    let out = render_config_file(ConfigFormat::JsonC, "{\n  \"port\": 3000\n}").unwrap();
    assert!(out.starts_with("/*\n\tCynthia.jsonc\n"));
    assert!(out.ends_with(
        "{\n  // The port on which Cynthia hosts, since Cynthia was designed to be reverse-proxied, this port is usually higher than 1000.\n\"port\": 3000\n}"
    ));
}

#[test]
fn js_file_has_unquoted_keys() {
    let out = render_config_file(ConfigFormat::Js, "{\n  \"port\": 3000\n}").unwrap();
    assert!(out.contains("let myCynthiaConfig = {\n"));
    assert!(out.contains("\tport: 3000\n};"));
    assert!(out.ends_with("return myCynthiaConfig;\n"));
}

#[test]
fn toml_file_is_indented_and_commented() {
    let out = render_config_file(ConfigFormat::Toml, "a = 1\nport = 3000\n").unwrap();
    assert!(out.starts_with("# Cynthia.toml\n"));
    assert!(out.ends_with(
        "\n\n\na = 1\n# The port on which Cynthia hosts, since Cynthia was designed to be reverse-proxied, this port is usually higher than 1000.\nport = 3000\n "
    ));
}

#[test]
fn dhall_file_lays_out_fields() {
    let out = render_config_file(ConfigFormat::Dhall, "{ port = 3000, x = 1 }").unwrap();
    assert!(out.starts_with("{\n{-\n\tThis is the configuration file for Cynthia."));
    assert!(out.ends_with(
        "-}\n-- The port on which Cynthia hosts, since Cynthia was designed to be reverse-proxied, this port is usually higher than 1000.\n  port = 3000\n , x = 1 \n }\n "
    ));
}

#[test]
fn after_writing() {
    let args = |v: &[&str]| v.iter().map(|s| s.to_string()).collect::<Vec<String>>();
    assert!(matches!(after_write(&args(&["cynthiaweb", "init"])), AfterWrite::ReturnPath));
    assert!(matches!(after_write(&args(&["cynthiaweb", "convert", "toml"])), AfterWrite::RemoveOld));
    assert!(matches!(
        after_write(&args(&["cynthiaweb", "convert", "toml", "-k"])),
        AfterWrite::ExitKeepingOld
    ));
    let stale = stale_config_files(&args(&["/a/Cynthia.toml", "/a/Cynthia.jsonc"]), "/a/Cynthia.jsonc");
    assert_eq!(stale, args(&["/a/Cynthia.toml"]));
}

#[test]
fn paths_as_shown() {
    assert_eq!(display_path("\\\\?\\C:\\site\\Cynthia.toml"), "C:\\site\\Cynthia.toml");
    assert_eq!(
        interpret_error("/site/Cynthia.toml"),
        "Could not interpret cynthia-configuration at `/site/Cynthia.toml`!"
    );
}
