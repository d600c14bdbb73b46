use cynthiaweb::logger::console_text;
use cynthiaweb::config::{CynthiaConf, Logging, Runtimes};
use cynthiaweb::logger::{log_kind, log_route, LogChannel, LogKind, LogSettings};
use cynthiaweb::startup::{
    check_startup, closing_message, command_banner, convert_has_format, error_line,
    init_format_options, log_sets, match_log_mode, parse_command, run_time_string, to_ascii_lower,
    unknown_command_message, Command, LogLevel, StartupError,
};
use cynthiaweb::tell::CynthiaColors;

fn channel(on: bool) -> LogChannel {
    LogChannel {
        enabled: on,
        requests: on,
        error: on,
        warn: on,
        jsr_errors: on,
        proxy_requests: on,
        plugin_asset_requests: on,
        info: on,
        cache: on,
    }
}

fn settings(console: bool, file: bool) -> LogSettings {
    LogSettings { console: channel(console), file: channel(file), filepath: "c.log".to_string() }
}

#[test]
fn action_numbers() {
    assert_eq!(log_kind(5000), LogKind::Fatal);
    assert_eq!(log_kind(2), LogKind::RequestOk);
    assert_eq!(log_kind(404), LogKind::RequestNotFound);
    assert_eq!(log_kind(31), LogKind::Cache);
    assert_eq!(log_kind(1), LogKind::Plain);
}

#[test]
fn routes_of_log_items() {
    let r = log_route(200, "\u{1b}[1mserved\u{1b}[0m", "T", &settings(true, true));
    assert_eq!(r.file_line.unwrap(), "[T]\t200/SUCCESS\t\tserved\n");
    let c = r.console.unwrap();
    assert_eq!(c.title, "[T - [CynGET/OK]");
    assert_eq!(c.padding, 32 - 16);
    assert_eq!(c.mark, "👍\t");
    assert!(!c.stderr);
    let off = log_route(5, "x", "T", &settings(false, true));
    assert!(off.file_line.is_none() && off.console.is_none());
    let fatal = log_route(5000, "x", "T", &settings(false, false));
    assert!(fatal.file_line.is_none());
    assert!(fatal.console.unwrap().stderr);
    let js = log_route(12, "e", "T", &settings(true, false));
    assert!(js.file_line.is_none());
    assert_eq!(js.console.unwrap().title, "[JS/ERROR]");
    let mut quiet = settings(true, true);
    quiet.console.cache = false;
    let cache = log_route(31, "c", "T", &quiet);
    assert_eq!(cache.file_line.unwrap(), "[T]\tCACHING\t\tc\n");
    assert!(cache.console.is_none());
}

#[test]
fn commands() {
    let args = |v: &[&str]| v.iter().map(|s| s.to_string()).collect::<Vec<String>>();
    assert!(matches!(parse_command(&args(&["cw", "START"])), Command::Start));
    assert!(matches!(parse_command(&args(&["cw", "Init"])), Command::Init));
    assert!(matches!(parse_command(&args(&["cw", "help"])), Command::Help));
    assert!(matches!(parse_command(&args(&["cw", "convert", "toml"])), Command::Convert));
    assert!(matches!(parse_command(&args(&["cw"])), Command::Missing));
    assert!(matches!(parse_command(&args(&["cw", "Fly"])), Command::Unknown(w) if w == "fly"));
    assert_eq!(command_banner(&args(&["cw"])), " \u{21E2} cynthiaweb start");
    assert_eq!(command_banner(&args(&["cw", "ConVert"])), " \u{21E2} cynthiaweb convert");
    assert!(!convert_has_format(&args(&["cw", "convert"])));
    assert!(convert_has_format(&args(&["cw", "convert", "toml"])));
    assert_eq!(to_ascii_lower("ÀbC"), "Àbc");
    assert_eq!(
        unknown_command_message("fly"),
        "Could not interpret command `fly`! Please run `cynthiaweb help` for a list of commands."
    );
    assert_eq!(error_line("x"), format!("{} x", "error:".color_red()));
    assert_eq!(init_format_options(), vec!["toml", "jsonc", "dhall", "js"]);
}

#[test]
fn startup_checks() {
    let mut c = CynthiaConf::default_with_runtimes(Runtimes { ext_js_rt: "disabled".to_string() });
    let sets = check_startup(&c).unwrap();
    assert_eq!(sets.file_loglevel, LogLevel::Info);
    assert_eq!(sets.term_loglevel, LogLevel::Warn);
    assert_eq!(sets.logfile, "cynthia.log");
    c.logs = None;
    assert_eq!(check_startup(&c).unwrap().logfile, "./cynthia.log");
    c.logs = Some(Logging { file_loglevel: Some(9), term_loglevel: Some(7), logfile: None });
    let e = check_startup(&c).err().unwrap();
    assert_eq!(e, StartupError::BadLogLevel(9));
    assert_eq!(e.message(), "Could not set loglevel `9`! Ranges are 0-5 (quiet to verbose)");
    c.scenes.clear();
    assert_eq!(check_startup(&c).err(), Some(StartupError::NoScenes));
    c.port = 0;
    assert_eq!(check_startup(&c).err(), Some(StartupError::PortZero));
    assert_eq!(match_log_mode(5), Some(LogLevel::Trace));
    assert_eq!(match_log_mode(6), None);
    let s = log_sets(&Some(Logging { file_loglevel: None, term_loglevel: Some(0), logfile: None })).unwrap();
    assert_eq!((s.file_loglevel, s.term_loglevel), (LogLevel::Info, LogLevel::Off));
}

#[test]
fn closing() {
    assert_eq!(run_time_string(3_723_000), "1h 2m 3s");
    assert_eq!(run_time_string(999), "0h 0m 0s");
    assert_eq!(
        closing_message(1, 61_000),
        "Closing:\n\n\n\nBye! I served 1 request in this run of 0h 1m 1s!\n"
    );
    assert_eq!(
        closing_message(3, 0),
        "Closing:\n\n\n\nBye! I served 3 requests in this run of 0h 0m 0s!\n"
    );
}

#[test]
fn fatal_items_print_title_tabs_padding_and_message() {
    let off = || LogChannel {
        enabled: false,
        requests: false,
        error: false,
        warn: false,
        jsr_errors: false,
        proxy_requests: false,
        plugin_asset_requests: false,
        info: false,
        cache: false,
    };
    let settings = LogSettings { console: off(), file: off(), filepath: String::new() };
    let route = log_route(5000, "boom", "T", &settings);
    assert!(route.file_line.is_none());
    let line = route.console.unwrap();
    assert!(line.stderr);
    let title = "[T - [FATAL ERROR]";
    let pad = 32 - title.chars().count();
    assert_eq!(console_text(&line), format!("{}\t\t{}boom", title, " ".repeat(pad)));
}
