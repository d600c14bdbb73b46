//! The decisions of the command line and of starting and stopping the
//! server: which command was asked for, whether a configuration can be
//! started, the log levels and files it sets, and the farewell message.

use vstd::prelude::*;
use vstd::string::*;
use crate::text::{concat2, concat3, str_eq, push_char, chars_of};
use crate::tell::{decimal, decimal_string, colored, CynthiaColors};
use crate::config::{CynthiaConf, Logging, SceneCollectionTrait};

verus! {

/// `c` lower-cased when it is an ASCII capital.
pub open spec fn ascii_lower_char(c: char) -> char {
    if 'A' <= c <= 'Z' {
        ((c as u32) + 32) as char
    } else {
        c
    }
}

/// `s` with its ASCII capitals lower-cased (`to_ascii_lowercase`).
pub open spec fn ascii_lower(s: Seq<char>) -> Seq<char> {
    s.map_values(|c: char| ascii_lower_char(c))
}

/// `s` with its ASCII capitals lower-cased.
pub fn to_ascii_lower(s: &str) -> (r: String)
    ensures
        r@ == ascii_lower(s@),
{
    let v = chars_of(s);
    let mut r = String::new();
    let mut k: usize = 0;
    while k < v.len()
        invariant
            v@ == s@,
            k <= v@.len(),
            r@ == ascii_lower(s@.take(k as int)),
        decreases v@.len() - k,
    {
        let c = v[k];
        let l = if 'A' <= c && c <= 'Z' {
            ((c as u8) + 32) as char
        } else {
            c
        };
        push_char(&mut r, l);
        k = k + 1;
        assert(r@ =~= ascii_lower(s@.take(k as int)));
    }
    assert(s@.take(k as int) =~= s@);
    r
}

/// A command of the program.
pub enum Command {
    Init,
    Help,
    Start,
    Convert,
    /// No command was given: the server is started anyway.
    Missing,
    /// Not a known command (lower-cased).
    Unknown(String),
}

/// The command word: the first argument after the program, or nothing.
pub open spec fn command_word(args: Seq<String>) -> Seq<char> {
    if args.len() > 1 {
        ascii_lower(args[1]@)
    } else {
        Seq::empty()
    }
}

/// The command asked for by the program's arguments (case-insensitive).
pub fn parse_command(args: &Vec<String>) -> (r: Command)
    ensures
        command_word(args@) == "init"@ ==> r is Init,
        command_word(args@) == "help"@ ==> r is Help,
        command_word(args@) == "start"@ ==> r is Start,
        command_word(args@) == "convert"@ ==> r is Convert,
        command_word(args@) == ""@ ==> r is Missing,
        command_word(args@) != "init"@ && command_word(args@) != "help"@ && command_word(args@)
            != "start"@ && command_word(args@) != "convert"@ && command_word(args@) != ""@ ==> (r
            matches Command::Unknown(w) && w@ == command_word(args@)),
{
    proof {
        reveal_strlit("init");
        reveal_strlit("help");
        reveal_strlit("start");
        reveal_strlit("convert");
        reveal_strlit("");
        assert("init"@[0] != "help"@[0]);
        assert("start"@.len() == 5 && "convert"@.len() == 7 && "init"@.len() == 4);
        assert("help"@.len() == 4 && ""@.len() == 0);
    }
    let w = if args.len() > 1 {
        to_ascii_lower(args[1].as_str())
    } else {
        String::new()
    };
    if str_eq(w.as_str(), "init") {
        Command::Init
    } else if str_eq(w.as_str(), "help") {
        Command::Help
    } else if str_eq(w.as_str(), "start") {
        Command::Start
    } else if str_eq(w.as_str(), "convert") {
        Command::Convert
    } else if str_eq(w.as_str(), "") {
        Command::Missing
    } else {
        Command::Unknown(w)
    }
}

/// The first line printed: an arrow and the command run (`start` when none
/// was given), lower-cased.
pub fn command_banner(args: &Vec<String>) -> (r: String)
    ensures
        args@.len() > 1 ==> r@ == " \u{21E2} cynthiaweb "@ + ascii_lower(args@[1]@),
        args@.len() <= 1 ==> r@ == " \u{21E2} cynthiaweb "@ + ascii_lower("start"@),
{
    let w = if args.len() > 1 {
        to_ascii_lower(args[1].as_str())
    } else {
        to_ascii_lower("start")
    };
    concat2(" \u{21E2} cynthiaweb ", w.as_str())
}

/// A line telling of an error: a red `error:` and the message.
pub fn error_line(message: &str) -> (r: String)
    ensures
        r@ == colored(255, 0, 0, "error:"@) + " "@ + message@,
{
    let tag = "error:".color_red();
    concat3(tag.as_str(), " ", message)
}

/// The message for a command word not known.
pub fn unknown_command_message(word: &str) -> (r: String)
    ensures
        r@ == "Could not interpret command `"@ + word@
            + "`! Please run `cynthiaweb help` for a list of commands."@,
{
    concat3("Could not interpret command `", word, "`! Please run `cynthiaweb help` for a list of commands.")
}

/// Whether `convert` was given a format: it needs a third argument.
pub fn convert_has_format(args: &Vec<String>) -> (r: bool)
    ensures
        r == (args@.len() >= 3),
{
    args.len() >= 3
}

/// Why a configuration cannot be started.
#[derive(PartialEq, Eq, Structural, Clone, Copy, Debug)]
pub enum StartupError {
    /// The port is 0.
    PortZero,
    /// There is no scene.
    NoScenes,
    /// A log level is outside 0 to 5.
    BadLogLevel(u16),
}

/// The message of a configuration that cannot be started.
pub open spec fn startup_error_message(e: StartupError) -> Seq<char> {
    match e {
        StartupError::PortZero => "Could not set port to 0! Please set it to a valid port."@,
        StartupError::NoScenes => "Could not validate scenes! Please check your configuration."@,
        StartupError::BadLogLevel(o) => "Could not set loglevel `"@ + decimal(o as nat)
            + "`! Ranges are 0-5 (quiet to verbose)"@,
    }
}

impl StartupError {
    /// The message of a configuration that cannot be started.
    pub fn message(&self) -> (r: String)
        ensures
            r@ == startup_error_message(*self),
    {
        match self {
            StartupError::PortZero => String::from_str("Could not set port to 0! Please set it to a valid port."),
            StartupError::NoScenes => String::from_str("Could not validate scenes! Please check your configuration."),
            StartupError::BadLogLevel(o) => {
                let d = decimal_string(*o as u64);
                concat3("Could not set loglevel `", d.as_str(), "`! Ranges are 0-5 (quiet to verbose)")
            },
        }
    }
}

/// A level of logging, from quiet to verbose.
#[derive(PartialEq, Eq, Structural, Clone, Copy, Debug)]
pub enum LogLevel {
    Off,
    Error,
    Warn,
    Info,
    Debug,
    Trace,
}

/// The level of a configured number: 0 off to 5 trace; `None` above 5.
pub open spec fn level_of(o: u16) -> Option<LogLevel> {
    if o == 0 {
        Some(LogLevel::Off)
    } else if o == 1 {
        Some(LogLevel::Error)
    } else if o == 2 {
        Some(LogLevel::Warn)
    } else if o == 3 {
        Some(LogLevel::Info)
    } else if o == 4 {
        Some(LogLevel::Debug)
    } else if o == 5 {
        Some(LogLevel::Trace)
    } else {
        None
    }
}

/// The level of a configured number.
pub fn match_log_mode(o: u16) -> (r: Option<LogLevel>)
    ensures
        r == level_of(o),
{
    match o {
        0 => Some(LogLevel::Off),
        1 => Some(LogLevel::Error),
        2 => Some(LogLevel::Warn),
        3 => Some(LogLevel::Info),
        4 => Some(LogLevel::Debug),
        5 => Some(LogLevel::Trace),
        _ => None,
    }
}

/// The logging set up at start: levels for the file and the terminal, and
/// the log file (relative to the working directory).
pub struct LogSets {
    pub file_loglevel: LogLevel,
    pub term_loglevel: LogLevel,
    pub logfile: String,
}

/// A configured level, or its default; `Err` with the number when it is
/// not a level.
pub open spec fn level_or(o: Option<u16>, default: LogLevel) -> Result<LogLevel, u16> {
    match o {
        None => Ok(default),
        Some(l) => match level_of(l) {
            Some(v) => Ok(v),
            None => Err(l),
        },
    }
}

fn level_or_default(o: Option<u16>, default: LogLevel) -> (r: Result<LogLevel, u16>)
    ensures
        r == level_or(o, default),
{
    match o {
        None => Ok(default),
        Some(l) => match match_log_mode(l) {
            Some(v) => Ok(v),
            None => Err(l),
        },
    }
}

/// The logging set up at start from the log section: file at info and
/// terminal at warnings by default, log file `./cynthia.log` by default; a
/// level that is not one (the file's checked first) refuses the start.
pub fn log_sets(logs: &Option<Logging>) -> (r: Result<LogSets, StartupError>)
    ensures
        match *logs {
            None => r matches Ok(s) && s.file_loglevel == LogLevel::Info && s.term_loglevel
                == LogLevel::Warn && s.logfile@ == "./cynthia.log"@,
            Some(d) => match (level_or(d.file_loglevel, LogLevel::Info), level_or(d.term_loglevel, LogLevel::Warn)) {
                (Err(o), _) => r == Err::<LogSets, StartupError>(StartupError::BadLogLevel(o)),
                (Ok(_), Err(o)) => r == Err::<LogSets, StartupError>(StartupError::BadLogLevel(o)),
                (Ok(f), Ok(t)) => r matches Ok(s) && s.file_loglevel == f && s.term_loglevel == t
                    && s.logfile@ == match d.logfile {
                    Some(p) => p@,
                    None => "./cynthia.log"@,
                },
            },
        },
{
    match logs {
        None => Ok(
            LogSets {
                file_loglevel: LogLevel::Info,
                term_loglevel: LogLevel::Warn,
                logfile: String::from_str("./cynthia.log"),
            },
        ),
        Some(d) => {
            let f = match level_or_default(d.file_loglevel, LogLevel::Info) {
                Ok(v) => v,
                Err(o) => {
                    return Err(StartupError::BadLogLevel(o));
                },
            };
            let t = match level_or_default(d.term_loglevel, LogLevel::Warn) {
                Ok(v) => v,
                Err(o) => {
                    return Err(StartupError::BadLogLevel(o));
                },
            };
            let logfile = match &d.logfile {
                Some(p) => p.clone(),
                None => String::from_str("./cynthia.log"),
            };
            Ok(LogSets { file_loglevel: f, term_loglevel: t, logfile })
        },
    }
}

/// Checks a configuration before the server starts: the port must not be 0
/// and there must be a scene; then the logging is set up (see `log_sets`).
pub fn check_startup(config: &CynthiaConf) -> (r: Result<LogSets, StartupError>)
    ensures
        config.port == 0 ==> r == Err::<LogSets, StartupError>(StartupError::PortZero),
        config.port != 0 && config.scenes@.len() == 0 ==> r == Err::<LogSets, StartupError>(
            StartupError::NoScenes,
        ),
        config.port != 0 && config.scenes@.len() > 0 ==> match config.logs {
            None => r matches Ok(s) && s.file_loglevel == LogLevel::Info && s.term_loglevel
                == LogLevel::Warn && s.logfile@ == "./cynthia.log"@,
            Some(d) => match (level_or(d.file_loglevel, LogLevel::Info), level_or(d.term_loglevel, LogLevel::Warn)) {
                (Err(o), _) => r == Err::<LogSets, StartupError>(StartupError::BadLogLevel(o)),
                (Ok(_), Err(o)) => r == Err::<LogSets, StartupError>(StartupError::BadLogLevel(o)),
                (Ok(f), Ok(t)) => r matches Ok(s) && s.file_loglevel == f && s.term_loglevel == t
                    && s.logfile@ == match d.logfile {
                    Some(p) => p@,
                    None => "./cynthia.log"@,
                },
            },
        },
{
    if config.port == 0 {
        return Err(StartupError::PortZero);
    }
    if !config.scenes.validate() {
        return Err(StartupError::NoScenes);
    }
    log_sets(&config.logs)
}

/// Whole hours, minutes past the hour and seconds past the minute of a
/// run of `ms` milliseconds.
pub open spec fn run_time_parts(ms: u64) -> (int, int, int) {
    let h = ms / 3600000;
    let m = ms / 60000;
    let s = ms / 1000;
    (h as int, m - h * 60, s - m * 60)
}

/// How long a run of `ms` milliseconds took, as `{h}h {m}m {s}s`.
pub open spec fn run_time_text(ms: u64) -> Seq<char> {
    let (h, m, s) = run_time_parts(ms);
    decimal(h as nat) + "h "@ + decimal(m as nat) + "m "@ + decimal(s as nat) + "s"@
}

/// How long a run of `ms` milliseconds took, as `{h}h {m}m {s}s`.
pub fn run_time_string(ms: u64) -> (r: String)
    ensures
        r@ == run_time_text(ms),
{
    let h = ms / 3600000;
    let m = ms / 60000;
    let s = ms / 1000;
    assert(m >= h * 60) by (nonlinear_arith)
        requires
            h == ms / 3600000,
            m == ms / 60000,
    ;
    assert(s >= m * 60) by (nonlinear_arith)
        requires
            m == ms / 60000,
            s == ms / 1000,
    ;
    let mm = m - h * 60;
    let ss = s - m * 60;
    let hs = decimal_string(h);
    let ms_ = decimal_string(mm);
    let sst = decimal_string(ss);
    let mut r = concat2(hs.as_str(), "h ");
    r.append(ms_.as_str());
    r.append("m ");
    r.append(sst.as_str());
    r.append("s");
    r
}

/// The farewell told when the server closes: how many requests it served
/// (singular for one) in how long.
pub fn closing_message(request_count: u64, run_ms: u64) -> (r: String)
    ensures
        r@ == "Closing:\n\n\n\nBye! I served "@ + decimal(request_count as nat) + " request"@ + (if request_count == 1 {
            ""@
        } else {
            "s"@
        }) + " in this run of "@ + run_time_text(run_ms) + "!\n"@,
{
    let n = decimal_string(request_count);
    let s = if request_count == 1 {
        ""
    } else {
        "s"
    };
    let t = run_time_string(run_ms);
    let mut r = concat3("Closing:\n\n\n\nBye! I served ", n.as_str(), " request");
    r.append(s);
    r.append(" in this run of ");
    r.append(t.as_str());
    r.append("!\n");
    r
}

/// The languages the initialiser offers to save the configuration in, in
/// the order offered.
pub fn init_format_options() -> (r: Vec<&'static str>)
    ensures
        r@.len() == 4,
        r@[0]@ == "toml"@,
        r@[1]@ == "jsonc"@,
        r@[2]@ == "dhall"@,
        r@[3]@ == "js"@,
{
    vec!["toml", "jsonc", "dhall", "js"]
}

} // verus!
