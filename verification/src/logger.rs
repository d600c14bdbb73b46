//! Routing of log items in the metadata-file generation of the engine: by
//! the item's action number, which line goes to the log file and which line
//! to the terminal.

use vstd::prelude::*;
use vstd::string::*;
use crate::text::{concat2, concat3, push_char};

verus! {

/// Which kinds of log items a log channel takes.
pub struct LogChannel {
    pub enabled: bool,
    pub requests: bool,
    pub error: bool,
    pub warn: bool,
    pub jsr_errors: bool,
    pub proxy_requests: bool,
    pub plugin_asset_requests: bool,
    pub info: bool,
    pub cache: bool,
}

/// The log settings: the terminal channel, the file channel and the file.
pub struct LogSettings {
    pub console: LogChannel,
    pub file: LogChannel,
    pub filepath: String,
}

/// The kind of a log item, by its action number.
#[derive(PartialEq, Eq, Structural, Clone, Copy, Debug)]
pub enum LogKind {
    Fatal,
    RequestOk,
    RequestNotFound,
    Error,
    Warn,
    JsError,
    Proxy,
    PluginAsset,
    Note,
    Cache,
    Plain,
}

/// The kind of a log item, by its action number: 5000 fatal, 200 or 2 a
/// served request, 3 or 404 a request for something missing, 5 an error,
/// 15 a warning, 12 a JavaScript error, 49038 a proxied request, 293838 a
/// plugin asset, 10 a note, 31 caching, anything else a plain log item.
pub open spec fn kind_of_act(act: i32) -> LogKind {
    if act == 5000 {
        LogKind::Fatal
    } else if act == 200 || act == 2 {
        LogKind::RequestOk
    } else if act == 3 || act == 404 {
        LogKind::RequestNotFound
    } else if act == 5 {
        LogKind::Error
    } else if act == 15 {
        LogKind::Warn
    } else if act == 12 {
        LogKind::JsError
    } else if act == 49038 {
        LogKind::Proxy
    } else if act == 293838 {
        LogKind::PluginAsset
    } else if act == 10 {
        LogKind::Note
    } else if act == 31 {
        LogKind::Cache
    } else {
        LogKind::Plain
    }
}

/// The kind of a log item, by its action number.
pub fn log_kind(act: i32) -> (r: LogKind)
    ensures
        r == kind_of_act(act),
{
    match act {
        5000 => LogKind::Fatal,
        200 | 2 => LogKind::RequestOk,
        3 | 404 => LogKind::RequestNotFound,
        5 => LogKind::Error,
        15 => LogKind::Warn,
        12 => LogKind::JsError,
        49038 => LogKind::Proxy,
        293838 => LogKind::PluginAsset,
        10 => LogKind::Note,
        31 => LogKind::Cache,
        _ => LogKind::Plain,
    }
}

/// Whether a channel takes items of a kind (a plain item is always taken).
pub open spec fn takes(c: LogChannel, k: LogKind) -> bool {
    match k {
        LogKind::RequestOk | LogKind::RequestNotFound => c.requests,
        LogKind::Error => c.error,
        LogKind::Warn => c.warn,
        LogKind::JsError => c.jsr_errors,
        LogKind::Proxy => c.proxy_requests,
        LogKind::PluginAsset => c.plugin_asset_requests,
        LogKind::Note => c.info,
        LogKind::Cache => c.cache,
        _ => true,
    }
}

fn channel_takes(c: &LogChannel, k: LogKind) -> (r: bool)
    ensures
        r == takes(*c, k),
{
    match k {
        LogKind::RequestOk | LogKind::RequestNotFound => c.requests,
        LogKind::Error => c.error,
        LogKind::Warn => c.warn,
        LogKind::JsError => c.jsr_errors,
        LogKind::Proxy => c.proxy_requests,
        LogKind::PluginAsset => c.plugin_asset_requests,
        LogKind::Note => c.info,
        LogKind::Cache => c.cache,
        _ => true,
    }
}

/// The tag of a kind in the log file, with the tabs after it.
pub open spec fn file_tag(k: LogKind) -> Seq<char> {
    match k {
        LogKind::RequestOk => "200/SUCCESS\t\t"@,
        LogKind::RequestNotFound => "404/NOTFOUND\t\t"@,
        LogKind::Error => "ERROR\t\t\t"@,
        LogKind::Warn => "WARNING\t\t"@,
        LogKind::JsError => "ERROR-JS\t\t\t"@,
        LogKind::Proxy => "PROXY\t\t\t"@,
        LogKind::PluginAsset => "200/PLUGIN\t\t"@,
        LogKind::Note => "NOTE\t\t\t"@,
        LogKind::Cache => "CACHING\t\t"@,
        _ => "LOG\t\t\t\t"@,
    }
}

fn file_tag_of(k: LogKind) -> (r: &'static str)
    ensures
        r@ == file_tag(k),
{
    match k {
        LogKind::RequestOk => "200/SUCCESS\t\t",
        LogKind::RequestNotFound => "404/NOTFOUND\t\t",
        LogKind::Error => "ERROR\t\t\t",
        LogKind::Warn => "WARNING\t\t",
        LogKind::JsError => "ERROR-JS\t\t\t",
        LogKind::Proxy => "PROXY\t\t\t",
        LogKind::PluginAsset => "200/PLUGIN\t\t",
        LogKind::Note => "NOTE\t\t\t",
        LogKind::Cache => "CACHING\t\t",
        _ => "LOG\t\t\t\t",
    }
}

/// The label of a kind on the terminal.
pub open spec fn console_label(k: LogKind) -> Seq<char> {
    match k {
        LogKind::Fatal => "[FATAL ERROR]"@,
        LogKind::RequestOk => "[CynGET/OK]"@,
        LogKind::RequestNotFound => "[CynGET/404]"@,
        LogKind::Error => "[ERROR]"@,
        LogKind::Warn => "[WARN]"@,
        LogKind::JsError => "[JS/ERROR]"@,
        LogKind::Proxy => "[PROXY]"@,
        LogKind::PluginAsset => "[PLUGIN ASSET]"@,
        LogKind::Note => "[NOTE]"@,
        LogKind::Cache => "[CACHE]"@,
        LogKind::Plain => "[LOG]"@,
    }
}

fn console_label_of(k: LogKind) -> (r: &'static str)
    ensures
        r@ == console_label(k),
{
    match k {
        LogKind::Fatal => "[FATAL ERROR]",
        LogKind::RequestOk => "[CynGET/OK]",
        LogKind::RequestNotFound => "[CynGET/404]",
        LogKind::Error => "[ERROR]",
        LogKind::Warn => "[WARN]",
        LogKind::JsError => "[JS/ERROR]",
        LogKind::Proxy => "[PROXY]",
        LogKind::PluginAsset => "[PLUGIN ASSET]",
        LogKind::Note => "[NOTE]",
        LogKind::Cache => "[CACHE]",
        LogKind::Plain => "[LOG]",
    }
}

/// The title of an item on the terminal: the time and the label, or the
/// label alone for JavaScript errors.
pub open spec fn console_title(k: LogKind, times: Seq<char>) -> Seq<char> {
    if k == LogKind::JsError {
        console_label(k)
    } else {
        "["@ + times + " - "@ + console_label(k)
    }
}

/// The mark printed between the title and the message.
pub open spec fn console_mark(k: LogKind) -> Seq<char> {
    match k {
        LogKind::RequestOk => "👍\t"@,
        LogKind::RequestNotFound => "👎\t"@,
        LogKind::Warn => "⚠\t"@,
        LogKind::Proxy | LogKind::PluginAsset | LogKind::Note => "❕\t"@,
        LogKind::Cache => "♻️\t"@,
        _ => ""@,
    }
}

fn console_mark_of(k: LogKind) -> (r: &'static str)
    ensures
        r@ == console_mark(k),
{
    match k {
        LogKind::RequestOk => "👍\t",
        LogKind::RequestNotFound => "👎\t",
        LogKind::Warn => "⚠\t",
        LogKind::Proxy | LogKind::PluginAsset | LogKind::Note => "❕\t",
        LogKind::Cache => "♻️\t",
        _ => "",
    }
}

/// Whether a kind goes to standard error rather than standard output.
pub open spec fn to_stderr(k: LogKind) -> bool {
    k == LogKind::Fatal || k == LogKind::Error || k == LogKind::Warn || k == LogKind::JsError
}

/// The width the title is padded to with spaces.
pub open spec fn title_width() -> nat {
    32
}

/// A line for the terminal: its title (to be styled by kind), the spaces
/// that pad it, the mark, the stream and the message.
pub struct ConsoleLine {
    pub kind: LogKind,
    pub title: String,
    pub padding: usize,
    pub mark: &'static str,
    pub stderr: bool,
    pub message: String,
}

/// Where a log item goes: the line appended to the log file, if any, and
/// the line for the terminal, if any.
pub struct LogRoute {
    pub file_line: Option<String>,
    pub console: Option<ConsoleLine>,
}

/// Text with its ANSI escape sequences removed (`strip_ansi_escapes::
/// strip_str`). Named, not stated.
pub uninterp spec fn ansi_stripped(s: Seq<char>) -> Seq<char>;

/// Removes ANSI escape sequences with `strip_ansi_escapes::strip_str`; the
/// result is named `ansi_stripped` of the input.
#[verifier::external_body]
fn strip_ansi(s: &str) -> (r: String)
    ensures
        r@ == ansi_stripped(s@),
{
    strip_ansi_escapes::strip_str(s)
}

/// Whether the terminal line is well formed for item `k` logged at `times`
/// with `msg`.
pub open spec fn console_line_ok(l: ConsoleLine, k: LogKind, times: Seq<char>, msg: Seq<char>) -> bool {
    let t = console_title(k, times);
    &&& l.kind == k
    &&& l.title@ == t
    &&& l.padding == if t.len() < title_width() {
        title_width() - t.len()
    } else {
        0
    }
    &&& l.mark@ == console_mark(k)
    &&& l.stderr == to_stderr(k)
    &&& l.message@ == msg
}

/// Where an item goes, logged at `times` (formatted year to milliseconds)
/// with action number `act`: a fatal item only to the terminal; nothing at
/// all while the terminal channel is off; otherwise to the file when the
/// file channel is on and takes the kind (the message stripped of
/// escapes), and to the terminal when the terminal channel takes it.
pub fn log_route(act: i32, msg: &str, times: &str, settings: &LogSettings) -> (r: LogRoute)
    ensures
        ({
            let k = kind_of_act(act);
            if k == LogKind::Fatal {
                r.file_line is None && (r.console matches Some(l) && console_line_ok(
                    l,
                    k,
                    times@,
                    msg@,
                ))
            } else if !settings.console.enabled {
                r.file_line is None && r.console is None
            } else {
                &&& (settings.file.enabled && takes(settings.file, k)) ==> (r.file_line matches Some(
                    f,
                ) && f@ == "["@ + times@ + "]\t"@ + file_tag(k) + ansi_stripped(msg@) + "\n"@)
                &&& !(settings.file.enabled && takes(settings.file, k)) ==> r.file_line is None
                &&& takes(settings.console, k) ==> (r.console matches Some(l) && console_line_ok(
                    l,
                    k,
                    times@,
                    msg@,
                ))
                &&& !takes(settings.console, k) ==> r.console is None
            }
        }),
{
    let k = log_kind(act);
    if k == LogKind::Fatal {
        return LogRoute { file_line: None, console: Some(console_line(k, msg, times)) };
    }
    if !settings.console.enabled {
        return LogRoute { file_line: None, console: None };
    }
    let file_line = if settings.file.enabled && channel_takes(&settings.file, k) {
        let stripped = strip_ansi(msg);
        let mut f = concat3("[", times, "]\t");
        f.append(file_tag_of(k));
        f.append(stripped.as_str());
        f.append("\n");
        Some(f)
    } else {
        None
    };
    let console = if channel_takes(&settings.console, k) {
        Some(console_line(k, msg, times))
    } else {
        None
    };
    LogRoute { file_line, console }
}

/// The terminal line of an item of kind `k`.
fn console_line(k: LogKind, msg: &str, times: &str) -> (l: ConsoleLine)
    ensures
        console_line_ok(l, k, times@, msg@),
{
    let title = if k == LogKind::JsError {
        console_label_of(k).to_owned()
    } else {
        let mut t = concat3("[", times, " - ");
        t.append(console_label_of(k));
        t
    };
    let n = title.as_str().unicode_len();
    let padding = if n < 32 {
        32 - n
    } else {
        0
    };
    ConsoleLine {
        kind: k,
        title,
        padding,
        mark: console_mark_of(k),
        stderr: k == LogKind::Fatal || k == LogKind::Error || k == LogKind::Warn || k
            == LogKind::JsError,
        message: msg.to_owned(),
    }
}

/// The printed text of a terminal line: the title, two tabs, the padding
/// spaces, the mark, then the message.
pub open spec fn console_text_spec(l: ConsoleLine) -> Seq<char> {
    l.title@ + "\t\t"@ + Seq::new(l.padding as nat, |i: int| ' ') + l.mark@ + l.message@
}

/// The printed text of a terminal line; see `console_text_spec`.
pub fn console_text(l: &ConsoleLine) -> (r: String)
    ensures
        r@ == console_text_spec(*l),
{
    let mut r = concat2(l.title.as_str(), "\t\t");
    let ghost start = r@;
    let mut i: usize = 0;
    while i < l.padding
        invariant
            i <= l.padding,
            r@ == start + Seq::new(i as nat, |j: int| ' '),
        decreases l.padding - i,
    {
        push_char(&mut r, ' ');
        i = i + 1;
        assert(r@ =~= start + Seq::new(i as nat, |j: int| ' '));
    }
    r.append(l.mark);
    r.append(l.message.as_str());
    r
}

} // verus!
