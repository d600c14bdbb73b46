//! Serving content in the metadata-file generation of the engine: turning a
//! page's raw content into HTML by its markup type, the navigation menus,
//! the page around the content, and the small text rules of the routes.

use vstd::prelude::*;
use vstd::string::*;
use crate::text::{concat2, concat3, str_eq, str_starts_with, starts_with, push_char, replace_all, replace_str, chars_of};
use crate::config_files::{lowercase, to_lower};
use crate::postlists::{Postlist, ContentMeta};

verus! {

/// A link of a navigation menu.
pub struct Menulink {
    pub name: String,
    pub href: String,
}

/// The two navigation menus of a page, as HTML.
pub struct Menulist {
    pub menu1: String,
    pub menu2: String,
}

/// Templates of a mode, per kind of page.
pub struct Handlebar {
    pub post: String,
    pub page: String,
}

/// A page mode: site name, icon, style, templates and menus.
pub struct ModeConfig {
    pub sitename: String,
    pub favicon: Option<String>,
    pub stylefile: String,
    pub handlebar: Handlebar,
    pub menulinks: Vec<Menulink>,
    pub menu2links: Vec<Menulink>,
    pub pageinfooverride: Option<bool>,
}

/// A link of the first menu; marked active when it points at the page.
pub open spec fn menu1_link(l: Menulink, here: Seq<char>) -> Seq<char> {
    if l.href@ == here {
        "<a href=\""@ + l.href@ + "\" class=\"menulink active\">"@ + l.name@ + "</a>"@
    } else {
        "<a href=\""@ + l.href@ + "\" class=\"menulink\">"@ + l.name@ + "</a>"@
    }
}

/// A link of the second menu; marked active when it points at the page.
pub open spec fn menu2_link(l: Menulink, here: Seq<char>) -> Seq<char> {
    if l.href@ == here {
        "<a href=\""@ + l.href@ + "\" class=\"active\">"@ + l.name@ + "</a>"@
    } else {
        "<a href=\""@ + l.href@ + "\" class=\"\">"@ + l.name@ + "</a>"@
    }
}

/// All links of a menu, in order.
pub open spec fn menu_html(links: Seq<Menulink>, here: Seq<char>, second: bool) -> Seq<char>
    decreases links.len(),
{
    if links.len() == 0 {
        Seq::empty()
    } else {
        menu_html(links.drop_last(), here, second) + if second {
            menu2_link(links.last(), here)
        } else {
            menu1_link(links.last(), here)
        }
    }
}

fn menu_link(l: &Menulink, here: &str, second: bool) -> (r: String)
    ensures
        second ==> r@ == menu2_link(*l, here@),
        !second ==> r@ == menu1_link(*l, here@),
{
    let active = str_eq(l.href.as_str(), here);
    let class = if second {
        if active {
            "\" class=\"active\">"
        } else {
            "\" class=\"\">"
        }
    } else {
        if active {
            "\" class=\"menulink active\">"
        } else {
            "\" class=\"menulink\">"
        }
    };
    let mut r = concat3("<a href=\"", l.href.as_str(), class);
    r.append(l.name.as_str());
    r.append("</a>");
    r
}

fn menu_of(links: &Vec<Menulink>, here: &str, second: bool) -> (r: String)
    ensures
        r@ == menu_html(links@, here@, second),
{
    let mut r = String::new();
    let mut k: usize = 0;
    while k < links.len()
        invariant
            k <= links@.len(),
            r@ == menu_html(links@.take(k as int), here@, second),
        decreases links@.len() - k,
    {
        assert(links@.take(k + 1).drop_last() =~= links@.take(k as int));
        let l = menu_link(&links[k], here, second);
        r.append(l.as_str());
        k = k + 1;
    }
    assert(links@.take(k as int) =~= links@);
    r
}

/// The menus of a page shown in `mode` (none when the page is not
/// published), the link to `probableurl` marked active.
pub fn generate_menus(mode: Option<&ModeConfig>, probableurl: &str) -> (r: Menulist)
    ensures
        match mode {
            Some(m) => r.menu1@ == menu_html(m.menulinks@, probableurl@, false) && r.menu2@
                == menu_html(m.menu2links@, probableurl@, true),
            None => r.menu1@ == Seq::<char>::empty() && r.menu2@ == Seq::<char>::empty(),
        },
{
    match mode {
        Some(m) => Menulist {
            menu1: menu_of(&m.menulinks, probableurl, false),
            menu2: menu_of(&m.menu2links, probableurl, true),
        },
        None => Menulist { menu1: String::new(), menu2: String::new() },
    }
}

/// `s` with HTML's special characters escaped: `&`, `<`, `>`, `"`, `'`.
pub open spec fn html_escaped(s: Seq<char>) -> Seq<char> {
    replace_all(
        replace_all(
            replace_all(replace_all(replace_all(s, "&"@, "&amp;"@), "<"@, "&lt;"@), ">"@, "&gt;"@),
            "\""@,
            "&quot;"@,
        ),
        "'"@,
        "&#039;"@,
    )
}

/// `s` with HTML's special characters escaped.
pub fn html_escape(s: &str) -> (r: String)
    ensures
        r@ == html_escaped(s@),
{
    proof {
        reveal_strlit("&");
        reveal_strlit("<");
        reveal_strlit(">");
        reveal_strlit("\"");
        reveal_strlit("'");
    }
    let a = replace_str(s, "&", "&amp;");
    let b = replace_str(a.as_str(), "<", "&lt;");
    let c = replace_str(b.as_str(), ">", "&gt;");
    let d = replace_str(c.as_str(), "\"", "&quot;");
    replace_str(d.as_str(), "'", "&#039;")
}

/// HTML of markdown compiled with the `markdown` crate's GitHub-flavoured
/// options, raw HTML and dangerous protocols allowed, or `None` where it
/// reports an error.
pub uninterp spec fn markdown_gfm_unsafe(src: Seq<char>) -> Option<Seq<char>>;

/// Compiles markdown with GitHub-flavoured options, raw HTML and dangerous
/// protocols allowed (`markdown::to_html_with_options`); the result is named
/// `markdown_gfm_unsafe` of the input.
#[verifier::external_body]
fn markdown_to_html_unsafe(src: &str) -> (r: Option<String>)
    ensures
        match r {
            Some(h) => markdown_gfm_unsafe(src@) == Some(h@),
            None => markdown_gfm_unsafe(src@) is None,
        },
{
    let options = markdown::Options {
        compile: markdown::CompileOptions {
            allow_dangerous_html: true,
            allow_dangerous_protocol: true,
            ..markdown::CompileOptions::default()
        },
        ..markdown::Options::gfm()
    };
    markdown::to_html_with_options(src, &options).ok()
}

/// A page's content as HTML by its markup type (case-insensitive): HTML is
/// shown escaped, text as preformatted, markdown compiled; `None` for a
/// markup type not known, or where markdown does not compile.
pub open spec fn markup_html(markup_type: Seq<char>, raw: Seq<char>) -> Option<Seq<char>> {
    let m = lowercase(markup_type);
    if m == "html"@ || m == "webfile"@ {
        Some("<div id=\"pagecontent\">"@ + html_escaped(raw) + "</div>"@)
    } else if m == "text"@ || m == "raw"@ {
        Some("<div><pre>"@ + raw + "</pre></div>"@)
    } else if m == "markdown"@ || m == "md"@ || m == ""@ {
        match markdown_gfm_unsafe(raw) {
            Some(h) => Some("<div id=\"pagecontent\">"@ + h + "</div>"@),
            None => None,
        }
    } else {
        None
    }
}

/// What a page's content turns into.
pub enum PageContent {
    /// The content as HTML.
    Html(String),
    /// The markup type is not known.
    TypeError,
    /// The markdown compiler reported an error.
    MarkdownError,
}

/// A page's content as HTML by its markup type; see `markup_html`.
pub fn render_markup(markup_type: &str, raw: &str) -> (r: PageContent)
    ensures
        ({
            let m = lowercase(markup_type@);
            if m == "html"@ || m == "webfile"@ || m == "text"@ || m == "raw"@ || m == "markdown"@
                || m == "md"@ || m == ""@ {
                match markup_html(markup_type@, raw@) {
                    Some(h) => r matches PageContent::Html(s) && s@ == h,
                    None => r is MarkdownError,
                }
            } else {
                r is TypeError
            }
        }),
{
    let m = to_lower(markup_type);
    let ms = m.as_str();
    if str_eq(ms, "html") || str_eq(ms, "webfile") {
        let e = html_escape(raw);
        PageContent::Html(concat3("<div id=\"pagecontent\">", e.as_str(), "</div>"))
    } else if str_eq(ms, "text") || str_eq(ms, "raw") {
        PageContent::Html(concat3("<div><pre>", raw, "</pre></div>"))
    } else if str_eq(ms, "markdown") || str_eq(ms, "md") || str_eq(ms, "") {
        match markdown_to_html_unsafe(raw) {
            Some(h) => PageContent::Html(concat3("<div id=\"pagecontent\">", h.as_str(), "</div>")),
            None => PageContent::MarkdownError,
        }
    } else {
        PageContent::TypeError
    }
}

/// Where a page's raw content is read from.
#[derive(PartialEq, Eq, Structural, Clone, Copy, Debug)]
pub enum ContentLocation {
    /// Downloaded from the url in the content's data.
    External,
    /// Read from the pages folder, at the path in the content's data.
    Local,
    /// The content's data itself.
    Inline,
    /// Not a known location.
    Unknown,
}

/// Where a page's raw content is read from, by the location named in its
/// metadata.
pub fn content_location(location: &str) -> (r: ContentLocation)
    ensures
        location@ == "external"@ ==> r == ContentLocation::External,
        location@ == "local"@ ==> r == ContentLocation::Local,
        location@ == "inline"@ ==> r == ContentLocation::Inline,
        location@ != "external"@ && location@ != "local"@ && location@ != "inline"@ ==> r
            == ContentLocation::Unknown,
{
    proof {
        reveal_strlit("external");
        reveal_strlit("local");
        reveal_strlit("inline");
        assert("external"@.len() == 8);
        assert("local"@.len() == 5);
        assert("inline"@.len() == 6);
    }
    if str_eq(location, "external") {
        ContentLocation::External
    } else if str_eq(location, "local") {
        ContentLocation::Local
    } else if str_eq(location, "inline") {
        ContentLocation::Inline
    } else {
        ContentLocation::Unknown
    }
}

/// The content of a post list page: its title as a heading over the table.
pub fn postlist_page(title: &str, table: &str) -> (r: String)
    ensures
        r@ == "<h1>"@ + title@ + "</h1>"@ + table@,
{
    let mut r = concat3("<h1>", title, "</h1>");
    r.append(table);
    r
}

/// Whether the content produced for a page is one of the error markers that
/// the page is passed through as.
pub open spec fn is_error_content_spec(c: Seq<char>) -> bool {
    c == "contentlocationerror"@ || c == "404error"@ || c == "contenttypeerror"@
}

/// Whether the content produced for a page is an error marker.
pub fn is_error_content(c: &str) -> (r: bool)
    ensures
        r == is_error_content_spec(c@),
{
    str_eq(c, "contentlocationerror") || str_eq(c, "404error") || str_eq(c, "contenttypeerror")
}

/// The text with em dashes, en dashes and euro signs written as HTML
/// character references.
pub open spec fn problematic_escaped(s: Seq<char>) -> Seq<char> {
    replace_all(replace_all(replace_all(s, "—"@, "&#8212;"@), "–"@, "&#8211;"@), "€"@, "&#8364;"@)
}

/// The text with em dashes, en dashes and euro signs written as HTML
/// character references.
pub fn escape_known_problematic_chars(s: &str) -> (r: String)
    ensures
        r@ == problematic_escaped(s@),
{
    proof {
        reveal_strlit("—");
        reveal_strlit("–");
        reveal_strlit("€");
    }
    let a = replace_str(s, "—", "&#8212;");
    let b = replace_str(a.as_str(), "–", "&#8211;");
    replace_str(b.as_str(), "€", "&#8364;")
}

/// The command list a plugin runs, written as JSON: its `execute` template
/// with `{{{input}}}` replaced by the text given (JSON-escaped, without its
/// quotes).
pub fn plugin_command_json(execute: &str, input: &str) -> (r: String)
    ensures
        r@ == replace_all(execute@, "{{{input}}}"@, input@),
{
    proof {
        reveal_strlit("{{{input}}}");
    }
    replace_str(execute, "{{{input}}}", input)
}

/// The commands, with each command equal to `token` replaced by `value`.
pub open spec fn substituted(cmds: Seq<String>, token: Seq<char>, value: Seq<char>) -> Seq<Seq<char>> {
    Seq::new(cmds.len(), |i: int| if cmds[i]@ == token { value } else { cmds[i]@ })
}

/// The commands a plugin runs, the placeholder `token` standing for `value`.
pub fn substitute_commands(cmds: &Vec<String>, token: &str, value: &str) -> (r: Vec<String>)
    ensures
        r@.len() == cmds@.len(),
        forall|i: int| 0 <= i < r@.len() ==> #[trigger] r@[i]@ == substituted(cmds@, token@, value@)[i],
{
    let mut r: Vec<String> = Vec::new();
    let mut k: usize = 0;
    while k < cmds.len()
        invariant
            k <= cmds@.len(),
            r@.len() == k,
            forall|i: int| 0 <= i < k ==> #[trigger] r@[i]@ == substituted(cmds@, token@, value@)[i],
        decreases cmds@.len() - k,
    {
        if str_eq(cmds[k].as_str(), token) {
            r.push(value.to_owned());
        } else {
            r.push(cmds[k].clone());
        }
        k = k + 1;
    }
    r
}

/// A lowercase hexadecimal digit (`d` below 16).
pub open spec fn hex_lower(d: int) -> char {
    if d < 10 {
        (d + 48) as char
    } else {
        (d + 87) as char
    }
}

/// How `serde_json` writes one character inside a string: `"` and `\` and
/// the control characters with short forms (backspace, tab, line feed, form
/// feed, carriage return) by their two-character escapes, the other control
/// characters below 0x20 as `\u00` and two lowercase hex digits, everything
/// else as itself.
pub open spec fn json_literal_char(c: char) -> Seq<char> {
    let n = c as u32;
    if c == '\x08' {
        seq!['\\', 'b']
    } else if c == '\t' {
        seq!['\\', 't']
    } else if c == '\n' {
        seq!['\\', 'n']
    } else if c == '\x0c' {
        seq!['\\', 'f']
    } else if c == '\r' {
        seq!['\\', 'r']
    } else if c == '"' {
        seq!['\\', '"']
    } else if c == '\\' {
        seq!['\\', '\\']
    } else if n < 0x20 {
        seq!['\\', 'u', '0', '0', hex_lower(n as int / 16), hex_lower(n as int % 16)]
    } else {
        seq![c]
    }
}

/// The escaped characters of `s`, in order.
pub open spec fn json_literal_body(s: Seq<char>) -> Seq<char>
    decreases s.len(),
{
    if s.len() == 0 {
        Seq::empty()
    } else {
        json_literal_body(s.drop_last()) + json_literal_char(s.last())
    }
}

/// A string written as a JSON string literal, as `serde_json::to_string`
/// writes a `str`: quote marks around its escaped characters.
pub open spec fn json_string_literal(s: Seq<char>) -> Seq<char> {
    seq!['"'] + json_literal_body(s) + seq!['"']
}

/// Writes a string as a JSON string literal with `serde_json::to_string`.
/// Serialising a `str` into memory cannot fail, so the result is unwrapped.
#[verifier::external_body]
fn json_quote(s: &str) -> (r: String)
    ensures
        r@ == json_string_literal(s@),
{
    serde_json::to_string(s).unwrap()
}

/// A JSON array of strings (`serde_json::from_str::<Vec<String>>`), or
/// `None` where the text is not one.
pub uninterp spec fn json_string_list(text: Seq<char>) -> Option<Seq<Seq<char>>>;

/// Reads a JSON array of strings with `serde_json::from_str`; the result is
/// named `json_string_list` of the text.
#[verifier::external_body]
fn parse_string_list(text: &str) -> (r: Option<Vec<String>>)
    ensures
        match r {
            Some(v) => json_string_list(text@) == Some(v@.map_values(|s: String| s@)),
            None => json_string_list(text@) is None,
        },
{
    serde_json::from_str::<Vec<String>>(text).ok()
}

/// The text handed to a plugin: the JSON string literal of `contents`
/// without its quotes.
pub fn plugin_input(contents: &str) -> (r: String)
    ensures
        r@ == json_literal_body(contents@),
{
    let q = json_quote(contents);
    let v = chars_of(q.as_str());
    let mut t = String::new();
    let mut k: usize = 1;
    while k < v.len() - 1
        invariant
            v@ == q@,
            v@.len() >= 2,
            1 <= k <= v@.len() - 1,
            t@ == q@.subrange(1, k as int),
        decreases v@.len() - 1 - k,
    {
        push_char(&mut t, v[k]);
        k = k + 1;
        assert(t@ =~= q@.subrange(1, k as int));
    }
    assert(q@.subrange(1, q@.len() - 1) =~= json_literal_body(contents@));
    t
}

/// The icon link of a mode's favicon, if it has one.
pub open spec fn favicon_tag_spec(favicon: Option<String>) -> Seq<char> {
    match favicon {
        Some(d) => "<link rel=\"shortcut icon\" href=\"/assets/"@ + d@ + "\" type=\"image/x-icon\"/>"@,
        None => Seq::empty(),
    }
}

/// The icon link of a mode's favicon, if it has one.
pub fn favicon_tag(favicon: &Option<String>) -> (r: String)
    ensures
        r@ == favicon_tag_spec(*favicon),
{
    match favicon {
        Some(d) => concat3("<link rel=\"shortcut icon\" href=\"/assets/", d.as_str(), "\" type=\"image/x-icon\"/>"),
        None => String::new(),
    }
}

/// Whether the page-information sidebar is shown: always for posts, else
/// by the page's own override, else by the mode's, else not.
pub open spec fn shows_pageinfo_spec(kind: Seq<char>, page_override: Option<bool>, mode_override: Option<bool>) -> bool {
    kind == "post"@ || match page_override {
        Some(b) => b,
        None => match mode_override {
            Some(b) => b,
            None => false,
        },
    }
}

/// Whether the page-information sidebar is shown.
pub fn shows_pageinfo(kind: &str, page_override: Option<bool>, mode_override: Option<bool>) -> (r:
    bool)
    ensures
        r == shows_pageinfo_spec(kind@, page_override, mode_override),
{
    str_eq(kind, "post") || match page_override {
        Some(b) => b,
        None => match mode_override {
            Some(b) => b,
            None => false,
        },
    }
}

/// The sidebar markup of the page information, when shown.
pub fn pageinfo_sidebar(show: bool) -> (r: &'static str)
    ensures
        show ==> r@ == "<span class=\"pageinfosidebar\" id=\"pageinfosidebartoggle\" style=\"transition: all 1s ease-out 0s; width: 0px; font-size: 3em; bottom: 215px; display: none; text-align: right; padding: 0px; cursor: pointer;\" onclick=\"pageinfosidebar_rollout()\">➧</span>\n\t<div class=\"pageinfosidebar\" id=\"cynthiapageinfoshowdummyelem\"></div>"@,
        !show ==> r@ == ""@,
{
    if show {
        "<span class=\"pageinfosidebar\" id=\"pageinfosidebartoggle\" style=\"transition: all 1s ease-out 0s; width: 0px; font-size: 3em; bottom: 215px; display: none; text-align: right; padding: 0px; cursor: pointer;\" onclick=\"pageinfosidebar_rollout()\">➧</span>\n\t<div class=\"pageinfosidebar\" id=\"cynthiapageinfoshowdummyelem\"></div>"
    } else {
        ""
    }
}

/// The script that hands the page's metadata to the browser.
pub fn pagemeta_script(meta_json: &str) -> (r: String)
    ensures
        r@ == "<script>\n\t\tconst pagemetainfo = JSON.parse(`"@ + meta_json@ + "`);\n\t</script>"@,
{
    concat3("<script>\n\t\tconst pagemetainfo = JSON.parse(`", meta_json, "`);\n\t</script>")
}

/// The body after the template: the rendered template and the client
/// script, closing the document.
pub fn template_output(rendered: &str, client_js: &str) -> (r: String)
    ensures
        r@ == "\n"@ + rendered@ + "\n\n\n\n<script>"@ + client_js@ + "</script>\n\n</html>"@,
{
    let mut r = concat3("\n", rendered, "\n\n\n\n<script>");
    r.append(client_js);
    r.append("</script>\n\n</html>");
    r
}

/// The variables a page template is rendered with.
pub struct PageVars {
    pub head: String,
    pub content: String,
    pub menu1: String,
    pub menu2: String,
    pub infoshow: String,
}

/// The template variables as a JSON object: each field by its name, its
/// value as a JSON string literal, in declaration order.
pub open spec fn page_vars_json(v: PageVars) -> Seq<char> {
    "{\"head\":"@ + json_string_literal(v.head@) + ",\"content\":"@ + json_string_literal(
        v.content@,
    ) + ",\"menu1\":"@ + json_string_literal(v.menu1@) + ",\"menu2\":"@ + json_string_literal(
        v.menu2@,
    ) + ",\"infoshow\":"@ + json_string_literal(v.infoshow@) + "}"@
}

/// The template variables as a JSON object; see `page_vars_json`.
pub fn page_vars_json_text(v: &PageVars) -> (r: String)
    ensures
        r@ == page_vars_json(*v),
{
    let h = json_quote(v.head.as_str());
    let c = json_quote(v.content.as_str());
    let m1 = json_quote(v.menu1.as_str());
    let m2 = json_quote(v.menu2.as_str());
    let i = json_quote(v.infoshow.as_str());
    let mut r = concat2("{\"head\":", h.as_str());
    r.append(",\"content\":");
    r.append(c.as_str());
    r.append(",\"menu1\":");
    r.append(m1.as_str());
    r.append(",\"menu2\":");
    r.append(m2.as_str());
    r.append(",\"infoshow\":");
    r.append(i.as_str());
    r.append("}");
    r
}

/// What a fresh `handlebars::Handlebars` registry renders for `template`
/// with the JSON value `data_json` as data (`render_template`), or `None`
/// where the data is not JSON or the template fails to render.
pub uninterp spec fn handlebars_rendered(template: Seq<char>, data_json: Seq<char>) -> Option<Seq<char>>;

/// Renders a handlebars template with a fresh registry
/// (`Handlebars::render_template`), the data given as JSON text and read
/// into a `serde_json::Value` first. The result is named
/// `handlebars_rendered` of the two texts.
#[verifier::external_body]
fn render_handlebars(template: &str, data_json: &str) -> (r: Option<String>)
    ensures
        match r {
            Some(h) => handlebars_rendered(template@, data_json@) == Some(h@),
            None => handlebars_rendered(template@, data_json@) is None,
        },
{
    let data: serde_json::Value = match serde_json::from_str(data_json) {
        Ok(v) => v,
        Err(_) => return None,
    };
    handlebars::Handlebars::new().render_template(template, &data).ok()
}

/// The body of a page: error markers are handed on unchanged; otherwise the
/// template rendered with the page's variables, followed by the client
/// script and the end of the document (see `template_output`). `None` where
/// the template does not render.
pub fn combine_page(content: &str, template: &str, vars: &PageVars, client_js: &str) -> (r: Option<
    String,
>)
    ensures
        is_error_content_spec(content@) ==> (r matches Some(t) && t@ == content@),
        !is_error_content_spec(content@) ==> match handlebars_rendered(template@, page_vars_json(*vars)) {
            Some(h) => r matches Some(t) && t@ == "\n"@ + h + "\n\n\n\n<script>"@ + client_js@
                + "</script>\n\n</html>"@,
            None => r is None,
        },
{
    if is_error_content(content) {
        return Some(content.to_owned());
    }
    let data = page_vars_json_text(vars);
    match render_handlebars(template, data.as_str()) {
        Some(h) => Some(template_output(h.as_str(), client_js)),
        None => None,
    }
}

/// The finished page: the document head comment, then the output the
/// plugins left.
pub fn finish_page(version: &str, output: &str) -> (r: String)
    ensures
        r@ == "<!DOCTYPE html>\n<html>\n<!--\n\nGenerated and hosted through Cynthia v"@ + version@
            + ", by Strawmelonjuice.\nAlso see:\t<https://github.com/strawmelonjuice/CynthiaWebsiteEngine/blob/main/README.MD>\n\n-->\n\n\n\n\r"@
            + output@,
{
    let mut r = concat3(
        "<!DOCTYPE html>\n<html>\n<!--\n\nGenerated and hosted through Cynthia v",
        version,
        ", by Strawmelonjuice.\nAlso see:\t<https://github.com/strawmelonjuice/CynthiaWebsiteEngine/blob/main/README.MD>\n\n-->\n\n\n\n\r",
    );
    r.append(output);
    r
}

/// The route argument without one trailing `/`.
pub open spec fn strip_trailing_slash_spec(s: Seq<char>) -> Seq<char> {
    if s.len() > 0 && s.last() == '/' {
        s.drop_last()
    } else {
        s
    }
}

/// The route argument without one trailing `/`.
pub fn strip_trailing_slash(s: &str) -> (r: String)
    ensures
        r@ == strip_trailing_slash_spec(s@),
{
    let v = chars_of(s);
    let n = v.len();
    let end = if n > 0 && v[n - 1] == '/' {
        n - 1
    } else {
        n
    };
    let mut r = String::new();
    let mut k: usize = 0;
    while k < end
        invariant
            v@ == s@,
            end <= v@.len(),
            k <= end,
            r@ == s@.take(k as int),
        decreases end - k,
    {
        push_char(&mut r, v[k]);
        k = k + 1;
        assert(r@ =~= s@.take(k as int));
    }
    assert(s@.take(end as int) =~= strip_trailing_slash_spec(s@));
    r
}

/// The kind of file served, by its name's extension.
#[derive(PartialEq, Eq, Structural, Clone, Copy, Debug)]
pub enum MimeKind {
    Png,
    Jpeg,
    Json,
    JavaScript,
    Icon,
    Svg,
    Css,
    Plain,
}

/// The text after the last `.` of `s` (all of `s` without one).
pub open spec fn last_dot_part(s: Seq<char>) -> Seq<char>
    decreases s.len(),
{
    if s.len() == 0 {
        s
    } else if s.last() == '.' {
        Seq::empty()
    } else {
        last_dot_part(s.drop_last()).push(s.last())
    }
}

/// The kind of a file by the (lower-cased, unquoted) extension of its name.
pub open spec fn mime_of(ext: Seq<char>) -> MimeKind {
    if ext == "png"@ {
        MimeKind::Png
    } else if ext == "jpg"@ {
        MimeKind::Jpeg
    } else if ext == "json"@ {
        MimeKind::Json
    } else if ext == "js"@ {
        MimeKind::JavaScript
    } else if ext == "ico"@ {
        MimeKind::Icon
    } else if ext == "svg"@ {
        MimeKind::Svg
    } else if ext == "css"@ {
        MimeKind::Css
    } else {
        MimeKind::Plain
    }
}

proof fn lemma_last_dot_part_ext(base: Seq<char>, ext: Seq<char>)
    requires
        forall|i: int| 0 <= i < ext.len() ==> ext[i] != '.',
    ensures
        last_dot_part(base + seq!['.'] + ext) == ext,
    decreases ext.len(),
{
    let s = base + seq!['.'] + ext;
    if ext.len() == 0 {
        assert(s.last() == '.');
        assert(last_dot_part(s) == Seq::<char>::empty());
        assert(ext =~= Seq::<char>::empty());
    } else {
        lemma_last_dot_part_ext(base, ext.drop_last());
        assert(s.drop_last() =~= base + seq!['.'] + ext.drop_last());
        assert(s.last() == ext.last());
        assert(ext.drop_last().push(ext.last()) =~= ext);
    }
}

/// A file is served by the kind its last extension names, whatever comes
/// before it: `.png`, `.jpg`, `.json`, `.js`, `.ico`, `.svg` and `.css`
/// each have a kind of their own, and any other extension is plain text.
pub proof fn law_mime_by_extension(base: Seq<char>, other: Seq<char>)
    requires
        forall|i: int| 0 <= i < other.len() ==> other[i] != '.',
    ensures
        mime_of(last_dot_part(base + "."@ + "png"@)) == MimeKind::Png,
        mime_of(last_dot_part(base + "."@ + "jpg"@)) == MimeKind::Jpeg,
        mime_of(last_dot_part(base + "."@ + "json"@)) == MimeKind::Json,
        mime_of(last_dot_part(base + "."@ + "js"@)) == MimeKind::JavaScript,
        mime_of(last_dot_part(base + "."@ + "ico"@)) == MimeKind::Icon,
        mime_of(last_dot_part(base + "."@ + "svg"@)) == MimeKind::Svg,
        mime_of(last_dot_part(base + "."@ + "css"@)) == MimeKind::Css,
        other != "png"@ && other != "jpg"@ && other != "json"@ && other != "js"@ && other != "ico"@
            && other != "svg"@ && other != "css"@ ==> mime_of(last_dot_part(base + "."@ + other))
            == MimeKind::Plain,
{
    reveal_strlit(".");
    reveal_strlit("png");
    reveal_strlit("jpg");
    reveal_strlit("json");
    reveal_strlit("js");
    reveal_strlit("ico");
    reveal_strlit("svg");
    reveal_strlit("css");
    assert("."@ =~= seq!['.']);
    assert("jpg"@[0] != "png"@[0]);
    assert("svg"@[0] != "png"@[0] && "svg"@[0] != "jpg"@[0] && "svg"@[0] != "ico"@[0]);
    assert("ico"@[0] != "png"@[0] && "ico"@[0] != "jpg"@[0]);
    assert("css"@[0] != "png"@[0] && "css"@[0] != "jpg"@[0] && "css"@[0] != "ico"@[0] && "css"@[0]
        != "svg"@[0]);
    lemma_last_dot_part_ext(base, "png"@);
    lemma_last_dot_part_ext(base, "jpg"@);
    lemma_last_dot_part_ext(base, "json"@);
    lemma_last_dot_part_ext(base, "js"@);
    lemma_last_dot_part_ext(base, "ico"@);
    lemma_last_dot_part_ext(base, "svg"@);
    lemma_last_dot_part_ext(base, "css"@);
    lemma_last_dot_part_ext(base, other);
}

/// The kind of file served, by its name: double quotes dropped, lower-cased,
/// the part after the last dot.
pub fn find_mimetype(filename: &str) -> (r: MimeKind)
    ensures
        r == mime_of(last_dot_part(lowercase(replace_all(filename@, "\""@, ""@)))),
{
    proof {
        reveal_strlit("\"");
    }
    let unquoted = replace_str(filename, "\"", "");
    let lower = to_lower(unquoted.as_str());
    let v = chars_of(lower.as_str());
    let mut start = v.len();
    assert(lower@.take(start as int) =~= lower@);
    assert(lower@.subrange(start as int, lower@.len() as int) =~= Seq::<char>::empty());
    assert(last_dot_part(lower@) =~= last_dot_part(lower@) + Seq::<char>::empty());
    while start > 0 && v[start - 1] != '.'
        invariant
            v@ == lower@,
            start <= v@.len(),
            last_dot_part(lower@) == last_dot_part(lower@.take(start as int)) + lower@.subrange(
                start as int,
                lower@.len() as int,
            ),
        decreases start,
    {
        proof {
            let t = lower@.take(start as int);
            assert(t.drop_last() =~= lower@.take(start - 1));
            assert(lower@.subrange(start - 1, lower@.len() as int) =~= seq![t.last()]
                + lower@.subrange(start as int, lower@.len() as int));
        }
        start = start - 1;
    }
    proof {
        if start > 0 {
            let t = lower@.take(start as int);
            assert(t.last() == '.');
        } else {
            assert(lower@.take(0) =~= Seq::<char>::empty());
        }
    }
    let mut ext = String::new();
    let mut k = start;
    while k < v.len()
        invariant
            v@ == lower@,
            start <= k <= v@.len(),
            ext@ == lower@.subrange(start as int, k as int),
        decreases v@.len() - k,
    {
        push_char(&mut ext, v[k]);
        k = k + 1;
        assert(ext@ =~= lower@.subrange(start as int, k as int));
    }
    assert(last_dot_part(lower@) =~= ext@);
    let e = ext.as_str();
    if str_eq(e, "png") {
        MimeKind::Png
    } else if str_eq(e, "jpg") {
        MimeKind::Jpeg
    } else if str_eq(e, "json") {
        MimeKind::Json
    } else if str_eq(e, "js") {
        MimeKind::JavaScript
    } else if str_eq(e, "ico") {
        MimeKind::Icon
    } else if str_eq(e, "svg") {
        MimeKind::Svg
    } else if str_eq(e, "css") {
        MimeKind::Css
    } else {
        MimeKind::Plain
    }
}

/// The media type of a kind of file.
pub fn mime_essence(k: MimeKind) -> (r: &'static str)
    ensures
        k == MimeKind::Png ==> r@ == "image/png"@,
        k == MimeKind::Jpeg ==> r@ == "image/jpeg"@,
        k == MimeKind::Json ==> r@ == "application/json"@,
        k == MimeKind::JavaScript ==> r@ == "text/javascript"@,
        k == MimeKind::Icon ==> r@ == "image/vnd.microsoft.icon"@,
        k == MimeKind::Svg ==> r@ == "image/svg+xml"@,
        k == MimeKind::Css ==> r@ == "text/css"@,
        k == MimeKind::Plain ==> r@ == "text/plain"@,
{
    match k {
        MimeKind::Png => "image/png",
        MimeKind::Jpeg => "image/jpeg",
        MimeKind::Json => "application/json",
        MimeKind::JavaScript => "text/javascript",
        MimeKind::Icon => "image/vnd.microsoft.icon",
        MimeKind::Svg => "image/svg+xml",
        MimeKind::Css => "text/css",
        MimeKind::Plain => "text/plain",
    }
}

/// The url prefix a plugin's hosted folder is served under: its mount
/// point, with a `/` added unless it ends in one.
pub open spec fn mount_prefix(mount: Seq<char>) -> Seq<char> {
    if mount.len() > 0 && mount.last() == '/' {
        mount
    } else {
        mount + "/"@
    }
}

/// The file a request for `id` is served from by a plugin's hosted folder
/// (`folder` in the plugin, mounted at `mount`), when `id` lies under it:
/// every occurrence of the mount prefix is dropped from `id`.
pub fn hosted_file(id: &str, plugin_name: &str, folder: &str, mount: &str) -> (r: Option<String>)
    ensures
        starts_with(id@, mount_prefix(mount@)) ==> (r matches Some(p) && p@ == "./plugins/"@
            + plugin_name@ + "/"@ + folder@ + "/"@ + replace_all(id@, mount_prefix(mount@), ""@)),
        !starts_with(id@, mount_prefix(mount@)) ==> r is None,
{
    let mv = chars_of(mount);
    let prefix = if mv.len() > 0 && mv[mv.len() - 1] == '/' {
        mount.to_owned()
    } else {
        concat2(mount, "/")
    };
    proof {
        if !(mv@.len() > 0 && mv@.last() == '/') {
            reveal_strlit("/");
        }
    }
    assert(prefix@ == mount_prefix(mount@));
    if str_starts_with(id, prefix.as_str()) {
        let fid = if prefix.as_str().unicode_len() == 0 {
            id.to_owned()
        } else {
            replace_str(id, prefix.as_str(), "")
        };
        let mut p = concat3("./plugins/", plugin_name, "/");
        p.append(folder);
        p.append("/");
        p.append(fid.as_str());
        Some(p)
    } else {
        None
    }
}

/// The uppercase hexadecimal digit for `d` (below 16).
pub open spec fn hex_digit(d: int) -> char {
    if d < 10 {
        (d + 48) as char
    } else {
        (d + 55) as char
    }
}

/// Four uppercase hexadecimal digits of `u` (below 65536).
pub open spec fn hex4(u: int) -> Seq<char> {
    seq![
        hex_digit((u / 4096) % 16),
        hex_digit((u / 256) % 16),
        hex_digit((u / 16) % 16),
        hex_digit(u % 16),
    ]
}

/// `\u` escapes of the UTF-16 code units of `c`.
pub open spec fn utf16_escape(c: char) -> Seq<char> {
    let n = (c as u32) as int;
    if n < 0x10000 {
        "\\u"@ + hex4(n)
    } else {
        "\\u"@ + hex4(0xD800 + (n - 0x10000) / 1024) + "\\u"@ + hex4(0xDC00 + (n - 0x10000) % 1024)
    }
}

/// How one character is written inside a JSON string: control characters
/// and `"` by their escapes, a backslash as itself, visible ASCII as itself,
/// anything else by its UTF-16 escapes.
pub open spec fn json_char(c: char) -> Seq<char> {
    if c == '\x08' {
        "\\b"@
    } else if c == '\x0c' {
        "\\f"@
    } else if c == '\n' {
        "\\n"@
    } else if c == '\r' {
        "\\r"@
    } else if c == '\t' {
        "\\t"@
    } else if c == '"' {
        "\\\""@
    } else if c == '\\' {
        "\\"@
    } else if 0x21 <= (c as u32) <= 0x7e {
        seq![c]
    } else {
        utf16_escape(c)
    }
}

/// `s` written inside a JSON string, character by character.
pub open spec fn json_escaped(s: Seq<char>) -> Seq<char>
    decreases s.len(),
{
    if s.len() == 0 {
        Seq::empty()
    } else {
        json_escaped(s.drop_last()) + json_char(s.last())
    }
}

/// Every character is visible ASCII (`!` through `~`).
pub open spec fn ascii_graphic(s: Seq<char>) -> bool {
    forall|i: int| 0 <= i < s.len() ==> 0x21 <= #[trigger] (s[i] as u32) <= 0x7e
}

proof fn lemma_hex4_graphic(u: int)
    requires
        0 <= u,
    ensures
        ascii_graphic(hex4(u)),
{
    assert(0 <= (u / 4096) % 16 < 16);
    assert(0 <= (u / 256) % 16 < 16);
    assert(0 <= (u / 16) % 16 < 16);
    assert(0 <= u % 16 < 16);
}

proof fn lemma_json_char_graphic(c: char)
    ensures
        ascii_graphic(json_char(c)),
{
    reveal_strlit("\\b");
    reveal_strlit("\\f");
    reveal_strlit("\\n");
    reveal_strlit("\\r");
    reveal_strlit("\\t");
    reveal_strlit("\\\"");
    reveal_strlit("\\");
    reveal_strlit("\\u");
    let n = (c as u32) as int;
    if n >= 0x10000 {
        lemma_hex4_graphic(0xD800 + (n - 0x10000) / 1024);
        lemma_hex4_graphic(0xDC00 + (n - 0x10000) % 1024);
        let a = "\\u"@ + hex4(0xD800 + (n - 0x10000) / 1024);
        let b = "\\u"@ + hex4(0xDC00 + (n - 0x10000) % 1024);
        assert(ascii_graphic(a));
        assert(ascii_graphic(b));
        assert forall|i: int| 0 <= i < (a + b).len() implies 0x21 <= #[trigger] ((a + b)[i] as u32) <= 0x7e by {
            if i < a.len() {
                assert((a + b)[i] == a[i]);
            } else {
                assert((a + b)[i] == b[i - a.len()]);
            }
        }
    } else {
        lemma_hex4_graphic(n);
    }
}

/// Whatever it is given, the JSON escaper writes only visible ASCII
/// characters: spaces, control characters and everything beyond ASCII come
/// out as escapes.
pub proof fn law_json_escape_printable(s: Seq<char>)
    ensures
        ascii_graphic(json_escaped(s)),
    decreases s.len(),
{
    if s.len() > 0 {
        law_json_escape_printable(s.drop_last());
        lemma_json_char_graphic(s.last());
        let a = json_escaped(s.drop_last());
        let b = json_char(s.last());
        assert forall|i: int| 0 <= i < (a + b).len() implies 0x21 <= #[trigger] ((a + b)[i] as u32) <= 0x7e by {
            if i < a.len() {
                assert((a + b)[i] == a[i]);
            } else {
                assert((a + b)[i] == b[i - a.len()]);
            }
        }
    }
}

fn hex_char(d: u32) -> (c: char)
    requires
        d < 16,
    ensures
        c == hex_digit(d as int),
{
    let b = d as u8;
    if b < 10 {
        (b + 48) as char
    } else {
        (b + 55) as char
    }
}

fn push_hex4(out: &mut String, u: u32)
    requires
        u < 65536,
    ensures
        final(out)@ == old(out)@ + "\\u"@ + hex4(u as int),
{
    out.append("\\u");
    push_char(out, hex_char((u / 4096) % 16));
    push_char(out, hex_char((u / 256) % 16));
    push_char(out, hex_char((u / 16) % 16));
    push_char(out, hex_char(u % 16));
    assert(final(out)@ =~= old(out)@ + "\\u"@ + hex4(u as int)) by {
        reveal_strlit("\\u");
    }
}

/// `src` written inside a JSON string; see `json_char`.
pub fn escape_json(src: &str) -> (r: String)
    ensures
        r@ == json_escaped(src@),
{
    let v = chars_of(src);
    let mut out = String::new();
    let mut k: usize = 0;
    while k < v.len()
        invariant
            v@ == src@,
            k <= v@.len(),
            out@ == json_escaped(src@.take(k as int)),
        decreases v@.len() - k,
    {
        assert(src@.take(k + 1).drop_last() =~= src@.take(k as int));
        let c = v[k];
        let ghost before = out@;
        if c == '\x08' {
            out.append("\\b");
        } else if c == '\x0c' {
            out.append("\\f");
        } else if c == '\n' {
            out.append("\\n");
        } else if c == '\r' {
            out.append("\\r");
        } else if c == '\t' {
            out.append("\\t");
        } else if c == '"' {
            out.append("\\\"");
        } else if c == '\\' {
            out.append("\\");
        } else {
            proof {
                vstd::utf8::char_is_scalar(c);
            }
            let n = c as u32;
            if 0x21 <= n && n <= 0x7e {
                push_char(&mut out, c);
            } else if n < 0x10000 {
                push_hex4(&mut out, n);
            } else {
                let m = n - 0x10000;
                push_hex4(&mut out, 0xD800 + m / 1024);
                push_hex4(&mut out, 0xDC00 + m % 1024);
            }
        }
        assert(out@ =~= before + json_char(c));
        k = k + 1;
    }
    assert(src@.take(k as int) =~= src@);
    out
}

/// The meta tag of a post's thumbnail, if it has one.
pub open spec fn thumbnail_meta_spec(thumbnail: Option<String>) -> Seq<char> {
    match thumbnail {
        Some(d) => "<meta name=\"og:image\" content=\""@ + d@ + "\">"@,
        None => Seq::empty(),
    }
}

/// The meta tag of a post's thumbnail, if it has one.
pub fn thumbnail_meta(thumbnail: &Option<String>) -> (r: String)
    ensures
        r@ == thumbnail_meta_spec(*thumbnail),
{
    match thumbnail {
        Some(d) => concat3("<meta name=\"og:image\" content=\"", d.as_str(), "\">"),
        None => String::new(),
    }
}

/// The meta tags describing a post (none for other pages): title,
/// description (or a note that there is none), thumbnail and author (or
/// `Unknown author.`).
pub open spec fn post_metatags_spec(kind: Seq<char>, title: Seq<char>, short: Option<String>, thumbnail: Option<String>, author: Option<String>) -> Seq<char> {
    if kind == "post"@ {
        let d = match short {
            Some(s) => s@,
            None => "No description available."@,
        };
        let a = match author {
            Some(n) => n@,
            None => "Unknown author."@,
        };
        "\n                        <meta name=\"og:title\" content=\""@ + title + "\">\n      <meta name=\"description\" content=\""@ + d + "\">\n      <meta name=\"og:description\" content=\""@ + d + "\">\n        "@ + thumbnail_meta_spec(thumbnail)
            + "\n      <meta name=\"author\" content=\""@ + a + "\">\n      <meta name=\"og:author\" content=\""@ + a + "\">\n                        "@
    } else {
        Seq::empty()
    }
}

/// The meta tags describing a post; see `post_metatags_spec`.
pub fn post_metatags(kind: &str, title: &str, short: &Option<String>, thumbnail: &Option<String>, author: &Option<String>) -> (r: String)
    ensures
        r@ == post_metatags_spec(kind@, title@, *short, *thumbnail, *author),
{
    if !str_eq(kind, "post") {
        return String::new();
    }
    let d = match short {
        Some(s) => s.clone(),
        None => String::from_str("No description available."),
    };
    let a = match author {
        Some(n) => n.clone(),
        None => String::from_str("Unknown author."),
    };
    let t = thumbnail_meta(thumbnail);
    let mut r = concat3("\n                        <meta name=\"og:title\" content=\"", title, "\">\n      <meta name=\"description\" content=\"");
    r.append(d.as_str());
    r.append("\">\n      <meta name=\"og:description\" content=\"");
    r.append(d.as_str());
    r.append("\">\n        ");
    r.append(t.as_str());
    r.append("\n      <meta name=\"author\" content=\"");
    r.append(a.as_str());
    r.append("\">\n      <meta name=\"og:author\" content=\"");
    r.append(a.as_str());
    r.append("\">\n                        ");
    r
}

/// The head of a page: the style sheet, the icon link, the meta tags,
/// jQuery, and the title (site name, dash, page title).
pub open spec fn page_head_spec(stylesheet: Seq<char>, favicon: Seq<char>, metatags: Seq<char>, sitename: Seq<char>, title: Seq<char>) -> Seq<char> {
    "\n            <style>\n\t"@ + stylesheet + "\n\t</style>\n\t"@ + favicon + "\n\t"@ + metatags + "\n\t<script src=\"https://cdn.jsdelivr.net/npm/jquery@latest/dist/jquery.min.js\"></script>\n\t<title>"@ + sitename + "&ensp;&ndash;&ensp;"@ + title + "</title>\n\t"@
}

/// The head of a page; see `page_head_spec`.
pub fn page_head(stylesheet: &str, favicon: &str, metatags: &str, sitename: &str, title: &str) -> (r: String)
    ensures
        r@ == page_head_spec(stylesheet@, favicon@, metatags@, sitename@, title@),
{
    let mut r = concat3("\n            <style>\n\t", stylesheet, "\n\t</style>\n\t");
    r.append(favicon);
    r.append("\n\t");
    r.append(metatags);
    r.append("\n\t<script src=\"https://cdn.jsdelivr.net/npm/jquery@latest/dist/jquery.min.js\"></script>\n\t<title>");
    r.append(sitename);
    r.append("&ensp;&ndash;&ensp;");
    r.append(title);
    r.append("</title>\n\t");
    r
}

/// The commands a plugin runs over `contents`: its `execute` template with
/// the contents (as the inside of a JSON string) put in for `{{{input}}}`,
/// read as a JSON list of strings, each command equal to `token` standing
/// for the contents themselves. `None` where the filled template is not a
/// JSON list of strings.
pub fn plugin_commands(execute: &str, contents: &str, token: &str) -> (r: Option<Vec<String>>)
    ensures
        match json_string_list(replace_all(execute@, "{{{input}}}"@, json_literal_body(contents@))) {
            None => r is None,
            Some(cmds) => r matches Some(v) && v@.len() == cmds.len() && forall|i: int|
                0 <= i < cmds.len() ==> #[trigger] v@[i]@ == if cmds[i] == token@ {
                    contents@
                } else {
                    cmds[i]
                },
        },
{
    let input = plugin_input(contents);
    let json = plugin_command_json(execute, input.as_str());
    match parse_string_list(json.as_str()) {
        Some(cmds) => {
            let v = substitute_commands(&cmds, token, contents);
            assert forall|i: int| 0 <= i < cmds@.len() implies #[trigger] v@[i]@ == if cmds@[i]@ == token@ {
                contents@
            } else {
                cmds@[i]@
            } by {
                assert(substituted(cmds@, token@, contents@)[i] == if cmds@[i]@ == token@ {
                    contents@
                } else {
                    cmds@[i]@
                });
            }
            assert(json_string_list(json@) == Some(cmds@.map_values(|s: String| s@)));
            Some(v)
        },
        None => None,
    }
}

} // verus!
