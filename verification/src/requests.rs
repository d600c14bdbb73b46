//! The decisions of request handling: which page a request asks for, what
//! the plugin runtime's answer means for it, and the line logged for it.

use vstd::prelude::*;
use vstd::string::*;
use crate::text::{concat2, concat3, push_char, replace_all, replace_str, chars_of};
use crate::tell::{colored, CynthiaColors};
use crate::plugin_server::EPSResponseBody;
use crate::renders::PGIDCheckResponse;

verus! {

/// The width a request's url is right-aligned in, and the most characters
/// of it that are shown.
pub fn urlspace() -> (r: (usize, usize))
    ensures
        r == (27usize, 30usize),
{
    let w_a: usize = 30;
    let w_s: usize = w_a - 3;
    (w_s, w_a)
}

/// The url as shown: `/` for an empty one.
pub open spec fn display_uri_spec(uri: Seq<char>) -> Seq<char> {
    if uri.len() == 0 {
        "/"@
    } else {
        uri
    }
}

/// The url as shown: `/` for an empty one.
pub fn display_uri(uri: &str) -> (r: String)
    ensures
        r@ == display_uri_spec(uri@),
{
    if uri.unicode_len() == 0 {
        String::from_str("/")
    } else {
        uri.to_owned()
    }
}

/// The page a request asks for: `root` for an empty url, else the url.
pub open spec fn page_uri_spec(uri: Seq<char>) -> Seq<char> {
    if uri.len() == 0 {
        "root"@
    } else {
        uri
    }
}

/// The page a request asks for: `root` for an empty url, else the url.
pub fn page_uri_of(uri: &str) -> (r: String)
    ensures
        r@ == page_uri_spec(uri@),
{
    if uri.unicode_len() == 0 {
        String::from_str("root")
    } else {
        uri.to_owned()
    }
}

/// Number of leading `/` of `s`.
pub open spec fn leading_slashes(s: Seq<char>) -> nat
    decreases s.len(),
{
    if s.len() > 0 && s[0] == '/' {
        1 + leading_slashes(s.skip(1))
    } else {
        0
    }
}

/// The page id of a page url: the url without its leading slashes.
pub open spec fn page_id_spec(page_uri: Seq<char>) -> Seq<char> {
    page_uri.skip(leading_slashes(page_uri) as int)
}

proof fn lemma_leading_slashes(s: Seq<char>, i: int)
    requires
        0 <= i <= s.len(),
        forall|j: int| 0 <= j < i ==> s[j] == '/',
        i == s.len() || s[i] != '/',
    ensures
        leading_slashes(s) == i,
    decreases i,
{
    if i > 0 {
        assert forall|j: int| 0 <= j < i - 1 implies s.skip(1)[j] == '/' by {
            assert(s.skip(1)[j] == s[j + 1]);
        }
        if i - 1 < s.skip(1).len() {
            assert(s.skip(1)[i - 1] == s[i]);
        }
        lemma_leading_slashes(s.skip(1), i - 1);
    }
}

/// The page id of a page url: the url without its leading slashes
/// (`trim_start_matches('/')`).
pub fn page_id_of(page_uri: &str) -> (r: String)
    ensures
        r@ == page_id_spec(page_uri@),
{
    let v = chars_of(page_uri);
    let mut i: usize = 0;
    while i < v.len() && v[i] == '/'
        invariant
            v@ == page_uri@,
            i <= v@.len(),
            forall|j: int| 0 <= j < i ==> page_uri@[j] == '/',
        decreases v@.len() - i,
    {
        i = i + 1;
    }
    proof {
        lemma_leading_slashes(page_uri@, i as int);
    }
    let mut r = String::new();
    let mut k = i;
    while k < v.len()
        invariant
            v@ == page_uri@,
            i <= k <= v@.len(),
            r@ == page_uri@.subrange(i as int, k as int),
        decreases v@.len() - k,
    {
        push_char(&mut r, v[k]);
        k = k + 1;
        assert(r@ =~= page_uri@.subrange(i as int, k as int));
    }
    assert(r@ =~= page_uri@.skip(i as int));
    r
}

/// `s` cut to at most `precision` characters, then right-aligned in
/// `width` columns (`{:>width$.precision$}`).
pub open spec fn fit_right(s: Seq<char>, width: nat, precision: nat) -> Seq<char> {
    let t = if s.len() > precision {
        s.take(precision as int)
    } else {
        s
    };
    if t.len() < width {
        Seq::new((width - t.len()) as nat, |i: int| ' ') + t
    } else {
        t
    }
}

/// `s` cut to at most `precision` characters, then right-aligned in
/// `width` columns.
pub fn fit_uri(s: &str, width: usize, precision: usize) -> (r: String)
    ensures
        r@ == fit_right(s@, width as nat, precision as nat),
{
    let v = chars_of(s);
    let n = if v.len() > precision {
        precision
    } else {
        v.len()
    };
    let mut r = String::new();
    if n < width {
        let mut p: usize = 0;
        while p < width - n
            invariant
                n < width,
                p <= width - n,
                r@ == Seq::new(p as nat, |i: int| ' '),
            decreases width - n - p,
        {
            push_char(&mut r, ' ');
            p = p + 1;
            assert(r@ =~= Seq::new(p as nat, |i: int| ' '));
        }
    }
    let ghost pad = r@;
    let mut k: usize = 0;
    while k < n
        invariant
            v@ == s@,
            n <= v@.len(),
            k <= n,
            r@ == pad + s@.take(k as int),
        decreases n - k,
    {
        push_char(&mut r, v[k]);
        k = k + 1;
        assert(r@ =~= pad + s@.take(k as int));
    }
    proof {
        if s@.len() <= precision {
            assert(s@.take(n as int) =~= s@);
        }
        if n >= width {
            assert(pad =~= Seq::<char>::empty());
        }
    }
    r
}

/// Where the answer to a request came from, as logged.
#[derive(PartialEq, Eq, Structural, Clone, Copy, Debug)]
pub enum RequestSource {
    Extern,
    Cache,
    Generated,
    Filesystem,
    NotFound,
}

/// The coloured label of where an answer came from.
pub open spec fn source_label(s: RequestSource) -> Seq<char> {
    match s {
        RequestSource::Extern => colored(243, 154, 245, "extern"@),
        RequestSource::Cache => colored(0, 255, 0, "cache"@),
        RequestSource::Generated => colored(243, 201, 35, "generated"@),
        RequestSource::Filesystem => colored(200, 162, 200, "filesystem"@),
        RequestSource::NotFound => colored(255, 0, 0, "not found"@),
    }
}

/// The coloured label of where an answer came from.
pub fn request_source_label(s: RequestSource) -> (r: String)
    ensures
        r@ == source_label(s),
{
    match s {
        RequestSource::Extern => "extern".color_pink(),
        RequestSource::Cache => "cache".color_green(),
        RequestSource::Generated => "generated".color_yellow(),
        RequestSource::Filesystem => "filesystem".color_lilac(),
        RequestSource::NotFound => "not found".color_red(),
    }
}

/// The line logged for a request: its status (green when served, red when
/// not), its url right-aligned, the client's address and where the answer
/// came from, separated by tabs.
pub open spec fn request_line_spec(status: Seq<char>, served: bool, uri: Seq<char>, ip: Seq<char>, source: RequestSource) -> Seq<char> {
    (if served {
        colored(116, 204, 140, status)
    } else {
        colored(184, 28, 74, status)
    }) + "\t"@ + fit_right(display_uri_spec(uri), 27, 30) + "\t\t\t"@ + colored(145, 220, 255, ip)
        + "\t"@ + source_label(source)
}

/// The line logged for a request; see `request_line_spec`.
pub fn request_line(status: &str, served: bool, uri: &str, ip: &str, source: RequestSource) -> (r:
    String)
    ensures
        r@ == request_line_spec(status@, served, uri@, ip@, source),
{
    let s = if served {
        status.color_ok_green()
    } else {
        status.color_error_red()
    };
    let (w_s, w_a) = urlspace();
    let shown = display_uri(uri);
    let fitted = fit_uri(shown.as_str(), w_s, w_a);
    let who = ip.color_lightblue();
    let from = request_source_label(source);
    let mut r = concat3(s.as_str(), "\t", fitted.as_str());
    r.append("\t\t\t");
    r.append(who.as_str());
    r.append("\t");
    r.append(from.as_str());
    r
}

/// The client's address as logged: `<unknown IP>` when not known.
pub fn ip_or_unknown(ip: Option<&str>) -> (r: String)
    ensures
        match ip {
            Some(a) => r@ == a@,
            None => r@ == "<unknown IP>"@,
        },
{
    match ip {
        Some(a) => a.to_owned(),
        None => String::from_str("<unknown IP>"),
    }
}

/// The request headers written out for debugging as a list of pairs, made
/// into JSON arrays.
pub fn makeshift_header_json(debug_text: &str) -> (r: String)
    ensures
        r@ == replace_all(replace_all(debug_text@, "(\""@, "[\""@), "\")"@, "\"]"@),
{
    proof {
        reveal_strlit("(\"");
        reveal_strlit("\")");
    }
    let a = replace_str(debug_text, "(\"", "[\"");
    replace_str(a.as_str(), "\")", "\"]")
}

/// What the plugin runtime's answer to a request means for it.
#[derive(PartialEq, Eq, Structural, Clone, Copy, Debug)]
pub enum PluginVerdict {
    /// A plugin answered: send its answer.
    Respond,
    /// No plugin took the request (or plugins are off): go on.
    Continue,
    /// Anything else: internal server error.
    Fail,
}

/// What the plugin runtime's answer to a request means for it.
pub fn plugin_verdict(r: &EPSResponseBody) -> (v: PluginVerdict)
    ensures
        r is WebResponse ==> v == PluginVerdict::Respond,
        (r is NoneOk || r is Disabled) ==> v == PluginVerdict::Continue,
        !(r is WebResponse || r is NoneOk || r is Disabled) ==> v == PluginVerdict::Fail,
{
    match r {
        EPSResponseBody::WebResponse { .. } => PluginVerdict::Respond,
        EPSResponseBody::NoneOk => PluginVerdict::Continue,
        EPSResponseBody::Disabled => PluginVerdict::Continue,
        _ => PluginVerdict::Fail,
    }
}

/// How a page request is answered once the plugins let it through.
#[derive(PartialEq, Eq, Structural, Clone, Copy, Debug)]
pub enum PageAnswer {
    /// Serve the page (from the cache or freshly rendered).
    Page,
    /// Serve the not-found page with status 404.
    NotFoundPage,
    /// Internal server error.
    Fail,
}

/// How a page request is answered, by what the page id check found.
pub fn page_answer(check: &PGIDCheckResponse) -> (a: PageAnswer)
    ensures
        check is Found ==> a == PageAnswer::Page,
        check is NotFound ==> a == PageAnswer::NotFoundPage,
        check is Error ==> a == PageAnswer::Fail,
{
    match check {
        PGIDCheckResponse::Found => PageAnswer::Page,
        PGIDCheckResponse::NotFound => PageAnswer::NotFoundPage,
        PGIDCheckResponse::Error => PageAnswer::Fail,
    }
}

/// The status text of an answer to a request.
pub fn status_text(post: bool, found: bool) -> (r: &'static str)
    ensures
        post && found ==> r@ == "POST:200"@,
        !post && found ==> r@ == "GET:200"@,
        !found ==> r@ == "GET:404"@,
{
    if !found {
        "GET:404"
    } else if post {
        "POST:200"
    } else {
        "GET:200"
    }
}

proof fn lemma_leading_slashes_bound(s: Seq<char>)
    ensures
        leading_slashes(s) <= s.len(),
    decreases s.len(),
{
    if s.len() > 0 && s[0] == '/' {
        lemma_leading_slashes_bound(s.skip(1));
    }
}

/// A page id never begins with a slash, and taking the id of an id changes
/// nothing.
pub proof fn law_page_id_settled(page_uri: Seq<char>)
    ensures
        !(page_id_spec(page_uri).len() > 0 && page_id_spec(page_uri)[0] == '/'),
        page_id_spec(page_id_spec(page_uri)) == page_id_spec(page_uri),
    decreases page_uri.len(),
{
    if page_uri.len() > 0 && page_uri[0] == '/' {
        law_page_id_settled(page_uri.skip(1));
        lemma_leading_slashes_bound(page_uri.skip(1));
        assert(page_uri.skip(1).skip(leading_slashes(page_uri.skip(1)) as int) =~= page_uri.skip(
            leading_slashes(page_uri) as int,
        ));
    } else {
        assert(page_uri.skip(0) =~= page_uri);
        assert(leading_slashes(page_uri) == 0);
    }
}

} // verus!
