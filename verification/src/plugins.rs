//! Plugin management of the metadata-file generation of the engine: the
//! plugin manifest (which plugins at which versions), finding a plugin in
//! the plugin index, where its archive is fetched from, and the yes/no
//! questions asked on the terminal.

use vstd::prelude::*;
use vstd::string::*;
use crate::text::{concat2, concat3, str_eq, replace_all, replace_str};
use crate::config_files::{lowercase, to_lower};
use crate::tell::{decimal, decimal_string};

verus! {

/// A plugin the site wants, at a version.
pub struct CynthiaPluginManifestItem {
    pub id: String,
    pub version: String,
}

/// A plugin as listed in the plugin index: its id, where it is hosted and
/// the name or url it is found under there.
pub struct CynthiaPluginRepoItem {
    pub id: String,
    pub host: String,
    pub referrer: String,
}

/// The manifest as (id, version) pairs.
pub open spec fn manifest_view(m: Seq<CynthiaPluginManifestItem>) -> Seq<(Seq<char>, Seq<char>)> {
    m.map_values(|i: CynthiaPluginManifestItem| (i.id@, i.version@))
}

/// The first entry of the manifest for plugin `id`.
pub open spec fn first_entry(m: Seq<(Seq<char>, Seq<char>)>, id: Seq<char>) -> Option<int>
    decreases m.len(),
{
    if m.len() == 0 {
        None
    } else if m[0].0 == id {
        Some(0)
    } else {
        match first_entry(m.skip(1), id) {
            Some(i) => Some(i + 1),
            None => None,
        }
    }
}

/// `first_entry` finds the first match, and only when there is one.
pub proof fn lemma_first_entry(m: Seq<(Seq<char>, Seq<char>)>, id: Seq<char>)
    ensures
        first_entry(m, id) matches Some(i) ==> 0 <= i < m.len() && m[i].0 == id && forall|j: int|
            0 <= j < i ==> m[j].0 != id,
        first_entry(m, id) is None ==> forall|j: int| 0 <= j < m.len() ==> m[j].0 != id,
    decreases m.len(),
{
    if m.len() > 0 && m[0].0 != id {
        lemma_first_entry(m.skip(1), id);
        assert forall|j: int| 1 <= j < m.len() implies m.skip(1)[j - 1] == m[j] by {}
    }
}

/// An entry for `id` after entries for other plugins is the first one.
pub proof fn lemma_first_entry_at(m: Seq<(Seq<char>, Seq<char>)>, id: Seq<char>, k: int)
    requires
        0 <= k < m.len(),
        m[k].0 == id,
        forall|j: int| 0 <= j < k ==> m[j].0 != id,
    ensures
        first_entry(m, id) == Some(k),
    decreases k,
{
    if k > 0 {
        assert forall|j: int| 0 <= j < k - 1 implies m.skip(1)[j].0 != id by {
            assert(m.skip(1)[j] == m[j + 1]);
        }
        lemma_first_entry_at(m.skip(1), id, k - 1);
    }
}

/// The manifest after asking for plugin `id` at `version`: the first entry
/// for it takes the version, or a new entry is added at the end.
pub open spec fn manifest_added(m: Seq<(Seq<char>, Seq<char>)>, id: Seq<char>, version: Seq<char>) -> Seq<(Seq<char>, Seq<char>)> {
    match first_entry(m, id) {
        Some(i) => m.update(i, (id, version)),
        None => m.push((id, version)),
    }
}

/// Records plugin `id` at `version` in the manifest; see `manifest_added`.
pub fn add_to_manifest(manifest: &mut Vec<CynthiaPluginManifestItem>, id: &str, version: &str)
    ensures
        manifest_view(final(manifest)@) == manifest_added(manifest_view(old(manifest)@), id@, version@),
{
    let ghost m0 = manifest_view(manifest@);
    let mut k: usize = 0;
    while k < manifest.len()
        invariant
            k <= manifest@.len(),
            manifest_view(manifest@) == m0,
            m0 == manifest_view(old(manifest)@),
            forall|j: int| 0 <= j < k ==> m0[j].0 != id@,
        decreases manifest@.len() - k,
    {
        if str_eq(manifest[k].id.as_str(), id) {
            proof {
                assert(m0[k as int] == (manifest@[k as int].id@, manifest@[k as int].version@));
                lemma_first_entry_at(m0, id@, k as int);
            }
            let item = CynthiaPluginManifestItem { id: manifest[k].id.clone(), version: version.to_owned() };
            manifest.set(k, item);
            assert(manifest_view(manifest@) =~= m0.update(k as int, (id@, version@)));
            return;
        }
        k = k + 1;
    }
    proof {
        lemma_first_entry(m0, id@);
        if first_entry(m0, id@) is Some {
            let i = first_entry(m0, id@)->0;
            assert(m0[i].0 != id@);
        }
    }
    manifest.push(CynthiaPluginManifestItem { id: id.to_owned(), version: version.to_owned() });
    assert(manifest_view(manifest@) =~= m0.push((id@, version@)));
}

/// The manifest without plugin `id`.
pub fn remove_from_manifest(manifest: &Vec<CynthiaPluginManifestItem>, id: &str) -> (r: Vec<CynthiaPluginManifestItem>)
    ensures
        manifest_view(r@) == manifest_view(manifest@).filter(|e: (Seq<char>, Seq<char>)| e.0 != id@),
{
    let mut r: Vec<CynthiaPluginManifestItem> = Vec::new();
    let mut k: usize = 0;
    while k < manifest.len()
        invariant
            k <= manifest@.len(),
            manifest_view(r@) == manifest_view(manifest@.take(k as int)).filter(|e: (Seq<char>, Seq<char>)| e.0 != id@),
        decreases manifest@.len() - k,
    {
        proof {
            reveal(Seq::filter);
            assert(manifest_view(manifest@.take(k + 1)).drop_last() =~= manifest_view(manifest@.take(k as int)));
        }
        if !str_eq(manifest[k].id.as_str(), id) {
            let ghost before = r@;
            r.push(CynthiaPluginManifestItem { id: manifest[k].id.clone(), version: manifest[k].version.clone() });
            assert(manifest_view(r@) =~= manifest_view(before).push((manifest@[k as int].id@, manifest@[k as int].version@)));
        }
        k = k + 1;
    }
    assert(manifest@.take(k as int) =~= manifest@);
    r
}

/// The position of plugin `wanted` in the index: the first entry with that
/// id.
pub fn find_in_index(index: &Vec<CynthiaPluginRepoItem>, wanted: &str) -> (r: Option<usize>)
    ensures
        match r {
            Some(i) => i < index@.len() && index@[i as int].id@ == wanted@ && forall|j: int|
                0 <= j < i ==> index@[j].id@ != wanted@,
            None => forall|j: int| 0 <= j < index@.len() ==> index@[j].id@ != wanted@,
        },
{
    let mut k: usize = 0;
    while k < index.len()
        invariant
            k <= index@.len(),
            forall|j: int| 0 <= j < k ==> index@[j].id@ != wanted@,
        decreases index@.len() - k,
    {
        if str_eq(index[k].id.as_str(), wanted) {
            return Some(k);
        }
        k = k + 1;
    }
    None
}

/// Where the plugin index of a plugin compatibility level is downloaded.
pub fn plugin_index_url(compat: &str) -> (r: String)
    ensures
        r@ == "https://raw.githubusercontent.com/CynthiaWebsiteEngine/Plugins/"@ + compat@ + "/index.json"@,
{
    concat3("https://raw.githubusercontent.com/CynthiaWebsiteEngine/Plugins/", compat, "/index.json")
}

/// Where a plugin's archive is hosted.
#[derive(PartialEq, Eq, Structural, Clone, Copy, Debug)]
pub enum PluginHost {
    /// On NPM, under the referrer's package name.
    Npm,
    /// At the referrer, a url of the archive.
    DirectTar,
    /// Not known: no archive url.
    Other,
}

/// Where a plugin's archive is hosted, by the index's host (case-insensitive).
pub fn plugin_host(host: &str) -> (r: PluginHost)
    ensures
        lowercase(host@) == "npm"@ ==> r == PluginHost::Npm,
        lowercase(host@) != "npm"@ && lowercase(host@) == "direct-tar"@ ==> r == PluginHost::DirectTar,
        lowercase(host@) != "npm"@ && lowercase(host@) != "direct-tar"@ ==> r == PluginHost::Other,
{
    let h = to_lower(host);
    if str_eq(h.as_str(), "npm") {
        PluginHost::Npm
    } else if str_eq(h.as_str(), "direct-tar") {
        PluginHost::DirectTar
    } else {
        PluginHost::Other
    }
}

/// The package asked of NPM: the referrer's name at the wanted version.
pub fn npm_package_name(referrer: &str, version: &str) -> (r: String)
    ensures
        r@ == referrer@ + "@"@ + version@,
{
    concat3(referrer, "@", version)
}

/// A byte that `urlencoding::encode` keeps as it is: an ASCII digit or
/// letter, or one of `-`, `.`, `_`, `~`.
pub open spec fn url_unreserved(b: u8) -> bool {
    (48 <= b <= 57) || (65 <= b <= 90) || (97 <= b <= 122) || b == 45 || b == 46 || b == 95
        || b == 126
}

/// An uppercase hexadecimal digit (`d` below 16).
pub open spec fn hex_upper(d: u8) -> char {
    if d < 10 {
        (d + 48) as char
    } else {
        (d + 55) as char
    }
}

/// How one byte is written: itself when unreserved, else `%` and two
/// uppercase hex digits.
pub open spec fn url_byte(b: u8) -> Seq<char> {
    if url_unreserved(b) {
        seq![b as char]
    } else {
        seq!['%', hex_upper(b / 16), hex_upper(b % 16)]
    }
}

/// The bytes `bs` percent-encoded, byte by byte.
pub open spec fn url_encode_bytes(bs: Seq<u8>) -> Seq<char>
    decreases bs.len(),
{
    if bs.len() == 0 {
        Seq::empty()
    } else {
        url_encode_bytes(bs.drop_last()) + url_byte(bs.last())
    }
}

/// `s` percent-encoded as `urlencoding::encode` does: each byte of its
/// UTF-8 encoding written by `url_byte`.
pub open spec fn url_encoded(s: Seq<char>) -> Seq<char> {
    url_encode_bytes(vstd::utf8::encode_utf8(s))
}

/// Percent-encodes a text with `urlencoding::encode`.
#[verifier::external_body]
fn url_encode(s: &str) -> (r: String)
    ensures
        r@ == url_encoded(s@),
{
    urlencoding::encode(s).into_owned()
}

/// The archive url made safe to fetch: line feeds dropped and the url
/// percent-encoded, but with its slashes and the NPM registry prefix kept.
pub open spec fn safe_tarball_url_spec(url: Seq<char>) -> Seq<char> {
    let hidden = replace_all(
        replace_all(url, "https://registry.npmjs.org/"@, "npmjsreg"@),
        "\n"@,
        ""@,
    );
    replace_all(
        replace_all(url_encoded(hidden), "%2F"@, "/"@),
        "npmjsreg"@,
        "https://registry.npmjs.org/"@,
    )
}

/// The archive url made safe to fetch; see `safe_tarball_url_spec`.
pub fn safe_tarball_url(url: &str) -> (r: String)
    ensures
        r@ == safe_tarball_url_spec(url@),
{
    proof {
        reveal_strlit("https://registry.npmjs.org/");
        reveal_strlit("\n");
        reveal_strlit("%2F");
        reveal_strlit("npmjsreg");
    }
    let a = replace_str(url, "https://registry.npmjs.org/", "npmjsreg");
    let b = replace_str(a.as_str(), "\n", "");
    let e = url_encode(b.as_str());
    let c = replace_str(e.as_str(), "%2F", "/");
    replace_str(c.as_str(), "npmjsreg", "https://registry.npmjs.org/")
}

/// Whether an archive url was found: not `none`.
pub fn tarball_url_found(url: &str) -> (r: bool)
    ensures
        r == (url@ != "none"@),
{
    !str_eq(url, "none")
}

/// The line told while installing the plugins of the manifest.
pub fn install_progress(current: u64, total: u64, id: &str) -> (r: String)
    ensures
        r@ == "Installing plugin "@ + decimal(current as nat) + "/"@ + decimal(total as nat) + ": "@ + id@,
{
    let c = decimal_string(current);
    let t = decimal_string(total);
    let mut r = concat3("Installing plugin ", c.as_str(), "/");
    r.append(t.as_str());
    r.append(": ");
    r.append(id);
    r
}

/// The error told when a plugin's dependencies did not install: the
/// package manager's output indented by a tab on every line.
pub fn dependency_failure(stderr: &str) -> (r: String)
    ensures
        r@ == "Installing dependencies failed:\n\n\t"@ + replace_all(replace_all(stderr@, "\n"@, "\n\t"@), "\r"@, "\t"@),
{
    proof {
        reveal_strlit("\n");
        reveal_strlit("\r");
    }
    let a = replace_str(stderr, "\n", "\n\t");
    let b = replace_str(a.as_str(), "\r", "\t");
    concat2("Installing dependencies failed:\n\n\t", b.as_str())
}

/// The question asked on the terminal, the default answer in capitals.
pub fn choice_prompt(m: &str, default: bool) -> (r: String)
    ensures
        default ==> r@ == m@ + " (Y/n)?"@,
        !default ==> r@ == m@ + " (y/N)?"@,
{
    if default {
        concat2(m, " (Y/n)?")
    } else {
        concat2(m, " (y/N)?")
    }
}

/// The answer a typed line gives to a yes/no question: `y` or `n` (any
/// case, line ends dropped) answer it; a bare Windows line end takes the
/// default; anything else asks again (`None`).
pub open spec fn choice_answer_spec(line: Seq<char>, default: bool) -> Option<bool> {
    let t = lowercase(replace_all(replace_all(line, "\n"@, ""@), "\r"@, ""@));
    if t == "y"@ {
        Some(true)
    } else if t == "n"@ {
        Some(false)
    } else if line == "\r\n"@ {
        Some(default)
    } else {
        None
    }
}

/// The answer a typed line gives to a yes/no question; see
/// `choice_answer_spec`.
pub fn choice_answer(line: &str, default: bool) -> (r: Option<bool>)
    ensures
        r == choice_answer_spec(line@, default),
{
    proof {
        reveal_strlit("\n");
        reveal_strlit("\r");
    }
    let a = replace_str(line, "\n", "");
    let b = replace_str(a.as_str(), "\r", "");
    let t = to_lower(b.as_str());
    if str_eq(t.as_str(), "y") {
        Some(true)
    } else if str_eq(t.as_str(), "n") {
        Some(false)
    } else if str_eq(line, "\r\n") {
        Some(default)
    } else {
        None
    }
}

/// Asking for plugin `id` at `version` leaves a first entry for it that
/// holds that version; every entry for another plugin is unchanged.
pub proof fn law_add_then_lookup(m: Seq<(Seq<char>, Seq<char>)>, id: Seq<char>, version: Seq<char>)
    ensures
        first_entry(manifest_added(m, id, version), id) matches Some(i) && manifest_added(m, id, version)[i] == (id, version),
        forall|j: int| 0 <= j < m.len() && m[j].0 != id ==> #[trigger] manifest_added(m, id, version)[j] == m[j],
{
    let a = manifest_added(m, id, version);
    lemma_first_entry(m, id);
    match first_entry(m, id) {
        Some(i) => {
            assert forall|j: int| 0 <= j < i implies a[j].0 != id by {
                assert(a[j] == m[j]);
            }
            lemma_first_entry_at(a, id, i);
        },
        None => {
            let n = m.len() as int;
            assert forall|j: int| 0 <= j < n implies a[j].0 != id by {
                assert(a[j] == m[j]);
            }
            lemma_first_entry_at(a, id, n);
        },
    }
}

} // verus!
