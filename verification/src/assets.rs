//! The file cache on disk of the metadata-file generation of the engine
//! (its index of cached files), the choice of JavaScript runtime and package
//! manager, and the texts and commands of minifying scripts and styles.

use vstd::prelude::*;
use vstd::string::*;
use crate::text::{concat3, str_eq};
use rand::Rng;

verus! {

/// An entry of the cache index: which file is cached where, since when.
pub struct CacheIndexEntry {
    pub fileid: String,
    pub cachepath: String,
    pub timestamp: u64,
}

/// Whether an entry for `file` is young enough at `now`.
pub open spec fn fresh(e: CacheIndexEntry, file: Seq<char>, max_age: u64, now: u64) -> bool {
    e.fileid@ == file && now - e.timestamp < max_age
}

/// What a look into the cache index finds: the fresh entry (the first),
/// and the entries for the same file met before it that are too old (their
/// files are to be deleted, where they exist).
pub struct CacheLookup {
    pub hit: Option<usize>,
    pub stale: Vec<usize>,
}

/// Looks `file` up in the cache index at `now`: the entries are gone
/// through in order; an entry for the file that is younger than `max_age`
/// ends the search, older ones met before it are marked stale.
pub fn cache_index_lookup(index: &Vec<CacheIndexEntry>, file: &str, max_age: u64, now: u64) -> (r:
    CacheLookup)
    requires
        forall|i: int| 0 <= i < index@.len() ==> (#[trigger] index@[i]).timestamp <= now,
    ensures
        match r.hit {
            Some(h) => h < index@.len() && fresh(index@[h as int], file@, max_age, now) && forall|j: int|
                0 <= j < h ==> !fresh(index@[j], file@, max_age, now),
            None => forall|j: int| 0 <= j < index@.len() ==> !fresh(index@[j], file@, max_age, now),
        },
        forall|k: int|
            0 <= k < r.stale@.len() ==> {
                &&& (#[trigger] r.stale@[k]) < index@.len()
                &&& index@[r.stale@[k] as int].fileid@ == file@
                &&& !fresh(index@[r.stale@[k] as int], file@, max_age, now)
                &&& (r.hit matches Some(h) ==> r.stale@[k] < h)
            },
        forall|j: int|
            0 <= j < index@.len() && index@[j].fileid@ == file@ && !fresh(index@[j], file@, max_age, now)
                && (r.hit matches Some(h) ==> j < h) ==> r.stale@.contains(j as usize),
{
    let mut stale: Vec<usize> = Vec::new();
    let mut i: usize = 0;
    while i < index.len()
        invariant
            i <= index@.len(),
            forall|k: int| 0 <= k < index@.len() ==> (#[trigger] index@[k]).timestamp <= now,
            forall|j: int| 0 <= j < i ==> !fresh(index@[j], file@, max_age, now),
            forall|k: int|
                0 <= k < stale@.len() ==> {
                    &&& (#[trigger] stale@[k]) < i
                    &&& index@[stale@[k] as int].fileid@ == file@
                    &&& !fresh(index@[stale@[k] as int], file@, max_age, now)
                },
            forall|j: int|
                0 <= j < i && index@[j].fileid@ == file@ ==> stale@.contains(j as usize),
        decreases index@.len() - i,
    {
        if str_eq(index[i].fileid.as_str(), file) {
            if now - index[i].timestamp < max_age {
                return CacheLookup { hit: Some(i), stale };
            }
            let ghost before = stale@;
            stale.push(i);
            assert forall|j: int| 0 <= j <= i && index@[j].fileid@ == file@ implies stale@.contains(
                j as usize,
            ) by {
                if j < i {
                    assert(before.contains(j as usize));
                    let k = choose|k: int| 0 <= k < before.len() && before[k] == j as usize;
                    assert(stale@[k] == j as usize);
                } else {
                    assert(stale@[stale@.len() - 1] == i);
                }
            }
        }
        i = i + 1;
    }
    CacheLookup { hit: None, stale }
}

/// Adds a cached file to the index, stamped `now`.
pub fn cache_index_add(index: &mut Vec<CacheIndexEntry>, fileid: String, cachepath: String, now: u64)
    ensures
        final(index)@.len() == old(index)@.len() + 1,
        forall|i: int| 0 <= i < old(index)@.len() ==> final(index)@[i] == old(index)@[i],
        final(index)@.last().fileid@ == fileid@,
        final(index)@.last().cachepath@ == cachepath@,
        final(index)@.last().timestamp == now,
{
    index.push(CacheIndexEntry { fileid, cachepath, timestamp: now });
}

/// A random name for a cached file (`rand::thread_rng().gen_range`): a
/// number from 10000000 up to, not including, 999999999.
#[verifier::external_body]
fn random_in_range(low: u64, high: u64) -> (r: u64)
    requires
        low < high,
    ensures
        low <= r < high,
{
    rand::thread_rng().gen_range(low..high)
}

/// A random name for a cached file: a number from 10000000 up to, not
/// including, 999999999.
pub fn random_cache_name() -> (r: u64)
    ensures
        10000000 <= r < 999999999,
{
    random_in_range(10000000, 999999999)
}

/// A minified script as cached: Terser's output between a note that it was
/// minified and a note that the cache may lag behind.
pub fn minified_js_text(res: &str) -> (r: String)
    ensures
        r@ == "\n\r// Minified internally by Cynthia using Terser\n\n"@ + res@
            + "\n\n\r// Cached after minifying, so might be somewhat behind.\n\r"@,
{
    concat3(
        "\n\r// Minified internally by Cynthia using Terser\n\n",
        res,
        "\n\n\r// Cached after minifying, so might be somewhat behind.\n\r",
    )
}

/// A minified style sheet as cached: clean-css's output between a note that
/// it was minified and a note that the cache may lag behind.
pub fn minified_css_text(res: &str) -> (r: String)
    ensures
        r@ == "\n\r/* Minified internally by Cynthia using clean-css */\n\n"@ + res@
            + "\n\n\r/* Cached after minifying, so might be somewhat behind. */\n\r"@,
{
    concat3(
        "\n\r/* Minified internally by Cynthia using clean-css */\n\n",
        res,
        "\n\n\r/* Cached after minifying, so might be somewhat behind. */\n\r",
    )
}

/// A JavaScript runtime found on the path.
#[derive(PartialEq, Eq, Structural, Clone, Copy, Debug)]
pub enum JsRuntime {
    Bun,
    Node,
    /// Neither answered.
    NotFound,
}

/// The runtime used: Bun when it answers, else Node.js when it answers.
pub fn choose_runtime(bun_answers: bool, node_answers: bool) -> (r: JsRuntime)
    ensures
        bun_answers ==> r == JsRuntime::Bun,
        !bun_answers && node_answers ==> r == JsRuntime::Node,
        !bun_answers && !node_answers ==> r == JsRuntime::NotFound,
{
    if bun_answers {
        JsRuntime::Bun
    } else if node_answers {
        JsRuntime::Node
    } else {
        JsRuntime::NotFound
    }
}

/// The program that runs packages for a runtime: `bunx` or `npx`.
pub fn package_runner(rt: JsRuntime) -> (r: Option<&'static str>)
    requires
        rt != JsRuntime::NotFound,
    ensures
        rt == JsRuntime::Bun ==> (r matches Some(p) && p@ == "bunx"@),
        rt == JsRuntime::Node ==> (r matches Some(p) && p@ == "npx"@),
{
    match rt {
        JsRuntime::Bun => Some("bunx"),
        JsRuntime::Node => Some("npx"),
        JsRuntime::NotFound => None,
    }
}

/// The arguments for Terser minifying `file` under a runtime (Node's
/// package runner is told to install without asking).
pub fn terser_args(rt: JsRuntime, file: &str) -> (r: Vec<String>)
    ensures
        rt == JsRuntime::Node ==> r@.len() == 6 && r@[0]@ == "--yes"@ && r@[1]@ == "terser"@ && r@[2]@
            == file@ && r@[3]@ == "--compress"@ && r@[4]@ == "--keep-fnames"@ && r@[5]@
            == "--keep-classnames"@,
        rt != JsRuntime::Node ==> r@.len() == 5 && r@[0]@ == "terser"@ && r@[1]@ == file@ && r@[2]@
            == "--compress"@ && r@[3]@ == "--keep-fnames"@ && r@[4]@ == "--keep-classnames"@,
{
    let mut r: Vec<String> = Vec::new();
    if rt == JsRuntime::Node {
        r.push(String::from_str("--yes"));
    }
    r.push(String::from_str("terser"));
    r.push(file.to_owned());
    r.push(String::from_str("--compress"));
    r.push(String::from_str("--keep-fnames"));
    r.push(String::from_str("--keep-classnames"));
    r
}

/// The arguments for clean-css minifying `file` under a runtime.
pub fn clean_css_args(rt: JsRuntime, file: &str) -> (r: Vec<String>)
    ensures
        rt == JsRuntime::Node ==> r@.len() == 6 && r@[0]@ == "--yes"@ && r@[1]@ == "clean-css-cli@4"@
            && r@[2]@ == "-O2"@ && r@[3]@ == "--inline"@ && r@[4]@ == "none"@ && r@[5]@ == file@,
        rt != JsRuntime::Node ==> r@.len() == 5 && r@[0]@ == "clean-css-cli@4"@ && r@[1]@ == "-O2"@
            && r@[2]@ == "--inline"@ && r@[3]@ == "none"@ && r@[4]@ == file@,
{
    let mut r: Vec<String> = Vec::new();
    if rt == JsRuntime::Node {
        r.push(String::from_str("--yes"));
    }
    r.push(String::from_str("clean-css-cli@4"));
    r.push(String::from_str("-O2"));
    r.push(String::from_str("--inline"));
    r.push(String::from_str("none"));
    r.push(file.to_owned());
    r
}

/// What a plugin runner call does with its arguments: a first argument
/// `returndirect` hands the second back without running anything.
pub fn direct_return(args: &Vec<String>) -> (r: Option<String>)
    requires
        args@.len() >= 1,
        args@[0]@ == "returndirect"@ ==> args@.len() >= 2,
    ensures
        args@[0]@ == "returndirect"@ ==> (r matches Some(s) && s@ == args@[1]@),
        args@[0]@ != "returndirect"@ ==> r is None,
{
    if str_eq(args[0].as_str(), "returndirect") {
        Some(args[1].clone())
    } else {
        None
    }
}

} // verus!
