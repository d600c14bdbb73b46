//! How long files stay in the cache, and the cache side of reading a file.

use vstd::prelude::*;
use crate::config::CynthiaConfClone;
use crate::server::{live, lookup, read_at, stored_at, stored_by, CynthiaCacheObject, ServerContext};
use crate::text::concat2;

verus! {

/// File priority: determines how long a file is kept in the cache, relative
/// to the assets lifetime of the configuration.
pub enum FilePriority {
    /// Kept until the server stops.
    Permanent,
    /// Four times the assets lifetime (6400 at the default 1600).
    High,
    /// The assets lifetime (1600 at the default).
    Normal,
    /// A quarter of the assets lifetime (400 at the default 1600).
    Low,
    /// Kept for a single second.
    Once,
    /// A lifetime of its own.
    Custom(u64),
}

/// The lifetime a priority stands for, given the assets lifetime `n`.
pub open spec fn lifetime_for(pr: FilePriority, n: u64) -> u64 {
    match pr {
        FilePriority::Permanent => 0,
        FilePriority::High => if n * 4 <= u64::MAX {
            (n * 4) as u64
        } else {
            0
        },
        FilePriority::Normal => n,
        FilePriority::Low => n / 4,
        FilePriority::Once => 1,
        FilePriority::Custom(l) => l,
    }
}

/// The cache lifetime of a file of the given priority under this
/// configuration. A `High` lifetime that would overflow becomes 0.
pub fn get_lifetime(pr: FilePriority, config_clone: CynthiaConfClone) -> (r: u64)
    ensures
        r == lifetime_for(pr, config_clone.cache.lifetimes.assets),
{
    let normal_cache_lifetime = config_clone.cache.lifetimes.assets;
    let step: u64 = 4;
    match pr {
        FilePriority::Permanent => 0,
        FilePriority::High => match normal_cache_lifetime.checked_mul(step) {
            Some(v) => v,
            None => 0,
        },
        FilePriority::Normal => normal_cache_lifetime,
        FilePriority::Low => normal_cache_lifetime / step,
        FilePriority::Once => 1,
        FilePriority::Custom(lifetime) => lifetime,
    }
}

/// The cache id under which a file's contents are kept: `fs:` and its path.
pub fn file_cache_id(path: &str) -> (r: String)
    ensures
        r@ == "fs:"@ + path@,
{
    concat2("fs:", path)
}

/// Whether a lookup of the file at `path` at second `now` hands out
/// `content`.
pub open spec fn file_hit(
    cache: Seq<CynthiaCacheObject>,
    path: Seq<char>,
    max_age: u64,
    now: u64,
    content: Seq<u8>,
) -> bool {
    lookup(live(cache, now), "fs:"@ + path, max_age, now) matches Some(x) && x.0 == content
}

/// A lookup of the file at `path` made at second `now`, every entry having
/// been stored by then: the cache went from `before` to its entries live at
/// `now`, and `r` holds the content that `lookup` finds there, if any.
pub open spec fn file_read_at(
    before: Seq<CynthiaCacheObject>,
    after: Seq<CynthiaCacheObject>,
    path: Seq<char>,
    max_age: u64,
    now: u64,
    r: Option<Vec<u8>>,
) -> bool {
    &&& stored_by(before, now)
    &&& after == live(before, now)
    &&& match lookup(live(before, now), "fs:"@ + path, max_age, now) {
        Some((content, _)) => r matches Some(v) && v@ == content,
        None => r is None,
    }
}

/// The cache side of reading a file: its contents when the cache holds them
/// for the file's lifetime, `None` when the file has to be read.
pub fn fs_get_cached(ctx: &mut ServerContext, path: &str, priority: FilePriority) -> (r: Option<
    Vec<u8>,
>)
    requires
        old(ctx).cache_ok(),
    ensures
        final(ctx).cache_ok(),
        final(ctx).config == old(ctx).config,
        r is Some ==> exists|now: u64| #[trigger]
            file_hit(old(ctx).cache@, path@, lifetime_for(priority, old(ctx).config.cache.lifetimes.assets), now, r->0@),
        (r is None && final(ctx).cache@ == old(ctx).cache@) || exists|now: u64| #[trigger]
            file_read_at(
                old(ctx).cache@,
                final(ctx).cache@,
                path@,
                lifetime_for(priority, old(ctx).config.cache.lifetimes.assets),
                now,
                r,
            ),
{
    let cttl = get_lifetime(priority, ctx.config.clone());
    let id = file_cache_id(path);
    match ctx.get_cache(id.as_str(), cttl) {
        Some(c) => {
            let ghost stored = c.1;
            let res: Option<Vec<u8>> = Some(c.0);
            proof {
                let now = choose|now: u64| #[trigger]
                    lookup(live(old(ctx).cache@, now), id@, cttl, now) == Some((res->0@, stored));
                assert(file_hit(old(ctx).cache@, path@, cttl, now, res->0@));
                let t = choose|t: u64| #[trigger]
                    read_at(old(ctx).cache@, ctx.cache@, id@, cttl, t, Some(c));
                assert(file_read_at(old(ctx).cache@, ctx.cache@, path@, cttl, t, res));
            }
            res
        },
        None => {
            proof {
                if ctx.cache@ != old(ctx).cache@ {
                    let t = choose|t: u64| #[trigger]
                        read_at(old(ctx).cache@, ctx.cache@, id@, cttl, t, None);
                    assert(file_read_at(old(ctx).cache@, ctx.cache@, path@, cttl, t, None));
                }
            }
            None
        },
    }
}

/// Finishes reading a file that missed the cache: on a successful read the
/// contents are stored for the file's lifetime and handed back; a failed
/// read, or a failure to store, hands back its message.
pub fn fs_get_store(
    ctx: &mut ServerContext,
    path: &str,
    priority: FilePriority,
    read: Result<Vec<u8>, String>,
) -> (r: Result<Vec<u8>, String>)
    requires
        old(ctx).cache_ok(),
    ensures
        final(ctx).cache_ok(),
        final(ctx).config == old(ctx).config,
        read is Err ==> r == read,
        read matches Ok(f) ==> (r is Ok ==> r == read),
        r matches Ok(f) ==> final(ctx).cache@.last().id@ == "fs:"@ + path@
            && final(ctx).cache@.last().content@ == f@,
        read is Err ==> final(ctx).cache@ == old(ctx).cache@,
        read matches Ok(f) ==> ((r is Err && final(ctx).cache@ == old(ctx).cache@) || exists|now: u64| #[trigger]
            stored_at(
                old(ctx).cache@,
                final(ctx).cache@,
                "fs:"@ + path@,
                f@,
                lifetime_for(priority, old(ctx).config.cache.lifetimes.assets),
                now,
                r is Ok,
            )),
{
    match read {
        Ok(file) => {
            let cttl = get_lifetime(priority, ctx.config.clone());
            let id = file_cache_id(path);
            let stored = ctx.store_cache(id.as_str(), file.as_slice(), cttl);
            proof {
                if ctx.cache@ != old(ctx).cache@ || stored is Ok {
                    let now = choose|now: u64| #[trigger]
                        stored_at(old(ctx).cache@, ctx.cache@, id@, file@, cttl, now, stored is Ok);
                    assert(stored_at(old(ctx).cache@, ctx.cache@, "fs:"@ + path@, file@, cttl, now, stored is Ok));
                }
            }
            match stored {
                Ok(()) => Ok(file),
                Err(e) => Err(e),
            }
        },
        Err(e) => Err(e),
    }
}

} // verus!
