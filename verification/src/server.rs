//! The server's shared state and its in-memory cache of rendered pages and
//! files.
//!
//! Each cache entry carries the second it was stored at and the second it
//! expires at (0 meaning never). Entries whose expiry has passed are dropped
//! whenever the cache is touched.

use vstd::prelude::*;
use vstd::slice::slice_to_vec;
use crate::config::CynthiaConf;
use crate::plugin_server::EPSCommunicationData;
use crate::text::str_eq;

verus! {

/// One cached item.
pub struct CynthiaCacheObject {
    pub id: String,
    pub content: Vec<u8>,
    /// (stored at, expires at), in seconds since the Unix epoch; an expiry of
    /// 0 never passes.
    pub timestamp: (u64, u64),
}

/// What a cache hit hands out: the content and the second it was stored at.
pub struct CynthiaCacheExtraction(pub Vec<u8>, pub u64);

/// The cache: entries in the order they were stored.
pub type CynthiaCache = Vec<CynthiaCacheObject>;

/// Server context, containing the configuration and the cache.
pub struct ServerContext {
    pub config: CynthiaConf,
    pub cache: CynthiaCache,
    pub request_count: u64,
    pub start_time: u128,
    pub external_plugin_server: EPSCommunicationData,
}

/// The seconds since the Unix epoch on the system clock (`SystemTime::now`),
/// or `None` when the clock reads earlier than the epoch. Nothing is stated
/// of the value: it is whatever the clock says.
#[verifier::external_body]
pub(crate) fn unix_now_secs() -> (r: Option<u64>) {
    match std::time::SystemTime::now().duration_since(std::time::UNIX_EPOCH) {
        Ok(d) => Some(d.as_secs()),
        Err(_) => None,
    }
}

/// An entry survives at second `now` while its expiry lies ahead or is 0.
pub open spec fn is_live(e: CynthiaCacheObject, now: u64) -> bool {
    e.timestamp.1 > now || e.timestamp.1 == 0
}

/// The entries of `s` that survive at second `now`, in order.
pub open spec fn live(s: Seq<CynthiaCacheObject>, now: u64) -> Seq<CynthiaCacheObject>
    decreases s.len(),
{
    if s.len() == 0 {
        s
    } else if is_live(s.last(), now) {
        live(s.drop_last(), now).push(s.last())
    } else {
        live(s.drop_last(), now)
    }
}

/// Total number of content bytes in `s`.
pub open spec fn total_size(s: Seq<CynthiaCacheObject>) -> nat
    decreases s.len(),
{
    if s.len() == 0 {
        0
    } else {
        total_size(s.drop_last()) + s.last().content@.len()
    }
}

/// Index of the first entry of `s` with the given id.
pub open spec fn first_with_id(s: Seq<CynthiaCacheObject>, id: Seq<char>) -> Option<int>
    decreases s.len(),
{
    if s.len() == 0 {
        None
    } else if s[0].id@ == id {
        Some(0)
    } else {
        match first_with_id(s.skip(1), id) {
            Some(i) => Some(i + 1),
            None => None,
        }
    }
}

/// Whether the entry found for a lookup may be handed out: always when the
/// asked age is 0, otherwise when it is younger than that age and its expiry
/// is already behind `now`.
pub open spec fn may_hand_out(e: CynthiaCacheObject, max_age: u64, now: u64) -> bool {
    max_age == 0 || (now - e.timestamp.0 < max_age && e.timestamp.1 < now)
}

/// What a lookup of `id` at second `now` finds in a cache that has already
/// dropped its expired entries: the content and stored-at second of the
/// first entry with that id, if it may be handed out.
pub open spec fn lookup(s: Seq<CynthiaCacheObject>, id: Seq<char>, max_age: u64, now: u64) -> Option<
    (Seq<u8>, u64),
> {
    match first_with_id(s, id) {
        Some(i) => if may_hand_out(s[i], max_age, now) {
            Some((s[i].content@, s[i].timestamp.0))
        } else {
            None
        },
        None => None,
    }
}

/// Whether every entry of `s` was stored at or before second `now`.
pub open spec fn stored_by(s: Seq<CynthiaCacheObject>, now: u64) -> bool {
    forall|j: int| 0 <= j < s.len() ==> #[trigger] s[j].timestamp.0 <= now
}

/// A lookup of `id` made at second `now`, every entry having been stored by
/// then: the cache went from `before` to its entries live at `now`, and `r`
/// is what `lookup` finds there.
pub open spec fn read_at(
    before: Seq<CynthiaCacheObject>,
    after: Seq<CynthiaCacheObject>,
    id: Seq<char>,
    max_age: u64,
    now: u64,
    r: Option<CynthiaCacheExtraction>,
) -> bool {
    &&& stored_by(before, now)
    &&& after == live(before, now)
    &&& match lookup(live(before, now), id, max_age, now) {
        Some((content, stored)) => r matches Some(x) && x.0@ == content && x.1 == stored,
        None => r is None,
    }
}

/// A store of `content` under `id` made at second `now`: the expired
/// entries were dropped, and the store succeeded (`ok`) exactly when the
/// expiry second fits in a `u64` and the bytes in a `usize`, in which case
/// the new entry came last, stamped `(now, now + max_age)`.
pub open spec fn stored_at(
    before: Seq<CynthiaCacheObject>,
    after: Seq<CynthiaCacheObject>,
    id: Seq<char>,
    content: Seq<u8>,
    max_age: u64,
    now: u64,
    ok: bool,
) -> bool {
    &&& ok == (now + max_age <= u64::MAX && total_size(live(before, now)) + content.len()
        <= usize::MAX)
    &&& ok ==> {
        &&& after.len() == live(before, now).len() + 1
        &&& after.drop_last() == live(before, now)
        &&& after.last().id@ == id
        &&& after.last().content@ == content
        &&& after.last().timestamp == (now, (now + max_age) as u64)
    }
    &&& !ok ==> after == live(before, now)
}

/// The cache's bytes can be counted in a `usize`.
pub open spec fn cache_fits(s: Seq<CynthiaCacheObject>) -> bool {
    total_size(s) <= usize::MAX
}

pub proof fn lemma_live_size(s: Seq<CynthiaCacheObject>, now: u64)
    ensures
        total_size(live(s, now)) <= total_size(s),
        live(s, now).len() <= s.len(),
    decreases s.len(),
{
    if s.len() > 0 {
        lemma_live_size(s.drop_last(), now);
        let l = live(s.drop_last(), now);
        if is_live(s.last(), now) {
            assert(l.push(s.last()).drop_last() =~= l);
        }
    }
}

proof fn lemma_first_with_id_step(s: Seq<CynthiaCacheObject>, id: Seq<char>, i: int)
    requires
        0 <= i < s.len(),
        forall|j: int| 0 <= j < i ==> s[j].id@ != id,
    ensures
        s[i].id@ == id ==> first_with_id(s, id) == Some(i),
    decreases i,
{
    if i > 0 {
        lemma_first_with_id_step(s.skip(1), id, i - 1);
    }
}

proof fn lemma_first_with_id_none(s: Seq<CynthiaCacheObject>, id: Seq<char>)
    requires
        forall|j: int| 0 <= j < s.len() ==> s[j].id@ != id,
    ensures
        first_with_id(s, id) is None,
    decreases s.len(),
{
    if s.len() > 0 {
        lemma_first_with_id_none(s.skip(1), id);
    }
}

pub proof fn lemma_first_with_id_bounds(s: Seq<CynthiaCacheObject>, id: Seq<char>)
    ensures
        first_with_id(s, id) matches Some(i) ==> 0 <= i < s.len() && s[i].id@ == id && forall|
            j: int,
        |
            0 <= j < i ==> s[j].id@ != id,
        first_with_id(s, id) is None ==> forall|j: int| 0 <= j < s.len() ==> s[j].id@ != id,
    decreases s.len(),
{
    if s.len() > 0 {
        lemma_first_with_id_bounds(s.skip(1), id);
        assert forall|j: int| 1 <= j < s.len() implies s.skip(1)[j - 1] == s[j] by {}
    }
}

/// A byte-for-byte copy of a vector of bytes.
pub fn copy_bytes(v: &Vec<u8>) -> (r: Vec<u8>)
    ensures
        r@ == v@,
{
    slice_to_vec(v.as_slice())
}

/// The entries of `cache` that survive at `now`.
fn live_entries(cache: Vec<CynthiaCacheObject>, now: u64) -> (r: Vec<CynthiaCacheObject>)
    ensures
        r@ == live(cache@, now),
{
    let mut r: Vec<CynthiaCacheObject> = Vec::new();
    let mut rest = cache;
    let ghost all = rest@;
    let n = rest.len();
    let mut i: usize = 0;
    while i < n
        invariant
            n == all.len(),
            i <= n,
            rest@ == all.skip(i as int),
            r@ == live(all.subrange(0, i as int), now),
        decreases n - i,
    {
        let e = rest.remove(0);
        proof {
            assert(e == all[i as int]);
            assert(all.subrange(0, i + 1).drop_last() =~= all.subrange(0, i as int));
            assert(all.subrange(0, i + 1).last() == e);
        }
        if e.timestamp.1 > now || e.timestamp.1 == 0 {
            r.push(e);
        }
        i = i + 1;
        assert(rest@ =~= all.skip(i as int));
    }
    assert(all.subrange(0, n as int) =~= all);
    r
}

impl ServerContext {
    /// The cache holds no more bytes than a `usize` counts.
    pub open spec fn cache_ok(&self) -> bool {
        cache_fits(self.cache@)
    }

    /// Drops the entries whose expiry lies at or before `now` (keeping those
    /// that never expire).
    pub fn evaluate_cache_at(&mut self, now: u64)
        requires
            old(self).cache_ok(),
        ensures
            final(self).cache@ == live(old(self).cache@, now),
            final(self).cache_ok(),
            final(self).config == old(self).config,
            final(self).request_count == old(self).request_count,
            final(self).start_time == old(self).start_time,
            final(self).external_plugin_server == old(self).external_plugin_server,
    {
        let mut old_cache: Vec<CynthiaCacheObject> = Vec::new();
        std::mem::swap(&mut old_cache, &mut self.cache);
        proof {
            lemma_live_size(old_cache@, now);
        }
        self.cache = live_entries(old_cache, now);
    }

    /// Drops the entries that have expired by the system clock's current
    /// second. Leaves the cache as it is when the clock cannot be read.
    pub fn evaluate_cache(&mut self)
        requires
            old(self).cache_ok(),
        ensures
            final(self).cache_ok(),
            exists|now: u64| final(self).cache@ == live(old(self).cache@, now),
            final(self).config == old(self).config,
    {
        match unix_now_secs() {
            Some(now) => self.evaluate_cache_at(now),
            None => {
                proof {
                    lemma_live_zero(self.cache@);
                }
            },
        }
    }

    /// One tick of the cache manager: clears the whole cache when it holds
    /// more than the configured maximum, otherwise drops what has expired by
    /// the clock. Says whether it cleared.
    pub fn cache_manager_tick(&mut self) -> (cleared: bool)
        requires
            old(self).cache_ok(),
        ensures
            cleared == (total_size(old(self).cache@) > old(self).config.cache.max_cache_size),
            cleared ==> final(self).cache@.len() == 0,
            !cleared ==> exists|now: u64| final(self).cache@ == live(old(self).cache@, now),
            final(self).cache_ok(),
            final(self).config == old(self).config,
    {
        if self.estimate_cache_size() > self.config.cache.max_cache_size {
            self.clear_cache();
            true
        } else {
            self.evaluate_cache();
            false
        }
    }

    /// Removes every entry.
    pub fn clear_cache(&mut self)
        ensures
            final(self).cache@.len() == 0,
            final(self).cache_ok(),
            final(self).config == old(self).config,
            final(self).request_count == old(self).request_count,
            final(self).start_time == old(self).start_time,
            final(self).external_plugin_server == old(self).external_plugin_server,
    {
        self.cache.clear();
    }

    /// The number of content bytes held in the cache.
    pub fn estimate_cache_size(&self) -> (r: usize)
        requires
            self.cache_ok(),
        ensures
            r == total_size(self.cache@),
    {
        let mut total: usize = 0;
        let mut i: usize = 0;
        while i < self.cache.len()
            invariant
                i <= self.cache@.len(),
                total == total_size(self.cache@.subrange(0, i as int)),
                total_size(self.cache@) <= usize::MAX,
            decreases self.cache@.len() - i,
        {
            proof {
                assert(self.cache@.subrange(0, i + 1).drop_last() =~= self.cache@.subrange(
                    0,
                    i as int,
                ));
                lemma_prefix_size(self.cache@, i + 1);
            }
            total = total + self.cache[i].content.len();
            i = i + 1;
        }
        assert(self.cache@.subrange(0, i as int) =~= self.cache@);
        total
    }

    /// Stores `contents` under `id` at second `now`, to expire `max_age`
    /// seconds later, after dropping the entries expired at `now`. Fails,
    /// leaving only the expired entries dropped, when the expiry second would
    /// not fit in a `u64` or the cache would hold more bytes than a `usize`
    /// counts.
    pub fn store_cache_at(&mut self, id: &str, contents: &[u8], max_age: u64, now: u64) -> (r:
        Result<(), String>)
        requires
            old(self).cache_ok(),
        ensures
            final(self).cache_ok(),
            final(self).config == old(self).config,
            r is Ok <==> (now + max_age <= u64::MAX && total_size(live(old(self).cache@, now))
                + contents@.len() <= usize::MAX),
            r is Ok ==> final(self).cache@.len() == live(old(self).cache@, now).len() + 1,
            r is Ok ==> final(self).cache@.drop_last() == live(old(self).cache@, now),
            r is Ok ==> final(self).cache@.last().id@ == id@,
            r is Ok ==> final(self).cache@.last().content@ == contents@,
            r is Ok ==> final(self).cache@.last().timestamp == (now, (now + max_age) as u64),
            r is Err ==> final(self).cache@ == live(old(self).cache@, now),
    {
        self.evaluate_cache_at(now);
        let size = self.estimate_cache_size();
        if max_age > u64::MAX - now {
            return Err(String::from_str("the expiry of the cache entry does not fit in a u64"));
        }
        if contents.len() > usize::MAX - size {
            return Err(String::from_str("the cache would outgrow what a usize counts"));
        }
        let entry = CynthiaCacheObject {
            id: id.to_owned(),
            content: slice_to_vec(contents),
            timestamp: (now, now + max_age),
        };
        let ghost before = self.cache@;
        self.cache.push(entry);
        proof {
            assert(self.cache@.drop_last() =~= before);
        }
        Ok(())
    }

    /// Stores `contents` under `id` at the system clock's current second, to
    /// expire `max_age` seconds later. Fails, leaving the cache as it was,
    /// when the clock cannot be read; otherwise as `store_cache_at` at that
    /// second.
    pub fn store_cache(&mut self, id: &str, contents: &[u8], max_age: u64) -> (r: Result<
        (),
        String,
    >)
        requires
            old(self).cache_ok(),
        ensures
            final(self).cache_ok(),
            final(self).config == old(self).config,
            r is Ok ==> final(self).cache@.last().id@ == id@ && final(self).cache@.last().content@
                == contents@,
            r is Ok ==> exists|now: u64| #[trigger] live(old(self).cache@, now) == final(self).cache@.drop_last()
                && final(self).cache@.last().timestamp == (now, (now + max_age) as u64),
            (r is Err && final(self).cache@ == old(self).cache@) || exists|now: u64| #[trigger]
                stored_at(old(self).cache@, final(self).cache@, id@, contents@, max_age, now, r is Ok),
    {
        match unix_now_secs() {
            Some(now) => {
                let r = self.store_cache_at(id, contents, max_age, now);
                proof {
                    if r is Ok {
                        assert(live(old(self).cache@, now) == self.cache@.drop_last());
                    }
                    assert(stored_at(old(self).cache@, self.cache@, id@, contents@, max_age, now, r is Ok));
                }
                r
            },
            None => Err(String::from_str("the system clock reads before the Unix epoch")),
        }
    }

    /// Looks `id` up at second `now` after dropping the entries expired at
    /// `now`: the first entry with that id is handed out when `max_age` is 0,
    /// or when it is younger than `max_age` and its expiry lies behind `now`.
    pub fn get_cache_at(&mut self, id: &str, max_age: u64, now: u64) -> (r: Option<
        CynthiaCacheExtraction,
    >)
        requires
            old(self).cache_ok(),
            forall|j: int| 0 <= j < old(self).cache@.len() ==> #[trigger] old(self).cache@[j].timestamp.0 <= now,
        ensures
            final(self).cache@ == live(old(self).cache@, now),
            final(self).cache_ok(),
            final(self).config == old(self).config,
            final(self).request_count == old(self).request_count,
            match lookup(live(old(self).cache@, now), id@, max_age, now) {
                Some((content, stored)) => r matches Some(x) && x.0@ == content && x.1 == stored,
                None => r is None,
            },
    {
        let ghost before = self.cache@;
        self.evaluate_cache_at(now);
        proof {
            lemma_live_subset(before, now);
            assert forall|j: int| 0 <= j < self.cache@.len() implies #[trigger] self.cache@[j].timestamp.0 <= now by {
                let k = choose|k: int| 0 <= k < before.len() && live(before, now)[j] == before[k];
                assert(before[k].timestamp.0 <= now);
            }
        }
        let mut i: usize = 0;
        while i < self.cache.len()
            invariant
                i <= self.cache@.len(),
                self.cache@ == live(before, now),
                before == old(self).cache@,
                self.config == old(self).config,
                self.request_count == old(self).request_count,
                self.cache_ok(),
                forall|j: int| 0 <= j < self.cache@.len() ==> #[trigger] self.cache@[j].timestamp.0 <= now,
                forall|j: int| 0 <= j < i ==> self.cache@[j].id@ != id@,
            decreases self.cache@.len() - i,
        {
            if str_eq(self.cache[i].id.as_str(), id) {
                proof {
                    lemma_first_with_id_step(self.cache@, id@, i as int);
                }
                let t0 = self.cache[i].timestamp.0;
                let t1 = self.cache[i].timestamp.1;
                if max_age == 0 || (now - t0 < max_age && t1 < now) {
                    return Some(CynthiaCacheExtraction(copy_bytes(&self.cache[i].content), t0));
                } else {
                    return None;
                }
            }
            i = i + 1;
        }
        proof {
            lemma_first_with_id_none(self.cache@, id@);
        }
        None
    }

    /// Looks `id` up at the system clock's current second, as
    /// `get_cache_at` does. Hands out nothing, and leaves the cache as it
    /// was, when the clock cannot be read or reads earlier than some entry
    /// was stored.
    pub fn get_cache(&mut self, id: &str, max_age: u64) -> (r: Option<CynthiaCacheExtraction>)
        requires
            old(self).cache_ok(),
        ensures
            final(self).cache_ok(),
            final(self).config == old(self).config,
            r matches Some(x) ==> exists|now: u64| #[trigger]
                lookup(live(old(self).cache@, now), id@, max_age, now) == Some((x.0@, x.1)),
            (r is None && final(self).cache@ == old(self).cache@) || exists|now: u64| #[trigger]
                read_at(old(self).cache@, final(self).cache@, id@, max_age, now, r),
    {
        match unix_now_secs() {
            Some(now) => {
                if self.all_stored_by(now) {
                    let r = self.get_cache_at(id, max_age, now);
                    proof {
                        assert(read_at(old(self).cache@, self.cache@, id@, max_age, now, r));
                    }
                    r
                } else {
                    None
                }
            },
            None => None,
        }
    }

    /// Whether every entry was stored at or before second `now`.
    pub fn all_stored_by(&self, now: u64) -> (r: bool)
        ensures
            r == forall|j: int| 0 <= j < self.cache@.len() ==> #[trigger] self.cache@[j].timestamp.0 <= now,
    {
        let mut i: usize = 0;
        while i < self.cache.len()
            invariant
                i <= self.cache@.len(),
                forall|j: int| 0 <= j < i ==> #[trigger] self.cache@[j].timestamp.0 <= now,
            decreases self.cache@.len() - i,
        {
            if self.cache[i].timestamp.0 > now {
                return false;
            }
            i = i + 1;
        }
        true
    }
}

proof fn lemma_prefix_size(s: Seq<CynthiaCacheObject>, k: int)
    requires
        0 <= k <= s.len(),
    ensures
        total_size(s.subrange(0, k)) <= total_size(s),
    decreases s.len() - k,
{
    if k < s.len() {
        lemma_prefix_size(s, k + 1);
        assert(s.subrange(0, k + 1).drop_last() =~= s.subrange(0, k));
    } else {
        assert(s.subrange(0, k) =~= s);
    }
}

/// Every entry kept at `now` comes from the cache it was kept from.
pub proof fn lemma_live_subset(s: Seq<CynthiaCacheObject>, now: u64)
    ensures
        forall|j: int|
            0 <= j < live(s, now).len() ==> exists|k: int|
                0 <= k < s.len() && #[trigger] live(s, now)[j] == s[k],
        forall|j: int| 0 <= j < live(s, now).len() ==> is_live(#[trigger] live(s, now)[j], now),
    decreases s.len(),
{
    if s.len() > 0 {
        lemma_live_subset(s.drop_last(), now);
        let l = live(s.drop_last(), now);
        assert forall|j: int| 0 <= j < live(s, now).len() implies exists|k: int|
            0 <= k < s.len() && #[trigger] live(s, now)[j] == s[k] by {
            if j < l.len() {
                let k = choose|k: int| 0 <= k < s.drop_last().len() && l[j] == s.drop_last()[k];
                assert(live(s, now)[j] == s[k]);
            } else {
                assert(live(s, now)[j] == s[s.len() - 1]);
            }
        }
    }
}

/// Nothing is dropped at second 0: every expiry is either 0 or later.
pub proof fn lemma_live_zero(s: Seq<CynthiaCacheObject>)
    ensures
        live(s, 0) == s,
    decreases s.len(),
{
    if s.len() > 0 {
        lemma_live_zero(s.drop_last());
        assert(s.drop_last().push(s.last()) =~= s);
    }
}

proof fn lemma_live_push(s: Seq<CynthiaCacheObject>, e: CynthiaCacheObject, now: u64)
    requires
        is_live(e, now),
    ensures
        live(s.push(e), now) == live(s, now).push(e),
{
    assert(s.push(e).drop_last() =~= s);
}

proof fn lemma_first_with_id_push(s: Seq<CynthiaCacheObject>, e: CynthiaCacheObject, id: Seq<char>)
    requires
        forall|j: int| 0 <= j < s.len() ==> s[j].id@ != id,
        e.id@ == id,
    ensures
        first_with_id(s.push(e), id) == Some(s.len() as int),
{
    lemma_first_with_id_step(s.push(e), id, s.len() as int);
}

/// Storing content under an id the cache does not hold yet, and looking that
/// id up (with age 0) at any second before the entry's lifetime has run
/// out, hands back exactly the content stored and the second it was stored
/// at.
pub proof fn law_store_then_get(
    c: Seq<CynthiaCacheObject>,
    e: CynthiaCacheObject,
    id: Seq<char>,
    content: Seq<u8>,
    max_age: u64,
    t: u64,
    later: u64,
)
    requires
        forall|j: int| 0 <= j < c.len() ==> c[j].id@ != id,
        e.id@ == id,
        e.content@ == content,
        t + max_age <= u64::MAX,
        e.timestamp == (t, (t + max_age) as u64),
        t <= later < t + max_age,
    ensures
        lookup(live(live(c, t).push(e), later), id, 0, later) == Some((content, t)),
{
    lemma_live_subset(c, t);
    let l1 = live(c, t);
    lemma_live_push(l1, e, later);
    lemma_live_subset(l1, later);
    let l2 = live(l1, later);
    assert forall|j: int| 0 <= j < l2.len() implies l2[j].id@ != id by {
        let k = choose|k: int| 0 <= k < l1.len() && l2[j] == l1[k];
        let m = choose|m: int| 0 <= m < c.len() && l1[k] == c[m];
    }
    lemma_first_with_id_push(l2, e, id);
}

/// Dropping expired entries twice at the same second drops nothing more.
pub proof fn law_evaluate_idempotent(c: Seq<CynthiaCacheObject>, now: u64)
    ensures
        live(live(c, now), now) == live(c, now),
    decreases c.len(),
{
    if c.len() > 0 {
        law_evaluate_idempotent(c.drop_last(), now);
        let l = live(c.drop_last(), now);
        if is_live(c.last(), now) {
            lemma_live_push(l, c.last(), now);
        }
    }
}

/// Dropping expired entries never makes the cache larger.
pub proof fn law_evaluate_shrinks(c: Seq<CynthiaCacheObject>, now: u64)
    ensures
        total_size(live(c, now)) <= total_size(c),
        live(c, now).len() <= c.len(),
{
    lemma_live_size(c, now);
}

} // verus!
