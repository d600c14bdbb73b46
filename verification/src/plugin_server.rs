//! Bookkeeping for the conversation with the external JavaScript plugin
//! runtime: which request ids are in flight, which responses have come back,
//! and how each line the runtime prints is to be taken.

use vstd::prelude::*;
use vstd::string::*;
use crate::text::{concat2, str_contains, str_starts_with, starts_with, contains, occurs_at, chars_of, string_of};
use crate::renders::{PageLikePublicationTemplateData, PostListPublicationTemplateData};

verus! {

/// Id of one request to the plugin runtime.
pub type EPSCommunicationsID = u32;

/// The body of a response from the plugin runtime.
pub enum EPSResponseBody {
    NoneOk,
    OkString { value: String },
    Json { value: String },
    Error { message: Option<String> },
    Disabled,
    WebResponse { append_headers: Vec<(String, String)>, response_body: String },
}

/// A response from the plugin runtime, tagged with the id of its request.
pub struct EPSResponse {
    pub id: EPSCommunicationsID,
    pub body: EPSResponseBody,
}

/// Requests in flight and responses received.
pub struct EPSCommunicationData {
    /// Responses received and not yet claimed; a claimed slot holds `None`.
    pub response_queue: Vec<Option<EPSResponse>>,
    /// Ids sent to the runtime and not answered yet.
    pub unreturned_ids: Vec<EPSCommunicationsID>,
}

impl EPSCommunicationData {
    /// Nothing in flight and nothing received.
    pub fn new() -> (r: EPSCommunicationData)
        ensures
            r.response_queue@.len() == 0,
            r.unreturned_ids@.len() == 0,
    {
        EPSCommunicationData { response_queue: Vec::new(), unreturned_ids: Vec::new() }
    }
}

/// The body of a request to the plugin runtime.
pub enum EPSRequestBody {
    Close,
    Test { test: String },
    ContentRenderRequest { template_path: String, template_data: PageLikePublicationTemplateData },
    PostlistRenderRequest { template_path: String, template_data: PostListPublicationTemplateData },
    WebRequest { page_id: String, headers: Vec<(String, String)>, method: String },
}

/// A request to the plugin runtime, tagged with its id.
pub struct EPSRequest {
    pub id: EPSCommunicationsID,
    pub body: EPSRequestBody,
}

/// Only the present responses of a queue, in order (claimed slots dropped).
pub open spec fn present(q: Seq<Option<EPSResponse>>) -> Seq<Option<EPSResponse>>
    decreases q.len(),
{
    if q.len() == 0 {
        Seq::empty()
    } else if q.last() is Some {
        present(q.drop_last()).push(q.last())
    } else {
        present(q.drop_last())
    }
}

/// `ids` without any occurrence of `id`, in order.
pub open spec fn without_id(ids: Seq<EPSCommunicationsID>, id: EPSCommunicationsID) -> Seq<
    EPSCommunicationsID,
>
    decreases ids.len(),
{
    if ids.len() == 0 {
        Seq::empty()
    } else if ids.last() == id {
        without_id(ids.drop_last(), id)
    } else {
        without_id(ids.drop_last(), id).push(ids.last())
    }
}

/// No received response carries `id`.
pub open spec fn id_free(q: Seq<Option<EPSResponse>>, id: EPSCommunicationsID) -> bool {
    forall|i: int| 0 <= i < q.len() ==> !(#[trigger] q[i] matches Some(a) && a.id == id)
}

/// The queue holds no response: every slot has been claimed.
pub open spec fn no_response(q: Seq<Option<EPSResponse>>) -> bool {
    forall|i: int| 0 <= i < q.len() ==> #[trigger] q[i] is None
}

/// What a look for a response finds.
pub enum QueueScan {
    /// The response sits at this position.
    Found(usize),
    /// Not there yet.
    Waiting,
    /// Another id sits in the queue although no other request is waiting.
    Corrupt,
}

/// Scans the queue from position `k` for the response to `id`: the first
/// response to `id` is found, unless a response to another id comes first
/// while no other request is in flight (`lone`).
pub open spec fn scan_from(q: Seq<Option<EPSResponse>>, id: EPSCommunicationsID, lone: bool, k: int) -> QueueScan
    decreases q.len() - k,
{
    if k < 0 || k >= q.len() {
        QueueScan::Waiting
    } else {
        match q[k] {
            Some(a) => if a.id == id {
                QueueScan::Found(k as usize)
            } else if lone {
                QueueScan::Corrupt
            } else {
                scan_from(q, id, lone, k + 1)
            },
            None => scan_from(q, id, lone, k + 1),
        }
    }
}

/// What a look for the response to a request gives.
pub enum EPSQueueCheck {
    /// The response arrived; it has been taken out of the queue.
    Found(EPSResponseBody),
    /// No response yet.
    Waiting,
    /// The queue holds a response to an id that nobody waits for.
    Corrupt,
}

/// A random id (`rand::random`); any `u32` may come back.
#[verifier::external_body]
fn random_id() -> (r: EPSCommunicationsID) {
    rand::random::<EPSCommunicationsID>()
}

impl EPSCommunicationData {
    /// Whether no received response carries `id`.
    pub fn id_is_free(&self, id: EPSCommunicationsID) -> (r: bool)
        ensures
            r == id_free(self.response_queue@, id),
    {
        let mut i: usize = 0;
        while i < self.response_queue.len()
            invariant
                i <= self.response_queue@.len(),
                forall|j: int|
                    0 <= j < i ==> !(#[trigger] self.response_queue@[j] matches Some(a) && a.id
                        == id),
            decreases self.response_queue@.len() - i,
        {
            match &self.response_queue[i] {
                Some(a) => {
                    if a.id == id {
                        return false;
                    }
                },
                None => {},
            }
            i = i + 1;
        }
        true
    }

    /// Claims `id` for a new request when no received response carries it:
    /// the id joins the ids in flight. Otherwise nothing changes.
    pub fn claim_id(&mut self, id: EPSCommunicationsID) -> (r: bool)
        ensures
            r == id_free(old(self).response_queue@, id),
            final(self).response_queue@ == old(self).response_queue@,
            r ==> final(self).unreturned_ids@ == old(self).unreturned_ids@.push(id),
            !r ==> final(self).unreturned_ids@ == old(self).unreturned_ids@,
    {
        if self.id_is_free(id) {
            self.unreturned_ids.push(id);
            true
        } else {
            false
        }
    }

    /// Draws random ids until one is free and claims it. `None` only once
    /// every one of `u64::MAX` draws hit an id in use; when the queue holds
    /// no response every id is free and the first draw is claimed.
    pub fn claim_random_id(&mut self) -> (r: Option<EPSCommunicationsID>)
        ensures
            final(self).response_queue@ == old(self).response_queue@,
            match r {
                Some(id) => id_free(old(self).response_queue@, id)
                    && final(self).unreturned_ids@ == old(self).unreturned_ids@.push(id),
                None => final(self).unreturned_ids@ == old(self).unreturned_ids@,
            },
            no_response(old(self).response_queue@) ==> r is Some,
    {
        let mut tries: u64 = u64::MAX;
        while tries > 0
            invariant
                self.response_queue@ == old(self).response_queue@,
                self.unreturned_ids@ == old(self).unreturned_ids@,
                no_response(old(self).response_queue@) ==> tries == u64::MAX,
            decreases tries,
        {
            let d = random_id();
            if self.claim_id(d) {
                return Some(d);
            }
            tries = tries - 1;
        }
        None
    }

    /// Puts a response from the runtime at the back of the queue.
    pub fn receive(&mut self, res: EPSResponse)
        ensures
            final(self).response_queue@ == old(self).response_queue@.push(Some(res)),
            final(self).unreturned_ids@ == old(self).unreturned_ids@,
    {
        self.response_queue.push(Some(res));
    }

    /// Looks for the response to `id`: drops claimed slots, then scans the
    /// queue in order. A found response is taken out (its slot left empty)
    /// and `id` leaves the ids in flight; a response to another id met while
    /// `id` is the only id in flight means the queue is corrupt.
    pub fn take_response(&mut self, id: EPSCommunicationsID) -> (r: EPSQueueCheck)
        ensures
            ({
                let q = present(old(self).response_queue@);
                let lone = old(self).unreturned_ids@.len() <= 1;
                match scan_from(q, id, lone, 0) {
                    QueueScan::Found(k) => r matches EPSQueueCheck::Found(b) && q[k as int]
                        matches Some(a) && b == a.body && final(self).response_queue@ == q.update(
                        k as int,
                        None,
                    ) && final(self).unreturned_ids@ == without_id(old(self).unreturned_ids@, id),
                    QueueScan::Waiting => r is Waiting && final(self).response_queue@ == q
                        && final(self).unreturned_ids@ == old(self).unreturned_ids@,
                    QueueScan::Corrupt => r is Corrupt && final(self).response_queue@ == q
                        && final(self).unreturned_ids@ == old(self).unreturned_ids@,
                }
            }),
    {
        let ghost old_q = self.response_queue@;
        let mut rest: Vec<Option<EPSResponse>> = Vec::new();
        std::mem::swap(&mut rest, &mut self.response_queue);
        let mut i: usize = 0;
        while i < rest.len()
            invariant
                i <= rest@.len(),
                rest@.len() == old_q.len(),
                forall|j: int| i <= j < rest@.len() ==> rest@[j] == old_q[j],
                self.response_queue@ == present(old_q.take(i as int)),
                self.unreturned_ids@ == old(self).unreturned_ids@,
                old_q == old(self).response_queue@,
            decreases rest@.len() - i,
        {
            assert(old_q.take(i + 1).drop_last() =~= old_q.take(i as int));
            let item = rest[i].take();
            if item.is_some() {
                self.response_queue.push(item);
            }
            i = i + 1;
        }
        assert(old_q.take(i as int) =~= old_q);
        let ghost q = self.response_queue@;
        let lone = self.unreturned_ids.len() <= 1;
        let mut k: usize = 0;
        while k < self.response_queue.len()
            invariant
                k <= q.len(),
                self.response_queue@ == q,
                q == present(old_q),
                old_q == old(self).response_queue@,
                self.unreturned_ids@ == old(self).unreturned_ids@,
                lone == (old(self).unreturned_ids@.len() <= 1),
                scan_from(q, id, lone, 0) == scan_from(q, id, lone, k as int),
            decreases q.len() - k,
        {
            let hit: bool = match &self.response_queue[k] {
                Some(a) => a.id == id,
                None => false,
            };
            let occupied = self.response_queue[k].is_some();
            if hit {
                let taken = self.response_queue[k].take();
                proof {
                    assert(self.response_queue@ =~= q.update(k as int, None));
                }
                self.drop_unreturned(id);
                match taken {
                    Some(a) => {
                        return EPSQueueCheck::Found(a.body);
                    },
                    None => {
                        return EPSQueueCheck::Waiting;
                    },
                }
            } else if occupied && lone {
                return EPSQueueCheck::Corrupt;
            }
            k = k + 1;
        }
        EPSQueueCheck::Waiting
    }

    /// Removes every occurrence of `id` from the ids in flight.
    fn drop_unreturned(&mut self, id: EPSCommunicationsID)
        ensures
            final(self).unreturned_ids@ == without_id(old(self).unreturned_ids@, id),
            final(self).response_queue@ == old(self).response_queue@,
    {
        let mut rest: Vec<EPSCommunicationsID> = Vec::new();
        std::mem::swap(&mut rest, &mut self.unreturned_ids);
        let ghost old_ids = rest@;
        let mut i: usize = 0;
        while i < rest.len()
            invariant
                i <= rest@.len(),
                rest@ == old_ids,
                old_ids == old(self).unreturned_ids@,
                self.unreturned_ids@ == without_id(old_ids.take(i as int), id),
                self.response_queue@ == old(self).response_queue@,
            decreases rest@.len() - i,
        {
            assert(old_ids.take(i + 1).drop_last() =~= old_ids.take(i as int));
            if rest[i] != id {
                self.unreturned_ids.push(rest[i]);
            }
            i = i + 1;
        }
        assert(old_ids.take(i as int) =~= old_ids);
    }
}

/// The text after a leading `p` up to the next occurrence of `p` (or the
/// end): the second piece when `s` is split at `p`.
pub open spec fn piece_end(s: Seq<char>, p: Seq<char>, k: int) -> int
    decreases s.len() + 1 - k,
{
    if k < 0 || k + p.len() > s.len() {
        s.len() as int
    } else if occurs_at(s, p, k) {
        k
    } else {
        piece_end(s, p, k + 1)
    }
}

/// The second piece of `s` split at `p`, for an `s` that begins with `p`.
pub open spec fn second_piece(s: Seq<char>, p: Seq<char>) -> Seq<char> {
    s.subrange(p.len() as int, piece_end(s, p, p.len() as int))
}

proof fn lemma_piece_end_bounds(s: Seq<char>, p: Seq<char>, k: int)
    requires
        0 <= k <= s.len(),
    ensures
        k <= piece_end(s, p, k) <= s.len(),
    decreases s.len() + 1 - k,
{
    if k + p.len() > s.len() {
    } else if occurs_at(s, p, k) {
    } else {
        assert(p.len() > 0) by {
            if p.len() == 0 {
                assert(s.subrange(k, k) =~= p);
            }
        }
        lemma_piece_end_bounds(s, p, k + 1);
    }
}

/// The second piece of `line` split at `tag`, where `line` begins with `tag`.
fn piece_after(line: &str, tag: &str) -> (r: String)
    requires
        starts_with(line@, tag@),
    ensures
        r@ == second_piece(line@, tag@),
{
    let v = chars_of(line);
    let p = chars_of(tag);
    let start = p.len();
    let last = v.len() - p.len();
    let mut k = start;
    while k <= last && !crate::text::matches_at(&v, &p, k)
        invariant
            v@ == line@,
            p@ == tag@,
            start == tag@.len(),
            last == v@.len() - tag@.len(),
            v@.len() <= usize::MAX,
            start <= k <= v@.len(),
            piece_end(line@, tag@, start as int) == piece_end(line@, tag@, k as int),
        decreases v@.len() - k,
    {
        proof {
            if p@.len() == 0 {
                assert(line@.subrange(k as int, k as int) =~= tag@);
            }
            assert(k < v@.len());
        }
        k = k + 1;
    }
    let end = if k <= last {
        k
    } else {
        v.len()
    };
    let mut out = String::new();
    let mut j = start;
    while j < end
        invariant
            v@ == line@,
            start <= j <= end <= v@.len(),
            end == piece_end(line@, tag@, start as int),
            out@ == line@.subrange(start as int, j as int),
        decreases end - j,
    {
        crate::text::push_char(&mut out, v[j]);
        j = j + 1;
        assert(out@ =~= line@.subrange(start as int, j as int));
    }
    out
}

/// Every character of `s` is a line feed (so `s` is empty once they are
/// removed).
pub open spec fn only_newlines(s: Seq<char>) -> bool {
    forall|i: int| 0 <= i < s.len() ==> s[i] == '\n'
}

/// How a line printed by the plugin runtime is taken.
pub enum RuntimeLine {
    /// A piece of a response; the parse buffer now holds the text to try.
    Parse,
    /// Only line feeds: wait for the next line.
    Blank,
    Info(String),
    Debug(String),
    Error(String),
    Warn(String),
    Log(String),
    /// None of the known tags.
    Other,
}

/// Takes a line printed by the plugin runtime. A `parse: ` line adds its
/// piece to the parse buffer; a line of line feeds changes nothing; any other
/// line empties the buffer and is sorted by its tag (`info: `, `debug: `,
/// `error: `, `warn: `, `log: `, first match wins), carrying its piece.
pub fn feed_line(buffer: &mut String, line: &str) -> (r: RuntimeLine)
    ensures
        starts_with(line@, "parse: "@) ==> r is Parse && final(buffer)@ == old(buffer)@
            + second_piece(line@, "parse: "@),
        !starts_with(line@, "parse: "@) && only_newlines(line@) ==> r is Blank && final(buffer)@
            == old(buffer)@,
        !starts_with(line@, "parse: "@) && !only_newlines(line@) ==> {
            &&& final(buffer)@ == Seq::<char>::empty()
            &&& if starts_with(line@, "info: "@) {
                r matches RuntimeLine::Info(m) && m@ == second_piece(line@, "info: "@)
            } else if starts_with(line@, "debug: "@) {
                r matches RuntimeLine::Debug(m) && m@ == second_piece(line@, "debug: "@)
            } else if starts_with(line@, "error: "@) {
                r matches RuntimeLine::Error(m) && m@ == second_piece(line@, "error: "@)
            } else if starts_with(line@, "warn: "@) {
                r matches RuntimeLine::Warn(m) && m@ == second_piece(line@, "warn: "@)
            } else if starts_with(line@, "log: "@) {
                r matches RuntimeLine::Log(m) && m@ == second_piece(line@, "log: "@)
            } else {
                r is Other
            }
        },
{
    if str_starts_with(line, "parse: ") {
        let piece = piece_after(line, "parse: ");
        buffer.append(piece.as_str());
        return RuntimeLine::Parse;
    }
    let v = chars_of(line);
    let mut i: usize = 0;
    while i < v.len() && v[i] == '\n'
        invariant
            v@ == line@,
            i <= v@.len(),
            forall|j: int| 0 <= j < i ==> line@[j] == '\n',
        decreases v@.len() - i,
    {
        i = i + 1;
    }
    if i == v.len() {
        return RuntimeLine::Blank;
    }
    *buffer = String::new();
    if str_starts_with(line, "info: ") {
        RuntimeLine::Info(piece_after(line, "info: "))
    } else if str_starts_with(line, "debug: ") {
        RuntimeLine::Debug(piece_after(line, "debug: "))
    } else if str_starts_with(line, "error: ") {
        RuntimeLine::Error(piece_after(line, "error: "))
    } else if str_starts_with(line, "warn: ") {
        RuntimeLine::Warn(piece_after(line, "warn: "))
    } else if str_starts_with(line, "log: ") {
        RuntimeLine::Log(piece_after(line, "log: "))
    } else {
        RuntimeLine::Other
    }
}

/// The line sent to the runtime for a request serialised as `json`.
pub fn frame_request(json: &str) -> (r: String)
    ensures
        r@ == "parse: "@ + json@,
{
    concat2("parse: ", json)
}

/// The arguments the runtime `rt` is started with to run `script`: a Deno
/// runtime gets `run --allow-read` first.
pub fn runtime_args(rt: &str, script: &str) -> (r: Vec<String>)
    ensures
        contains(rt@, "deno"@) ==> r@.len() == 3 && r@[0]@ == "run"@ && r@[1]@ == "--allow-read"@
            && r@[2]@ == script@,
        !contains(rt@, "deno"@) ==> r@.len() == 1 && r@[0]@ == script@,
{
    let mut r: Vec<String> = Vec::new();
    if str_contains(rt, "deno") {
        r.push(String::from_str("run"));
        r.push(String::from_str("--allow-read"));
    }
    r.push(script.to_owned());
    r
}

/// Whether the plugin runtime is off: its runtime failed validation or is
/// set to `disabled`.
pub fn eps_disabled(runtime_valid: bool, rt: &str) -> (r: bool)
    ensures
        r == (!runtime_valid || rt@ == "disabled"@),
{
    !runtime_valid || crate::text::str_eq(rt, "disabled")
}

/// The present responses are exactly the `Some` entries of the queue.
proof fn lemma_present_from(q: Seq<Option<EPSResponse>>)
    ensures
        forall|j: int|
            0 <= j < present(q).len() ==> (#[trigger] present(q)[j]) is Some && exists|i: int|
                0 <= i < q.len() && q[i] == present(q)[j],
    decreases q.len(),
{
    if q.len() > 0 {
        lemma_present_from(q.drop_last());
        let p = present(q.drop_last());
        assert forall|j: int| 0 <= j < present(q).len() implies (#[trigger] present(q)[j]) is Some
            && exists|i: int| 0 <= i < q.len() && q[i] == present(q)[j] by {
            if j < p.len() {
                assert(present(q)[j] == p[j]);
                let i = choose|i: int| 0 <= i < q.drop_last().len() && q.drop_last()[i] == p[j];
                assert(q[i] == p[j]);
            } else {
                assert(q[q.len() - 1] == present(q)[j]);
            }
        }
    }
}

proof fn lemma_scan_reaches(p: Seq<Option<EPSResponse>>, id: EPSCommunicationsID, lone: bool, k: int)
    requires
        0 <= k < p.len(),
        p.last() matches Some(a) && a.id == id,
        forall|j: int| k <= j < p.len() - 1 ==> (#[trigger] p[j] matches Some(a) && a.id != id),
        !lone || k == p.len() - 1,
    ensures
        scan_from(p, id, lone, k) == QueueScan::Found((p.len() - 1) as usize),
    decreases p.len() - k,
{
    if k < p.len() - 1 {
        assert(p[k] matches Some(a) && a.id != id);
        lemma_scan_reaches(p, id, lone, k + 1);
    }
}

/// A response received for an id that no queued response carried is what
/// the next look for that id finds, unless a response to another id sits
/// before it while that id is the only one in flight.
pub proof fn law_receive_then_find(
    q: Seq<Option<EPSResponse>>,
    ids: Seq<EPSCommunicationsID>,
    res: EPSResponse,
)
    requires
        id_free(q, res.id),
        present(q).len() == 0 || ids.len() > 1,
    ensures
        scan_from(present(q.push(Some(res))), res.id, ids.len() <= 1, 0) == QueueScan::Found(
            present(q).len() as usize,
        ),
        present(q.push(Some(res)))[present(q).len() as int] == Some(res),
{
    let p = present(q.push(Some(res)));
    assert(q.push(Some(res)).drop_last() =~= q);
    assert(p == present(q).push(Some(res)));
    lemma_present_from(q);
    assert forall|j: int| 0 <= j < p.len() - 1 implies (#[trigger] p[j] matches Some(a) && a.id
        != res.id) by {
        assert(p[j] == present(q)[j]);
        assert(present(q)[j] is Some);
        let i = choose|i: int| 0 <= i < q.len() && q[i] == present(q)[j];
        assert(!(q[i] matches Some(a) && a.id == res.id));
    }
    lemma_scan_reaches(p, res.id, ids.len() <= 1, 0);
}

/// Once the response to an id is taken, the id is no longer in flight: no
/// occurrence of it is left among the ids waiting for an answer, and every
/// other id stays.
pub proof fn law_taken_id_leaves_flight(ids: Seq<EPSCommunicationsID>, id: EPSCommunicationsID)
    ensures
        !without_id(ids, id).contains(id),
        forall|x: EPSCommunicationsID| x != id && ids.contains(x) ==> without_id(ids, id).contains(x),
    decreases ids.len(),
{
    if ids.len() > 0 {
        law_taken_id_leaves_flight(ids.drop_last(), id);
        let w = without_id(ids.drop_last(), id);
        if ids.last() != id {
            assert(without_id(ids, id) == w.push(ids.last()));
            assert forall|x: EPSCommunicationsID| x != id && ids.contains(x) implies without_id(ids, id).contains(x) by {
                let k = choose|k: int| 0 <= k < ids.len() && ids[k] == x;
                if k < ids.len() - 1 {
                    assert(ids.drop_last()[k] == x);
                    assert(ids.drop_last().contains(x));
                    assert(w.contains(x));
                    let j = choose|j: int| 0 <= j < w.len() && w[j] == x;
                    assert(w.push(ids.last())[j] == x);
                } else {
                    assert(w.push(ids.last())[w.len() as int] == x);
                }
            }
            assert(!w.push(ids.last()).contains(id)) by {
                if w.push(ids.last()).contains(id) {
                    let j = choose|j: int| 0 <= j < w.len() + 1 && w.push(ids.last())[j] == id;
                    if j < w.len() {
                        assert(w[j] == id);
                    }
                }
            }
        } else {
            assert forall|x: EPSCommunicationsID| x != id && ids.contains(x) implies without_id(ids, id).contains(x) by {
                let k = choose|k: int| 0 <= k < ids.len() && ids[k] == x;
                assert(k < ids.len() - 1);
                assert(ids.drop_last()[k] == x);
                assert(ids.drop_last().contains(x));
            }
        }
    }
}

} // verus!
