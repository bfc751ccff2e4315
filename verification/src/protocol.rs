//! The tear-free snapshot protocol, proved against a model of the writer.
//!
//! The simulator process owns the shared region and publishes into it without
//! any coordination with this reader.  What the reader can rely on is only the
//! writer's change-token discipline.  This module models a region's history as
//! a sequence of states (one per instant a reader access could observe) and
//! proves the two facts the acquisition loop rests on:
//!
//! - a copy whose surrounding token reads pass the scheme's consistency check
//!   equals the payload of a single publish (no torn frame is ever accepted),
//!   and conversely a publish that lands mid-copy makes the check fail; and
//! - the change detector reports a change exactly when the token moved: never
//!   on an unmodified token, and always once a publish happened.
//!
//! Two token disciplines are modeled.  The begin/end pair: the writer
//! increments `begin`, rewrites the payload, then increments `end` to match.
//! The monotonic packet id: the writer bumps a single counter at each publish;
//! this also covers the N-buffer tick scheme, where each buffer's tick is such
//! a counter.

use vstd::prelude::*;

verus! {

// ---------------------------------------------------------------------------
// Begin/end pair discipline
// ---------------------------------------------------------------------------

/// A region guarded by a begin/end counter pair, at one instant.
pub struct FrameState {
    pub begin: nat,
    pub end: nat,
    pub payload: Seq<u8>,
}

/// What the writer may do between two adjacent instants: nothing; start a
/// publish (bump `begin` away from a quiescent state); rewrite payload bytes
/// while mid-publish; or finish (raise `end` back to `begin`, payload now
/// settled).  The payload length never changes: the layout is fixed.
pub open spec fn step_ok(pre: FrameState, post: FrameState) -> bool {
    ||| post == pre
    ||| (pre.begin == pre.end && post.begin == pre.begin + 1 && post.end == pre.end
        && post.payload == pre.payload)
    ||| (pre.begin > pre.end && post.begin == pre.begin && post.end == pre.end
        && post.payload.len() == pre.payload.len())
    ||| (pre.begin > pre.end && post.begin == pre.begin && post.end == pre.begin
        && post.payload == pre.payload)
}

/// A possible history of the region under the begin/end discipline.
pub open spec fn writer_trace_ok(t: Seq<FrameState>) -> bool {
    &&& t.len() > 0
    &&& t[0].begin >= t[0].end
    &&& forall|i: int| #![trigger t[i]] 0 <= i < t.len() - 1 ==> step_ok(t[i], t[i + 1])
}

pub proof fn lemma_begin_ge_end(t: Seq<FrameState>, i: int)
    requires
        writer_trace_ok(t),
        0 <= i < t.len(),
    ensures
        t[i].begin >= t[i].end,
    decreases i,
{
    if i > 0 {
        lemma_begin_ge_end(t, i - 1);
        assert(step_ok(t[i - 1], t[i]));
    }
}

/// Both counters only ever grow.
pub proof fn lemma_tokens_monotonic(t: Seq<FrameState>, i: int, j: int)
    requires
        writer_trace_ok(t),
        0 <= i <= j < t.len(),
    ensures
        t[j].begin >= t[i].begin,
        t[j].end >= t[i].end,
    decreases j - i,
{
    if i < j {
        lemma_tokens_monotonic(t, i, j - 1);
        lemma_begin_ge_end(t, j - 1);
        assert(step_ok(t[j - 1], t[j]));
    }
}

proof fn lemma_quiescent_at(t: Seq<FrameState>, i: int, j: int, k: int)
    requires
        writer_trace_ok(t),
        0 <= i <= k <= j < t.len(),
        t[i].begin == t[i].end,
        t[j].begin == t[j].end,
        t[i].end == t[j].end,
    ensures
        t[k] == t[i],
    decreases k - i,
{
    lemma_tokens_monotonic(t, i, k);
    lemma_tokens_monotonic(t, k, j);
    lemma_begin_ge_end(t, k);
    if k > i {
        lemma_quiescent_at(t, i, j, k - 1);
        assert(step_ok(t[k - 1], t[k]));
    }
}

/// While both token reads around a window agree on a quiescent value, the
/// region never changed anywhere inside the window.
pub proof fn lemma_quiescent_window(t: Seq<FrameState>, i: int, j: int)
    requires
        writer_trace_ok(t),
        0 <= i <= j < t.len(),
        t[i].begin == t[i].end,
        t[j].begin == t[j].end,
        t[i].end == t[j].end,
    ensures
        forall|k: int| i <= k <= j ==> t[k] == t[i],
{
    assert forall|k: int| i <= k <= j implies t[k] == t[i] by {
        lemma_quiescent_at(t, i, j, k);
    }
}

/// What an unsynchronized copy taken across the window `[i, j]` can hold:
/// byte by byte, some instant's payload within the window.  A torn copy is
/// exactly a mix of bytes from several instants.
pub open spec fn mixed_copy(t: Seq<FrameState>, i: int, j: int, c: Seq<u8>) -> bool {
    &&& c.len() == t[i].payload.len()
    &&& forall|b: int| #![trigger c[b]]
        0 <= b < c.len() ==> exists|k: int| i <= k <= j && c[b] == #[trigger] t[k].payload[b]
}

/// The begin/end acceptance check is sound: a copy whose post-copy read finds
/// `begin == end` unchanged from the quiescent pre-copy read is byte-for-byte
/// the payload of that publish, however the copy interleaved with the writer.
pub proof fn lemma_accepted_copy_is_untorn(t: Seq<FrameState>, i: int, j: int, c: Seq<u8>)
    requires
        writer_trace_ok(t),
        0 <= i <= j < t.len(),
        mixed_copy(t, i, j, c),
        t[i].begin == t[i].end,
        t[j].begin == t[j].end,
        t[i].end == t[j].end,
    ensures
        c == t[i].payload,
{
    lemma_quiescent_window(t, i, j);
    assert forall|b: int| 0 <= b < c.len() implies c[b] == t[i].payload[b] by {
        let k = choose|k: int| i <= k <= j && c[b] == #[trigger] t[k].payload[b];
        assert(t[k] == t[i]);
    }
    assert(c =~= t[i].payload);
}

/// The begin/end acceptance check is complete against tearing: if the writer
/// changed the payload anywhere strictly inside the copy window, the post-copy
/// token read cannot agree with the quiescent pre-copy read, so the copy is
/// discarded.
pub proof fn lemma_mid_copy_publish_is_detected(t: Seq<FrameState>, i: int, j: int, k: int)
    requires
        writer_trace_ok(t),
        0 <= i <= k <= j < t.len(),
        t[i].begin == t[i].end,
        t[k].payload != t[i].payload,
    ensures
        !(t[j].begin == t[j].end && t[j].end == t[i].end),
{
    if t[j].begin == t[j].end && t[j].end == t[i].end {
        lemma_quiescent_window(t, i, j);
        assert(t[k] == t[i]);
    }
}

// ---------------------------------------------------------------------------
// Monotonic packet id discipline (also each buffer's tick in the N-buffer
// scheme)
// ---------------------------------------------------------------------------

/// A region guarded by a single counter the writer bumps per publish.
pub struct PacketState {
    pub packet_id: nat,
    pub payload: Seq<u8>,
}

/// Between two adjacent instants the writer either leaves the region alone or
/// publishes: the counter strictly grows and the payload may change in place.
pub open spec fn packet_step_ok(pre: PacketState, post: PacketState) -> bool {
    ||| post == pre
    ||| (post.packet_id > pre.packet_id && post.payload.len() == pre.payload.len())
}

/// A possible history of the region under the packet-id discipline.
pub open spec fn packet_trace_ok(t: Seq<PacketState>) -> bool {
    &&& t.len() > 0
    &&& forall|i: int| #![trigger t[i]] 0 <= i < t.len() - 1 ==> packet_step_ok(t[i], t[i + 1])
}

/// The packet id only ever grows.
pub proof fn lemma_packet_id_monotonic(t: Seq<PacketState>, i: int, j: int)
    requires
        packet_trace_ok(t),
        0 <= i <= j < t.len(),
    ensures
        t[j].packet_id >= t[i].packet_id,
    decreases j - i,
{
    if i < j {
        lemma_packet_id_monotonic(t, i, j - 1);
        assert(packet_step_ok(t[j - 1], t[j]));
    }
}

proof fn lemma_packet_quiescent_at(t: Seq<PacketState>, i: int, j: int, k: int)
    requires
        packet_trace_ok(t),
        0 <= i <= k <= j < t.len(),
        t[i].packet_id == t[j].packet_id,
    ensures
        t[k] == t[i],
    decreases k - i,
{
    lemma_packet_id_monotonic(t, i, k);
    lemma_packet_id_monotonic(t, k, j);
    if k > i {
        lemma_packet_quiescent_at(t, i, j, k - 1);
        assert(packet_step_ok(t[k - 1], t[k]));
    }
}

/// While two packet-id reads agree, the region never changed in between.
pub proof fn lemma_packet_quiescent_window(t: Seq<PacketState>, i: int, j: int)
    requires
        packet_trace_ok(t),
        0 <= i <= j < t.len(),
        t[i].packet_id == t[j].packet_id,
    ensures
        forall|k: int| i <= k <= j ==> t[k] == t[i],
{
    assert forall|k: int| i <= k <= j implies t[k] == t[i] by {
        lemma_packet_quiescent_at(t, i, j, k);
    }
}

/// What an unsynchronized copy across `[i, j]` can hold, as for [`mixed_copy`].
pub open spec fn packet_mixed_copy(t: Seq<PacketState>, i: int, j: int, c: Seq<u8>) -> bool {
    &&& c.len() == t[i].payload.len()
    &&& forall|b: int| #![trigger c[b]]
        0 <= b < c.len() ==> exists|k: int| i <= k <= j && c[b] == #[trigger] t[k].payload[b]
}

/// The packet-id acceptance check (read the id, copy, re-read the id, accept
/// on equality) is sound: an accepted copy equals one publish's payload.
pub proof fn lemma_packet_accepted_copy_is_untorn(
    t: Seq<PacketState>,
    i: int,
    j: int,
    c: Seq<u8>,
)
    requires
        packet_trace_ok(t),
        0 <= i <= j < t.len(),
        packet_mixed_copy(t, i, j, c),
        t[i].packet_id == t[j].packet_id,
    ensures
        c == t[i].payload,
{
    lemma_packet_quiescent_window(t, i, j);
    assert forall|b: int| 0 <= b < c.len() implies c[b] == t[i].payload[b] by {
        let k = choose|k: int| i <= k <= j && c[b] == #[trigger] t[k].payload[b];
        assert(t[k] == t[i]);
    }
    assert(c =~= t[i].payload);
}

/// The packet-id acceptance check is complete against tearing: a publish that
/// changes the payload strictly inside the copy window forces the post-copy id
/// read to differ, so the copy is discarded.
pub proof fn lemma_packet_mid_copy_publish_is_detected(
    t: Seq<PacketState>,
    i: int,
    j: int,
    k: int,
)
    requires
        packet_trace_ok(t),
        0 <= i <= k <= j < t.len(),
        t[k].payload != t[i].payload,
    ensures
        t[j].packet_id != t[i].packet_id,
{
    if t[j].packet_id == t[i].packet_id {
        lemma_packet_quiescent_window(t, i, j);
        assert(t[k] == t[i]);
    }
}

// ---------------------------------------------------------------------------
// Change detection over the packet-id discipline
// ---------------------------------------------------------------------------

/// The change detector's decision: a new frame is reported exactly when the
/// token moved since the last observation.
pub open spec fn spec_has_new_frame(current: nat, last: nat) -> bool {
    current != last
}

/// The detector never reports a change while the writer left the region
/// alone: over a window with no publish, the token is unmodified and the
/// detector stays quiet (no false positives).
pub proof fn lemma_detector_no_false_positive(t: Seq<PacketState>, i: int, j: int)
    requires
        packet_trace_ok(t),
        0 <= i <= j < t.len(),
        forall|k: int| #![trigger t[k]] i <= k < j ==> t[k + 1] == t[k],
    ensures
        t[j].packet_id == t[i].packet_id,
        !spec_has_new_frame(t[j].packet_id, t[i].packet_id),
    decreases j - i,
{
    if i < j {
        lemma_detector_no_false_positive(t, i, j - 1);
    }
}

/// The detector misses no publish: once the writer published anywhere in the
/// window, the token observed at the next poll differs from the last one, so
/// the detector reports a change (a genuine update is seen within one cycle).
pub proof fn lemma_detector_reports_publish(t: Seq<PacketState>, i: int, j: int, k: int)
    requires
        packet_trace_ok(t),
        0 <= i <= k < j < t.len(),
        t[k + 1] != t[k],
    ensures
        spec_has_new_frame(t[j].packet_id, t[i].packet_id),
{
    lemma_packet_id_monotonic(t, i, k);
    assert(packet_step_ok(t[k], t[k + 1]));
    lemma_packet_id_monotonic(t, k + 1, j);
}

/// The per-poll change test on a monotonic packet id.
pub fn has_new_frame(current: i32, last: i32) -> (r: bool)
    ensures
        r == (current != last),
{
    current != last
}

/// The post-copy consistency test shared by the packet-id and tick schemes:
/// the copy may be kept only when the token after the copy equals the token
/// before it.
pub fn read_is_consistent(token_before: i32, token_after: i32) -> (r: bool)
    ensures
        r == (token_before == token_after),
{
    token_before == token_after
}

/// Copies `len` bytes at `offset` out of a captured region image, bounds
/// checked against the image's size: the region is treated as a black box
/// exposing only this operation, so no producer-corrupted offset can cause an
/// out-of-range read.
pub fn copy_region_bytes(region: &[u8], offset: usize, len: usize) -> (r: Option<Vec<u8>>)
    ensures
        offset + len <= region@.len() ==> (r matches Some(c) && c@ == region@.subrange(
            offset as int,
            offset + len,
        )),
        offset + len > region@.len() ==> r is None,
{
    if len > region.len() || offset > region.len() - len {
        return None;
    }
    let mut out: Vec<u8> = Vec::new();
    let mut i: usize = 0;
    while i < len
        invariant
            0 <= i <= len,
            offset + len <= region@.len(),
            region@.len() <= usize::MAX,
            out@ == region@.subrange(offset as int, offset + i),
        decreases len - i,
    {
        out.push(region[offset + i]);
        proof {
            assert(out@ =~= region@.subrange(offset as int, offset + i + 1));
        }
        i = i + 1;
    }
    Some(out)
}

} // verus!
