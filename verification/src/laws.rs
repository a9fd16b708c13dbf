//! The participant's quantified guarantees, stated and proved once over the
//! state invariant and the operation contracts.

use vstd::prelude::*;
use crate::types::{Cid, ProtocolEvent, Sid, BARR_CHANNEL, BARR_RECV, BARR_SEND, SEND_QUEUE_CAP};
use crate::participant::{trace_ok, Participant};
use crate::send::drained_sends;

verus! {

/// Stream uniqueness: the stream table never holds two rows for one stream
/// id. Together with `create_stream`'s precondition (the id must be unseen)
/// and the fact that no operation ever removes a row, a stream id is
/// registered at most once over the participant's lifetime.
pub proof fn lemma_stream_uniqueness(p: Participant, i: int, j: int)
    requires
        p.wf(),
        0 <= i < p.streams@.len(),
        0 <= j < p.streams@.len(),
        p.streams@[i].sid == p.streams@[j].sid,
    ensures
        i == j,
{
    if i < j {
        assert(p.streams@[i].sid != p.streams@[j].sid);
    } else if j < i {
        assert(p.streams@[j].sid != p.streams@[i].sid);
    }
}

/// Ordered open and close: for every stream id, the sequence of protocol
/// events that carried it (local emissions and delivered peer events alike)
/// is a prefix of `OpenStream, Message*, CloseStream`.
pub proof fn lemma_ordered_open_close(p: Participant, sid: Sid)
    requires
        p.wf(),
    ensures
        trace_ok(p.trace(sid)),
{
    if p.wire@.dom().contains(sid) {
        assert(p.sid_seen(sid));
        let i = choose|i: int| 0 <= i < p.streams@.len()
            && (#[trigger] p.streams@[i]).sid == sid;
        assert(p.entry_wf(i));
    }
}

/// Barrier accounting: the shutdown barrier equals the sum of the shares of
/// the managers that have not yet exited. It never exceeds its initial
/// value, and it is zero exactly when all three managers have exited. Every
/// mutating operation's contract bounds the new barrier by the old one, so
/// the value is non-increasing over any run and reaches exactly zero on
/// clean termination.
pub proof fn lemma_barrier_accounting(p: Participant)
    requires
        p.wf(),
    ensures
        p.barrier <= BARR_CHANNEL + BARR_SEND + BARR_RECV,
        (p.barrier == 0) <==> (p.channel_exited && p.send_exited && p.recv_exited),
{
}

/// Backpressure: the bounded api-to-send-manager queue never exceeds its
/// capacity; `stream_send` reports a full queue instead of growing it, and
/// the caller blocks.
pub proof fn lemma_backpressure(p: Participant)
    requires
        p.wf(),
    ensures
        p.send_queue@.len() <= SEND_QUEUE_CAP,
{
}

/// A closed send direction emits no further messages: draining the send
/// queue emits a `Message` only for streams that are live with the send
/// direction open. In particular, once shutdown has marked every stream
/// `send_closed`, the drain emits nothing.
pub proof fn lemma_send_closed_no_messages(p: Participant, q: Seq<(Sid, Vec<u8>)>, cid: Cid)
    ensures
        forall|k: int| 0 <= k < drained_sends(p, q, cid).len()
            ==> match (#[trigger] drained_sends(p, q, cid)[k]).event {
                ProtocolEvent::Message { sid, .. } => p.msg_live(sid),
                _ => true,
            },
    decreases q.len(),
{
    if q.len() > 0 {
        lemma_send_closed_no_messages(p, q.drop_first(), cid);
        let d = drained_sends(p, q, cid);
        let rest = drained_sends(p, q.drop_first(), cid);
        assert forall|k: int| 0 <= k < d.len() implies match (#[trigger] d[k]).event {
            ProtocolEvent::Message { sid, .. } => p.msg_live(sid),
            _ => true,
        } by {
            if p.msg_live(q[0].0) {
                if k > 0 {
                    assert(d[k] == rest[k - 1]);
                }
            } else {
                assert(d[k] == rest[k]);
            }
        }
    }
}

/// Locally minted stream ids never leave the configured offset's range: the
/// mint counter starts at the offset and only grows, so every id
/// `handle_open_stream` mints is at least `offset_sid`.
pub proof fn lemma_local_sids_in_range(p: Participant)
    requires
        p.wf(),
    ensures
        p.next_sid >= p.offset_sid,
{
}

} // verus!
