//! Channel attaching and the ordered shutdown.
//!
//! Attaching splits a transport into its two halves outside this crate; here
//! it enters the channel table, after which the embedding loop hands the
//! halves to the send and receive managers via their add handlers and
//! acknowledges the attach. Shutdown runs in order: mark every stream's send
//! direction closed, ask the send side to close every known channel, poll the
//! barrier with exponential backoff up to the caller's timeout, and on
//! timeout force-close every recv half and poll again; the reply is `Ok` in
//! both outcomes.

use vstd::prelude::*;
use crate::types::{Cid, Sid, BARR_CHANNEL};
use crate::participant::{
    lemma_sid_index, lemma_streams_wf_frame, lemma_update_same_sids, sid_index, Participant,
    StreamEntry,
};

verus! {

impl Participant {
    /// Accepts one new transport: enters `cid` into the channel table. The
    /// halves then go to the managers through
    /// [`Participant::handle_add_send_protocol`] and
    /// [`Participant::handle_add_recv_protocol`], after which the attach is
    /// acknowledged. Cids are assigned by the caller and never reused.
    pub fn attach_channel(&mut self, cid: Cid)
        requires
            old(self).wf(),
            !old(self).cid_attached(cid),
            !old(self).channel_exited,
        ensures
            final(self).wf(),
            final(self).cid_attached(cid),
            final(self).channels@ == old(self).channels@.push(cid),
            forall|c: Cid| c != cid
                ==> final(self).cid_attached(c) == old(self).cid_attached(c),
            final(self).same_identity(*old(self)),
            final(self).same_mgr_state(*old(self)),
            final(self).same_streams(*old(self)),
            final(self).send_cids@ == old(self).send_cids@,
            final(self).recv_cids@ == old(self).recv_cids@,
            final(self).send_queue@ == old(self).send_queue@,
            final(self).next_sid == old(self).next_sid,
    {
        let ghost v0 = self.channels@;
        self.channels.push(cid);
        proof {
            assert forall|c: Cid| c != cid
                implies self.cid_attached(c) == old(self).cid_attached(c) by {
                if crate::participant::cids_contain(v0, c) {
                    let k = choose|k: int| 0 <= k < v0.len() && v0[k] == c;
                    assert(self.channels@[k] == c);
                }
                if self.cid_attached(c) {
                    let k = choose|k: int| 0 <= k < self.channels@.len()
                        && self.channels@[k] == c;
                    assert(k < v0.len());
                }
            }
            assert(self.channels@[v0.len() as int] == cid);
            assert forall|i: int| 0 <= i < self.send_cids@.len()
                implies self.cid_attached(#[trigger] self.send_cids@[i]) by {
                let k = choose|k: int| 0 <= k < v0.len() && v0[k] == self.send_cids@[i];
                assert(self.channels@[k] == self.send_cids@[i]);
            }
            assert forall|i: int| 0 <= i < self.recv_cids@.len()
                implies self.cid_attached(#[trigger] self.recv_cids@[i]) by {
                let k = choose|k: int| 0 <= k < v0.len() && v0[k] == self.recv_cids@[i];
                assert(self.channels@[k] == self.recv_cids@[i]);
            }
            lemma_streams_wf_frame(*old(self), *self);
        }
    }

    /// The attach input was closed: no further channel will arrive. The
    /// attach manager exits and pays its barrier share.
    pub fn handle_attach_input_closed(&mut self)
        requires
            old(self).wf(),
            !old(self).channel_exited,
        ensures
            final(self).wf(),
            final(self).channel_exited,
            final(self).barrier == old(self).barrier - BARR_CHANNEL,
            final(self).barrier <= old(self).barrier,
            final(self).same_identity(*old(self)),
            final(self).same_streams(*old(self)),
            final(self).same_cids(*old(self)),
            final(self).send_queue@ == old(self).send_queue@,
            final(self).next_sid == old(self).next_sid,
            final(self).send_exited == old(self).send_exited,
            final(self).recv_exited == old(self).recv_exited,
            final(self).send_started == old(self).send_started,
            final(self).shutdown_begun == old(self).shutdown_begun,
    {
        self.channel_exited = true;
        self.barrier = self.barrier - BARR_CHANNEL;
        proof {
            lemma_streams_wf_frame(*old(self), *self);
        }
    }

    /// Begins the ordered teardown: marks every stream's send direction
    /// closed (writers fail fast from here on) and returns the cids whose
    /// send halves must now be closed, one by one, through
    /// [`Participant::handle_close_send_protocol`]. The attach input must
    /// already be closed, and at least one channel must have been attached.
    pub fn shutdown_begin(&mut self) -> (cids: Vec<Cid>)
        requires
            old(self).wf(),
            !old(self).shutdown_begun,
            old(self).channel_exited,
            old(self).channels@.len() > 0,
        ensures
            final(self).wf(),
            final(self).shutdown_begun,
            cids@ == old(self).channels@,
            forall|s: Sid| final(self).sid_seen(s) == old(self).sid_seen(s),
            forall|s: Sid| final(self).sid_seen(s)
                ==> final(self).stream_at(s).send_closed,
            forall|s: Sid| old(self).sid_seen(s)
                ==> final(self).stream_at(s) == (StreamEntry {
                    send_closed: true,
                    ..old(self).stream_at(s)
                }),
            forall|s: Sid| final(self).trace(s) == old(self).trace(s),
            final(self).same_identity(*old(self)),
            final(self).same_cids(*old(self)),
            final(self).send_queue@ == old(self).send_queue@,
            final(self).next_sid == old(self).next_sid,
            final(self).barrier == old(self).barrier,
            final(self).channel_exited == old(self).channel_exited,
            final(self).send_exited == old(self).send_exited,
            final(self).recv_exited == old(self).recv_exited,
            final(self).send_started == old(self).send_started,
    {
        let n = self.streams.len();
        let mut i: usize = 0;
        while i < n
            invariant
                i <= n,
                n == self.streams@.len(),
                self.streams@.len() == old(self).streams@.len(),
                self.wire@ == old(self).wire@,
                forall|k: int| 0 <= k < i ==> self.streams@[k] == (StreamEntry {
                    send_closed: true,
                    ..old(self).streams@[k]
                }),
                forall|k: int| i <= k < n ==> self.streams@[k] == old(self).streams@[k],
                forall|s: Sid| self.sid_seen(s) == old(self).sid_seen(s),
                self.same_identity(*old(self)),
                self.same_mgr_state(*old(self)),
                self.same_cids(*old(self)),
                self.send_queue@ == old(self).send_queue@,
                self.next_sid == old(self).next_sid,
                self.wf(),
            decreases n - i,
        {
            let ghost pre = *self;
            let mut entry = self.streams.remove(i);
            entry.send_closed = true;
            self.streams.insert(i, entry);
            proof {
                let k = i as int;
                assert(self.streams@ =~= pre.streams@.update(k, self.streams@[k]));
                assert(self.streams@[k].sid == pre.streams@[k].sid);
                assert forall|s: Sid| self.sid_seen(s) == pre.sid_seen(s) by {
                    lemma_update_same_sids(pre.streams@, self.streams@, k, s);
                }
                assert forall|m: int| 0 <= m < self.streams@.len()
                    implies self.entry_wf(m) by {
                    assert(pre.entry_wf(m));
                    if m != k {
                        assert(self.streams@[m] == pre.streams@[m]);
                    }
                }
                assert forall|s: Sid| self.wire@.dom().contains(s)
                    implies self.sid_seen(s) by {
                    assert(pre.sid_seen(s));
                }
            }
            i = i + 1;
        }
        let ghost mid = *self;
        self.shutdown_begun = true;
        proof {
            lemma_streams_wf_frame(mid, *self);
            assert forall|s: Sid| self.sid_seen(s)
                implies self.stream_at(s).send_closed by {
                let k = sid_index(self.streams@, s);
            }
            assert forall|s: Sid| old(self).sid_seen(s)
                implies self.stream_at(s) == (StreamEntry {
                    send_closed: true,
                    ..old(self).stream_at(s)
                }) by {
                let k = sid_index(old(self).streams@, s);
                lemma_sid_index(old(self).streams@, s, k);
                lemma_sid_index(self.streams@, s, k);
            }
        }
        self.clone_channel_cids()
    }

    /// The cids whose recv halves a timed-out shutdown must force-close, one
    /// by one, through [`Participant::handle_force_close_recv`]: every known
    /// channel.
    pub fn force_close_cids(&self) -> (cids: Vec<Cid>)
        ensures
            cids@ == self.channels@,
    {
        self.clone_channel_cids()
    }

    /// The shutdown barrier reached zero: all three managers have exited and
    /// `run()` may return its `Ok` reply.
    pub fn shutdown_complete(&self) -> (r: bool)
        ensures
            r == (self.barrier == 0),
    {
        self.barrier == 0
    }

    /// A copy of the channel table.
    fn clone_channel_cids(&self) -> (cids: Vec<Cid>)
        ensures
            cids@ == self.channels@,
    {
        let n = self.channels.len();
        let mut out: Vec<Cid> = Vec::new();
        let mut i: usize = 0;
        while i < n
            invariant
                i <= n,
                n == self.channels@.len(),
                out@ =~= self.channels@.subrange(0, i as int),
            decreases n - i,
        {
            out.push(self.channels[i]);
            proof {
                assert(out@ =~= self.channels@.subrange(0, i + 1 as int));
            }
            i = i + 1;
        }
        proof {
            assert(out@ =~= self.channels@);
        }
        out
    }
}

/// The next barrier-poll backoff: the current delay grown by a factor of
/// 1.4, bounded by the caller's shutdown timeout.
pub fn next_backoff_ms(cur_ms: u64, timeout_ms: u64) -> (r: u64)
    ensures
        cur_ms * 14 <= u64::MAX ==> r == if cur_ms * 14 / 10 > timeout_ms {
            timeout_ms as int
        } else {
            cur_ms * 14 / 10
        },
        cur_ms * 14 > u64::MAX ==> r == timeout_ms,
{
    match cur_ms.checked_mul(14) {
        Some(x) => {
            let g = x / 10;
            if g > timeout_ms {
                timeout_ms
            } else {
                g
            }
        },
        None => timeout_ms,
    }
}

} // verus!
