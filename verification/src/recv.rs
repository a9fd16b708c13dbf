//! Receive-manager decisions.
//!
//! The receive manager owns all recv halves. The embedding loop runs one
//! small receive task per channel which funnels `(cid, result)` pairs back;
//! the manager dispatches each result here and then re-arms that channel's
//! task. An inbound `OpenStream` registers the stream and publishes its
//! handle, a `Message` goes to the stream's mailbox, a `CloseStream` deletes
//! the stream, and a `Shutdown` (or a transport error, which takes the same
//! path) retires the channel: the caller must then ask the send side to close
//! the same channel via [`Participant::handle_close_send_protocol`].

use vstd::prelude::*;
use crate::types::{
    Bandwidth, Cid, Prio, Promises, Sid, StreamHandle, WireKind, BARR_RECV,
};
use crate::participant::{
    cid_position, cids_contain, lemma_remove_cid, lemma_sid_index, lemma_streams_wf_frame,
    sid_index, trace_closed, trace_ok, Participant,
};

verus! {

impl Participant {
    /// The receive manager takes ownership of the recv half of `cid`; the
    /// embedding loop must arm a receive task for it.
    pub fn handle_add_recv_protocol(&mut self, cid: Cid)
        requires
            old(self).wf(),
            old(self).cid_attached(cid),
            !old(self).recv_cid_live(cid),
            !old(self).recv_exited,
        ensures
            final(self).wf(),
            final(self).recv_cid_live(cid),
            forall|c: Cid| c != cid
                ==> final(self).recv_cid_live(c) == old(self).recv_cid_live(c),
            final(self).recv_cids@ == old(self).recv_cids@.push(cid),
            final(self).same_identity(*old(self)),
            final(self).same_mgr_state(*old(self)),
            final(self).same_streams(*old(self)),
            final(self).channels@ == old(self).channels@,
            final(self).send_cids@ == old(self).send_cids@,
            final(self).send_queue@ == old(self).send_queue@,
            final(self).next_sid == old(self).next_sid,
    {
        let ghost v0 = self.recv_cids@;
        self.recv_cids.push(cid);
        proof {
            assert forall|c: Cid| c != cid
                implies cids_contain(self.recv_cids@, c) == cids_contain(v0, c) by {
                if cids_contain(v0, c) {
                    let k = choose|k: int| 0 <= k < v0.len() && v0[k] == c;
                    assert(self.recv_cids@[k] == c);
                }
                if cids_contain(self.recv_cids@, c) {
                    let k = choose|k: int| 0 <= k < self.recv_cids@.len()
                        && self.recv_cids@[k] == c;
                    assert(k < v0.len());
                }
            }
            assert(cids_contain(self.recv_cids@, cid)) by {
                assert(self.recv_cids@[v0.len() as int] == cid);
            }
            lemma_streams_wf_frame(*old(self), *self);
        }
    }

    /// The peer announced a new stream: register it and hand out the handle
    /// to publish on the stream-opened output. A stream id this participant
    /// has already seen is dropped (`None`): a well-behaved peer never
    /// reuses one.
    pub fn handle_recv_open(
        &mut self,
        sid: Sid,
        prio: Prio,
        promises: Promises,
        guaranteed_bandwidth: Bandwidth,
    ) -> (r: Option<StreamHandle>)
        requires
            old(self).wf(),
        ensures
            final(self).wf(),
            old(self).sid_seen(sid) ==> r is None && *final(self) == *old(self),
            !old(self).sid_seen(sid) ==> {
                &&& r == Some(StreamHandle {
                    remote_pid: old(self).remote_pid,
                    sid,
                    prio,
                    promises,
                    guaranteed_bandwidth,
                })
                &&& final(self).stream_open(sid)
                &&& final(self).stream_at(sid).prio == prio
                &&& final(self).stream_at(sid).promises == promises
                &&& final(self).stream_at(sid).guaranteed_bandwidth == guaranteed_bandwidth
                &&& !final(self).stream_at(sid).send_closed
                &&& final(self).stream_at(sid).mailbox@.len() == 0
                &&& final(self).trace(sid) =~= seq![WireKind::Open]
                &&& forall|s: Sid| s != sid ==> final(self).trace(s) == old(self).trace(s)
                &&& forall|s: Sid| s != sid
                    ==> final(self).sid_seen(s) == old(self).sid_seen(s)
                &&& forall|s: Sid| s != sid && old(self).sid_seen(s)
                    ==> final(self).stream_at(s) == old(self).stream_at(s)
            },
            final(self).same_identity(*old(self)),
            final(self).same_mgr_state(*old(self)),
            final(self).same_cids(*old(self)),
            final(self).next_sid == old(self).next_sid,
            final(self).send_queue@ == old(self).send_queue@,
    {
        if self.has_stream(sid) {
            return None;
        }
        let handle = self.create_stream(sid, prio, promises, guaranteed_bandwidth);
        Some(handle)
    }

    /// The peer sent a message for `sid`: append it to that stream's inbound
    /// mailbox. A message for an unknown or already-deleted stream is
    /// dropped (simultaneous close), reported as `false`.
    pub fn handle_recv_message(&mut self, sid: Sid, buffer: Vec<u8>) -> (delivered: bool)
        requires
            old(self).wf(),
        ensures
            final(self).wf(),
            delivered == old(self).stream_open(sid),
            !delivered ==> *final(self) == *old(self),
            delivered ==> {
                &&& final(self).stream_at(sid).mailbox@
                    == old(self).stream_at(sid).mailbox@.push(buffer)
                &&& final(self).stream_at(sid).open == old(self).stream_at(sid).open
                &&& final(self).stream_at(sid).send_closed
                    == old(self).stream_at(sid).send_closed
                &&& final(self).trace(sid) == old(self).trace(sid).push(WireKind::Msg)
                &&& forall|s: Sid| s != sid ==> final(self).trace(s) == old(self).trace(s)
                &&& forall|s: Sid| s != sid && old(self).sid_seen(s)
                    ==> final(self).stream_at(s) == old(self).stream_at(s)
            },
            forall|s: Sid| final(self).sid_seen(s) == old(self).sid_seen(s),
            final(self).same_identity(*old(self)),
            final(self).same_mgr_state(*old(self)),
            final(self).same_cids(*old(self)),
            final(self).next_sid == old(self).next_sid,
            final(self).send_queue@ == old(self).send_queue@,
    {
        let idx = match self.find_stream(sid) {
            Some(i) => i,
            None => {
                return false;
            },
        };
        proof {
            lemma_sid_index(self.streams@, sid, idx as int);
        }
        if !self.streams[idx].open {
            return false;
        }
        let ghost old_streams = self.streams@;
        let ghost old_wire = self.wire@;
        let mut entry = self.streams.remove(idx);
        entry.mailbox.push(buffer);
        self.streams.insert(idx, entry);
        self.wire = Ghost(self.wire@.insert(sid, self.wire@[sid].push(WireKind::Msg)));
        proof {
            let i = idx as int;
            let e = self.streams@[i];
            assert(self.streams@ =~= old_streams.update(i, e));
            assert(e.sid == sid);
            assert forall|s: Sid| self.sid_seen(s) == old(self).sid_seen(s) by {
                crate::participant::lemma_update_same_sids(old_streams, self.streams@, i, s);
            }
            lemma_sid_index(self.streams@, sid, i);
            assert forall|s: Sid| s != sid && old(self).sid_seen(s)
                implies self.stream_at(s) == old(self).stream_at(s) by {
                let j = sid_index(old_streams, s);
                lemma_sid_index(old_streams, s, j);
                lemma_sid_index(self.streams@, s, j);
            }
            let t0 = old_wire[sid];
            let t = self.wire@[sid];
            assert(old(self).entry_wf(i));
            assert(t == t0.push(WireKind::Msg));
            assert(!trace_closed(t0));
            assert(trace_ok(t) && !trace_closed(t)) by {
                assert(forall|k: int| 0 <= k < t.len() - 1 ==> t[k] == t0[k]);
                if trace_closed(t) {
                    let m = choose|m: int| 0 <= m < t.len() && (#[trigger] t[m]) is Close;
                    if m < t.len() - 1 {
                        assert(t0[m] is Close);
                    }
                }
            }
            assert forall|k: int| 0 <= k < self.streams@.len() implies self.entry_wf(k) by {
                assert(old(self).entry_wf(k));
                if k != i {
                    assert(self.streams@[k] == old_streams[k]);
                    assert(self.streams@[k].sid != sid) by {
                        if k < i {
                            assert(old_streams[k].sid != old_streams[i].sid);
                        } else {
                            assert(old_streams[i].sid != old_streams[k].sid);
                        }
                    }
                    assert(self.wire@[self.streams@[k].sid] == old_wire[self.streams@[k].sid]);
                }
            }
            assert forall|s: Sid| self.wire@.dom().contains(s) implies self.sid_seen(s) by {
                assert(old_wire.dom().contains(s));
                assert(old(self).sid_seen(s));
            }
        }
        true
    }

    /// The peer closed `sid`: delete the stream. An unknown stream id is a
    /// simultaneous close and is ignored.
    pub fn handle_recv_close(&mut self, sid: Sid)
        requires
            old(self).wf(),
        ensures
            final(self).wf(),
            !final(self).stream_open(sid),
            old(self).stream_open(sid) ==> {
                &&& final(self).stream_at(sid).send_closed
                &&& final(self).stream_at(sid).mailbox_closed
                &&& final(self).stream_at(sid).mailbox == old(self).stream_at(sid).mailbox
                &&& final(self).trace(sid) == old(self).trace(sid).push(WireKind::Close)
            },
            !old(self).stream_open(sid) ==> *final(self) == *old(self),
            forall|s: Sid| s != sid ==> final(self).trace(s) == old(self).trace(s),
            forall|s: Sid| final(self).sid_seen(s) == old(self).sid_seen(s),
            forall|s: Sid| s != sid && old(self).sid_seen(s)
                ==> final(self).stream_at(s) == old(self).stream_at(s),
            final(self).same_identity(*old(self)),
            final(self).same_mgr_state(*old(self)),
            final(self).same_cids(*old(self)),
            final(self).next_sid == old(self).next_sid,
            final(self).send_queue@ == old(self).send_queue@,
    {
        self.delete_stream(sid);
    }

    /// The peer announced `Shutdown` on `cid`, or its transport failed (the
    /// two take the same path): drop the recv half. The caller must also ask
    /// the send side to close `cid`. When the recv table empties, the
    /// receive manager exits and pays its barrier share.
    pub fn handle_recv_channel_down(&mut self, cid: Cid) -> (exited: bool)
        requires
            old(self).wf(),
        ensures
            final(self).wf(),
            final(self).barrier <= old(self).barrier,
            !old(self).recv_cid_live(cid) ==> !exited && *final(self) == *old(self),
            old(self).recv_cid_live(cid) ==> {
                &&& exited == (old(self).recv_cids@.len() == 1)
                &&& !final(self).recv_cid_live(cid)
                &&& forall|c: Cid| c != cid
                    ==> final(self).recv_cid_live(c) == old(self).recv_cid_live(c)
                &&& final(self).recv_cids@.len() == old(self).recv_cids@.len() - 1
                &&& final(self).recv_exited == (old(self).recv_exited || exited)
                &&& exited ==> final(self).barrier == old(self).barrier - BARR_RECV
                &&& !exited ==> final(self).barrier == old(self).barrier
                &&& final(self).same_identity(*old(self))
                &&& final(self).same_streams(*old(self))
                &&& final(self).channels@ == old(self).channels@
                &&& final(self).send_cids@ == old(self).send_cids@
                &&& final(self).send_queue@ == old(self).send_queue@
                &&& final(self).next_sid == old(self).next_sid
                &&& final(self).channel_exited == old(self).channel_exited
                &&& final(self).send_exited == old(self).send_exited
                &&& final(self).send_started == old(self).send_started
                &&& final(self).shutdown_begun == old(self).shutdown_begun
            },
    {
        let i = match cid_position(&self.recv_cids, cid) {
            Some(i) => i,
            None => {
                return false;
            },
        };
        let ghost v0 = self.recv_cids@;
        self.recv_cids.remove(i);
        proof {
            lemma_remove_cid(v0, self.recv_cids@, i as int);
        }
        let exited = if self.recv_cids.len() == 0 {
            self.recv_exited = true;
            self.barrier = self.barrier - BARR_RECV;
            true
        } else {
            false
        };
        proof {
            lemma_streams_wf_frame(*old(self), *self);
        }
        exited
    }

    /// Force-closes the recv half of `cid` during a timed-out shutdown: the
    /// embedding loop must abort that channel's receive task. Same exit rule
    /// as [`Participant::handle_recv_channel_down`].
    pub fn handle_force_close_recv(&mut self, cid: Cid) -> (exited: bool)
        requires
            old(self).wf(),
        ensures
            final(self).wf(),
            final(self).barrier <= old(self).barrier,
            !old(self).recv_cid_live(cid) ==> !exited && *final(self) == *old(self),
            old(self).recv_cid_live(cid) ==> {
                &&& exited == (old(self).recv_cids@.len() == 1)
                &&& !final(self).recv_cid_live(cid)
                &&& forall|c: Cid| c != cid
                    ==> final(self).recv_cid_live(c) == old(self).recv_cid_live(c)
                &&& final(self).recv_exited == (old(self).recv_exited || exited)
                &&& exited ==> final(self).barrier == old(self).barrier - BARR_RECV
                &&& !exited ==> final(self).barrier == old(self).barrier
                &&& final(self).same_identity(*old(self))
                &&& final(self).same_streams(*old(self))
                &&& final(self).channels@ == old(self).channels@
                &&& final(self).send_cids@ == old(self).send_cids@
                &&& final(self).send_queue@ == old(self).send_queue@
                &&& final(self).next_sid == old(self).next_sid
                &&& final(self).channel_exited == old(self).channel_exited
                &&& final(self).send_exited == old(self).send_exited
                &&& final(self).send_started == old(self).send_started
                &&& final(self).shutdown_begun == old(self).shutdown_begun
            },
    {
        self.handle_recv_channel_down(cid)
    }
}

} // verus!
