//! The per-peer participant state and the stream-table operations.
//!
//! The state gathers everything the four manager tasks share: the stream
//! table, the channel table, the live send/recv halves, the bounded
//! api-to-send-manager message queue, and the shutdown barrier. A ghost wire
//! history records, per stream id, the protocol events that carried it (the
//! local emissions and the delivered peer events), so that the
//! open-before-message-before-close ordering is an invariant of the state.

use vstd::prelude::*;
use crate::types::{
    Bandwidth, Cid, Prio, Promises, Sid, StreamHandle, StreamRecv, StreamSendError, WireKind,
    BARR_CHANNEL, BARR_RECV, BARR_SEND, SEND_QUEUE_CAP,
};

verus! {

/// One row of the stream table. A row is never removed: closing a stream
/// clears `open` and keeps the row as a tombstone, so that a stream id is
/// registered at most once over the participant's lifetime and undelivered
/// inbound messages stay readable after the close.
pub struct StreamEntry {
    pub sid: Sid,
    pub prio: Prio,
    pub promises: Promises,
    pub guaranteed_bandwidth: Bandwidth,
    /// True while the stream is in the table; false once deleted.
    pub open: bool,
    /// True once either side has closed the send direction.
    pub send_closed: bool,
    /// True once the inbound mailbox was closed (end-of-stream for readers).
    pub mailbox_closed: bool,
    /// Inbound messages delivered by the receive manager, oldest first.
    pub mailbox: Vec<Vec<u8>>,
}

/// True if some row of `s` carries `sid`.
pub open spec fn seq_has_sid(s: Seq<StreamEntry>, sid: Sid) -> bool {
    exists|i: int| 0 <= i < s.len() && (#[trigger] s[i]).sid == sid
}

/// Index of the row carrying `sid` (meaningful only under `seq_has_sid`).
pub open spec fn sid_index(s: Seq<StreamEntry>, sid: Sid) -> int {
    choose|i: int| 0 <= i < s.len() && (#[trigger] s[i]).sid == sid
}

/// No two rows carry the same stream id.
pub open spec fn sids_unique(s: Seq<StreamEntry>) -> bool {
    forall|i: int, j: int| 0 <= i < j < s.len() ==> (#[trigger] s[i]).sid != (#[trigger] s[j]).sid
}

/// True if `v` holds `cid`.
pub open spec fn cids_contain(v: Seq<Cid>, cid: Cid) -> bool {
    exists|i: int| 0 <= i < v.len() && v[i] == cid
}

/// No duplicates.
pub open spec fn cids_unique(v: Seq<Cid>) -> bool {
    forall|i: int, j: int| 0 <= i < j < v.len() ==> v[i] != v[j]
}

/// Strictly ascending (hence unique; the head is the smallest element).
pub open spec fn cids_sorted(v: Seq<Cid>) -> bool {
    forall|i: int, j: int| 0 <= i < j < v.len() ==> v[i] < v[j]
}

/// A per-stream wire history is a prefix of `Open, Msg*, Close`: nothing
/// before the open, nothing after the close, at most one of each.
pub open spec fn trace_ok(t: Seq<WireKind>) -> bool {
    &&& t.len() > 0 ==> t[0] is Open
    &&& forall|i: int| 1 <= i < t.len() ==> !((#[trigger] t[i]) is Open)
    &&& forall|i: int| 0 <= i < t.len() && (#[trigger] t[i]) is Close ==> i == t.len() - 1
}

/// The history already carries the close event.
pub open spec fn trace_closed(t: Seq<WireKind>) -> bool {
    exists|i: int| 0 <= i < t.len() && (#[trigger] t[i]) is Close
}

/// The participant: all state shared by the send manager, the receive
/// manager, the channel attach manager and the shutdown coordinator.
pub struct Participant {
    /// Identity of the remote peer this participant serves.
    pub remote_pid: u128,
    /// First stream id this endpoint mints; the peer mints from a disjoint range.
    pub offset_sid: Sid,
    /// Next stream id to mint locally; monotonically increasing.
    pub next_sid: Sid,
    /// The stream table (tombstones included, see [`StreamEntry`]).
    pub streams: Vec<StreamEntry>,
    /// The channel table: every cid ever attached.
    pub channels: Vec<Cid>,
    /// Cids whose send half the send manager currently owns, ascending.
    pub send_cids: Vec<Cid>,
    /// Cids whose recv half the receive manager currently owns.
    pub recv_cids: Vec<Cid>,
    /// Bounded api-to-send-manager queue of `(sid, message)` pairs.
    pub send_queue: Vec<(Sid, Vec<u8>)>,
    /// Counting barrier: each manager subtracts its share exactly once on exit.
    pub barrier: u32,
    /// The channel attach manager has exited (attach input closed).
    pub channel_exited: bool,
    /// The send manager has exited (its table emptied).
    pub send_exited: bool,
    /// The receive manager has exited (its table emptied).
    pub recv_exited: bool,
    /// The send manager has seen its first send half and serves requests.
    pub send_started: bool,
    /// The shutdown coordinator has begun the ordered teardown.
    pub shutdown_begun: bool,
    /// Ghost wire history: per stream id, the events that carried it.
    pub wire: Ghost<Map<Sid, Seq<WireKind>>>,
}

impl Participant {
    /// True if `sid` was ever registered (live row or tombstone).
    pub open spec fn sid_seen(self, sid: Sid) -> bool {
        seq_has_sid(self.streams@, sid)
    }

    /// The table row carrying `sid` (meaningful only under `sid_seen`).
    pub open spec fn stream_at(self, sid: Sid) -> StreamEntry {
        self.streams@[sid_index(self.streams@, sid)]
    }

    /// True if `sid` is registered and not yet deleted.
    pub open spec fn stream_open(self, sid: Sid) -> bool {
        self.sid_seen(sid) && self.stream_at(sid).open
    }

    /// The wire history of `sid`; empty if the stream was never registered.
    pub open spec fn trace(self, sid: Sid) -> Seq<WireKind> {
        if self.wire@.dom().contains(sid) {
            self.wire@[sid]
        } else {
            Seq::<WireKind>::empty()
        }
    }

    /// True if `cid` stands in the channel table.
    pub open spec fn cid_attached(self, cid: Cid) -> bool {
        cids_contain(self.channels@, cid)
    }

    /// True if the send manager holds the send half of `cid`.
    pub open spec fn send_cid_live(self, cid: Cid) -> bool {
        cids_contain(self.send_cids@, cid)
    }

    /// True if the receive manager holds the recv half of `cid`.
    pub open spec fn recv_cid_live(self, cid: Cid) -> bool {
        cids_contain(self.recv_cids@, cid)
    }

    /// The barrier value dictated by which managers have exited.
    pub open spec fn barrier_spec(self) -> int {
        (if self.channel_exited { 0int } else { BARR_CHANNEL as int })
            + (if self.send_exited { 0int } else { BARR_SEND as int })
            + (if self.recv_exited { 0int } else { BARR_RECV as int })
    }

    /// The send manager is serving: it saw its first half and has not exited.
    pub open spec fn send_running(self) -> bool {
        self.send_started && !self.send_exited
    }

    /// One row satisfies its link to the ghost wire history.
    pub open spec fn entry_wf(self, i: int) -> bool {
        let e = self.streams@[i];
        let t = self.wire@[e.sid];
        &&& self.wire@.dom().contains(e.sid)
        &&& trace_ok(t)
        &&& t.len() > 0
        &&& e.open <==> !trace_closed(t)
        &&& e.mailbox_closed <==> !e.open
        &&& !e.open ==> e.send_closed
    }

    /// Well-formedness: every constructor establishes it and every operation
    /// preserves it.
    pub open spec fn wf(self) -> bool {
        &&& sids_unique(self.streams@)
        &&& forall|i: int| 0 <= i < self.streams@.len() ==> self.entry_wf(i)
        &&& forall|sid: Sid| self.wire@.dom().contains(sid) ==> self.sid_seen(sid)
        &&& cids_unique(self.channels@)
        &&& cids_sorted(self.send_cids@)
        &&& cids_unique(self.recv_cids@)
        &&& forall|i: int| 0 <= i < self.send_cids@.len()
                ==> self.cid_attached(#[trigger] self.send_cids@[i])
        &&& forall|i: int| 0 <= i < self.recv_cids@.len()
                ==> self.cid_attached(#[trigger] self.recv_cids@[i])
        &&& self.send_queue@.len() <= SEND_QUEUE_CAP
        &&& forall|i: int| 0 <= i < self.send_queue@.len()
                ==> self.sid_seen((#[trigger] self.send_queue@[i]).0)
        &&& self.barrier == self.barrier_spec()
        &&& self.offset_sid <= self.next_sid
        &&& self.send_running() ==> self.send_cids@.len() > 0
        &&& self.send_exited ==> self.send_cids@.len() == 0
        &&& self.recv_exited ==> self.recv_cids@.len() == 0
    }

    /// Peer identity and configured offset are unchanged.
    pub open spec fn same_identity(self, o: Self) -> bool {
        &&& self.remote_pid == o.remote_pid
        &&& self.offset_sid == o.offset_sid
    }

    /// Barrier, exit flags and shutdown flag are unchanged.
    pub open spec fn same_mgr_state(self, o: Self) -> bool {
        &&& self.barrier == o.barrier
        &&& self.channel_exited == o.channel_exited
        &&& self.send_exited == o.send_exited
        &&& self.recv_exited == o.recv_exited
        &&& self.send_started == o.send_started
        &&& self.shutdown_begun == o.shutdown_begun
    }

    /// Channel table and both protocol tables are unchanged.
    pub open spec fn same_cids(self, o: Self) -> bool {
        &&& self.channels@ == o.channels@
        &&& self.send_cids@ == o.send_cids@
        &&& self.recv_cids@ == o.recv_cids@
    }

    /// Stream table and wire history are unchanged.
    pub open spec fn same_streams(self, o: Self) -> bool {
        &&& self.streams@ == o.streams@
        &&& self.wire@ == o.wire@
    }

    /// A fresh participant for one remote peer: empty tables, full barrier.
    pub fn new(remote_pid: u128, offset_sid: Sid) -> (p: Participant)
        ensures
            p.wf(),
            p.remote_pid == remote_pid,
            p.offset_sid == offset_sid,
            p.next_sid == offset_sid,
            p.streams@.len() == 0,
            p.channels@.len() == 0,
            p.send_cids@.len() == 0,
            p.recv_cids@.len() == 0,
            p.send_queue@.len() == 0,
            p.barrier == BARR_CHANNEL + BARR_SEND + BARR_RECV,
            !p.channel_exited && !p.send_exited && !p.recv_exited,
            !p.send_started && !p.shutdown_begun,
            forall|sid: Sid| p.trace(sid) == Seq::<WireKind>::empty(),
    {
        let p = Participant {
            remote_pid,
            offset_sid,
            next_sid: offset_sid,
            streams: Vec::new(),
            channels: Vec::new(),
            send_cids: Vec::new(),
            recv_cids: Vec::new(),
            send_queue: Vec::new(),
            barrier: BARR_CHANNEL + BARR_SEND + BARR_RECV,
            channel_exited: false,
            send_exited: false,
            recv_exited: false,
            send_started: false,
            shutdown_begun: false,
            wire: Ghost(Map::<Sid, Seq<WireKind>>::empty()),
        };
        proof {
            assert(forall|sid: Sid| !p.wire@.dom().contains(sid));
        }
        p
    }

    /// Position of `sid` in the stream table, if registered.
    pub fn find_stream(&self, sid: Sid) -> (r: Option<usize>)
        ensures
            match r {
                Some(i) => i < self.streams@.len() && self.streams@[i as int].sid == sid,
                None => !self.sid_seen(sid),
            },
    {
        let n = self.streams.len();
        let mut i: usize = 0;
        while i < n
            invariant
                i <= n,
                n == self.streams@.len(),
                forall|j: int| 0 <= j < i ==> (#[trigger] self.streams@[j]).sid != sid,
            decreases n - i,
        {
            if self.streams[i].sid == sid {
                return Some(i);
            }
            i = i + 1;
        }
        None
    }

    /// True if `sid` was ever registered.
    pub fn has_stream(&self, sid: Sid) -> (r: bool)
        ensures
            r == self.sid_seen(sid),
    {
        self.find_stream(sid).is_some()
    }

    /// True if `sid` is registered and not deleted.
    pub fn is_stream_open(&self, sid: Sid) -> (r: bool)
        requires
            self.wf(),
        ensures
            r == self.stream_open(sid),
    {
        match self.find_stream(sid) {
            Some(i) => {
                proof {
                    lemma_sid_index(self.streams@, sid, i as int);
                }
                self.streams[i].open
            },
            None => false,
        }
    }

    /// Registers a new stream and returns the caller-facing handle. The
    /// stream id must never have been registered before.
    pub fn create_stream(
        &mut self,
        sid: Sid,
        prio: Prio,
        promises: Promises,
        guaranteed_bandwidth: Bandwidth,
    ) -> (handle: StreamHandle)
        requires
            old(self).wf(),
            !old(self).sid_seen(sid),
        ensures
            final(self).wf(),
            handle == (StreamHandle {
                remote_pid: old(self).remote_pid,
                sid,
                prio,
                promises,
                guaranteed_bandwidth,
            }),
            final(self).streams@.len() == old(self).streams@.len() + 1,
            forall|i: int| 0 <= i < old(self).streams@.len()
                ==> final(self).streams@[i] == old(self).streams@[i],
            final(self).sid_seen(sid),
            final(self).stream_open(sid),
            final(self).stream_at(sid).prio == prio,
            final(self).stream_at(sid).promises == promises,
            final(self).stream_at(sid).guaranteed_bandwidth == guaranteed_bandwidth,
            !final(self).stream_at(sid).send_closed,
            final(self).stream_at(sid).mailbox@.len() == 0,
            final(self).trace(sid) =~= seq![WireKind::Open],
            forall|s: Sid| s != sid ==> final(self).trace(s) == old(self).trace(s),
            forall|s: Sid| s != sid ==> final(self).sid_seen(s) == old(self).sid_seen(s),
            forall|s: Sid| s != sid && old(self).sid_seen(s)
                ==> final(self).stream_at(s) == old(self).stream_at(s),
            final(self).same_identity(*old(self)),
            final(self).same_mgr_state(*old(self)),
            final(self).same_cids(*old(self)),
            final(self).next_sid == old(self).next_sid,
            final(self).send_queue@ == old(self).send_queue@,
    {
        let entry = StreamEntry {
            sid,
            prio,
            promises,
            guaranteed_bandwidth,
            open: true,
            send_closed: false,
            mailbox_closed: false,
            mailbox: Vec::new(),
        };
        let ghost old_streams = self.streams@;
        let ghost old_wire = self.wire@;
        self.streams.push(entry);
        self.wire = Ghost(self.wire@.insert(sid, seq![WireKind::Open]));
        proof {
            let n = old_streams.len() as int;
            assert(forall|i: int| 0 <= i < n ==> (#[trigger] old_streams[i]).sid != sid);
            assert forall|s: Sid| s != sid implies self.sid_seen(s) == old(self).sid_seen(s) by {
                if seq_has_sid(old_streams, s) {
                    let i = choose|i: int| 0 <= i < old_streams.len()
                        && (#[trigger] old_streams[i]).sid == s;
                    assert(self.streams@[i].sid == s);
                }
                if self.sid_seen(s) {
                    let i = choose|i: int| 0 <= i < self.streams@.len()
                        && (#[trigger] self.streams@[i]).sid == s;
                    assert(i < n);
                    assert(old_streams[i].sid == s);
                }
            }
            lemma_sid_index(self.streams@, sid, n);
            assert forall|s: Sid| s != sid && old(self).sid_seen(s)
                implies self.stream_at(s) == old(self).stream_at(s) by {
                let i = sid_index(old_streams, s);
                lemma_sid_index(old_streams, s, i);
                lemma_sid_index(self.streams@, s, i);
            }
            assert forall|i: int| 0 <= i < self.streams@.len() implies self.entry_wf(i) by {
                if i < n {
                    assert(old(self).entry_wf(i));
                    assert(self.streams@[i] == old_streams[i]);
                    assert(self.streams@[i].sid != sid);
                    assert(self.wire@[self.streams@[i].sid] == old_wire[self.streams@[i].sid]);
                } else {
                    assert(self.streams@[i].sid == sid);
                    let t = self.wire@[sid];
                    assert(t =~= seq![WireKind::Open]);
                    assert(trace_ok(t));
                    assert(!trace_closed(t));
                }
            }
        }
        StreamHandle {
            remote_pid: self.remote_pid,
            sid,
            prio,
            promises,
            guaranteed_bandwidth,
        }
    }

    /// Deletes a stream: marks its send direction closed and its mailbox
    /// closed so readers observe end-of-stream. Absence (or an earlier
    /// delete) is not an error: the other side closed simultaneously.
    pub fn delete_stream(&mut self, sid: Sid)
        requires
            old(self).wf(),
        ensures
            final(self).wf(),
            !final(self).stream_open(sid),
            old(self).stream_open(sid) ==> {
                &&& final(self).stream_at(sid).send_closed
                &&& final(self).stream_at(sid).mailbox_closed
                &&& final(self).stream_at(sid).mailbox == old(self).stream_at(sid).mailbox
                &&& final(self).trace(sid) == old(self).trace(sid).push(WireKind::Close)
            },
            !old(self).stream_open(sid) ==> *final(self) == *old(self),
            forall|s: Sid| s != sid ==> final(self).trace(s) == old(self).trace(s),
            forall|s: Sid| final(self).sid_seen(s) == old(self).sid_seen(s),
            forall|s: Sid| s != sid && old(self).sid_seen(s)
                ==> final(self).stream_at(s) == old(self).stream_at(s),
            final(self).same_identity(*old(self)),
            final(self).same_mgr_state(*old(self)),
            final(self).same_cids(*old(self)),
            final(self).next_sid == old(self).next_sid,
            final(self).send_queue@ == old(self).send_queue@,
    {
        let idx = match self.find_stream(sid) {
            Some(i) => i,
            None => {
                return;
            },
        };
        proof {
            lemma_sid_index(self.streams@, sid, idx as int);
        }
        if !self.streams[idx].open {
            return;
        }
        let ghost old_streams = self.streams@;
        let ghost old_wire = self.wire@;
        let mut entry = self.streams.remove(idx);
        entry.open = false;
        entry.send_closed = true;
        entry.mailbox_closed = true;
        self.streams.insert(idx, entry);
        self.wire = Ghost(self.wire@.insert(sid, self.wire@[sid].push(WireKind::Close)));
        proof {
            let i = idx as int;
            let e = self.streams@[i];
            assert(self.streams@ =~= old_streams.update(i, e));
            assert(e.sid == sid);
            assert forall|s: Sid| self.sid_seen(s) == old(self).sid_seen(s) by {
                lemma_update_same_sids(old_streams, self.streams@, i, s);
            }
            lemma_sid_index(self.streams@, sid, i);
            assert forall|s: Sid| s != sid && old(self).sid_seen(s)
                implies self.stream_at(s) == old(self).stream_at(s) by {
                let j = sid_index(old_streams, s);
                lemma_sid_index(old_streams, s, j);
                lemma_sid_index(self.streams@, s, j);
            }
            let t0 = old_wire[sid];
            let t = self.wire@[sid];
            assert(old(self).entry_wf(i));
            assert(t == t0.push(WireKind::Close));
            assert(trace_ok(t)) by {
                assert(forall|k: int| 1 <= k < t0.len() ==> !((#[trigger] t0[k]) is Open));
                assert(forall|k: int| 0 <= k < t0.len() ==> !((#[trigger] t0[k]) is Close));
                assert(forall|k: int| 0 <= k < t.len() - 1 ==> t[k] == t0[k]);
            }
            assert(trace_closed(t)) by {
                assert(t[t.len() - 1] is Close);
            }
            assert forall|k: int| 0 <= k < self.streams@.len() implies self.entry_wf(k) by {
                if k != i {
                    assert(old(self).entry_wf(k));
                    assert(self.streams@[k] == old_streams[k]);
                    assert(self.streams@[k].sid != sid) by {
                        if k < i {
                            assert(old_streams[k].sid != old_streams[i].sid);
                        } else {
                            assert(old_streams[i].sid != old_streams[k].sid);
                        }
                    }
                    assert(self.wire@[self.streams@[k].sid] == old_wire[self.streams@[k].sid]);
                }
            }
        }
    }

    /// Accepts one outbound message onto the bounded send queue. Fails fast
    /// if the stream is gone or its send direction is closed; reports a full
    /// queue so the caller can block and retry (backpressure).
    pub fn stream_send(&mut self, sid: Sid, buffer: Vec<u8>) -> (r: Result<(), StreamSendError>)
        requires
            old(self).wf(),
        ensures
            final(self).wf(),
            final(self).same_identity(*old(self)),
            final(self).same_mgr_state(*old(self)),
            final(self).same_cids(*old(self)),
            final(self).same_streams(*old(self)),
            final(self).next_sid == old(self).next_sid,
            if !old(self).stream_open(sid) || old(self).stream_at(sid).send_closed {
                r == Err::<(), StreamSendError>(StreamSendError::StreamClosed)
                    && final(self).send_queue@ == old(self).send_queue@
            } else if old(self).send_queue@.len() >= SEND_QUEUE_CAP {
                r == Err::<(), StreamSendError>(StreamSendError::QueueFull)
                    && final(self).send_queue@ == old(self).send_queue@
            } else {
                r == Ok::<(), StreamSendError>(())
                    && final(self).send_queue@ == old(self).send_queue@.push((sid, buffer))
            },
    {
        let closed = match self.find_stream(sid) {
            Some(i) => {
                proof {
                    lemma_sid_index(self.streams@, sid, i as int);
                }
                !self.streams[i].open || self.streams[i].send_closed
            },
            None => true,
        };
        if closed {
            return Err(StreamSendError::StreamClosed);
        }
        if self.send_queue.len() >= SEND_QUEUE_CAP {
            return Err(StreamSendError::QueueFull);
        }
        self.send_queue.push((sid, buffer));
        proof {
            assert forall|i: int| 0 <= i < self.streams@.len() implies self.entry_wf(i) by {
                assert(old(self).entry_wf(i));
            }
            assert forall|s: Sid| self.wire@.dom().contains(s) implies self.sid_seen(s) by {
                assert(old(self).sid_seen(s));
                lemma_has_sid_congruence(old(self).streams@, self.streams@, s);
            }
        }
        Ok(())
    }

    /// Reads the next inbound message of a stream, in arrival order.
    pub fn stream_recv(&mut self, sid: Sid) -> (r: StreamRecv)
        requires
            old(self).wf(),
        ensures
            final(self).wf(),
            final(self).same_identity(*old(self)),
            final(self).same_mgr_state(*old(self)),
            final(self).same_cids(*old(self)),
            final(self).next_sid == old(self).next_sid,
            final(self).send_queue@ == old(self).send_queue@,
            forall|s: Sid| final(self).trace(s) == old(self).trace(s),
            forall|s: Sid| final(self).sid_seen(s) == old(self).sid_seen(s),
            !old(self).sid_seen(sid) ==> r is Closed && *final(self) == *old(self),
            old(self).sid_seen(sid) ==> {
                let e = old(self).stream_at(sid);
                if e.mailbox@.len() > 0 {
                    &&& r == StreamRecv::Data(e.mailbox@[0])
                    &&& final(self).stream_at(sid).mailbox@ == e.mailbox@.drop_first()
                    &&& forall|s: Sid| s != sid && old(self).sid_seen(s)
                        ==> final(self).stream_at(s) == old(self).stream_at(s)
                    &&& final(self).stream_at(sid).open == e.open
                    &&& final(self).stream_at(sid).send_closed == e.send_closed
                    &&& final(self).stream_at(sid).mailbox_closed == e.mailbox_closed
                } else if e.mailbox_closed {
                    r is Closed && *final(self) == *old(self)
                } else {
                    r is Empty && *final(self) == *old(self)
                }
            },
    {
        let idx = match self.find_stream(sid) {
            Some(i) => i,
            None => {
                return StreamRecv::Closed;
            },
        };
        proof {
            lemma_sid_index(self.streams@, sid, idx as int);
        }
        if self.streams[idx].mailbox.len() > 0 {
            let ghost old_streams = self.streams@;
            let mut entry = self.streams.remove(idx);
            let buffer = entry.mailbox.remove(0);
            self.streams.insert(idx, entry);
            proof {
                let i = idx as int;
                assert(self.streams@ =~= old_streams.update(i, self.streams@[i]));
                assert(self.streams@[i].mailbox@ =~= old_streams[i].mailbox@.drop_first());
                assert forall|s: Sid| self.sid_seen(s) == old(self).sid_seen(s) by {
                    lemma_update_same_sids(old_streams, self.streams@, i, s);
                }
                lemma_sid_index(self.streams@, sid, i);
                assert forall|s: Sid| s != sid && old(self).sid_seen(s)
                    implies self.stream_at(s) == old(self).stream_at(s) by {
                    let j = sid_index(old_streams, s);
                    lemma_sid_index(old_streams, s, j);
                    lemma_sid_index(self.streams@, s, j);
                }
                assert forall|k: int| 0 <= k < self.streams@.len() implies self.entry_wf(k) by {
                    assert(old(self).entry_wf(k));
                    if k != i {
                        assert(self.streams@[k] == old_streams[k]);
                    }
                }
            }
            StreamRecv::Data(buffer)
        } else if self.streams[idx].mailbox_closed {
            StreamRecv::Closed
        } else {
            StreamRecv::Empty
        }
    }

    /// True once writes to `sid` can no longer be accepted.
    pub fn stream_send_closed(&self, sid: Sid) -> (r: bool)
        requires
            self.wf(),
        ensures
            r == (!self.stream_open(sid) || self.stream_at(sid).send_closed),
    {
        match self.find_stream(sid) {
            Some(i) => {
                proof {
                    lemma_sid_index(self.streams@, sid, i as int);
                }
                !self.streams[i].open || self.streams[i].send_closed
            },
            None => true,
        }
    }

    /// Current value of the shutdown barrier.
    pub fn barrier_value(&self) -> (r: u32)
        ensures
            r == self.barrier,
    {
        self.barrier
    }
}

/// With unique stream ids, any row carrying `sid` is the row `sid_index` picks.
pub proof fn lemma_sid_index(s: Seq<StreamEntry>, sid: Sid, i: int)
    requires
        sids_unique(s),
        0 <= i < s.len(),
        s[i].sid == sid,
    ensures
        seq_has_sid(s, sid),
        sid_index(s, sid) == i,
{
    assert(seq_has_sid(s, sid));
    let j = sid_index(s, sid);
    if i < j {
        assert(s[i].sid != s[j].sid);
    } else if j < i {
        assert(s[j].sid != s[i].sid);
    }
}

/// Updating one row without changing its stream id leaves `seq_has_sid`
/// unchanged for every stream id.
pub proof fn lemma_update_same_sids(s0: Seq<StreamEntry>, s1: Seq<StreamEntry>, i: int, sid: Sid)
    requires
        0 <= i < s0.len(),
        s1 =~= s0.update(i, s1[i]),
        s1.len() == s0.len(),
        s1[i].sid == s0[i].sid,
    ensures
        seq_has_sid(s1, sid) == seq_has_sid(s0, sid),
{
    if seq_has_sid(s0, sid) {
        let k = choose|k: int| 0 <= k < s0.len() && (#[trigger] s0[k]).sid == sid;
        if k == i {
            assert(s1[i].sid == sid);
        } else {
            assert(s1[k].sid == sid);
        }
        assert(seq_has_sid(s1, sid));
    }
    if seq_has_sid(s1, sid) {
        let k = choose|k: int| 0 <= k < s1.len() && (#[trigger] s1[k]).sid == sid;
        if k == i {
            assert(s0[i].sid == sid);
        } else {
            assert(s0[k].sid == sid);
        }
        assert(seq_has_sid(s0, sid));
    }
}

/// Rows with equal contents register the same stream ids.
pub proof fn lemma_has_sid_congruence(s0: Seq<StreamEntry>, s1: Seq<StreamEntry>, sid: Sid)
    requires
        s0 =~= s1,
        seq_has_sid(s0, sid),
    ensures
        seq_has_sid(s1, sid),
{
    let i = choose|i: int| 0 <= i < s0.len() && (#[trigger] s0[i]).sid == sid;
    assert(s1[i].sid == sid);
}

/// Removing position `i` from a cid table: every other cid keeps its
/// membership, the removed cid (if unique) loses it, order is kept.
pub proof fn lemma_remove_cid(v0: Seq<Cid>, v1: Seq<Cid>, i: int)
    requires
        0 <= i < v0.len(),
        v1 =~= v0.remove(i),
    ensures
        forall|c: Cid| c != v0[i] ==> cids_contain(v1, c) == cids_contain(v0, c),
        cids_unique(v0) ==> !cids_contain(v1, v0[i]),
        cids_unique(v0) ==> cids_unique(v1),
        cids_sorted(v0) ==> cids_sorted(v1),
{
    assert(v1.len() == v0.len() - 1);
    assert(forall|j: int| 0 <= j < i ==> v1[j] == v0[j]);
    assert(forall|j: int| i <= j < v1.len() ==> v1[j] == v0[j + 1]);
    assert forall|c: Cid| c != v0[i] implies cids_contain(v1, c) == cids_contain(v0, c) by {
        if cids_contain(v0, c) {
            let k = choose|k: int| 0 <= k < v0.len() && v0[k] == c;
            if k < i {
                assert(v1[k] == c);
            } else {
                assert(v1[k - 1] == c);
            }
        }
        if cids_contain(v1, c) {
            let k = choose|k: int| 0 <= k < v1.len() && v1[k] == c;
            if k < i {
                assert(v0[k] == c);
            } else {
                assert(v0[k + 1] == c);
            }
        }
    }
    if cids_unique(v0) {
        if cids_contain(v1, v0[i]) {
            let k = choose|k: int| 0 <= k < v1.len() && v1[k] == v0[i];
            if k < i {
                assert(v0[k] == v0[i]);
            } else {
                assert(v0[k + 1] == v0[i]);
            }
        }
    }
}

/// Inserting `cid` at its sorted position keeps the table sorted and adds
/// exactly that cid.
pub proof fn lemma_insert_cid(v0: Seq<Cid>, v1: Seq<Cid>, i: int, cid: Cid)
    requires
        cids_sorted(v0),
        0 <= i <= v0.len(),
        forall|j: int| 0 <= j < i ==> v0[j] < cid,
        forall|j: int| i <= j < v0.len() ==> v0[j] > cid,
        v1 =~= v0.insert(i, cid),
    ensures
        cids_sorted(v1),
        cids_contain(v1, cid),
        forall|c: Cid| c != cid ==> cids_contain(v1, c) == cids_contain(v0, c),
{
    assert(v1.len() == v0.len() + 1);
    assert(v1[i] == cid);
    assert(forall|j: int| 0 <= j < i ==> v1[j] == v0[j]);
    assert(forall|j: int| i < j < v1.len() ==> v1[j] == v0[j - 1]);
    assert forall|a: int, b: int| 0 <= a < b < v1.len() implies v1[a] < v1[b] by {
        if a < i && b < i {
        } else if a < i && b == i {
        } else if a == i {
            assert(v1[b] == v0[b - 1]);
        } else if b > i && a > i {
        } else if b == i {
            assert(v1[a] == v0[a]);
        }
    }
    assert forall|c: Cid| c != cid implies cids_contain(v1, c) == cids_contain(v0, c) by {
        if cids_contain(v0, c) {
            let k = choose|k: int| 0 <= k < v0.len() && v0[k] == c;
            if k < i {
                assert(v1[k] == c);
            } else {
                assert(v1[k + 1] == c);
            }
        }
        if cids_contain(v1, c) {
            let k = choose|k: int| 0 <= k < v1.len() && v1[k] == c;
            if k < i {
                assert(v0[k] == c);
            } else {
                assert(v0[k - 1] == c);
            }
        }
    }
}

/// When the stream table and the wire history are unchanged, the
/// stream-related well-formedness conjuncts carry over.
pub proof fn lemma_streams_wf_frame(p0: Participant, p1: Participant)
    requires
        p0.wf(),
        p1.streams@ == p0.streams@,
        p1.wire@ == p0.wire@,
    ensures
        sids_unique(p1.streams@),
        forall|i: int| 0 <= i < p1.streams@.len() ==> p1.entry_wf(i),
        forall|sid: Sid| p1.wire@.dom().contains(sid) ==> p1.sid_seen(sid),
        forall|sid: Sid| p1.sid_seen(sid) == p0.sid_seen(sid),
        forall|sid: Sid| p0.sid_seen(sid) ==> p1.stream_at(sid) == p0.stream_at(sid),
        forall|sid: Sid| p1.trace(sid) == p0.trace(sid),
{
    assert forall|i: int| 0 <= i < p1.streams@.len() implies p1.entry_wf(i) by {
        assert(p0.entry_wf(i));
    }
    assert forall|sid: Sid| p1.sid_seen(sid) == p0.sid_seen(sid) by {
        if p0.sid_seen(sid) {
            lemma_has_sid_congruence(p0.streams@, p1.streams@, sid);
        }
        if p1.sid_seen(sid) {
            lemma_has_sid_congruence(p1.streams@, p0.streams@, sid);
        }
    }
}

/// Position of `cid` in a cid table, if present.
pub fn cid_position(v: &Vec<Cid>, cid: Cid) -> (r: Option<usize>)
    ensures
        match r {
            Some(i) => i < v@.len() && v@[i as int] == cid,
            None => !cids_contain(v@, cid),
        },
{
    let n = v.len();
    let mut i: usize = 0;
    while i < n
        invariant
            i <= n,
            n == v@.len(),
            forall|j: int| 0 <= j < i ==> v@[j] != cid,
        decreases n - i,
    {
        if v[i] == cid {
            return Some(i);
        }
        i = i + 1;
    }
    None
}

} // verus!
