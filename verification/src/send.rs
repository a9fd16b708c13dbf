//! Send-manager decisions.
//!
//! The send manager owns all send halves and serves five event sources: API
//! stream-open, API stream-close, the flush tick, add-send-half and
//! close-send-half. The embedding loop selects over those sources and calls
//! the matching handler below, then performs the returned wire sends and
//! flushes in order. Each iteration ends with a tick flush of the active
//! channel ([`Participant::flush_tick`]). The active channel is the one with
//! the smallest live cid.

use vstd::prelude::*;
use crate::types::{
    Bandwidth, Cid, FlushCmd, Prio, Promises, ProtocolEvent, Sid, StreamHandle, StreamOpenError,
    WireKind, WireSend, BARR_SEND, FLUSH_BYTES_PER_TICK, FLUSH_TIME_LIMIT_MS,
};
use crate::participant::{
    cid_position, lemma_has_sid_congruence, lemma_insert_cid, lemma_remove_cid, lemma_sid_index,
    lemma_streams_wf_frame, sid_index, sids_unique, trace_closed, Participant,
};

verus! {

/// What closing a send half asks of the embedding loop.
pub struct CloseSendOutcome {
    /// Flush the channel without a byte bound before letting it go.
    pub flush: Option<FlushCmd>,
    /// Announce the close to the peer.
    pub emit: Option<WireSend>,
    /// The send table emptied: the send manager exited.
    pub exited: bool,
}

/// One outcome of the send manager's select: which of its five sources fired.
pub enum SendEvent {
    /// An API stream-open request arrived.
    Open { prio: Prio, promises: Promises, guaranteed_bandwidth: Bandwidth },
    /// An API stream-close request arrived.
    Close { sid: Sid },
    /// The flush tick fired.
    Tick,
    /// A new send half arrived (not the first: that one starts the manager
    /// before its loop runs).
    AddProtocol { cid: Cid },
    /// A send half was asked to close.
    CloseProtocol { cid: Cid },
}

/// What one send-manager iteration asks of the embedding loop, in order:
/// flush `pre_flush` (a closing channel is flushed without a byte bound
/// first), perform the `sends`, then flush `flush`.
pub struct SendStepOut {
    /// The reply owed to an open request, if one was served this iteration.
    pub reply: Option<Result<StreamHandle, StreamOpenError>>,
    pub pre_flush: Option<FlushCmd>,
    pub sends: Vec<WireSend>,
    pub flush: Option<FlushCmd>,
    /// The send table emptied: the send manager exited.
    pub exited: bool,
}

impl Participant {
    /// The channel outbound events go to: the smallest live send cid.
    pub open spec fn active_cid_spec(self) -> Option<Cid> {
        if self.send_cids@.len() > 0 {
            Some(self.send_cids@[0])
        } else {
            None
        }
    }

    /// A queued message is emitted only while its stream is in the table with
    /// the send direction open.
    pub open spec fn msg_live(self, sid: Sid) -> bool {
        self.stream_open(sid) && !self.stream_at(sid).send_closed
    }

    /// The next local stream id can be minted: it is fresh and incrementable.
    pub open spec fn can_mint(self) -> bool {
        !self.sid_seen(self.next_sid) && self.next_sid < u64::MAX
    }

    /// The channel outbound events currently go to, if any.
    pub fn active_cid(&self) -> (r: Option<Cid>)
        ensures
            r == self.active_cid_spec(),
    {
        if self.send_cids.len() > 0 {
            Some(self.send_cids[0])
        } else {
            None
        }
    }

    /// True if a local stream open can be served right now.
    pub fn can_open_local(&self) -> (r: bool)
        ensures
            r == self.can_mint(),
    {
        !self.has_stream(self.next_sid) && self.next_sid < u64::MAX
    }

    /// The send manager takes ownership of the send half of `cid`.
    /// The first such event starts the manager's request serving.
    pub fn handle_add_send_protocol(&mut self, cid: Cid)
        requires
            old(self).wf(),
            old(self).cid_attached(cid),
            !old(self).send_cid_live(cid),
            !old(self).send_exited,
        ensures
            final(self).wf(),
            final(self).send_started,
            final(self).send_cid_live(cid),
            forall|c: Cid| c != cid
                ==> final(self).send_cid_live(c) == old(self).send_cid_live(c),
            final(self).send_cids@.len() == old(self).send_cids@.len() + 1,
            final(self).same_identity(*old(self)),
            final(self).same_streams(*old(self)),
            final(self).channels@ == old(self).channels@,
            final(self).recv_cids@ == old(self).recv_cids@,
            final(self).send_queue@ == old(self).send_queue@,
            final(self).next_sid == old(self).next_sid,
            final(self).barrier == old(self).barrier,
            final(self).channel_exited == old(self).channel_exited,
            final(self).send_exited == old(self).send_exited,
            final(self).recv_exited == old(self).recv_exited,
            final(self).shutdown_begun == old(self).shutdown_begun,
    {
        let n = self.send_cids.len();
        let mut i: usize = 0;
        while i < n && self.send_cids[i] < cid
            invariant
                i <= n,
                n == self.send_cids@.len(),
                forall|j: int| 0 <= j < i ==> self.send_cids@[j] < cid,
            decreases n - i,
        {
            i = i + 1;
        }
        proof {
            assert forall|j: int| i <= j < self.send_cids@.len()
                implies self.send_cids@[j] > cid by {
                if j == i {
                    assert(self.send_cids@[j] != cid);
                } else {
                    assert(self.send_cids@[i as int] < self.send_cids@[j]);
                    assert(self.send_cids@[i as int] != cid);
                }
            }
        }
        let ghost v0 = self.send_cids@;
        self.send_cids.insert(i, cid);
        self.send_started = true;
        proof {
            lemma_insert_cid(v0, self.send_cids@, i as int, cid);
            lemma_streams_wf_frame(*old(self), *self);
        }
    }

    /// Serves a local stream-open request: mints the next stream id,
    /// registers the stream, and returns the caller's handle together with
    /// the `OpenStream` announcement for the active channel. Fails exactly
    /// when shutdown has begun.
    pub fn handle_open_stream(
        &mut self,
        prio: Prio,
        promises: Promises,
        guaranteed_bandwidth: Bandwidth,
    ) -> (r: Result<(StreamHandle, WireSend), StreamOpenError>)
        requires
            old(self).wf(),
            old(self).send_running(),
            old(self).can_mint(),
        ensures
            final(self).wf(),
            old(self).shutdown_begun ==> r == Err::<(StreamHandle, WireSend), StreamOpenError>(
                StreamOpenError::ShutdownBegan,
            ) && *final(self) == *old(self),
            !old(self).shutdown_begun ==> {
                let sid = old(self).next_sid;
                &&& r == Ok::<(StreamHandle, WireSend), StreamOpenError>((
                    StreamHandle {
                        remote_pid: old(self).remote_pid,
                        sid,
                        prio,
                        promises,
                        guaranteed_bandwidth,
                    },
                    WireSend {
                        cid: old(self).send_cids@[0],
                        event: ProtocolEvent::OpenStream { sid, prio, promises, guaranteed_bandwidth },
                    },
                ))
                &&& final(self).next_sid == sid + 1
                &&& sid >= old(self).offset_sid
                &&& final(self).stream_open(sid)
                &&& final(self).stream_at(sid).prio == prio
                &&& final(self).stream_at(sid).promises == promises
                &&& final(self).stream_at(sid).guaranteed_bandwidth == guaranteed_bandwidth
                &&& !final(self).stream_at(sid).send_closed
                &&& final(self).trace(sid) =~= seq![WireKind::Open]
                &&& forall|s: Sid| s != sid ==> final(self).trace(s) == old(self).trace(s)
                &&& forall|s: Sid| s != sid
                    ==> final(self).sid_seen(s) == old(self).sid_seen(s)
                &&& forall|s: Sid| s != sid && old(self).sid_seen(s)
                    ==> final(self).stream_at(s) == old(self).stream_at(s)
                &&& final(self).same_identity(*old(self))
                &&& final(self).same_mgr_state(*old(self))
                &&& final(self).same_cids(*old(self))
                &&& final(self).send_queue@ == old(self).send_queue@
            },
    {
        if self.shutdown_begun {
            return Err(StreamOpenError::ShutdownBegan);
        }
        let sid = self.next_sid;
        let handle = self.create_stream(sid, prio, promises, guaranteed_bandwidth);
        let ghost mid = *self;
        self.next_sid = sid + 1;
        proof {
            lemma_streams_wf_frame(mid, *self);
        }
        let cid = self.send_cids[0];
        Ok((
            handle,
            WireSend { cid, event: ProtocolEvent::OpenStream { sid, prio, promises, guaranteed_bandwidth } },
        ))
    }

    /// Serves a local stream-close request: deletes the stream and returns
    /// the `CloseStream` event for the active channel. A stream already gone
    /// (simultaneous close from the peer) asks for no emission, so that each
    /// stream sees at most one close on the wire.
    pub fn handle_close_stream(&mut self, sid: Sid) -> (r: Option<WireSend>)
        requires
            old(self).wf(),
            old(self).send_running(),
        ensures
            final(self).wf(),
            !final(self).stream_open(sid),
            old(self).stream_open(sid) ==> {
                &&& r == Some(WireSend {
                    cid: old(self).send_cids@[0],
                    event: ProtocolEvent::CloseStream { sid },
                })
                &&& final(self).stream_at(sid).send_closed
                &&& final(self).stream_at(sid).mailbox_closed
                &&& final(self).trace(sid) == old(self).trace(sid).push(WireKind::Close)
            },
            !old(self).stream_open(sid) ==> r is None && *final(self) == *old(self),
            forall|s: Sid| s != sid ==> final(self).trace(s) == old(self).trace(s),
            forall|s: Sid| final(self).sid_seen(s) == old(self).sid_seen(s),
            forall|s: Sid| s != sid && old(self).sid_seen(s)
                ==> final(self).stream_at(s) == old(self).stream_at(s),
            final(self).same_identity(*old(self)),
            final(self).same_mgr_state(*old(self)),
            final(self).same_cids(*old(self)),
            final(self).next_sid == old(self).next_sid,
            final(self).send_queue@ == old(self).send_queue@,
    {
        if self.is_stream_open(sid) {
            self.delete_stream(sid);
            let cid = self.send_cids[0];
            Some(WireSend { cid, event: ProtocolEvent::CloseStream { sid } })
        } else {
            None
        }
    }

    /// Drains the bounded send queue: every queued message whose stream is
    /// still live becomes a `Message` event on the active channel, in queue
    /// order; messages of closed streams are dropped.
    pub fn drain_send_queue(&mut self) -> (r: Vec<WireSend>)
        requires
            old(self).wf(),
            old(self).send_running(),
        ensures
            final(self).wf(),
            final(self).send_queue@.len() == 0,
            r@ =~= drained_sends(*old(self), old(self).send_queue@, old(self).send_cids@[0]),
            final(self).streams@ == old(self).streams@,
            forall|s: Sid| final(self).sid_seen(s) == old(self).sid_seen(s),
            forall|s: Sid| old(self).sid_seen(s)
                ==> final(self).stream_at(s) == old(self).stream_at(s),
            final(self).same_identity(*old(self)),
            final(self).same_mgr_state(*old(self)),
            final(self).same_cids(*old(self)),
            final(self).next_sid == old(self).next_sid,
    {
        let cid = self.send_cids[0];
        let mut out: Vec<WireSend> = Vec::new();
        while self.send_queue.len() > 0
            invariant
                self.wf(),
                self.send_running(),
                self.streams@ == old(self).streams@,
                self.wire@.dom() == old(self).wire@.dom(),
                cid == old(self).send_cids@[0],
                self.same_identity(*old(self)),
                self.same_mgr_state(*old(self)),
                self.same_cids(*old(self)),
                self.next_sid == old(self).next_sid,
                out@ + drained_sends(*old(self), self.send_queue@, cid)
                    =~= drained_sends(*old(self), old(self).send_queue@, cid),
                forall|s: Sid| self.sid_seen(s) == old(self).sid_seen(s),
                forall|s: Sid| old(self).sid_seen(s)
                    ==> self.stream_at(s) == old(self).stream_at(s),
            decreases self.send_queue@.len(),
        {
            let ghost pre = *self;
            let ghost q_pre = self.send_queue@;
            let (sid, buffer) = self.send_queue.remove(0);
            proof {
                assert(self.send_queue@ =~= q_pre.drop_first());
            }
            let live = match self.find_stream(sid) {
                Some(i) => {
                    proof {
                        lemma_sid_index(self.streams@, sid, i as int);
                    }
                    self.streams[i].open && !self.streams[i].send_closed
                },
                None => false,
            };
            proof {
                assert(live == old(self).msg_live(sid)) by {
                    if old(self).sid_seen(sid) {
                        let j = sid_index(old(self).streams@, sid);
                        lemma_sid_index(old(self).streams@, sid, j);
                        lemma_sid_index(self.streams@, sid, j);
                    } else {
                        if self.sid_seen(sid) {
                            lemma_has_sid_congruence(self.streams@, old(self).streams@, sid);
                        }
                    }
                }
            }
            if live {
                let ghost wire_pre = self.wire@;
                self.wire = Ghost(self.wire@.insert(sid, self.wire@[sid].push(WireKind::Msg)));
                out.push(WireSend {
                    cid,
                    event: ProtocolEvent::Message { sid, mid: 0, buffer },
                });
                proof {
                    let j = sid_index(self.streams@, sid);
                    lemma_sid_index(self.streams@, sid, j);
                    let t0 = wire_pre[sid];
                    let t = self.wire@[sid];
                    assert(pre.entry_wf(j));
                    assert(t == t0.push(WireKind::Msg));
                    assert forall|k: int| 0 <= k < self.streams@.len() implies self.entry_wf(k) by {
                        assert(pre.entry_wf(k));
                        if self.streams@[k].sid != sid {
                            assert(self.wire@[self.streams@[k].sid]
                                == wire_pre[self.streams@[k].sid]);
                        } else {
                            assert(k == j);
                            assert(!trace_closed(t0));
                            assert(forall|m: int| 0 <= m < t.len() - 1 ==> t[m] == t0[m]);
                            assert(!trace_closed(t)) by {
                                if trace_closed(t) {
                                    let m = choose|m: int| 0 <= m < t.len()
                                        && (#[trigger] t[m]) is Close;
                                    if m < t.len() - 1 {
                                        assert(t0[m] is Close);
                                    }
                                }
                            }
                        }
                    }
                    assert(self.wire@.dom() =~= wire_pre.dom());
                    assert forall|s: Sid| self.wire@.dom().contains(s)
                        implies self.sid_seen(s) by {
                        assert(wire_pre.dom().contains(s));
                        assert(pre.sid_seen(s));
                    }
                }
            } else {
                proof {
                    lemma_streams_wf_frame(pre, *self);
                }
            }
            proof {
                assert(drained_sends(*old(self), q_pre, cid) == (if old(self).msg_live(sid) {
                    seq![
                        WireSend { cid, event: ProtocolEvent::Message { sid, mid: 0, buffer } },
                    ] + drained_sends(*old(self), q_pre.drop_first(), cid)
                } else {
                    drained_sends(*old(self), q_pre.drop_first(), cid)
                })) by {
                    assert(q_pre[0] == (sid, buffer));
                }
                assert(out@ + drained_sends(*old(self), self.send_queue@, cid)
                    =~= drained_sends(*old(self), old(self).send_queue@, cid));
            }
        }
        out
    }

    /// Every iteration ends by flushing the active channel with a soft byte
    /// budget and a one-second bound; with no live channel there is nothing
    /// to flush.
    pub fn flush_tick(&self) -> (r: Option<FlushCmd>)
        ensures
            self.send_cids@.len() > 0 ==> r == Some(FlushCmd {
                cid: self.send_cids@[0],
                byte_budget: FLUSH_BYTES_PER_TICK,
                time_limit_ms: FLUSH_TIME_LIMIT_MS,
            }),
            self.send_cids@.len() == 0 ==> r is None,
    {
        if self.send_cids.len() > 0 {
            Some(FlushCmd {
                cid: self.send_cids[0],
                byte_budget: FLUSH_BYTES_PER_TICK,
                time_limit_ms: FLUSH_TIME_LIMIT_MS,
            })
        } else {
            None
        }
    }

    /// Closes the send half of `cid`: flush it without a byte bound, announce
    /// `Shutdown` to the peer, and drop the half. When the send table
    /// empties, the send manager exits and pays its barrier share. Closing a
    /// cid that is already gone does nothing.
    pub fn handle_close_send_protocol(&mut self, cid: Cid) -> (r: CloseSendOutcome)
        requires
            old(self).wf(),
        ensures
            final(self).wf(),
            final(self).barrier <= old(self).barrier,
            !old(self).send_cid_live(cid) ==> {
                &&& *final(self) == *old(self)
                &&& r.flush is None
                &&& r.emit is None
                &&& !r.exited
            },
            old(self).send_cid_live(cid) ==> {
                &&& r.flush == Some(FlushCmd {
                    cid,
                    byte_budget: u64::MAX,
                    time_limit_ms: FLUSH_TIME_LIMIT_MS,
                })
                &&& r.emit == Some(WireSend { cid, event: ProtocolEvent::Shutdown })
                &&& r.exited == (old(self).send_cids@.len() == 1)
                &&& !final(self).send_cid_live(cid)
                &&& forall|c: Cid| c != cid
                    ==> final(self).send_cid_live(c) == old(self).send_cid_live(c)
                &&& final(self).send_cids@.len() == old(self).send_cids@.len() - 1
                &&& final(self).send_exited == (old(self).send_exited || r.exited)
                &&& r.exited ==> final(self).barrier == old(self).barrier - BARR_SEND
                &&& !r.exited ==> final(self).barrier == old(self).barrier
                &&& final(self).same_identity(*old(self))
                &&& final(self).same_streams(*old(self))
                &&& final(self).channels@ == old(self).channels@
                &&& final(self).recv_cids@ == old(self).recv_cids@
                &&& final(self).send_queue@ == old(self).send_queue@
                &&& final(self).next_sid == old(self).next_sid
                &&& final(self).channel_exited == old(self).channel_exited
                &&& final(self).recv_exited == old(self).recv_exited
                &&& final(self).send_started == old(self).send_started
                &&& final(self).shutdown_begun == old(self).shutdown_begun
            },
    {
        let i = match cid_position(&self.send_cids, cid) {
            Some(i) => i,
            None => {
                return CloseSendOutcome { flush: None, emit: None, exited: false };
            },
        };
        let ghost v0 = self.send_cids@;
        self.send_cids.remove(i);
        proof {
            lemma_remove_cid(v0, self.send_cids@, i as int);
        }
        let exited = if self.send_cids.len() == 0 {
            self.send_exited = true;
            self.barrier = self.barrier - BARR_SEND;
            true
        } else {
            false
        };
        proof {
            lemma_streams_wf_frame(*old(self), *self);
        }
        CloseSendOutcome {
            flush: Some(FlushCmd { cid, byte_budget: u64::MAX, time_limit_ms: FLUSH_TIME_LIMIT_MS }),
            emit: Some(WireSend { cid, event: ProtocolEvent::Shutdown }),
            exited,
        }
    }


    /// One iteration of the send manager's loop: serve the event that fired,
    /// drain the queued messages onto the active channel, and end with the
    /// tick flush. Per-iteration order: an open is announced first, the
    /// queued messages follow, and a close goes out after them, so a locally
    /// issued close trails every message queued before it.
    pub fn send_step(&mut self, event: SendEvent) -> (out: SendStepOut)
        requires
            old(self).wf(),
            old(self).send_running(),
            (event matches SendEvent::Open { .. }) ==> old(self).can_mint(),
            (event matches SendEvent::AddProtocol { cid } ==> old(self).cid_attached(cid)
                && !old(self).send_cid_live(cid)),
        ensures
            final(self).wf(),
            final(self).barrier <= old(self).barrier,
            out.exited == final(self).send_exited,
            match event {
                SendEvent::Open { prio, promises, guaranteed_bandwidth } => {
                    &&& out.pre_flush is None
                    &&& !out.exited
                    &&& final(self).send_queue@.len() == 0
                    &&& out.flush == Some(FlushCmd {
                        cid: old(self).send_cids@[0],
                        byte_budget: FLUSH_BYTES_PER_TICK,
                        time_limit_ms: FLUSH_TIME_LIMIT_MS,
                    })
                    &&& if old(self).shutdown_begun {
                        &&& out.reply == Some(Err::<StreamHandle, StreamOpenError>(
                            StreamOpenError::ShutdownBegan,
                        ))
                        &&& out.sends@ =~= drained_sends(
                            *old(self),
                            old(self).send_queue@,
                            old(self).send_cids@[0],
                        )
                    } else {
                        let sid = old(self).next_sid;
                        &&& out.reply == Some(Ok::<StreamHandle, StreamOpenError>(
                            StreamHandle {
                                remote_pid: old(self).remote_pid,
                                sid,
                                prio,
                                promises,
                                guaranteed_bandwidth,
                            },
                        ))
                        &&& out.sends@ =~= seq![
                            (WireSend {
                                cid: old(self).send_cids@[0],
                                event: ProtocolEvent::OpenStream {
                                    sid,
                                    prio,
                                    promises,
                                    guaranteed_bandwidth,
                                },
                            }),
                        ] + drained_sends(
                            *old(self),
                            old(self).send_queue@,
                            old(self).send_cids@[0],
                        )
                        &&& final(self).stream_open(sid)
                        &&& final(self).next_sid == sid + 1
                    }
                },
                SendEvent::Close { sid } => {
                    &&& out.reply is None
                    &&& out.pre_flush is None
                    &&& !out.exited
                    &&& final(self).send_queue@.len() == 0
                    &&& !final(self).stream_open(sid)
                    &&& out.sends@ =~= drained_sends(
                        *old(self),
                        old(self).send_queue@,
                        old(self).send_cids@[0],
                    ) + (if old(self).stream_open(sid) {
                        seq![
                            (WireSend {
                                cid: old(self).send_cids@[0],
                                event: ProtocolEvent::CloseStream { sid },
                            }),
                        ]
                    } else {
                        Seq::<WireSend>::empty()
                    })
                    &&& out.flush == Some(FlushCmd {
                        cid: old(self).send_cids@[0],
                        byte_budget: FLUSH_BYTES_PER_TICK,
                        time_limit_ms: FLUSH_TIME_LIMIT_MS,
                    })
                },
                SendEvent::Tick => {
                    &&& out.reply is None
                    &&& out.pre_flush is None
                    &&& !out.exited
                    &&& final(self).send_queue@.len() == 0
                    &&& out.sends@ =~= drained_sends(
                        *old(self),
                        old(self).send_queue@,
                        old(self).send_cids@[0],
                    )
                    &&& out.flush == Some(FlushCmd {
                        cid: old(self).send_cids@[0],
                        byte_budget: FLUSH_BYTES_PER_TICK,
                        time_limit_ms: FLUSH_TIME_LIMIT_MS,
                    })
                },
                SendEvent::AddProtocol { cid } => {
                    &&& out.reply is None
                    &&& out.pre_flush is None
                    &&& !out.exited
                    &&& final(self).send_queue@.len() == 0
                    &&& final(self).send_cid_live(cid)
                    &&& final(self).send_cids@.len() == old(self).send_cids@.len() + 1
                    &&& out.sends@ =~= drained_sends(
                        *old(self),
                        old(self).send_queue@,
                        final(self).send_cids@[0],
                    )
                    &&& out.flush == Some(FlushCmd {
                        cid: final(self).send_cids@[0],
                        byte_budget: FLUSH_BYTES_PER_TICK,
                        time_limit_ms: FLUSH_TIME_LIMIT_MS,
                    })
                },
                SendEvent::CloseProtocol { cid } => {
                    &&& out.reply is None
                    &&& if !old(self).send_cid_live(cid) {
                        &&& out.pre_flush is None
                        &&& !out.exited
                        &&& final(self).send_queue@.len() == 0
                        &&& out.sends@ =~= drained_sends(
                            *old(self),
                            old(self).send_queue@,
                            old(self).send_cids@[0],
                        )
                        &&& out.flush == Some(FlushCmd {
                            cid: old(self).send_cids@[0],
                            byte_budget: FLUSH_BYTES_PER_TICK,
                            time_limit_ms: FLUSH_TIME_LIMIT_MS,
                        })
                    } else {
                        &&& out.pre_flush == Some(FlushCmd {
                            cid,
                            byte_budget: u64::MAX,
                            time_limit_ms: FLUSH_TIME_LIMIT_MS,
                        })
                        &&& !final(self).send_cid_live(cid)
                        &&& if old(self).send_cids@.len() == 1 {
                            &&& out.exited
                            &&& out.sends@ =~= seq![
                                (WireSend { cid, event: ProtocolEvent::Shutdown }),
                            ]
                            &&& out.flush is None
                            &&& final(self).send_queue@ == old(self).send_queue@
                            &&& final(self).barrier == old(self).barrier - BARR_SEND
                        } else {
                            &&& !out.exited
                            &&& final(self).send_queue@.len() == 0
                            &&& out.sends@ =~= seq![
                                (WireSend { cid, event: ProtocolEvent::Shutdown }),
                            ] + drained_sends(
                                *old(self),
                                old(self).send_queue@,
                                final(self).send_cids@[0],
                            )
                            &&& out.flush == Some(FlushCmd {
                                cid: final(self).send_cids@[0],
                                byte_budget: FLUSH_BYTES_PER_TICK,
                                time_limit_ms: FLUSH_TIME_LIMIT_MS,
                            })
                        }
                    }
                },
            },
    {
        match event {
            SendEvent::Open { prio, promises, guaranteed_bandwidth } => {
                let r = self.handle_open_stream(prio, promises, guaranteed_bandwidth);
                let ghost mid = *self;
                let mut sends: Vec<WireSend> = Vec::new();
                let reply = match r {
                    Ok((handle, ws)) => {
                        sends.push(ws);
                        Some(Ok(handle))
                    },
                    Err(e) => Some(Err(e)),
                };
                let mut drained = self.drain_send_queue();
                sends.append(&mut drained);
                proof {
                    assert forall|i: int| 0 <= i < mid.send_queue@.len()
                        implies mid.msg_live((#[trigger] mid.send_queue@[i]).0)
                            == old(self).msg_live(mid.send_queue@[i].0) by {
                        let s = mid.send_queue@[i].0;
                        if old(self).shutdown_begun {
                            lemma_msg_live_frame(*old(self), mid, s);
                        } else {
                            assert(old(self).sid_seen(s));
                            assert(s != old(self).next_sid);
                        }
                    }
                    lemma_drained_sends_agree(
                        mid,
                        *old(self),
                        mid.send_queue@,
                        mid.send_cids@[0],
                    );
                }
                let flush = self.flush_tick();
                SendStepOut { reply, pre_flush: None, sends, flush, exited: false }
            },
            SendEvent::Close { sid } => {
                let mut sends = self.drain_send_queue();
                let ghost mid = *self;
                proof {
                    lemma_msg_live_frame(*old(self), mid, sid);
                }
                match self.handle_close_stream(sid) {
                    Some(ws) => sends.push(ws),
                    None => {},
                }
                let flush = self.flush_tick();
                SendStepOut { reply: None, pre_flush: None, sends, flush, exited: false }
            },
            SendEvent::Tick => {
                let sends = self.drain_send_queue();
                let flush = self.flush_tick();
                SendStepOut { reply: None, pre_flush: None, sends, flush, exited: false }
            },
            SendEvent::AddProtocol { cid } => {
                self.handle_add_send_protocol(cid);
                let ghost mid = *self;
                let sends = self.drain_send_queue();
                proof {
                    assert forall|i: int| 0 <= i < mid.send_queue@.len()
                        implies mid.msg_live((#[trigger] mid.send_queue@[i]).0)
                            == old(self).msg_live(mid.send_queue@[i].0) by {
                        lemma_msg_live_frame(*old(self), mid, mid.send_queue@[i].0);
                    }
                    lemma_drained_sends_agree(
                        mid,
                        *old(self),
                        mid.send_queue@,
                        mid.send_cids@[0],
                    );
                }
                let flush = self.flush_tick();
                SendStepOut { reply: None, pre_flush: None, sends, flush, exited: false }
            },
            SendEvent::CloseProtocol { cid } => {
                let outcome = self.handle_close_send_protocol(cid);
                let mut sends: Vec<WireSend> = Vec::new();
                match outcome.emit {
                    Some(ws) => sends.push(ws),
                    None => {},
                }
                if outcome.exited {
                    SendStepOut {
                        reply: None,
                        pre_flush: outcome.flush,
                        sends,
                        flush: None,
                        exited: true,
                    }
                } else {
                    let ghost mid = *self;
                    let mut drained = self.drain_send_queue();
                    sends.append(&mut drained);
                    proof {
                        assert forall|i: int| 0 <= i < mid.send_queue@.len()
                            implies mid.msg_live((#[trigger] mid.send_queue@[i]).0)
                                == old(self).msg_live(mid.send_queue@[i].0) by {
                            lemma_msg_live_frame(*old(self), mid, mid.send_queue@[i].0);
                        }
                        lemma_drained_sends_agree(
                            mid,
                            *old(self),
                            mid.send_queue@,
                            mid.send_cids@[0],
                        );
                    }
                    let flush = self.flush_tick();
                    SendStepOut {
                        reply: None,
                        pre_flush: outcome.flush,
                        sends,
                        flush,
                        exited: false,
                    }
                }
            },
        }
    }

    /// A send or flush on `cid` reported a protocol error: drop the offending
    /// half. The peer observes the loss and reciprocates. When the send
    /// table empties, the send manager exits and pays its barrier share.
    pub fn handle_send_failure(&mut self, cid: Cid) -> (exited: bool)
        requires
            old(self).wf(),
            old(self).send_cid_live(cid),
        ensures
            final(self).wf(),
            final(self).barrier <= old(self).barrier,
            exited == (old(self).send_cids@.len() == 1),
            !final(self).send_cid_live(cid),
            forall|c: Cid| c != cid
                ==> final(self).send_cid_live(c) == old(self).send_cid_live(c),
            final(self).send_cids@.len() == old(self).send_cids@.len() - 1,
            final(self).send_exited == (old(self).send_exited || exited),
            exited ==> final(self).barrier == old(self).barrier - BARR_SEND,
            !exited ==> final(self).barrier == old(self).barrier,
            final(self).same_identity(*old(self)),
            final(self).same_streams(*old(self)),
            final(self).channels@ == old(self).channels@,
            final(self).recv_cids@ == old(self).recv_cids@,
            final(self).send_queue@ == old(self).send_queue@,
            final(self).next_sid == old(self).next_sid,
            final(self).channel_exited == old(self).channel_exited,
            final(self).recv_exited == old(self).recv_exited,
            final(self).shutdown_begun == old(self).shutdown_begun,
    {
        let i = match cid_position(&self.send_cids, cid) {
            Some(i) => i,
            None => vstd::pervasive::unreached(),
        };
        let ghost v0 = self.send_cids@;
        self.send_cids.remove(i);
        proof {
            lemma_remove_cid(v0, self.send_cids@, i as int);
        }
        let exited = if self.send_cids.len() == 0 {
            self.send_exited = true;
            self.barrier = self.barrier - BARR_SEND;
            true
        } else {
            false
        };
        proof {
            lemma_streams_wf_frame(*old(self), *self);
        }
        exited
    }
}

/// Two states with the same stream table agree on every stream's liveness.
pub proof fn lemma_msg_live_frame(p0: Participant, p1: Participant, sid: Sid)
    requires
        sids_unique(p0.streams@),
        p1.streams@ == p0.streams@,
    ensures
        p1.msg_live(sid) == p0.msg_live(sid),
{
    if p0.sid_seen(sid) {
        let j = sid_index(p0.streams@, sid);
        lemma_sid_index(p0.streams@, sid, j);
        lemma_sid_index(p1.streams@, sid, j);
    } else {
        if p1.sid_seen(sid) {
            lemma_has_sid_congruence(p1.streams@, p0.streams@, sid);
        }
    }
}

/// Two states that agree on the liveness of every queued stream drain to
/// the same events.
pub proof fn lemma_drained_sends_agree(
    p0: Participant,
    p1: Participant,
    q: Seq<(Sid, Vec<u8>)>,
    cid: Cid,
)
    requires
        forall|i: int| 0 <= i < q.len()
            ==> p0.msg_live((#[trigger] q[i]).0) == p1.msg_live(q[i].0),
    ensures
        drained_sends(p0, q, cid) == drained_sends(p1, q, cid),
    decreases q.len(),
{
    if q.len() > 0 {
        assert(forall|i: int| 0 <= i < q.drop_first().len()
            ==> (#[trigger] q.drop_first()[i]) == q[i + 1]);
        lemma_drained_sends_agree(p0, p1, q.drop_first(), cid);
    }
}

/// The `Message` events that draining queue `q` emits on channel `cid`:
/// one per queued message whose stream is live in `p`, in queue order.
pub open spec fn drained_sends(p: Participant, q: Seq<(Sid, Vec<u8>)>, cid: Cid) -> Seq<WireSend>
    decreases q.len(),
{
    if q.len() == 0 {
        Seq::<WireSend>::empty()
    } else {
        let rest = drained_sends(p, q.drop_first(), cid);
        if p.msg_live(q[0].0) {
            seq![
                WireSend { cid, event: ProtocolEvent::Message { sid: q[0].0, mid: 0, buffer: q[0].1 } },
            ] + rest
        } else {
            rest
        }
    }
}

} // verus!
