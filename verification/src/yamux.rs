//! The stream multiplexer: one physical connection split into many
//! independent logical substreams.
//!
//! [`Yamux`] is the bookkeeping half of a multiplexed connection. The
//! byte-level framing engine that actually puts frames on the wire is an
//! external collaborator: it reports what it saw through the `inject_*`
//! methods (a remote peer opened a substream, data arrived, the connection
//! closed or failed) and collects what to transmit through
//! [`Yamux::take_outgoing`]. Everything a caller observes — which substream
//! identifiers exist, which bytes belong to which substream, how a dead
//! connection answers — is decided here and is verified.
//!
//! Substreams are identified by numbers, never reused, with the parity
//! convention of the yamux wire protocol: the client side of a connection
//! allocates odd identifiers, the server side even ones, so the two ends
//! can never collide.
//!
//! [`Config`] is the upgrade that turns a freshly established connection
//! into such a multiplexer: the listener applies the inbound variant and
//! becomes the server end, the dialer the outbound variant and becomes the
//! client end.

use std::collections::HashMap;
use std::collections::HashSet;
use std::collections::VecDeque;
use vstd::prelude::*;

use crate::muxing::{Connection, MuxError, MuxPoll, Shutdown};

verus! {

broadcast use vstd::std_specs::hash::group_hash_axioms;

/// Which end of the connection this multiplexer is.
#[derive(Debug, Clone, Copy, PartialEq, Eq)]
pub enum Mode {
    /// The dialing end; allocates odd substream identifiers.
    Client,
    /// The listening end; allocates even substream identifiers.
    Server,
}

/// The terminal-state machine of the whole connection.
#[derive(Debug, Clone, Copy, PartialEq, Eq)]
pub enum ConnStatus {
    /// The connection is up.
    Open,
    /// The connection ended in an orderly fashion (the peer closed it, or
    /// a local shutdown of both directions completed). Terminal.
    Closed,
    /// The connection failed with the given code. Terminal: every later
    /// poll reports this same error.
    Failed(u64),
}

/// The state of one logical substream as contracts see it.
#[verifier::ext_equal]
pub ghost struct StreamView {
    /// Bytes delivered by the engine for this substream, not yet read.
    pub recv: Seq<u8>,
    /// Bytes written to this substream, not yet collected by the engine.
    pub sent: Seq<u8>,
    /// Whether the read half is still open.
    pub read_open: bool,
    /// Whether the write half is still open.
    pub write_open: bool,
}

/// The whole multiplexer as contracts see it.
#[verifier::ext_equal]
pub ghost struct MuxView {
    /// Which end of the connection this is.
    pub mode: Mode,
    /// Whether the connection is up, ended or failed.
    pub status: ConnStatus,
    /// Whether the connection-wide write half is still open.
    pub write_open: bool,
    /// The remote address of the wrapped connection.
    pub remote: Seq<u8>,
    /// Remote-opened substreams not yet accepted, oldest first.
    pub queued: Seq<u64>,
    /// Established substreams, by identifier.
    pub live: Map<u64, StreamView>,
    /// Identifiers of substreams that were destroyed; never handed out again.
    pub retired: Set<u64>,
    /// Outbound-open handles not yet completed or abandoned.
    pub pending: Set<u64>,
    /// The identifier the next locally opened substream will get.
    pub next_out: u64,
    /// The identifier the next remote-opened substream will get.
    pub next_in: u64,
    /// The next outbound-open handle.
    pub next_handle: u64,
}

/// The parity (last bit) of the substream identifiers this end allocates:
/// odd for the client, even for the server, as the yamux wire protocol has it.
pub open spec fn local_parity(mode: Mode) -> int {
    if mode == Mode::Client {
        1
    } else {
        0
    }
}

/// A fresh, fully open substream with empty buffers.
pub open spec fn fresh_stream() -> StreamView {
    StreamView { recv: Seq::empty(), sent: Seq::empty(), read_open: true, write_open: true }
}

/// The identifier is one this multiplexer has already allocated: it lies
/// below the watermark of its parity class.
pub open spec fn wf_id(v: MuxView, id: u64) -> bool {
    if id % 2 == local_parity(v.mode) {
        id < v.next_out
    } else {
        id < v.next_in
    }
}

/// Well-formedness of a multiplexer: every identifier in circulation lies
/// below its watermark, queued identifiers are mutually distinct and not
/// yet live or retired, and handles lie below their watermark. Every public
/// operation preserves this.
pub open spec fn mux_wf(v: MuxView) -> bool {
    &&& v.next_out % 2 == local_parity(v.mode)
    &&& v.next_in % 2 == 1 - local_parity(v.mode)
    &&& forall|id: u64| #[trigger] v.live.contains_key(id) ==> wf_id(v, id)
    &&& forall|id: u64| #[trigger] v.retired.contains(id) ==> wf_id(v, id)
    &&& forall|i: int| 0 <= i < v.queued.len() ==> wf_id(v, #[trigger] v.queued[i])
    &&& forall|i: int|
        0 <= i < v.queued.len() ==> !v.live.contains_key(#[trigger] v.queued[i])
            && !v.retired.contains(v.queued[i])
    &&& forall|i: int, j: int|
        0 <= i < j < v.queued.len() ==> #[trigger] v.queued[i] != #[trigger] v.queued[j]
    &&& forall|h: u64| #[trigger] v.pending.contains(h) ==> h < v.next_handle
}

/// The state a multiplexer starts in: connection up, no substreams, the
/// identifier watermarks at the first value of each parity class.
pub open spec fn initial_mux(mode: Mode, remote: Seq<u8>) -> MuxView {
    MuxView {
        mode: mode,
        status: ConnStatus::Open,
        write_open: true,
        remote: remote,
        queued: Seq::empty(),
        live: Map::empty(),
        retired: Set::empty(),
        pending: Set::empty(),
        next_out: if mode == Mode::Client { 1 } else { 2 },
        next_in: if mode == Mode::Client { 2 } else { 1 },
        next_handle: 0,
    }
}

/// One established substream: the buffers between the caller and the engine,
/// and which halves are still open.
#[derive(Debug)]
struct StreamEntry {
    recv: Vec<u8>,
    sent: Vec<u8>,
    read_open: bool,
    write_open: bool,
}

spec fn entry_view(e: StreamEntry) -> StreamView {
    StreamView { recv: e.recv@, sent: e.sent@, read_open: e.read_open, write_open: e.write_open }
}

spec fn live_view(m: Map<u64, StreamEntry>) -> Map<u64, StreamView> {
    m.map_values(|e: StreamEntry| entry_view(e))
}

/// A multiplexer over one connection, which it owns exclusively. All
/// substream bookkeeping lives here; any sharing among concurrent substream
/// drivers is supplied by the embedding (a reference-counted, internally
/// locked wrapper), which is why every operation relates the state after
/// the call to the state before it and nothing else.
#[derive(Debug)]
pub struct Yamux {
    mode: Mode,
    status: ConnStatus,
    conn_write_open: bool,
    conn: Connection,
    next_out: u64,
    next_in: u64,
    next_handle: u64,
    queued: VecDeque<u64>,
    streams: HashMap<u64, StreamEntry>,
    retired: HashSet<u64>,
    pending: HashSet<u64>,
}

impl View for Yamux {
    type V = MuxView;

    closed spec fn view(&self) -> MuxView {
        MuxView {
            mode: self.mode,
            status: self.status,
            write_open: self.conn_write_open,
            remote: self.conn.remote_addr@,
            queued: self.queued@,
            live: live_view(self.streams@),
            retired: self.retired@,
            pending: self.pending@,
            next_out: self.next_out,
            next_in: self.next_in,
            next_handle: self.next_handle,
        }
    }
}

proof fn lemma_live_view_insert(m: Map<u64, StreamEntry>, k: u64, e: StreamEntry)
    ensures
        live_view(m.insert(k, e)) == live_view(m).insert(k, entry_view(e)),
{
    assert(live_view(m.insert(k, e)) =~= live_view(m).insert(k, entry_view(e)));
}

proof fn lemma_live_view_remove(m: Map<u64, StreamEntry>, k: u64)
    ensures
        live_view(m.remove(k)) == live_view(m).remove(k),
{
    assert(live_view(m.remove(k)) =~= live_view(m).remove(k));
}

proof fn lemma_live_view_empty()
    ensures
        live_view(Map::empty()) == Map::<u64, StreamView>::empty(),
{
    assert(live_view(Map::empty()) =~= Map::<u64, StreamView>::empty());
}

impl Yamux {
    /// Wraps a connection in a fresh multiplexer for the given end of the
    /// wire. The connection is consumed: it is owned by this multiplexer
    /// from here on.
    pub fn new(c: Connection, _cfg: Config, mode: Mode) -> (m: Yamux)
        ensures
            mux_wf(m@),
            m@ == initial_mux(mode, c.remote_addr@),
    {
        let m = Yamux {
            mode,
            status: ConnStatus::Open,
            conn_write_open: true,
            conn: c,
            next_out: if let Mode::Client = mode { 1 } else { 2 },
            next_in: if let Mode::Client = mode { 2 } else { 1 },
            next_handle: 0,
            queued: VecDeque::new(),
            streams: HashMap::new(),
            retired: HashSet::new(),
            pending: HashSet::new(),
        };
        proof {
            lemma_live_view_empty();
            assert(m@ =~= initial_mux(mode, c.remote_addr@));
        }
        m
    }

    /// The engine reports that the remote peer opened a new substream. It
    /// is queued, in arrival order, until a caller accepts it through
    /// [`Yamux::poll_inbound`]. On a connection that is no longer up the
    /// report is ignored.
    pub fn inject_remote_open(&mut self)
        requires
            mux_wf(old(self)@),
            old(self)@.next_in + 2 <= u64::MAX,
        ensures
            mux_wf(final(self)@),
            old(self)@.status is Open ==> final(self)@ == (MuxView {
                queued: old(self)@.queued.push(old(self)@.next_in),
                next_in: (old(self)@.next_in + 2) as u64,
                ..old(self)@
            }),
            !(old(self)@.status is Open) ==> final(self)@ == old(self)@,
    {
        match self.status {
            ConnStatus::Open => {
                let id = self.next_in;
                self.queued.push_back(id);
                self.next_in = self.next_in + 2;
            },
            _ => {},
        }
    }

    /// The engine reports that the connection ended in an orderly fashion:
    /// the peer will produce no more substreams and no more data. A
    /// connection that already ended or failed keeps its earlier state.
    pub fn inject_remote_close(&mut self)
        requires
            mux_wf(old(self)@),
        ensures
            mux_wf(final(self)@),
            old(self)@.status is Open ==> final(self)@ == (MuxView {
                status: ConnStatus::Closed,
                ..old(self)@
            }),
            !(old(self)@.status is Open) ==> final(self)@ == old(self)@,
    {
        match self.status {
            ConnStatus::Open => {
                self.status = ConnStatus::Closed;
            },
            _ => {},
        }
    }

    /// The engine reports that the connection failed with the given code.
    /// The failure is terminal and sticky: every later poll on this
    /// multiplexer reports it. A connection that already ended or failed
    /// keeps its earlier state, so the first terminal outcome wins.
    pub fn inject_error(&mut self, code: u64)
        requires
            mux_wf(old(self)@),
        ensures
            mux_wf(final(self)@),
            old(self)@.status is Open ==> final(self)@ == (MuxView {
                status: ConnStatus::Failed(code),
                ..old(self)@
            }),
            !(old(self)@.status is Open) ==> final(self)@ == old(self)@,
    {
        match self.status {
            ConnStatus::Open => {
                self.status = ConnStatus::Failed(code);
            },
            _ => {},
        }
    }

    /// The engine delivers bytes it received for one substream. They are
    /// appended to that substream's read buffer and to no other: delivery
    /// never touches another substream. Bytes for a substream that is not
    /// established and reading (or on a connection that is no longer up)
    /// are dropped.
    pub fn inject_data(&mut self, s: u64, data: &[u8])
        requires
            mux_wf(old(self)@),
        ensures
            mux_wf(final(self)@),
            (old(self)@.status is Open && old(self)@.live.contains_key(s)
                && old(self)@.live[s].read_open) ==> final(self)@ == (MuxView {
                live: old(self)@.live.insert(
                    s,
                    StreamView { recv: old(self)@.live[s].recv + data@, ..old(self)@.live[s] },
                ),
                ..old(self)@
            }),
            !(old(self)@.status is Open && old(self)@.live.contains_key(s)
                && old(self)@.live[s].read_open) ==> final(self)@ == old(self)@,
            forall|t: u64|
                t != s && old(self)@.live.contains_key(t) ==> final(self)@.live.contains_key(t)
                    && final(self)@.live[t] == old(self)@.live[t],
    {
        match self.status {
            ConnStatus::Open => {},
            _ => {
                return;
            },
        }
        let ghost pre = self.streams@;
        match self.streams.remove(&s) {
            None => {
                proof {
                    assert(pre.remove(s) =~= pre);
                }
            },
            Some(mut e) => {
                if e.read_open {
                    e.recv.extend_from_slice(data);
                }
                proof {
                    lemma_live_view_remove(pre, s);
                    lemma_live_view_insert(pre.remove(s), s, e);
                    assert(live_view(pre).remove(s).insert(s, entry_view(e)) =~= live_view(
                        pre,
                    ).insert(s, entry_view(e)));
                    if !e.read_open {
                        assert(live_view(pre).insert(s, entry_view(e)) =~= live_view(pre));
                    } else {
                        assert(entry_view(e) =~= (StreamView {
                            recv: old(self)@.live[s].recv + data@,
                            ..old(self)@.live[s]
                        }));
                    }
                    assert(live_view(pre).insert(s, entry_view(e)).dom() =~= live_view(pre).dom());
                }
                self.streams.insert(s, e);
            },
        }
    }

    /// One non-blocking attempt to accept the next inbound substream.
    /// Remote-opened substreams come out in the order the peer opened
    /// them. On a connection that ended in an orderly fashion this returns
    /// end-of-sequence — never an error — and keeps returning it; on a
    /// failed connection it returns the connection's error, every time.
    pub fn poll_inbound(&mut self) -> (r: MuxPoll<u64>)
        requires
            mux_wf(old(self)@),
        ensures
            mux_wf(final(self)@),
            old(self)@.status matches ConnStatus::Failed(e) ==> r == MuxPoll::<u64>::Failed(
                MuxError::Connection(e),
            ) && final(self)@ == old(self)@,
            old(self)@.status is Closed ==> r == MuxPoll::<u64>::End && final(self)@ == old(self)@,
            old(self)@.status is Open && old(self)@.queued.len() == 0 ==> r
                == MuxPoll::<u64>::Pending && final(self)@ == old(self)@,
            old(self)@.status is Open && old(self)@.queued.len() > 0 ==> {
                let id = old(self)@.queued[0];
                &&& r == MuxPoll::<u64>::Ready(id)
                &&& !old(self)@.live.contains_key(id)
                &&& !old(self)@.retired.contains(id)
                &&& final(self)@ == (MuxView {
                    queued: old(self)@.queued.skip(1),
                    live: old(self)@.live.insert(id, fresh_stream()),
                    ..old(self)@
                })
            },
    {
        match self.status {
            ConnStatus::Failed(e) => MuxPoll::Failed(MuxError::Connection(e)),
            ConnStatus::Closed => MuxPoll::End,
            ConnStatus::Open => {
                let ghost pre = self.streams@;
                match self.queued.pop_front() {
                    None => MuxPoll::Pending,
                    Some(id) => {
                        let e = StreamEntry {
                            recv: Vec::new(),
                            sent: Vec::new(),
                            read_open: true,
                            write_open: true,
                        };
                        proof {
                            lemma_live_view_insert(pre, id, e);
                            assert(old(self)@.queued.skip(1) =~= old(self)@.queued.subrange(
                                1,
                                old(self)@.queued.len() as int,
                            ));
                        }
                        self.streams.insert(id, e);
                        MuxPoll::Ready(id)
                    },
                }
            },
        }
    }
}

/// The successful completion of an outbound open, as a relation between the
/// multiplexer state before and after the completing poll: the handle is
/// spent, and the substream the caller receives carries an identifier that
/// was never in circulation before — not live, not queued, not retired.
pub open spec fn outbound_completes(pre: MuxView, post: MuxView, h: u64, id: u64) -> bool {
    &&& id == pre.next_out
    &&& !pre.live.contains_key(id)
    &&& !pre.retired.contains(id)
    &&& !pre.queued.contains(id)
    &&& post == (MuxView {
        live: pre.live.insert(id, fresh_stream()),
        pending: pre.pending.remove(h),
        next_out: (pre.next_out + 2) as u64,
        ..pre
    })
}

impl Yamux {
    /// Begins opening an outbound substream. Never blocks and never fails:
    /// the returned handle represents the in-flight request, and whatever
    /// the connection's fate, it is [`Yamux::poll_outbound`] on this handle
    /// that reports it.
    pub fn open_outbound(&mut self) -> (h: u64)
        requires
            mux_wf(old(self)@),
            old(self)@.next_handle + 1 <= u64::MAX,
        ensures
            mux_wf(final(self)@),
            h == old(self)@.next_handle,
            !old(self)@.pending.contains(h),
            final(self)@ == (MuxView {
                pending: old(self)@.pending.insert(h),
                next_handle: (old(self)@.next_handle + 1) as u64,
                ..old(self)@
            }),
    {
        let h = self.next_handle;
        self.next_handle = self.next_handle + 1;
        self.pending.insert(h);
        h
    }

    /// One non-blocking attempt to complete the outbound open behind a
    /// handle. On a connection that is up it completes at once with a fresh
    /// substream identifier, distinct from every identifier this
    /// multiplexer ever handed out, and spends the handle. On an ended
    /// connection it reports end-of-sequence, on a failed one the
    /// connection's error — every time, the handle staying pending.
    pub fn poll_outbound(&mut self, h: u64) -> (r: MuxPoll<u64>)
        requires
            mux_wf(old(self)@),
            old(self)@.pending.contains(h),
            old(self)@.next_out + 2 <= u64::MAX,
        ensures
            mux_wf(final(self)@),
            old(self)@.status matches ConnStatus::Failed(e) ==> r == MuxPoll::<u64>::Failed(
                MuxError::Connection(e),
            ) && final(self)@ == old(self)@,
            old(self)@.status is Closed ==> r == MuxPoll::<u64>::End && final(self)@ == old(self)@,
            old(self)@.status is Open ==> r == MuxPoll::<u64>::Ready(old(self)@.next_out)
                && outbound_completes(old(self)@, final(self)@, h, old(self)@.next_out),
    {
        match self.status {
            ConnStatus::Failed(e) => MuxPoll::Failed(MuxError::Connection(e)),
            ConnStatus::Closed => MuxPoll::End,
            ConnStatus::Open => {
                let id = self.next_out;
                proof {
                    assert(!old(self)@.live.contains_key(id)) by {
                        if old(self)@.live.contains_key(id) {
                            assert(wf_id(old(self)@, id));
                        }
                    }
                    assert(!old(self)@.retired.contains(id)) by {
                        if old(self)@.retired.contains(id) {
                            assert(wf_id(old(self)@, id));
                        }
                    }
                    assert(!old(self)@.queued.contains(id)) by {
                        if old(self)@.queued.contains(id) {
                            let i = choose|i: int|
                                0 <= i < old(self)@.queued.len() && old(self)@.queued[i] == id;
                            assert(wf_id(old(self)@, old(self)@.queued[i]));
                        }
                    }
                }
                self.next_out = self.next_out + 2;
                self.pending.remove(&h);
                let ghost pre = self.streams@;
                let e = StreamEntry {
                    recv: Vec::new(),
                    sent: Vec::new(),
                    read_open: true,
                    write_open: true,
                };
                proof {
                    lemma_live_view_insert(pre, id, e);
                }
                self.streams.insert(id, e);
                MuxPoll::Ready(id)
            },
        }
    }

    /// Releases an outbound open that its caller abandoned, whether or not
    /// it was ever polled to completion. Always safe: it only forgets the
    /// handle, leaves every substream and the connection state untouched,
    /// and a handle already spent or already destroyed makes it a no-op.
    pub fn destroy_outbound(&mut self, h: u64)
        requires
            mux_wf(old(self)@),
        ensures
            mux_wf(final(self)@),
            final(self)@ == (MuxView { pending: old(self)@.pending.remove(h), ..old(self)@ }),
    {
        self.pending.remove(&h);
    }

    /// One non-blocking attempt to read from a substream: takes at most
    /// `max` bytes from the front of that substream's read buffer, and from
    /// no other substream's. A substream this multiplexer no longer (or
    /// never) tracks yields the stale-substream error; a failed connection
    /// yields its error; an ended connection or a closed read half yields
    /// end-of-sequence; an empty buffer on a healthy substream is
    /// not-ready, to be retried once the engine delivered more.
    pub fn read_substream(&mut self, s: u64, max: usize) -> (r: MuxPoll<Vec<u8>>)
        requires
            mux_wf(old(self)@),
        ensures
            mux_wf(final(self)@),
            !old(self)@.live.contains_key(s) ==> r == MuxPoll::<Vec<u8>>::Failed(MuxError::Stale)
                && final(self)@ == old(self)@,
            old(self)@.live.contains_key(s) ==> (old(self)@.status matches ConnStatus::Failed(e)
                ==> r == MuxPoll::<Vec<u8>>::Failed(MuxError::Connection(e)) && final(self)@ == old(
                self,
            )@),
            old(self)@.live.contains_key(s) && old(self)@.status is Closed ==> r == MuxPoll::<
                Vec<u8>,
            >::End && final(self)@ == old(self)@,
            old(self)@.live.contains_key(s) && old(self)@.status is Open && !old(
                self,
            )@.live[s].read_open ==> r == MuxPoll::<Vec<u8>>::End && final(self)@ == old(self)@,
            old(self)@.live.contains_key(s) && old(self)@.status is Open
                && old(self)@.live[s].read_open && old(self)@.live[s].recv.len() == 0 ==> r
                == MuxPoll::<Vec<u8>>::Pending && final(self)@ == old(self)@,
            old(self)@.live.contains_key(s) && old(self)@.status is Open
                && old(self)@.live[s].read_open && old(self)@.live[s].recv.len() > 0 ==> {
                let n = if (max as int) < old(self)@.live[s].recv.len() {
                    max as int
                } else {
                    old(self)@.live[s].recv.len() as int
                };
                &&& (r matches MuxPoll::Ready(bytes) && bytes@ == old(self)@.live[s].recv.take(n))
                &&& final(self)@ == (MuxView {
                    live: old(self)@.live.insert(
                        s,
                        StreamView { recv: old(self)@.live[s].recv.skip(n), ..old(self)@.live[s] },
                    ),
                    ..old(self)@
                })
            },
            forall|t: u64|
                t != s && old(self)@.live.contains_key(t) ==> final(self)@.live.contains_key(t)
                    && final(self)@.live[t] == old(self)@.live[t],
    {
        if !self.streams.contains_key(&s) {
            return MuxPoll::Failed(MuxError::Stale);
        }
        match self.status {
            ConnStatus::Failed(e) => {
                return MuxPoll::Failed(MuxError::Connection(e));
            },
            ConnStatus::Closed => {
                return MuxPoll::End;
            },
            ConnStatus::Open => {},
        }
        let ghost pre = self.streams@;
        match self.streams.remove(&s) {
            None => {
                proof {
                    assert(false);
                }
                MuxPoll::Pending
            },
            Some(e) => {
                let StreamEntry { recv, sent, read_open, write_open } = e;
                if !read_open {
                    let back = StreamEntry { recv, sent, read_open, write_open };
                    proof {
                        lemma_live_view_remove(pre, s);
                        lemma_live_view_insert(pre.remove(s), s, back);
                        assert(live_view(pre).remove(s).insert(s, entry_view(back)) =~= live_view(
                            pre,
                        ));
                    }
                    self.streams.insert(s, back);
                    MuxPoll::End
                } else if recv.len() == 0 {
                    let back = StreamEntry { recv, sent, read_open, write_open };
                    proof {
                        lemma_live_view_remove(pre, s);
                        lemma_live_view_insert(pre.remove(s), s, back);
                        assert(live_view(pre).remove(s).insert(s, entry_view(back)) =~= live_view(
                            pre,
                        ));
                    }
                    self.streams.insert(s, back);
                    MuxPoll::Pending
                } else {
                    let n = if max < recv.len() {
                        max
                    } else {
                        recv.len()
                    };
                    let mut head = recv;
                    let tail = head.split_off(n);
                    let back = StreamEntry { recv: tail, sent, read_open, write_open };
                    proof {
                        lemma_live_view_remove(pre, s);
                        lemma_live_view_insert(pre.remove(s), s, back);
                        assert(live_view(pre).remove(s).insert(s, entry_view(back)) =~= live_view(
                            pre,
                        ).insert(s, entry_view(back)));
                        assert(entry_view(back) =~= (StreamView {
                            recv: old(self)@.live[s].recv.skip(n as int),
                            ..old(self)@.live[s]
                        }));
                        assert(live_view(pre).insert(s, entry_view(back)).dom() =~= live_view(
                            pre,
                        ).dom());
                    }
                    self.streams.insert(s, back);
                    MuxPoll::Ready(head)
                }
            },
        }
    }

    /// One non-blocking attempt to write to a substream: appends the given
    /// bytes to that substream's outgoing buffer, and to no other
    /// substream's, reporting how many bytes were accepted. The stale /
    /// failed / ended cases answer as reads do; a write half that was shut
    /// down — for this substream or connection-wide — yields
    /// end-of-sequence.
    pub fn write_substream(&mut self, s: u64, data: &[u8]) -> (r: MuxPoll<usize>)
        requires
            mux_wf(old(self)@),
        ensures
            mux_wf(final(self)@),
            !old(self)@.live.contains_key(s) ==> r == MuxPoll::<usize>::Failed(MuxError::Stale)
                && final(self)@ == old(self)@,
            old(self)@.live.contains_key(s) ==> (old(self)@.status matches ConnStatus::Failed(e)
                ==> r == MuxPoll::<usize>::Failed(MuxError::Connection(e)) && final(self)@ == old(
                self,
            )@),
            old(self)@.live.contains_key(s) && old(self)@.status is Closed ==> r == MuxPoll::<
                usize,
            >::End && final(self)@ == old(self)@,
            old(self)@.live.contains_key(s) && old(self)@.status is Open && !(old(self)@.write_open
                && old(self)@.live[s].write_open) ==> r == MuxPoll::<usize>::End && final(self)@
                == old(self)@,
            old(self)@.live.contains_key(s) && old(self)@.status is Open && old(self)@.write_open
                && old(self)@.live[s].write_open ==> r == MuxPoll::<usize>::Ready(data@.len()
                as usize) && final(self)@ == (MuxView {
                live: old(self)@.live.insert(
                    s,
                    StreamView { sent: old(self)@.live[s].sent + data@, ..old(self)@.live[s] },
                ),
                ..old(self)@
            }),
            forall|t: u64|
                t != s && old(self)@.live.contains_key(t) ==> final(self)@.live.contains_key(t)
                    && final(self)@.live[t] == old(self)@.live[t],
    {
        if !self.streams.contains_key(&s) {
            return MuxPoll::Failed(MuxError::Stale);
        }
        match self.status {
            ConnStatus::Failed(e) => {
                return MuxPoll::Failed(MuxError::Connection(e));
            },
            ConnStatus::Closed => {
                return MuxPoll::End;
            },
            ConnStatus::Open => {},
        }
        let ghost pre = self.streams@;
        match self.streams.remove(&s) {
            None => {
                proof {
                    assert(false);
                }
                MuxPoll::Pending
            },
            Some(mut e) => {
                let accepted = self.conn_write_open && e.write_open;
                if accepted {
                    e.sent.extend_from_slice(data);
                }
                proof {
                    lemma_live_view_remove(pre, s);
                    lemma_live_view_insert(pre.remove(s), s, e);
                    assert(live_view(pre).remove(s).insert(s, entry_view(e)) =~= live_view(
                        pre,
                    ).insert(s, entry_view(e)));
                    if !accepted {
                        assert(live_view(pre).insert(s, entry_view(e)) =~= live_view(pre));
                    } else {
                        assert(entry_view(e) =~= (StreamView {
                            sent: old(self)@.live[s].sent + data@,
                            ..old(self)@.live[s]
                        }));
                    }
                    assert(live_view(pre).insert(s, entry_view(e)).dom() =~= live_view(pre).dom());
                }
                self.streams.insert(s, e);
                if accepted {
                    MuxPoll::Ready(data.len())
                } else {
                    MuxPoll::End
                }
            },
        }
    }

    /// One non-blocking attempt to flush a substream. This multiplexer
    /// buffers nothing below what [`Yamux::take_outgoing`] exposes, so on a
    /// healthy substream a flush completes at once and changes nothing;
    /// the stale / failed / ended cases answer as reads do.
    pub fn flush_substream(&mut self, s: u64) -> (r: MuxPoll<()>)
        requires
            mux_wf(old(self)@),
        ensures
            mux_wf(final(self)@),
            final(self)@ == old(self)@,
            !old(self)@.live.contains_key(s) ==> r == MuxPoll::<()>::Failed(MuxError::Stale),
            old(self)@.live.contains_key(s) ==> (old(self)@.status matches ConnStatus::Failed(e)
                ==> r == MuxPoll::<()>::Failed(MuxError::Connection(e))),
            old(self)@.live.contains_key(s) && old(self)@.status is Closed ==> r == MuxPoll::<
                (),
            >::End,
            old(self)@.live.contains_key(s) && old(self)@.status is Open ==> r == MuxPoll::<
                (),
            >::Ready(()),
    {
        if !self.streams.contains_key(&s) {
            return MuxPoll::Failed(MuxError::Stale);
        }
        match self.status {
            ConnStatus::Failed(e) => MuxPoll::Failed(MuxError::Connection(e)),
            ConnStatus::Closed => MuxPoll::End,
            ConnStatus::Open => MuxPoll::Ready(()),
        }
    }

    /// One non-blocking attempt to shut down one substream: the write half
    /// alone, or both directions. Later writes on that substream yield
    /// end-of-sequence; after a shutdown of both directions, so do later
    /// reads. No other substream is touched. The stale / failed / ended
    /// cases answer as reads do.
    pub fn shutdown_substream(&mut self, s: u64, mode: Shutdown) -> (r: MuxPoll<()>)
        requires
            mux_wf(old(self)@),
        ensures
            mux_wf(final(self)@),
            !old(self)@.live.contains_key(s) ==> r == MuxPoll::<()>::Failed(MuxError::Stale)
                && final(self)@ == old(self)@,
            old(self)@.live.contains_key(s) ==> (old(self)@.status matches ConnStatus::Failed(e)
                ==> r == MuxPoll::<()>::Failed(MuxError::Connection(e)) && final(self)@ == old(
                self,
            )@),
            old(self)@.live.contains_key(s) && old(self)@.status is Closed ==> r == MuxPoll::<
                (),
            >::End && final(self)@ == old(self)@,
            old(self)@.live.contains_key(s) && old(self)@.status is Open ==> r == MuxPoll::<
                (),
            >::Ready(()) && final(self)@ == (MuxView {
                live: old(self)@.live.insert(
                    s,
                    StreamView {
                        write_open: false,
                        read_open: old(self)@.live[s].read_open && mode is Write,
                        ..old(self)@.live[s]
                    },
                ),
                ..old(self)@
            }),
            forall|t: u64|
                t != s && old(self)@.live.contains_key(t) ==> final(self)@.live.contains_key(t)
                    && final(self)@.live[t] == old(self)@.live[t],
    {
        if !self.streams.contains_key(&s) {
            return MuxPoll::Failed(MuxError::Stale);
        }
        match self.status {
            ConnStatus::Failed(e) => {
                return MuxPoll::Failed(MuxError::Connection(e));
            },
            ConnStatus::Closed => {
                return MuxPoll::End;
            },
            ConnStatus::Open => {},
        }
        let ghost pre = self.streams@;
        match self.streams.remove(&s) {
            None => {
                proof {
                    assert(false);
                }
                MuxPoll::Pending
            },
            Some(mut e) => {
                e.write_open = false;
                if let Shutdown::Both = mode {
                    e.read_open = false;
                }
                proof {
                    lemma_live_view_remove(pre, s);
                    lemma_live_view_insert(pre.remove(s), s, e);
                    assert(live_view(pre).remove(s).insert(s, entry_view(e)) =~= live_view(
                        pre,
                    ).insert(s, entry_view(e)));
                    assert(entry_view(e) =~= (StreamView {
                        write_open: false,
                        read_open: old(self)@.live[s].read_open && mode is Write,
                        ..old(self)@.live[s]
                    }));
                    assert(live_view(pre).insert(s, entry_view(e)).dom() =~= live_view(pre).dom());
                }
                self.streams.insert(s, e);
                MuxPoll::Ready(())
            },
        }
    }

    /// Releases all local state of one substream. To be called exactly once
    /// per substream this multiplexer handed out; the identifier joins the
    /// retired set and is never handed out again, and every later read,
    /// write or poll that references it fails with the stale-substream
    /// error. Always completes, whatever the connection's state.
    pub fn destroy_substream(&mut self, s: u64)
        requires
            mux_wf(old(self)@),
            old(self)@.live.contains_key(s),
        ensures
            mux_wf(final(self)@),
            final(self)@ == (MuxView {
                live: old(self)@.live.remove(s),
                retired: old(self)@.retired.insert(s),
                ..old(self)@
            }),
    {
        let ghost pre = self.streams@;
        self.streams.remove(&s);
        proof {
            lemma_live_view_remove(pre, s);
        }
        self.retired.insert(s);
    }

    /// Requests a connection-wide shutdown: of the write half alone, or of
    /// both directions. Completes at once whatever substreams or outbound
    /// opens are still outstanding — they observe end-of-sequence on their
    /// next poll. Shutting down both directions ends the connection in an
    /// orderly fashion; on an already failed connection the request reports
    /// the connection's error instead.
    pub fn shutdown(&mut self, mode: Shutdown) -> (r: MuxPoll<()>)
        requires
            mux_wf(old(self)@),
        ensures
            mux_wf(final(self)@),
            old(self)@.status matches ConnStatus::Failed(e) ==> r == MuxPoll::<()>::Failed(
                MuxError::Connection(e),
            ) && final(self)@ == old(self)@,
            !(old(self)@.status is Failed) && mode is Write ==> r == MuxPoll::<()>::Ready(())
                && final(self)@ == (MuxView { write_open: false, ..old(self)@ }),
            !(old(self)@.status is Failed) && mode is Both ==> r == MuxPoll::<()>::Ready(())
                && final(self)@ == (MuxView {
                status: ConnStatus::Closed,
                write_open: false,
                ..old(self)@
            }),
    {
        match self.status {
            ConnStatus::Failed(e) => MuxPoll::Failed(MuxError::Connection(e)),
            _ => {
                self.conn_write_open = false;
                if let Shutdown::Both = mode {
                    self.status = ConnStatus::Closed;
                }
                MuxPoll::Ready(())
            },
        }
    }

    /// One non-blocking attempt to flush the whole connection. As with
    /// [`Yamux::flush_substream`], nothing is buffered below
    /// [`Yamux::take_outgoing`], so on a connection that has not failed it
    /// completes at once and changes nothing.
    pub fn flush_all(&mut self) -> (r: MuxPoll<()>)
        requires
            mux_wf(old(self)@),
        ensures
            mux_wf(final(self)@),
            final(self)@ == old(self)@,
            old(self)@.status matches ConnStatus::Failed(e) ==> r == MuxPoll::<()>::Failed(
                MuxError::Connection(e),
            ),
            !(old(self)@.status is Failed) ==> r == MuxPoll::<()>::Ready(()),
    {
        match self.status {
            ConnStatus::Failed(e) => MuxPoll::Failed(MuxError::Connection(e)),
            _ => MuxPoll::Ready(()),
        }
    }

    /// The engine collects the bytes written to one substream since it last
    /// collected, to put them on the wire; the substream's outgoing buffer
    /// is emptied and nothing else changes. A substream this multiplexer
    /// does not track yields nothing.
    pub fn take_outgoing(&mut self, s: u64) -> (out: Vec<u8>)
        requires
            mux_wf(old(self)@),
        ensures
            mux_wf(final(self)@),
            old(self)@.live.contains_key(s) ==> out@ == old(self)@.live[s].sent && final(self)@
                == (MuxView {
                live: old(self)@.live.insert(
                    s,
                    StreamView { sent: Seq::empty(), ..old(self)@.live[s] },
                ),
                ..old(self)@
            }),
            !old(self)@.live.contains_key(s) ==> out@ == Seq::<u8>::empty() && final(self)@ == old(
                self,
            )@,
            forall|t: u64|
                t != s && old(self)@.live.contains_key(t) ==> final(self)@.live.contains_key(t)
                    && final(self)@.live[t] == old(self)@.live[t],
    {
        let ghost pre = self.streams@;
        match self.streams.remove(&s) {
            None => {
                proof {
                    assert(pre.remove(s) =~= pre);
                }
                Vec::new()
            },
            Some(e) => {
                let StreamEntry { recv, sent, read_open, write_open } = e;
                let back = StreamEntry { recv, sent: Vec::new(), read_open, write_open };
                proof {
                    lemma_live_view_remove(pre, s);
                    lemma_live_view_insert(pre.remove(s), s, back);
                    assert(live_view(pre).remove(s).insert(s, entry_view(back)) =~= live_view(
                        pre,
                    ).insert(s, entry_view(back)));
                    assert(entry_view(back) =~= (StreamView {
                        sent: Seq::empty(),
                        ..old(self)@.live[s]
                    }));
                    assert(live_view(pre).insert(s, entry_view(back)).dom() =~= live_view(
                        pre,
                    ).dom());
                }
                self.streams.insert(s, back);
                sent
            },
        }
    }
}

/// Law: two outbound opens completed in sequence on the same multiplexer
/// yield distinct substream identifiers, and both substreams are live
/// afterwards — each can be read, written and destroyed independently.
pub proof fn lemma_outbound_ids_distinct(
    v0: MuxView,
    v1: MuxView,
    v2: MuxView,
    h0: u64,
    h1: u64,
    a: u64,
    b: u64,
)
    requires
        outbound_completes(v0, v1, h0, a),
        outbound_completes(v1, v2, h1, b),
    ensures
        a != b,
        v2.live.contains_key(a),
        v2.live.contains_key(b),
{
    assert(v1.live.contains_key(a));
}

/// Configuration for the multiplexing upgrade. The byte-level parameters of
/// the framing engine are the engine's own; this value selects the
/// multiplexing protocol during negotiation and fixes which end of the wire
/// the resulting multiplexer is.
#[derive(Debug, Clone)]
pub struct Config {
}

impl Config {
    /// A multiplexing configuration.
    pub fn new() -> (c: Config)
        ensures
            c == (Config {  }),
    {
        Config {  }
    }

    /// The protocol names this upgrade answers to during negotiation, each
    /// with the identifier that reports which name was selected. There is
    /// exactly one: the yamux protocol.
    pub fn protocol_names(&self) -> (names: Vec<(&'static str, ())>)
        ensures
            names@.len() == 1,
            names@[0].0@ == "/yamux/1.0.0"@,
    {
        let mut names: Vec<(&'static str, ())> = Vec::new();
        names.push(("/yamux/1.0.0", ()));
        names
    }

    /// The inbound upgrade: a listener turns a freshly accepted connection
    /// into the server end of a multiplexed connection. Consumes the
    /// configuration and the connection.
    pub fn upgrade_inbound(self, conn: Connection, _id: ()) -> (m: Yamux)
        ensures
            mux_wf(m@),
            m@ == initial_mux(Mode::Server, conn.remote_addr@),
    {
        Yamux::new(conn, self, Mode::Server)
    }

    /// The outbound upgrade: a dialer turns a freshly established connection
    /// into the client end of a multiplexed connection. Consumes the
    /// configuration and the connection.
    pub fn upgrade_outbound(self, conn: Connection, _id: ()) -> (m: Yamux)
        ensures
            mux_wf(m@),
            m@ == initial_mux(Mode::Client, conn.remote_addr@),
    {
        Yamux::new(conn, self, Mode::Client)
    }
}

impl Default for Config {
    /// Same as [`Config::new`].
    fn default() -> (c: Config)
        ensures
            c == (Config {  }),
    {
        Config {  }
    }
}

} // verus!
