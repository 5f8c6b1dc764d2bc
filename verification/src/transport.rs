//! The transport worker's polling decisions.
//!
//! The worker owns the TCP socket and bridges it to two channels.  Each
//! cycle it polls the socket for one inbound frame, then the outbound
//! channel for one item to frame and write, then idles.  The socket and the
//! channels live outside this library; the caller performs each read, push,
//! pop and write, and reports what it observed.  The functions here decide,
//! for every observation, what happens next — and carry the worker's whole
//! history as ghost state, so that the ordering guarantee is an invariant,
//! not a comment.

use crate::codec::{
    decode_frame, frame_of, payload_of, try_encode_frame, ProtocolError, MSG_SIZE,
};
use vstd::prelude::*;
use vstd::string::StrSliceExecFns;
use vstd::utf8::{decode_utf8, encode_utf8, valid_utf8};

verus! {

/// What one non-blocking socket read attempt produced.
pub enum SocketRead {
    /// A full frame of `MSG_SIZE` bytes.
    Frame(Vec<u8>),
    /// Nothing to read yet: the normal idle case, not an error.
    NoData,
    /// Any other read outcome: peer reset, end of stream, broken pipe.
    Failed,
}

/// What one non-blocking receive attempt on the outbound channel produced.
pub enum OutboundRecv {
    /// A locally originated message to put on the wire.
    Item(String),
    /// Nothing queued: the normal idle case.
    Empty,
    /// The application worker's send half is gone.
    Disconnected,
}

/// What the worker must do after polling the socket.
pub enum InboundStep {
    /// Push this decoded message onto the inbound channel.
    Deliver(String),
    /// Drop this one frame; the connection lives on.
    Reject(ProtocolError),
    /// Nothing read this cycle; nothing is delivered.
    Idle,
    /// Connection lost: leave the loop, with no further reads or writes.
    Stop,
}

/// What the worker must do after polling the outbound channel.
pub enum OutboundStep {
    /// Write all `MSG_SIZE` bytes of this frame to the socket.
    Write(Vec<u8>),
    /// The item does not fit a frame; drop it rather than truncate it.
    Reject(String),
    /// Nothing queued this cycle; nothing is written.
    Idle,
    /// The channel is gone: leave the loop.
    Stop,
}

/// The transport worker: whether its loop still runs, and the history of
/// everything it has done, oldest first, as ghost state.
pub struct TransportWorker {
    /// The polling loop keeps running exactly while this holds.
    pub running: bool,
    /// Messages delivered to the inbound channel.
    pub delivered: Ghost<Seq<Seq<char>>>,
    /// Frames written to the socket.
    pub written: Ghost<Seq<Seq<u8>>>,
    /// Outbound items framed and written.
    pub sent: Ghost<Seq<Seq<char>>>,
}

impl TransportWorker {
    /// The ordering guarantee: one frame write per outbound item, in enqueue
    /// order — the frames written are exactly the encodings of the items
    /// sent, oldest first.
    pub open spec fn wf(self) -> bool {
        &&& self.written@.len() == self.sent@.len()
        &&& forall|i: int|
            0 <= i < self.sent@.len() ==> self.written@[i] == frame_of(
                encode_utf8(self.sent@[i]),
            )
    }

    /// A fresh worker: running, with nothing yet read, written or delivered.
    pub fn new() -> (w: TransportWorker)
        ensures
            w.running,
            w.delivered@ == Seq::<Seq<char>>::empty(),
            w.written@ == Seq::<Seq<u8>>::empty(),
            w.sent@ == Seq::<Seq<char>>::empty(),
            w.wf(),
    {
        TransportWorker {
            running: true,
            delivered: Ghost(Seq::empty()),
            written: Ghost(Seq::empty()),
            sent: Ghost(Seq::empty()),
        }
    }

    /// Step 1 of a cycle: the socket was polled.  A frame is decoded and
    /// delivered; a frame whose payload is not UTF-8 is dropped alone; "no
    /// data yet" delivers nothing; any other read outcome is connection
    /// loss, and the worker stops for good.
    pub fn poll_inbound(&mut self, read: SocketRead) -> (step: InboundStep)
        requires
            old(self).running,
            read matches SocketRead::Frame(f) ==> f@.len() == MSG_SIZE,
        ensures
            final(self).written == old(self).written,
            final(self).sent == old(self).sent,
            old(self).wf() ==> final(self).wf(),
            match read {
                SocketRead::NoData => *final(self) == *old(self) && step == InboundStep::Idle,
                SocketRead::Failed => {
                    &&& step == InboundStep::Stop
                    &&& !final(self).running
                    &&& final(self).delivered == old(self).delivered
                },
                SocketRead::Frame(f) => {
                    &&& final(self).running
                    &&& if valid_utf8(payload_of(f@)) {
                        &&& step matches InboundStep::Deliver(m) && m@ == decode_utf8(
                            payload_of(f@),
                        )
                        &&& final(self).delivered@ == old(self).delivered@.push(
                            decode_utf8(payload_of(f@)),
                        )
                    } else {
                        &&& step == InboundStep::Reject(ProtocolError::InvalidEncoding)
                        &&& final(self).delivered == old(self).delivered
                    }
                },
            },
    {
        match read {
            SocketRead::Frame(f) => match decode_frame(&f) {
                Ok(m) => {
                    self.delivered = Ghost(self.delivered@.push(m@));
                    InboundStep::Deliver(m)
                },
                Err(e) => InboundStep::Reject(e),
            },
            SocketRead::NoData => InboundStep::Idle,
            SocketRead::Failed => {
                self.running = false;
                InboundStep::Stop
            },
        }
    }

    /// The push of a delivered message was answered.  A failed push means
    /// the application worker's receive half is gone — the owning process is
    /// shutting down — so the worker stops; a delivered push changes nothing.
    pub fn confirm_delivery(&mut self, delivered: bool)
        requires
            old(self).running,
        ensures
            final(self).running == delivered,
            final(self).delivered == old(self).delivered,
            final(self).written == old(self).written,
            final(self).sent == old(self).sent,
            old(self).wf() ==> final(self).wf(),
    {
        if !delivered {
            self.running = false;
        }
    }

    /// Step 2 of a cycle: the outbound channel was polled.  An item becomes
    /// exactly one frame write; an item that does not fit a frame is
    /// rejected, never truncated; an empty channel writes nothing; a
    /// disconnected channel stops the worker.
    pub fn poll_outbound(&mut self, recv: OutboundRecv) -> (step: OutboundStep)
        requires
            old(self).running,
        ensures
            final(self).delivered == old(self).delivered,
            old(self).wf() ==> final(self).wf(),
            match recv {
                OutboundRecv::Empty => *final(self) == *old(self) && step == OutboundStep::Idle,
                OutboundRecv::Disconnected => {
                    &&& step == OutboundStep::Stop
                    &&& !final(self).running
                    &&& final(self).written == old(self).written
                    &&& final(self).sent == old(self).sent
                },
                OutboundRecv::Item(m) => {
                    &&& final(self).running
                    &&& if encode_utf8(m@).len() < MSG_SIZE {
                        &&& step matches OutboundStep::Write(f) && f@ == frame_of(
                            encode_utf8(m@),
                        ) && f@.len() == MSG_SIZE
                        &&& final(self).written@ == old(self).written@.push(
                            frame_of(encode_utf8(m@)),
                        )
                        &&& final(self).sent@ == old(self).sent@.push(m@)
                    } else {
                        &&& step == OutboundStep::Reject(m)
                        &&& final(self).written == old(self).written
                        &&& final(self).sent == old(self).sent
                    }
                },
            },
    {
        match recv {
            OutboundRecv::Item(m) => {
                let payload = m.as_str().as_bytes_vec();
                match try_encode_frame(&payload) {
                    Some(frame) => {
                        self.written = Ghost(self.written@.push(frame@));
                        self.sent = Ghost(self.sent@.push(m@));
                        OutboundStep::Write(frame)
                    },
                    None => OutboundStep::Reject(m),
                }
            },
            OutboundRecv::Empty => OutboundStep::Idle,
            OutboundRecv::Disconnected => {
                self.running = false;
                OutboundStep::Stop
            },
        }
    }

    /// The socket write of a frame was answered.  A failed write is logged
    /// by the caller and the message given up — best-effort delivery — but
    /// the worker keeps running either way.
    pub fn confirm_write(&mut self, written: bool)
        requires
            old(self).running,
        ensures
            *final(self) == *old(self),
    {
        let _ = written;
    }
}

} // verus!
