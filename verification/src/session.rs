//! The application worker's synchronization slice.
//!
//! This worker owns the authoritative local board state.  Each logic step it
//! polls the inbound channel without blocking and feeds a received move to
//! the rules engine; user clicks run a small selection state machine, and a
//! finalized move is applied locally at once and handed over for the
//! outbound channel.  The rules engine itself is an outside collaborator:
//! the caller queries it and reports what this core needs — the colour on a
//! square, the legal destinations of a piece — as plain values.

use crate::codec::ProtocolError;
use crate::notation::{
    make_move_message, message_from, message_to, move_message, on_board, parse_move_message,
    wf_move_message, Square,
};
use vstd::prelude::*;

verus! {

/// The two sides of the game.
#[derive(Clone, Copy, Debug, PartialEq, Eq, Structural)]
pub enum PieceColour {
    White,
    Black,
}

/// A piece as this core reads it from the rules engine's board: its kind,
/// carrying its colour.
#[derive(Clone, Copy, Debug, PartialEq, Eq, Structural)]
pub enum Piece {
    King(PieceColour),
    Queen(PieceColour),
    Rook(PieceColour),
    Bishop(PieceColour),
    Knight(PieceColour),
    Pawn(PieceColour),
}

/// The colour a piece belongs to.
pub open spec fn colour_of(p: Piece) -> PieceColour {
    match p {
        Piece::King(c) => c,
        Piece::Queen(c) => c,
        Piece::Rook(c) => c,
        Piece::Bishop(c) => c,
        Piece::Knight(c) => c,
        Piece::Pawn(c) => c,
    }
}

/// The colour of the piece standing on a square, if one does.
pub fn get_colour(piece: Option<Piece>) -> (r: Option<PieceColour>)
    ensures
        r is Some <==> piece is Some,
        piece matches Some(p) ==> r == Some(colour_of(p)),
{
    match piece {
        Some(p) => Some(
            match p {
                Piece::King(c) => c,
                Piece::Queen(c) => c,
                Piece::Rook(c) => c,
                Piece::Bishop(c) => c,
                Piece::Knight(c) => c,
                Piece::Pawn(c) => c,
            },
        ),
        None => None,
    }
}

/// The board-click selection state: at most one selected square, and the
/// highlighted legal destinations for it.
pub struct Selection {
    /// The currently selected square, if any.
    pub selected: Option<Square>,
    /// The legal destinations highlighted for the selected square.
    pub highlighted: Vec<Square>,
}

/// What one click decided.
pub enum ClickStep {
    /// The selected square was clicked again: the selection is cleared.
    Deselect,
    /// A highlighted destination was clicked: play this move (from, to).
    Play(Square, Square),
    /// Another square was selected.  The caller asks the rules engine
    /// whether its piece is the active side's and, if so, reports the legal
    /// destinations with `set_highlights`.
    Select(Square),
}

impl Selection {
    /// Every square held lies on the board.
    pub open spec fn wf(self) -> bool {
        &&& self.selected matches Some(pos) ==> on_board(pos)
        &&& forall|i: int| 0 <= i < self.highlighted@.len() ==> on_board(#[trigger] self.highlighted@[i])
    }

    /// Nothing selected, nothing highlighted.
    pub fn new() -> (s: Selection)
        ensures
            s.selected is None,
            s.highlighted@ == Seq::<Square>::empty(),
            s.wf(),
    {
        Selection { selected: None, highlighted: Vec::new() }
    }

    /// The click rules: clicking the selected square deselects it; clicking
    /// a highlighted destination plays the move from the selected square;
    /// any other click selects the clicked square and drops the highlights.
    pub fn on_click(&mut self, rank: usize, file: usize) -> (step: ClickStep)
        requires
            rank < 8,
            file < 8,
            old(self).wf(),
        ensures
            final(self).wf(),
            match old(self).selected {
                Some(pos) => {
                    if pos == ((rank, file)) {
                        &&& step == ClickStep::Deselect
                        &&& final(self).selected is None
                        &&& final(self).highlighted@ == Seq::<Square>::empty()
                    } else if old(self).highlighted@.contains((rank, file)) {
                        &&& step == ClickStep::Play(pos, (rank, file))
                        &&& final(self).selected is None
                        &&& final(self).highlighted@ == Seq::<Square>::empty()
                    } else {
                        &&& step == ClickStep::Select((rank, file))
                        &&& final(self).selected == Some((rank, file))
                        &&& final(self).highlighted@ == Seq::<Square>::empty()
                    }
                },
                None => {
                    &&& step == ClickStep::Select((rank, file))
                    &&& final(self).selected == Some((rank, file))
                    &&& final(self).highlighted@ == Seq::<Square>::empty()
                },
            },
    {
        match self.selected {
            Some(pos) => {
                if pos.0 == rank && pos.1 == file {
                    self.selected = None;
                    self.highlighted = Vec::new();
                    ClickStep::Deselect
                } else {
                    let mut hit: bool = false;
                    let mut i: usize = 0;
                    while i < self.highlighted.len()
                        invariant
                            i <= self.highlighted@.len(),
                            hit <==> exists|k: int|
                                0 <= k < i && self.highlighted@[k] == ((rank, file)),
                        decreases self.highlighted@.len() - i,
                    {
                        let h = self.highlighted[i];
                        if h.0 == rank && h.1 == file {
                            hit = true;
                        }
                        i = i + 1;
                    }
                    self.highlighted = Vec::new();
                    if hit {
                        self.selected = None;
                        ClickStep::Play(pos, (rank, file))
                    } else {
                        self.selected = Some((rank, file));
                        ClickStep::Select((rank, file))
                    }
                }
            },
            None => {
                self.selected = Some((rank, file));
                self.highlighted = Vec::new();
                ClickStep::Select((rank, file))
            },
        }
    }

    /// Replaces the highlights with the rules engine's legal destinations
    /// for the selected square.
    pub fn set_highlights(&mut self, squares: Vec<Square>)
        requires
            forall|i: int| 0 <= i < squares@.len() ==> on_board(#[trigger] squares@[i]),
        ensures
            final(self).highlighted@ == squares@,
            final(self).selected == old(self).selected,
            old(self).wf() ==> final(self).wf(),
    {
        self.highlighted = squares;
    }

    /// Clears selection and highlights, as a game reset does.
    pub fn reset(&mut self)
        ensures
            final(self).selected is None,
            final(self).highlighted@ == Seq::<Square>::empty(),
            final(self).wf(),
    {
        self.selected = None;
        self.highlighted = Vec::new();
    }
}

/// What one non-blocking receive attempt on the inbound channel produced.
pub enum InboundRecv {
    /// A message the transport worker delivered.
    Message(String),
    /// Nothing arrived: the normal idle case.
    Empty,
    /// The transport worker's send half is gone.
    Disconnected,
}

/// What the application worker does with an inbound observation.
pub enum RemoteStep {
    /// Feed this move (from, to) to the local rules engine.
    Apply(Square, Square),
    /// Drop this one malformed message; the session lives on.
    Reject(ProtocolError),
    /// Nothing arrived; nothing is applied.
    Idle,
    /// The transport worker died: keep running, remote moves stop arriving.
    Degraded,
}

/// The application worker's synchronization state: whether remote moves can
/// still arrive, and the history of what it has done, oldest first, as
/// ghost state.
pub struct AppWorker {
    /// Whether the inbound link is still believed alive.
    pub link_up: bool,
    /// Moves fed to the local rules engine — remote and optimistic local.
    pub applied: Ghost<Seq<(Square, Square)>>,
    /// Messages handed to the outbound channel.
    pub pushed: Ghost<Seq<Seq<char>>>,
}

impl AppWorker {
    /// A fresh worker: linked, with nothing applied or pushed yet.
    pub fn new() -> (w: AppWorker)
        ensures
            w.link_up,
            w.applied@ == Seq::<(Square, Square)>::empty(),
            w.pushed@ == Seq::<Seq<char>>::empty(),
    {
        AppWorker { link_up: true, applied: Ghost(Seq::empty()), pushed: Ghost(Seq::empty()) }
    }

    /// One logic step's look at the inbound channel: a well-formed message
    /// becomes exactly one rules-engine move; a malformed one is dropped
    /// alone; an empty channel applies nothing; a dropped sender degrades
    /// the session — the worker carries on without crashing.
    pub fn poll_remote(&mut self, recv: InboundRecv) -> (step: RemoteStep)
        requires
            old(self).link_up,
        ensures
            final(self).pushed == old(self).pushed,
            match recv {
                InboundRecv::Empty => *final(self) == *old(self) && step == RemoteStep::Idle,
                InboundRecv::Disconnected => {
                    &&& step == RemoteStep::Degraded
                    &&& !final(self).link_up
                    &&& final(self).applied == old(self).applied
                },
                InboundRecv::Message(m) => {
                    &&& final(self).link_up
                    &&& if wf_move_message(m@) {
                        &&& step == RemoteStep::Apply(message_from(m@), message_to(m@))
                        &&& final(self).applied@ == old(self).applied@.push(
                            (message_from(m@), message_to(m@)),
                        )
                    } else {
                        &&& step == RemoteStep::Reject(ProtocolError::MalformedMessage)
                        &&& final(self).applied == old(self).applied
                    }
                },
            },
    {
        match recv {
            InboundRecv::Message(m) => match parse_move_message(m.as_str()) {
                Ok((from, to)) => {
                    self.applied = Ghost(self.applied@.push((from, to)));
                    RemoteStep::Apply(from, to)
                },
                Err(e) => RemoteStep::Reject(e),
            },
            InboundRecv::Empty => RemoteStep::Idle,
            InboundRecv::Disconnected => {
                self.link_up = false;
                RemoteStep::Degraded
            },
        }
    }

    /// A user move was finalized: its destination was chosen among the legal
    /// ones.  The move is applied to the local rules engine at once —
    /// optimistic local apply — and its message is returned for the caller
    /// to push onto the outbound channel.
    pub fn submit_local(&mut self, from: Square, to: Square) -> (m: String)
        requires
            on_board(from),
            on_board(to),
        ensures
            m@ == move_message(from, to),
            final(self).applied@ == old(self).applied@.push((from, to)),
            final(self).pushed@ == old(self).pushed@.push(move_message(from, to)),
            final(self).link_up == old(self).link_up,
    {
        let m = make_move_message(from, to);
        self.applied = Ghost(self.applied@.push((from, to)));
        self.pushed = Ghost(self.pushed@.push(m@));
        m
    }

    /// The outbound push was answered.  A push that the channel refused —
    /// its receive half is gone — is fatal to the whole process: without a
    /// connection the session has no further purpose.
    pub fn confirm_push(&mut self, accepted: bool) -> (fatal: bool)
        ensures
            fatal <==> !accepted,
            *final(self) == *old(self),
    {
        !accepted
    }
}

} // verus!
