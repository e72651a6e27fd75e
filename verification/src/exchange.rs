//! The hand-off of the one frame buffer between the side that draws and the
//! side that flushes: a cell that holds the buffer or nothing, and a signal
//! that holds the latest phase or nothing.
//!
//! Taking moves the buffer out and leaves the cell empty, so whoever holds
//! the buffer is the only one who can touch it. Callers on different tasks
//! or cores reach the cell and the signal through a lock of their own,
//! held only for the length of one call.

use vstd::prelude::*;

use crate::canvas::PixelBuffer;

verus! {

/// Whose turn it is to act on the frame buffer.
#[derive(Debug, Clone, Copy, PartialEq, Eq, Structural)]
pub enum DrawBufferStatus {
    /// The frame is drawn; the flushing side may take it.
    Flushing,
    /// The frame is sent; the drawing side may take it.
    Drawing,
    /// Nobody has been asked to act.
    Idle,
}

impl Default for DrawBufferStatus {
    fn default() -> (status: Self)
        ensures
            status == DrawBufferStatus::Idle,
    {
        DrawBufferStatus::Idle
    }
}

/// What a cell holds after a take, and what the take hands out: the cell is
/// empty, and what it held is handed out.
pub open spec fn spec_take<T>(slot: Option<T>) -> (Option<T>, Option<T>) {
    (None, slot)
}

/// What a cell holds after `item` is put into it, and what the put hands
/// back: the cell holds the item, and what it held before is handed back.
pub open spec fn spec_put<T>(slot: Option<T>, item: T) -> (Option<T>, Option<T>) {
    (Some(item), slot)
}

/// The bytes of the frame in `slot`, if there is one.
pub open spec fn frame_in<const W: usize, const H: usize>(
    slot: Option<PixelBuffer<W, H>>,
) -> Option<Seq<u8>> {
    match slot {
        Some(buffer) => Some(buffer@),
        None => None,
    }
}

/// The shared cell: it holds the frame buffer, or nothing while one side
/// has taken it.
pub struct OwnershipCell<const W: usize, const H: usize> {
    slot: Option<PixelBuffer<W, H>>,
}

impl<const W: usize, const H: usize> View for OwnershipCell<W, H> {
    type V = Option<Seq<u8>>;

    closed spec fn view(&self) -> Option<Seq<u8>> {
        frame_in(self.slot)
    }
}

impl<const W: usize, const H: usize> OwnershipCell<W, H> {
    /// An empty cell: the buffer is with somebody else.
    pub fn new() -> (cell: Self)
        ensures
            cell@ is None,
    {
        OwnershipCell { slot: None }
    }

    /// A cell that holds `buffer`.
    pub fn holding(buffer: PixelBuffer<W, H>) -> (cell: Self)
        ensures
            cell@ == Some(buffer@),
    {
        OwnershipCell { slot: Some(buffer) }
    }

    /// Whether the buffer is with somebody else.
    pub fn is_empty(&self) -> (empty: bool)
        ensures
            empty == (self@ is None),
    {
        self.slot.is_none()
    }

    /// Takes the buffer out, or hands out nothing where the cell is empty.
    /// Either way the cell is empty afterwards.
    pub fn try_take(&mut self) -> (taken: Option<PixelBuffer<W, H>>)
        ensures
            (final(self)@, frame_in(taken)) == spec_take(old(self)@),
    {
        self.slot.take()
    }

    /// Puts `buffer` into the cell and hands back what the cell held before,
    /// so that no buffer is ever dropped unseen.
    pub fn put(&mut self, buffer: PixelBuffer<W, H>) -> (displaced: Option<PixelBuffer<W, H>>)
        ensures
            (final(self)@, frame_in(displaced)) == spec_put(old(self)@, buffer@),
    {
        let displaced = self.slot.take();
        self.slot = Some(buffer);
        displaced
    }
}

/// The phase signal: it holds the phase that was signalled last, until it
/// is taken. It is no queue: a new phase replaces one that nobody took.
pub struct PhaseSignal {
    latest: Option<DrawBufferStatus>,
}

impl View for PhaseSignal {
    type V = Option<DrawBufferStatus>;

    closed spec fn view(&self) -> Option<DrawBufferStatus> {
        self.latest
    }
}

/// What the signal holds after each of `phases` was signalled in turn.
pub open spec fn signalled(
    slot: Option<DrawBufferStatus>,
    phases: Seq<DrawBufferStatus>,
) -> Option<DrawBufferStatus>
    decreases phases.len(),
{
    if phases.len() == 0 {
        slot
    } else {
        spec_put(signalled(slot, phases.drop_last()), phases.last()).0
    }
}

impl PhaseSignal {
    /// A signal that holds nothing.
    pub fn new() -> (signal: Self)
        ensures
            signal@ is None,
    {
        PhaseSignal { latest: None }
    }

    /// Replaces whatever the signal holds by `status`.
    pub fn signal(&mut self, status: DrawBufferStatus)
        ensures
            final(self)@ == spec_put(old(self)@, status).0,
    {
        self.latest = Some(status);
    }

    /// Takes the phase out, or hands out nothing where none was signalled
    /// since the last take.
    pub fn try_take(&mut self) -> (status: Option<DrawBufferStatus>)
        ensures
            (final(self)@, status) == spec_take(old(self)@),
    {
        self.latest.take()
    }
}

/// A buffer that is put into the cell and taken at once comes back byte
/// for byte, and the cell is empty again.
pub proof fn lemma_put_then_take<T>(slot: Option<T>, item: T)
    ensures
        spec_take(spec_put(slot, item).0) == (None::<T>, Some(item)),
{
}

/// A second take with no put in between hands out nothing.
pub proof fn lemma_take_twice<T>(slot: Option<T>)
    ensures
        spec_take(spec_take(slot).0).1 is None,
{
}

/// A take from an empty cell hands out nothing and leaves the cell empty.
pub proof fn lemma_take_from_empty<T>()
    ensures
        spec_take(None::<T>) == (None::<T>, None::<T>),
{
}

/// However many phases were signalled, a reader finds the last one only.
pub proof fn lemma_latest_phase_only(slot: Option<DrawBufferStatus>, phases: Seq<DrawBufferStatus>)
    requires
        phases.len() > 0,
    ensures
        spec_take(signalled(slot, phases)) == (None::<DrawBufferStatus>, Some(phases.last())),
{
}

/// One of the two sides that share the buffer.
pub enum Side {
    /// The side that draws.
    Producer,
    /// The side that flushes.
    Consumer,
}

/// One call on the shared cell.
pub enum Move {
    /// The side tries to take the buffer.
    Take(Side),
    /// The side puts back the buffer that it holds.
    Put(Side),
}

/// Where the buffer is: in the cell, or with one of the sides.
pub struct Exchange {
    pub cell: Option<Seq<u8>>,
    pub producer: Option<Seq<u8>>,
    pub consumer: Option<Seq<u8>>,
}

impl Exchange {
    /// What `side` holds.
    pub open spec fn held_by(self, side: Side) -> Option<Seq<u8>> {
        match side {
            Side::Producer => self.producer,
            Side::Consumer => self.consumer,
        }
    }

    /// The exchange with `side` holding `held` and the cell holding `cell`.
    pub open spec fn with(self, side: Side, held: Option<Seq<u8>>, cell: Option<Seq<u8>>) -> Exchange {
        match side {
            Side::Producer => Exchange { cell, producer: held, consumer: self.consumer },
            Side::Consumer => Exchange { cell, producer: self.producer, consumer: held },
        }
    }

    /// In how many places a buffer is.
    pub open spec fn holders(self) -> nat {
        let in_cell: nat = if self.cell is Some { 1 } else { 0 };
        let with_producer: nat = if self.producer is Some { 1 } else { 0 };
        let with_consumer: nat = if self.consumer is Some { 1 } else { 0 };
        in_cell + with_producer + with_consumer
    }

    /// Whether `m` is a take that hands the buffer out.
    pub open spec fn succeeds(self, m: Move) -> bool {
        m matches Move::Take(side) && self.held_by(side) is None && self.cell is Some
    }

    /// The exchange after one call. A side that holds nothing takes what
    /// the cell holds; a side that holds the buffer puts it back. A side
    /// does nothing else.
    pub open spec fn step(self, m: Move) -> Exchange {
        match m {
            Move::Take(side) => if self.held_by(side) is None {
                self.with(side, spec_take(self.cell).1, spec_take(self.cell).0)
            } else {
                self
            },
            Move::Put(side) => match self.held_by(side) {
                Some(buffer) => self.with(side, None, spec_put(self.cell, buffer).0),
                None => self,
            },
        }
    }

    /// The exchange after each of `moves` in turn.
    pub open spec fn run(self, moves: Seq<Move>) -> Exchange
        decreases moves.len(),
    {
        if moves.len() == 0 {
            self
        } else {
            self.run(moves.drop_last()).step(moves.last())
        }
    }
}

/// While there is one buffer, it stays one, whatever the sides call: it is
/// neither doubled nor lost.
pub proof fn lemma_one_holder(start: Exchange, moves: Seq<Move>)
    requires
        start.holders() == 1,
    ensures
        start.run(moves).holders() == 1,
    decreases moves.len(),
{
    if moves.len() > 0 {
        lemma_one_holder(start, moves.drop_last());
    }
}

/// Once a side has taken the buffer, no take hands it out again before a
/// put: after any calls that are all takes, the cell is still empty and a
/// further take fails.
pub proof fn lemma_no_take_without_put(start: Exchange, first: Move, takes: Seq<Move>, next: Move)
    requires
        start.holders() == 1,
        start.succeeds(first),
        forall|k: int| 0 <= k < takes.len() ==> takes[k] is Take,
    ensures
        start.step(first).run(takes).cell is None,
        !start.step(first).run(takes).succeeds(next),
    decreases takes.len(),
{
    if takes.len() > 0 {
        lemma_no_take_without_put(start, first, takes.drop_last(), takes.last());
    }
}

} // verus!
