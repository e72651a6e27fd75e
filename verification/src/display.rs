//! The flushing side of the hand-off: what is sent to the display, and what
//! is signalled once it is sent.

use vstd::prelude::*;

use crate::canvas::PixelBuffer;
use crate::exchange::spec_take;
use crate::exchange::DrawBufferStatus;
use crate::exchange::PhaseSignal;

verus! {

/// Milliseconds between two polls of the phase signal.
pub const PHASE_POLL_MS: u64 = 100;

/// Milliseconds between two flush cycles.
pub const FLUSH_PAUSE_MS: u64 = 50;

/// One block write to the display: the window that it fills and the frame
/// whose bytes fill it.
pub struct Transmission<const W: usize, const H: usize> {
    /// Column of the window's top left corner.
    pub x: u16,
    /// Row of the window's top left corner.
    pub y: u16,
    pub width: u16,
    pub height: u16,
    pub buffer: PixelBuffer<W, H>,
}

/// Polls the signal once for the flushing side: takes whatever phase was
/// signalled and tells whether it was the turn to flush.
///
/// The caller polls again, after `PHASE_POLL_MS`, until the answer is yes.
pub fn wait_for_flushing(signal: &mut PhaseSignal) -> (ready: bool)
    ensures
        final(signal)@ == spec_take(old(signal)@).0,
        ready == (old(signal)@ == Some(DrawBufferStatus::Flushing)),
{
    match signal.try_take() {
        Some(DrawBufferStatus::Flushing) => true,
        Some(_status) => false,
        None => false,
    }
}

/// Starts one flush cycle on what a take from the shared cell handed out.
///
/// With a buffer: the whole frame is to be sent, from the display's corner
/// at (0, 0) and over its full width and height; no part of a frame is
/// ever sent alone. Without a buffer the other side has it, and the cycle
/// is skipped.
pub fn begin_flush<const W: usize, const H: usize>(taken: Option<PixelBuffer<W, H>>) -> (job:
    Option<Transmission<W, H>>)
    requires
        W <= u16::MAX,
        H <= u16::MAX,
    ensures
        taken is None ==> job is None,
        taken matches Some(buffer) ==> job matches Some(t) && t.x == 0 && t.y == 0 && t.width == W
            && t.height == H && t.buffer@ == buffer@,
{
    match taken {
        Some(buffer) => Some(Transmission { x: 0, y: 0, width: W as u16, height: H as u16, buffer }),
        None => None,
    }
}

/// Ends a flush cycle once the frame is sent: hands the buffer back for the
/// cell, byte for byte, with the phase to signal once it is there.
pub fn finish_flush<const W: usize, const H: usize>(sent: Transmission<W, H>) -> (handoff: (
    PixelBuffer<W, H>,
    DrawBufferStatus,
))
    ensures
        handoff.0@ == sent.buffer@,
        handoff.1 == DrawBufferStatus::Drawing,
{
    (sent.buffer, DrawBufferStatus::Drawing)
}

} // verus!
