//! The record of what the vehicle bus and the voltage sampling have told.

use vstd::prelude::*;

verus! {

/// The identifier of a bus frame.
#[derive(Debug, Clone, Copy, PartialEq, Eq, Structural)]
pub enum FrameId {
    /// An 11-bit identifier.
    Standard(u16),
    /// A 29-bit identifier.
    Extended(u32),
}

/// The signals decoded so far.
#[derive(Debug, Clone, Copy)]
pub struct CarState {
    message_count: usize,
    avg_voltage: u32,
}

/// What the record holds, as mathematical values.
pub struct CarStateView {
    /// The number of frames recorded.
    pub message_count: nat,
    /// The averaged voltage, as the bit pattern of a single-precision number.
    pub voltage: u32,
}

impl View for CarState {
    type V = CarStateView;

    closed spec fn view(&self) -> CarStateView {
        CarStateView { message_count: self.message_count as nat, voltage: self.avg_voltage }
    }
}

impl Default for CarState {
    /// No frame recorded, and a voltage of zero.
    fn default() -> (state: Self)
        ensures
            state@ == (CarStateView { message_count: 0, voltage: 0 }),
    {
        CarState { message_count: 0, avg_voltage: 0 }
    }
}

impl CarState {
    /// Records one frame. Every frame counts, whatever its identifier and
    /// payload; no signal is decoded from either yet.
    pub fn process_message(&mut self, id: FrameId, payload: &[u8])
        requires
            old(self)@.message_count < usize::MAX,
        ensures
            final(self)@ == (CarStateView {
                message_count: old(self)@.message_count + 1,
                ..old(self)@
            }),
    {
        self.message_count += 1
    }

    /// The number of frames recorded.
    pub fn message_count(&self) -> (count: usize)
        ensures
            count == self@.message_count,
    {
        self.message_count
    }

    /// The averaged voltage, as the bit pattern of a single-precision number.
    pub fn voltage(&self) -> (bits: u32)
        ensures
            bits == self@.voltage,
    {
        self.avg_voltage
    }

    /// Replaces the averaged voltage; `value` is the bit pattern of a
    /// single-precision number.
    pub fn set_voltage(&mut self, value: u32)
        ensures
            final(self)@ == (CarStateView { voltage: value, ..old(self)@ }),
    {
        self.avg_voltage = value;
    }

    /// A copy of the record, to read while the record itself goes on changing.
    pub fn snapshot(&self) -> (copy: Self)
        ensures
            copy@ == self@,
    {
        CarState { message_count: self.message_count, avg_voltage: self.avg_voltage }
    }
}

} // verus!
