//! A stand-in for the bus that always has the same message to read.

use vstd::prelude::*;

verus! {

/// A bus without hardware behind it.
pub struct DemoCanResource {}

impl DemoCanResource {
    pub fn new() -> (bus: Self) {
        Self {  }
    }

    /// Reads the next message: always the word `message`.
    pub fn read_message(&mut self) -> (message: Option<String>)
        ensures
            message matches Some(text) && text@ == "message"@,
    {
        Some("message".to_owned())
    }
}

} // verus!
