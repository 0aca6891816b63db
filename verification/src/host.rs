//! The one call into the game host that the rules make: its random numbers,
//! and a record of the numbers drawn.

use vstd::prelude::*;

verus! {

/// Calls `turbo_genesis_sdk::random::u32`, which returns a 32-bit number from
/// the host's random source. Nothing is claimed of the value: any `u32` may
/// come back, and two calls may return different values.
#[verifier::external_body]
pub(crate) fn random_u32() -> (r: u32) {
    turbo_genesis_sdk::random::u32()
}

/// The host's random numbers drawn through it so far, in the order drawn.
/// Only [`Draws::draw`] adds to the record, and it records exactly the number
/// it hands out, so a contract over the record speaks of the numbers that the
/// host actually returned.
pub struct Draws {
    log: Vec<u32>,
}

impl Draws {
    /// The numbers drawn so far, oldest first.
    pub closed spec fn drawn(&self) -> Seq<u32> {
        self.log@
    }

    /// An empty record.
    pub fn new() -> (d: Draws)
        ensures
            d.drawn() == Seq::<u32>::empty(),
    {
        Draws { log: Vec::new() }
    }

    /// Draws the host's next random number and records it.
    pub fn draw(&mut self) -> (r: u32)
        ensures
            final(self).drawn() == old(self).drawn().push(r),
    {
        let r = random_u32();
        self.log.push(r);
        r
    }
}

} // verus!
