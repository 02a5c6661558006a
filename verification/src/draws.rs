use vstd::prelude::*;

verus! {

/// The record of what the random source has handed out so far: the letters and
/// digits drawn, and the numbers picked below a bound, each in the order in
/// which they came. Only the drawing functions extend it, so a password that is
/// said to be made of the draws in it is made of values that were each drawn
/// on their own.
pub struct DrawLog {
    bytes: Ghost<Seq<u8>>,
    picks: Ghost<Seq<usize>>,
}

impl DrawLog {
    /// The letters and digits drawn so far, in order.
    pub closed spec fn bytes(&self) -> Seq<u8> {
        self.bytes@
    }

    /// The numbers picked so far, in order.
    pub closed spec fn picks(&self) -> Seq<usize> {
        self.picks@
    }

    /// A record of no draws.
    pub fn new() -> (l: DrawLog)
        ensures
            l.bytes() == Seq::<u8>::empty(),
            l.picks() == Seq::<usize>::empty(),
    {
        DrawLog { bytes: Ghost(Seq::empty()), picks: Ghost(Seq::empty()) }
    }
}

} // verus!
