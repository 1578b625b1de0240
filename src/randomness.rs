use vstd::prelude::*;

verus! {

/// A source of 32-byte random values, drawn for a subject.
///
/// Within one state of the source, the value drawn depends on the subject
/// alone; nothing else is known of it.
pub trait Randomness {
    /// The value that this source draws for `subject`.
    spec fn drawn(&self, subject: Seq<u8>) -> Seq<u8>;

    fn random(&self, subject: &[u8]) -> (r: [u8; 32])
        ensures
            r@ == self.drawn(subject@),
    ;
}

/// A randomness source that hands out one fixed payload, whatever the subject.
pub struct MockRandom {
    payload: [u8; 32],
}

impl MockRandom {
    pub closed spec fn payload(&self) -> Seq<u8> {
        self.payload@
    }

    pub fn new(payload: [u8; 32]) -> (r: MockRandom)
        ensures
            r.payload() == payload@,
    {
        MockRandom { payload }
    }

    /// Replaces the payload that later draws return.
    pub fn set_random(&mut self, val: [u8; 32])
        ensures
            final(self).payload() == val@,
    {
        self.payload = val;
    }

    /// The payload, for any subject.
    pub fn draw(&self, subject: &[u8]) -> (r: [u8; 32])
        ensures
            r@ == self.payload(),
    {
        self.payload
    }
}

impl Randomness for MockRandom {
    open spec fn drawn(&self, subject: Seq<u8>) -> Seq<u8> {
        self.payload()
    }

    /// The payload, whatever the subject.
    fn random(&self, subject: &[u8]) -> (r: [u8; 32])
        ensures
            r@ == self.payload(),
    {
        self.draw(subject)
    }
}

} // verus!
