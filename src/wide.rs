//! The two byte, big-endian codec of a jump target.
use vstd::prelude::*;

verus! {

/// A 16 bit unsigned integer kept as its high and low byte.
#[derive(Clone, Copy, Debug, PartialEq, Eq, Structural)]
pub struct Int16 {
    value_1: u8,
    value_2: u8,
}

impl Int16 {
    /// The high byte.
    pub closed spec fn high(self) -> u8 {
        self.value_1
    }

    /// The low byte.
    pub closed spec fn low(self) -> u8 {
        self.value_2
    }

    /// The integer made of a high and a low byte.
    pub closed spec fn of_bytes(high: u8, low: u8) -> Int16 {
        Int16 { value_1: high, value_2: low }
    }

    /// The number the two bytes stand for.
    pub open spec fn value(self) -> int {
        self.high() as int * 256 + self.low() as int
    }

    pub fn new(value_1: u8, value_2: u8) -> (r: Int16)
        ensures
            r == Int16::of_bytes(value_1, value_2),
    {
        Int16 { value_1, value_2 }
    }

    pub fn get_value(&self) -> (r: u16)
        ensures
            r as int == self.value(),
    {
        let hi = self.value_1;
        let lo = self.value_2;
        let r = (hi as u16) << 8 | lo as u16;
        assert(r == hi as u16 * 256 + lo as u16) by (bit_vector)
            requires
                r == (hi as u16) << 8 | lo as u16,
        ;
        r
    }

    pub fn code(&self) -> (r: Vec<u8>)
        ensures
            r@ == seq![self.high(), self.low()],
    {
        vec![self.value_1, self.value_2]
    }

    pub fn from_u8_vec(data: Vec<u8>) -> (r: Int16)
        requires
            data@.len() >= 2,
        ensures
            r == Int16::of_bytes(data@[0], data@[1]),
    {
        Int16::new(data[0], data[1])
    }
}

/// The bytes an integer is made of are the bytes it was made of.
pub broadcast proof fn lemma_of_bytes(high: u8, low: u8)
    ensures
        #[trigger] Int16::of_bytes(high, low).high() == high,
        Int16::of_bytes(high, low).low() == low,
{
}

/// An integer is determined by its two bytes.
pub broadcast proof fn lemma_from_own_bytes(w: Int16)
    ensures
        Int16::of_bytes(#[trigger] w.high(), w.low()) == w,
{
}

pub broadcast group group_int16 {
    lemma_of_bytes,
    lemma_from_own_bytes,
}

} // verus!
