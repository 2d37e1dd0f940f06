//! The single byte codec of an operand's value: seven bits of magnitude and
//! a top bit that tells a literal number from an index into the memory buffer.
use vstd::prelude::*;

verus! {

/// Clamps `value` into `[min, max]`; when `min > max` the upper bound wins
/// for values that are not below `min`.
pub open spec fn clip_spec(value: u8, min: u8, max: u8) -> u8 {
    if value < min {
        min
    } else if value > max {
        max
    } else {
        value
    }
}

pub(crate) fn clip_u8(value: u8, min: u8, max: u8) -> (r: u8)
    ensures
        r == clip_spec(value, min, max),
{
    if value < min {
        min
    } else if value > max {
        max
    } else {
        value
    }
}

/// A value that is either a literal number or an index into the memory buffer.
#[derive(Clone, Copy, Debug, PartialEq, Eq, Structural)]
pub enum DataValue {
    Number(u8),
    Buffer(u8),
}

impl DataValue {
    /// The magnitude carried, whatever the variant.
    pub open spec fn magnitude(self) -> u8 {
        match self {
            DataValue::Number(x) => x,
            DataValue::Buffer(x) => x,
        }
    }

    /// The same variant with another magnitude.
    pub open spec fn with_magnitude(self, m: u8) -> DataValue {
        match self {
            DataValue::Number(_) => DataValue::Number(m),
            DataValue::Buffer(_) => DataValue::Buffer(m),
        }
    }

    /// What a byte decodes to: the top bit selects the variant.
    pub open spec fn decoded(b: u8) -> DataValue {
        if b > 127 {
            DataValue::Buffer((b - 128) as u8)
        } else {
            DataValue::Number(b)
        }
    }

    /// A buffer index above 127 has no byte: encoding it is left to the caller.
    pub open spec fn encodable(self) -> bool {
        match self {
            DataValue::Number(_) => true,
            DataValue::Buffer(x) => x <= 127,
        }
    }

    /// The byte a value encodes to. A number saturates at 127; a buffer
    /// index is not saturated and must already fit in seven bits.
    pub open spec fn byte(self) -> u8
        recommends
            self.encodable(),
    {
        match self {
            DataValue::Number(x) => if x > 127 {
                127
            } else {
                x
            },
            DataValue::Buffer(x) => (x + 128) as u8,
        }
    }

    /// The value with its magnitude clamped into `[min, max]`.
    pub open spec fn clipped(self, min: u8, max: u8) -> DataValue {
        self.with_magnitude(clip_spec(self.magnitude(), min, max))
    }

    /// Decodes one byte; every byte has a value.
    pub fn from_u8(value: u8) -> (r: DataValue)
        ensures
            r == DataValue::decoded(value),
    {
        if value > 127 {
            DataValue::Buffer(value - 0x80)
        } else {
            DataValue::Number(value)
        }
    }

    /// Encodes the value into one byte.
    pub fn code(&self) -> (r: u8)
        requires
            self.encodable(),
        ensures
            r == self.byte(),
    {
        match self {
            DataValue::Number(x) => {
                let mut value = *x;
                if value > 127 {
                    value = 127;
                }
                value
            },
            // Not saturated: an index above 127 has no meaning on the device.
            DataValue::Buffer(x) => *x + 0x80,
        }
    }

    /// Clamps the magnitude into `[min, max]`, keeping the variant.
    pub fn clip(&mut self, min: u8, max: u8)
        ensures
            *final(self) == old(self).clipped(min, max),
    {
        match self {
            DataValue::Number(x) => *x = clip_u8(*x, min, max),
            DataValue::Buffer(x) => *x = clip_u8(*x, min, max),
        }
    }
}

/// Every byte decodes, and encodes back to itself.
pub proof fn lemma_byte_decode_encode(b: u8)
    ensures
        DataValue::decoded(b).encodable(),
        DataValue::decoded(b).byte() == b,
{
}

/// A value whose magnitude fits in seven bits survives encoding and decoding.
pub proof fn lemma_value_encode_decode(v: DataValue)
    requires
        v.magnitude() <= 127,
    ensures
        v.encodable(),
        DataValue::decoded(v.byte()) == v,
{
}

/// Clamping into a non-empty range a second time changes nothing.
pub proof fn lemma_clip_idempotent(v: DataValue, min: u8, max: u8)
    requires
        min <= max,
    ensures
        v.clipped(min, max).clipped(min, max) == v.clipped(min, max),
{
}

} // verus!
