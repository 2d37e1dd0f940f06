//! The two byte codec of a typed operand: a kind byte and a scalar byte.
//! Each kind has its own ceiling, and encoding clamps the magnitude to it.
use vstd::prelude::*;

use crate::scalar::DataValue;

verus! {

/// A source of data that commands take as a parameter.
#[derive(Clone, Copy, Debug, PartialEq, Eq, Structural)]
pub enum DataSource {
    /// A constant value (0 - 127)
    Constant(DataValue),
    /// A random value (0 - 127)
    Random(DataValue),
    /// A step value from the pitch sequence (0 - 31)
    StepPitch(DataValue),
    /// A step value from the velocity sequence (0 - 31)
    StepVelocity(DataValue),
    /// A step value from the length sequence (0 - 31)
    StepLength(DataValue),
    /// A step value from the density sequence (0 - 31)
    StepDensity(DataValue),
    /// A value from the memory buffer (0 - 31)
    MemoryBuffer(DataValue),
    /// One of the four params, zero indexed (0 - 3)
    Params(DataValue),
    /// A value from the scale (0 - 127)
    Scale(DataValue),
    /// A value from the full scale (0 - 127)
    FullScale(DataValue),
    /// A random note value (0 - 100)
    RandomNote(DataValue),
}

impl DataSource {
    /// The value carried.
    pub open spec fn inner(self) -> DataValue {
        match self {
            DataSource::Constant(x) => x,
            DataSource::Random(x) => x,
            DataSource::StepPitch(x) => x,
            DataSource::StepVelocity(x) => x,
            DataSource::StepLength(x) => x,
            DataSource::StepDensity(x) => x,
            DataSource::MemoryBuffer(x) => x,
            DataSource::Params(x) => x,
            DataSource::Scale(x) => x,
            DataSource::FullScale(x) => x,
            DataSource::RandomNote(x) => x,
        }
    }

    /// The kind byte: the variant's position in declaration order.
    pub open spec fn kind(self) -> u8 {
        match self {
            DataSource::Constant(_) => 0x00,
            DataSource::Random(_) => 0x01,
            DataSource::StepPitch(_) => 0x02,
            DataSource::StepVelocity(_) => 0x03,
            DataSource::StepLength(_) => 0x04,
            DataSource::StepDensity(_) => 0x05,
            DataSource::MemoryBuffer(_) => 0x06,
            DataSource::Params(_) => 0x07,
            DataSource::Scale(_) => 0x08,
            DataSource::FullScale(_) => 0x09,
            DataSource::RandomNote(_) => 0x0A,
        }
    }

    /// The largest magnitude the kind admits.
    pub open spec fn ceiling(self) -> u8 {
        match self {
            DataSource::Constant(_) => 127,
            DataSource::Random(_) => 127,
            DataSource::StepPitch(_) => 31,
            DataSource::StepVelocity(_) => 31,
            DataSource::StepLength(_) => 31,
            DataSource::StepDensity(_) => 31,
            DataSource::MemoryBuffer(_) => 31,
            DataSource::Params(_) => 3,
            DataSource::Scale(_) => 127,
            DataSource::FullScale(_) => 127,
            DataSource::RandomNote(_) => 100,
        }
    }

    /// The operand of kind byte `kind` carrying `v`; an unknown kind gives
    /// the constant zero.
    pub open spec fn of_kind(kind: u8, v: DataValue) -> DataSource {
        if kind == 0x00 {
            DataSource::Constant(v)
        } else if kind == 0x01 {
            DataSource::Random(v)
        } else if kind == 0x02 {
            DataSource::StepPitch(v)
        } else if kind == 0x03 {
            DataSource::StepVelocity(v)
        } else if kind == 0x04 {
            DataSource::StepLength(v)
        } else if kind == 0x05 {
            DataSource::StepDensity(v)
        } else if kind == 0x06 {
            DataSource::MemoryBuffer(v)
        } else if kind == 0x07 {
            DataSource::Params(v)
        } else if kind == 0x08 {
            DataSource::Scale(v)
        } else if kind == 0x09 {
            DataSource::FullScale(v)
        } else if kind == 0x0A {
            DataSource::RandomNote(v)
        } else {
            DataSource::Constant(DataValue::Number(0))
        }
    }

    /// What the two bytes `[kind, scalar]` decode to.
    pub open spec fn decoded(kind: u8, scalar: u8) -> DataSource {
        DataSource::of_kind(kind, DataValue::decoded(scalar))
    }

    /// The operand with its magnitude clamped into `[0, ceiling]`.
    pub open spec fn validated(self) -> DataSource {
        DataSource::of_kind(self.kind(), self.inner().clipped(0, self.ceiling()))
    }

    /// The two bytes the operand encodes to, after validation.
    pub open spec fn bytes(self) -> Seq<u8> {
        seq![self.kind(), self.validated().inner().byte()]
    }

    /// Validates the operand in place, then encodes it.
    pub fn code(&mut self) -> (r: Vec<u8>)
        ensures
            *final(self) == old(self).validated(),
            r@ == old(self).bytes(),
    {
        self.validate();
        proof {
            lemma_validated_in_range(*old(self));
        }
        match self {
            DataSource::Constant(x) => vec![0x00, x.code()],
            DataSource::Random(x) => vec![0x01, x.code()],
            DataSource::StepPitch(x) => vec![0x02, x.code()],
            DataSource::StepVelocity(x) => vec![0x03, x.code()],
            DataSource::StepLength(x) => vec![0x04, x.code()],
            DataSource::StepDensity(x) => vec![0x05, x.code()],
            DataSource::MemoryBuffer(x) => vec![0x06, x.code()],
            DataSource::Params(x) => vec![0x07, x.code()],
            DataSource::Scale(x) => vec![0x08, x.code()],
            DataSource::FullScale(x) => vec![0x09, x.code()],
            DataSource::RandomNote(x) => vec![0x0A, x.code()],
        }
    }

    /// Decodes `[kind, scalar]`; an unknown kind gives the constant zero.
    pub fn from_u8_vec(data: Vec<u8>) -> (r: DataSource)
        requires
            data@.len() >= 2,
        ensures
            r == DataSource::decoded(data@[0], data@[1]),
    {
        let value = DataValue::from_u8(data[1]);
        match data[0] {
            0x00 => DataSource::Constant(value),
            0x01 => DataSource::Random(value),
            0x02 => DataSource::StepPitch(value),
            0x03 => DataSource::StepVelocity(value),
            0x04 => DataSource::StepLength(value),
            0x05 => DataSource::StepDensity(value),
            0x06 => DataSource::MemoryBuffer(value),
            0x07 => DataSource::Params(value),
            0x08 => DataSource::Scale(value),
            0x09 => DataSource::FullScale(value),
            0x0A => DataSource::RandomNote(value),
            _ => DataSource::Constant(DataValue::from_u8(0)),
        }
    }

    /// The largest magnitude the kind admits.
    pub fn max(&self) -> (r: u8)
        ensures
            r == self.ceiling(),
    {
        match self {
            DataSource::Constant(_) => 127,
            DataSource::Random(_) => 127,
            DataSource::StepPitch(_) => 31,
            DataSource::StepVelocity(_) => 31,
            DataSource::StepLength(_) => 31,
            DataSource::StepDensity(_) => 31,
            DataSource::MemoryBuffer(_) => 31,
            DataSource::Params(_) => 3,
            DataSource::Scale(_) => 127,
            DataSource::FullScale(_) => 127,
            DataSource::RandomNote(_) => 100,
        }
    }

    /// Clamps the magnitude into `[0, ceiling]` in place, keeping kind and variant.
    pub fn validate(&mut self)
        ensures
            *final(self) == old(self).validated(),
    {
        let max = self.max();
        match self {
            DataSource::Constant(x) => x.clip(0, max),
            DataSource::Random(x) => x.clip(0, max),
            DataSource::StepPitch(x) => x.clip(0, max),
            DataSource::StepVelocity(x) => x.clip(0, max),
            DataSource::StepLength(x) => x.clip(0, max),
            DataSource::StepDensity(x) => x.clip(0, max),
            DataSource::MemoryBuffer(x) => x.clip(0, max),
            DataSource::Params(x) => x.clip(0, max),
            DataSource::Scale(x) => x.clip(0, max),
            DataSource::FullScale(x) => x.clip(0, max),
            DataSource::RandomNote(x) => x.clip(0, max),
        }
    }
}

/// A validated operand keeps its kind and its magnitude is within the ceiling.
pub proof fn lemma_validated_in_range(ds: DataSource)
    ensures
        ds.validated().kind() == ds.kind(),
        ds.validated().ceiling() == ds.ceiling(),
        ds.validated().inner().magnitude() <= ds.ceiling(),
        ds.ceiling() <= 127,
        ds.validated().inner().encodable(),
{
}

/// Validating an operand a second time changes nothing, so its bytes are
/// those of its validated form.
pub proof fn lemma_validate_idempotent(ds: DataSource)
    ensures
        ds.validated().validated() == ds.validated(),
        ds.validated().bytes() == ds.bytes(),
{
    lemma_validated_in_range(ds);
}

/// The bytes of an operand decode to its validated form.
pub proof fn lemma_operand_round_trip(ds: DataSource)
    ensures
        ds.bytes().len() == 2,
        DataSource::decoded(ds.bytes()[0], ds.bytes()[1]) == ds.validated(),
{
    lemma_validated_in_range(ds);
}

/// An operand of kind `Constant` carrying the decoded `value`.
pub fn constant(value: u8) -> (r: DataSource)
    ensures
        r == DataSource::Constant(DataValue::decoded(value)),
{
    DataSource::Constant(DataValue::from_u8(value))
}

/// An operand of kind `Random` carrying the decoded `value`.
pub fn random(value: u8) -> (r: DataSource)
    ensures
        r == DataSource::Random(DataValue::decoded(value)),
{
    DataSource::Random(DataValue::from_u8(value))
}

/// An operand of kind `StepPitch` carrying the decoded `value`.
pub fn step_pitch(value: u8) -> (r: DataSource)
    ensures
        r == DataSource::StepPitch(DataValue::decoded(value)),
{
    DataSource::StepPitch(DataValue::from_u8(value))
}

/// An operand of kind `StepVelocity` carrying the decoded `value`.
pub fn step_velocity(value: u8) -> (r: DataSource)
    ensures
        r == DataSource::StepVelocity(DataValue::decoded(value)),
{
    DataSource::StepVelocity(DataValue::from_u8(value))
}

/// An operand of kind `StepLength` carrying the decoded `value`.
pub fn step_length(value: u8) -> (r: DataSource)
    ensures
        r == DataSource::StepLength(DataValue::decoded(value)),
{
    DataSource::StepLength(DataValue::from_u8(value))
}

/// An operand of kind `StepDensity` carrying the decoded `value`.
pub fn step_density(value: u8) -> (r: DataSource)
    ensures
        r == DataSource::StepDensity(DataValue::decoded(value)),
{
    DataSource::StepDensity(DataValue::from_u8(value))
}

/// An operand of kind `MemoryBuffer` carrying the decoded `value`.
pub fn memory_buffer(value: u8) -> (r: DataSource)
    ensures
        r == DataSource::MemoryBuffer(DataValue::decoded(value)),
{
    DataSource::MemoryBuffer(DataValue::from_u8(value))
}

} // verus!
