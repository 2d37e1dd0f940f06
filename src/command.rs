//! The codec of one instruction: an opcode byte followed by a payload whose
//! length the opcode alone decides (none, one operand, a jump target, or two
//! operands).
use vstd::prelude::*;

use crate::operand::{lemma_operand_round_trip, lemma_validate_idempotent, DataSource};
use crate::scalar::DataValue;
use crate::wide::{group_int16, Int16};

verus! {

broadcast use group_int16;

/// The instructions of a script.
#[derive(Clone, Copy, Debug, PartialEq, Eq, Structural)]
pub enum Commands {
    /// Stands for an unknown opcode
    NoOp,
    /// Sets x to y
    SetValue(DataSource, DataSource),
    /// Copies x to y
    Copy(DataSource, DataSource),
    /// Adds y to x
    Add(DataSource, DataSource),
    /// Subtracts y from x
    Subtract(DataSource, DataSource),
    /// Multiplies x by y
    Multiply(DataSource, DataSource),
    /// Divides x by y
    Divide(DataSource, DataSource),
    /// Sets the loop to x repetitions
    LoopSet(DataSource),
    /// Ends the loop
    LoopEnd,
    /// Jumps to x
    Jump(Int16),
    /// Clears the active track
    ClearTrack,
    /// Clears the memory buffer
    ClearMemory,
    /// Clears all tracks and memory
    ClearAll,
    /// Selects a track
    SelectTrack,
    /// Quantizes all steps of the active track's pitch sequence
    QuantizePitch,
    /// Generates a chord progression
    GenerateProgression,
    /// Generates a velocity sequence for the active track with the Euclidean algorithm
    GenerateEuclidean(DataSource, DataSource),
    /// Conditional on equality (x == y)
    CondE(DataSource, DataSource),
    /// Conditional on inequality (x != y)
    CondNE(DataSource, DataSource),
    /// Conditional on x > y
    CondGT(DataSource, DataSource),
    /// Conditional on x < y
    CondLT(DataSource, DataSource),
    /// Conditional on x >= y
    CondGTE(DataSource, DataSource),
    /// Conditional on x <= y
    CondLTE(DataSource, DataSource),
    /// Ends a conditional
    CondEnd,
    /// Ends the script
    End,
}

/// The operand that fills the payload of an instruction decoded from its opcode alone.
pub open spec fn zero_operand() -> DataSource {
    DataSource::Constant(DataValue::Number(0))
}

impl Commands {
    /// The opcode byte; variants without an opcode of their own give 0x00.
    pub open spec fn opcode(self) -> u8 {
        match self {
            Commands::SetValue(_, _) => 0xA1,
            Commands::Copy(_, _) => 0xA2,
            Commands::ClearTrack => 0xA3,
            Commands::ClearMemory => 0xA4,
            Commands::ClearAll => 0xA5,
            Commands::Add(_, _) => 0xB0,
            Commands::Subtract(_, _) => 0xB1,
            Commands::Multiply(_, _) => 0xB2,
            Commands::Divide(_, _) => 0xB3,
            Commands::QuantizePitch => 0xB4,
            Commands::GenerateProgression => 0xB5,
            Commands::GenerateEuclidean(_, _) => 0xB6,
            Commands::CondE(_, _) => 0xD0,
            Commands::CondNE(_, _) => 0xD1,
            Commands::CondGT(_, _) => 0xD2,
            Commands::CondLT(_, _) => 0xD3,
            Commands::CondGTE(_, _) => 0xD4,
            Commands::CondLTE(_, _) => 0xD5,
            Commands::CondEnd => 0xD6,
            Commands::LoopSet(_) => 0xC0,
            Commands::LoopEnd => 0xC1,
            Commands::Jump(_) => 0xC2,
            Commands::End => 0xFF,
            _ => 0x00,
        }
    }

    /// How many operands the instruction carries (a jump target is no operand).
    pub open spec fn arity(self) -> nat {
        match self {
            Commands::SetValue(_, _) | Commands::Copy(_, _) | Commands::Add(_, _) | Commands::Subtract(
                _,
                _,
            ) | Commands::Multiply(_, _) | Commands::Divide(_, _) | Commands::GenerateEuclidean(
                _,
                _,
            ) | Commands::CondE(_, _) | Commands::CondNE(_, _) | Commands::CondGT(_, _)
            | Commands::CondLT(_, _) | Commands::CondGTE(_, _) | Commands::CondLTE(_, _) => 2,
            Commands::LoopSet(_) => 1,
            _ => 0,
        }
    }

    /// The first operand, where there is one.
    pub open spec fn first(self) -> DataSource {
        match self {
            Commands::SetValue(x, _) | Commands::Copy(x, _) | Commands::Add(x, _) | Commands::Subtract(
                x,
                _,
            ) | Commands::Multiply(x, _) | Commands::Divide(x, _) | Commands::GenerateEuclidean(
                x,
                _,
            ) | Commands::CondE(x, _) | Commands::CondNE(x, _) | Commands::CondGT(x, _)
            | Commands::CondLT(x, _) | Commands::CondGTE(x, _) | Commands::CondLTE(x, _)
            | Commands::LoopSet(x) => x,
            _ => zero_operand(),
        }
    }

    /// The second operand, where there is one.
    pub open spec fn second(self) -> DataSource {
        match self {
            Commands::SetValue(_, y) | Commands::Copy(_, y) | Commands::Add(_, y) | Commands::Subtract(
                _,
                y,
            ) | Commands::Multiply(_, y) | Commands::Divide(_, y) | Commands::GenerateEuclidean(
                _,
                y,
            ) | Commands::CondE(_, y) | Commands::CondNE(_, y) | Commands::CondGT(_, y)
            | Commands::CondLT(_, y) | Commands::CondGTE(_, y) | Commands::CondLTE(_, y) => y,
            _ => zero_operand(),
        }
    }

    /// The same variant carrying other operands; `y` is ignored by a one
    /// operand instruction and both by one without operands.
    pub open spec fn with_operands(self, x: DataSource, y: DataSource) -> Commands {
        match self {
            Commands::SetValue(_, _) => Commands::SetValue(x, y),
            Commands::Copy(_, _) => Commands::Copy(x, y),
            Commands::Add(_, _) => Commands::Add(x, y),
            Commands::Subtract(_, _) => Commands::Subtract(x, y),
            Commands::Multiply(_, _) => Commands::Multiply(x, y),
            Commands::Divide(_, _) => Commands::Divide(x, y),
            Commands::GenerateEuclidean(_, _) => Commands::GenerateEuclidean(x, y),
            Commands::CondE(_, _) => Commands::CondE(x, y),
            Commands::CondNE(_, _) => Commands::CondNE(x, y),
            Commands::CondGT(_, _) => Commands::CondGT(x, y),
            Commands::CondLT(_, _) => Commands::CondLT(x, y),
            Commands::CondGTE(_, _) => Commands::CondGTE(x, y),
            Commands::CondLTE(_, _) => Commands::CondLTE(x, y),
            Commands::LoopSet(_) => Commands::LoopSet(x),
            other => other,
        }
    }

    /// The number of bytes of the instruction's frame: 1, 3 or 5.
    pub open spec fn frame_len(self) -> nat {
        match self {
            Commands::Jump(_) => 3,
            _ => 1 + 2 * self.arity(),
        }
    }

    /// The instruction with each operand clamped to its kind's ceiling.
    pub open spec fn validated(self) -> Commands {
        self.with_operands(self.first().validated(), self.second().validated())
    }

    /// The frame the instruction encodes to: the opcode, then the payload.
    pub open spec fn bytes(self) -> Seq<u8> {
        match self {
            Commands::Jump(w) => seq![self.opcode(), w.high(), w.low()],
            _ => if self.arity() == 2 {
                seq![self.opcode()] + self.first().bytes() + self.second().bytes()
            } else if self.arity() == 1 {
                seq![self.opcode()] + self.first().bytes()
            } else {
                seq![self.opcode()]
            },
        }
    }

    /// The instruction an opcode stands for, with zero operands; an unknown
    /// opcode gives `NoOp`.
    pub open spec fn skeleton(op: u8) -> Commands {
        let z = zero_operand();
        if op == 0xA1 {
            Commands::SetValue(z, z)
        } else if op == 0xA2 {
            Commands::Copy(z, z)
        } else if op == 0xA3 {
            Commands::ClearTrack
        } else if op == 0xA4 {
            Commands::ClearMemory
        } else if op == 0xA5 {
            Commands::ClearAll
        } else if op == 0xB0 {
            Commands::Add(z, z)
        } else if op == 0xB1 {
            Commands::Subtract(z, z)
        } else if op == 0xB2 {
            Commands::Multiply(z, z)
        } else if op == 0xB3 {
            Commands::Divide(z, z)
        } else if op == 0xB4 {
            Commands::QuantizePitch
        } else if op == 0xB5 {
            Commands::GenerateProgression
        } else if op == 0xB6 {
            Commands::GenerateEuclidean(z, z)
        } else if op == 0xC0 {
            Commands::LoopSet(z)
        } else if op == 0xC1 {
            Commands::LoopEnd
        } else if op == 0xC2 {
            Commands::Jump(Int16::of_bytes(0, 0))
        } else if op == 0xD0 {
            Commands::CondE(z, z)
        } else if op == 0xD1 {
            Commands::CondNE(z, z)
        } else if op == 0xD2 {
            Commands::CondGT(z, z)
        } else if op == 0xD3 {
            Commands::CondLT(z, z)
        } else if op == 0xD4 {
            Commands::CondGTE(z, z)
        } else if op == 0xD5 {
            Commands::CondLTE(z, z)
        } else if op == 0xD6 {
            Commands::CondEnd
        } else if op == 0xFF {
            Commands::End
        } else {
            Commands::NoOp
        }
    }

    /// What a frame decodes to. A five byte frame carries two operands and a
    /// three byte one an operand or a jump target; where the opcode does not
    /// take that payload the result is `NoOp`. Any other length gives the
    /// opcode's instruction with zero operands.
    pub open spec fn decode_frame(f: Seq<u8>) -> Commands
        recommends
            f.len() >= 1,
    {
        let sk = Commands::skeleton(f[0]);
        if f.len() == 5 {
            if sk.arity() == 2 {
                sk.with_operands(DataSource::decoded(f[1], f[2]), DataSource::decoded(f[3], f[4]))
            } else {
                Commands::NoOp
            }
        } else if f.len() == 3 {
            match sk {
                Commands::LoopSet(_) => Commands::LoopSet(DataSource::decoded(f[1], f[2])),
                Commands::Jump(_) => Commands::Jump(Int16::of_bytes(f[1], f[2])),
                _ => Commands::NoOp,
            }
        } else {
            sk
        }
    }

    /// The end of a script.
    pub fn new() -> (r: Commands)
        ensures
            r == Commands::End,
    {
        Commands::End
    }

    /// The number of bytes of the instruction's frame.
    pub fn len(&self) -> (r: usize)
        ensures
            r == self.frame_len(),
    {
        match self {
            Commands::SetValue(_, _) => 5,
            Commands::Copy(_, _) => 5,
            Commands::Add(_, _) => 5,
            Commands::Subtract(_, _) => 5,
            Commands::Multiply(_, _) => 5,
            Commands::Divide(_, _) => 5,
            Commands::GenerateEuclidean(_, _) => 5,
            Commands::CondE(_, _) => 5,
            Commands::CondNE(_, _) => 5,
            Commands::CondGT(_, _) => 5,
            Commands::CondLT(_, _) => 5,
            Commands::CondGTE(_, _) => 5,
            Commands::CondLTE(_, _) => 5,
            Commands::LoopSet(_) => 3,
            Commands::Jump(_) => 3,
            _ => 1,
        }
    }

    /// The opcode byte.
    pub fn cmd_code(&self) -> (r: u8)
        ensures
            r == self.opcode(),
    {
        match self {
            Commands::SetValue(_, _) => 0xA1,
            Commands::Copy(_, _) => 0xA2,
            Commands::ClearTrack => 0xA3,
            Commands::ClearMemory => 0xA4,
            Commands::ClearAll => 0xA5,
            Commands::Add(_, _) => 0xB0,
            Commands::Subtract(_, _) => 0xB1,
            Commands::Multiply(_, _) => 0xB2,
            Commands::Divide(_, _) => 0xB3,
            Commands::QuantizePitch => 0xB4,
            Commands::GenerateProgression => 0xB5,
            Commands::GenerateEuclidean(_, _) => 0xB6,
            Commands::CondE(_, _) => 0xD0,
            Commands::CondNE(_, _) => 0xD1,
            Commands::CondGT(_, _) => 0xD2,
            Commands::CondLT(_, _) => 0xD3,
            Commands::CondGTE(_, _) => 0xD4,
            Commands::CondLTE(_, _) => 0xD5,
            Commands::CondEnd => 0xD6,
            Commands::LoopSet(_) => 0xC0,
            Commands::LoopEnd => 0xC1,
            Commands::Jump(_) => 0xC2,
            Commands::End => 0xFF,
            _ => 0x00,
        }
    }

    /// Validates the operands in place, then encodes the instruction's frame.
    pub fn code(&mut self) -> (r: Vec<u8>)
        ensures
            *final(self) == old(self).validated(),
            r@ == old(self).bytes(),
    {
        let mut code: Vec<u8> = vec![self.cmd_code()];
        match self {
            Commands::SetValue(x, y) => {
                let mut a = x.code();
                code.append(&mut a);
                let mut b = y.code();
                code.append(&mut b);
            },
            Commands::Copy(x, y) => {
                let mut a = x.code();
                code.append(&mut a);
                let mut b = y.code();
                code.append(&mut b);
            },
            Commands::Add(x, y) => {
                let mut a = x.code();
                code.append(&mut a);
                let mut b = y.code();
                code.append(&mut b);
            },
            Commands::Subtract(x, y) => {
                let mut a = x.code();
                code.append(&mut a);
                let mut b = y.code();
                code.append(&mut b);
            },
            Commands::Multiply(x, y) => {
                let mut a = x.code();
                code.append(&mut a);
                let mut b = y.code();
                code.append(&mut b);
            },
            Commands::Divide(x, y) => {
                let mut a = x.code();
                code.append(&mut a);
                let mut b = y.code();
                code.append(&mut b);
            },
            Commands::GenerateEuclidean(x, y) => {
                let mut a = x.code();
                code.append(&mut a);
                let mut b = y.code();
                code.append(&mut b);
            },
            Commands::CondE(x, y) => {
                let mut a = x.code();
                code.append(&mut a);
                let mut b = y.code();
                code.append(&mut b);
            },
            Commands::CondNE(x, y) => {
                let mut a = x.code();
                code.append(&mut a);
                let mut b = y.code();
                code.append(&mut b);
            },
            Commands::CondGT(x, y) => {
                let mut a = x.code();
                code.append(&mut a);
                let mut b = y.code();
                code.append(&mut b);
            },
            Commands::CondLT(x, y) => {
                let mut a = x.code();
                code.append(&mut a);
                let mut b = y.code();
                code.append(&mut b);
            },
            Commands::CondGTE(x, y) => {
                let mut a = x.code();
                code.append(&mut a);
                let mut b = y.code();
                code.append(&mut b);
            },
            Commands::CondLTE(x, y) => {
                let mut a = x.code();
                code.append(&mut a);
                let mut b = y.code();
                code.append(&mut b);
            },
            Commands::LoopSet(x) => {
                let mut a = x.code();
                code.append(&mut a);
            },
            Commands::Jump(x) => {
                let mut a = x.code();
                code.append(&mut a);
            },
            _ => {},
        }
        code
    }

    /// The instruction an opcode byte stands for, with zero operands.
    pub fn from_u8(data: u8) -> (r: Commands)
        ensures
            r == Commands::skeleton(data),
    {
        match data {
            0xA1 => Commands::SetValue(DataSource::Constant(DataValue::from_u8(0)), DataSource::Constant(DataValue::from_u8(0))),
            0xA2 => Commands::Copy(DataSource::Constant(DataValue::from_u8(0)), DataSource::Constant(DataValue::from_u8(0))),
            0xA3 => Commands::ClearTrack,
            0xA4 => Commands::ClearMemory,
            0xA5 => Commands::ClearAll,
            0xB0 => Commands::Add(DataSource::Constant(DataValue::from_u8(0)), DataSource::Constant(DataValue::from_u8(0))),
            0xB1 => Commands::Subtract(DataSource::Constant(DataValue::from_u8(0)), DataSource::Constant(DataValue::from_u8(0))),
            0xB2 => Commands::Multiply(DataSource::Constant(DataValue::from_u8(0)), DataSource::Constant(DataValue::from_u8(0))),
            0xB3 => Commands::Divide(DataSource::Constant(DataValue::from_u8(0)), DataSource::Constant(DataValue::from_u8(0))),
            0xB4 => Commands::QuantizePitch,
            0xB5 => Commands::GenerateProgression,
            0xB6 => Commands::GenerateEuclidean(DataSource::Constant(DataValue::from_u8(0)), DataSource::Constant(DataValue::from_u8(0))),
            0xC0 => Commands::LoopSet(DataSource::Constant(DataValue::from_u8(0))),
            0xC1 => Commands::LoopEnd,
            0xC2 => Commands::Jump(Int16::new(0, 0)),
            0xD0 => Commands::CondE(DataSource::Constant(DataValue::from_u8(0)), DataSource::Constant(DataValue::from_u8(0))),
            0xD1 => Commands::CondNE(DataSource::Constant(DataValue::from_u8(0)), DataSource::Constant(DataValue::from_u8(0))),
            0xD2 => Commands::CondGT(DataSource::Constant(DataValue::from_u8(0)), DataSource::Constant(DataValue::from_u8(0))),
            0xD3 => Commands::CondLT(DataSource::Constant(DataValue::from_u8(0)), DataSource::Constant(DataValue::from_u8(0))),
            0xD4 => Commands::CondGTE(DataSource::Constant(DataValue::from_u8(0)), DataSource::Constant(DataValue::from_u8(0))),
            0xD5 => Commands::CondLTE(DataSource::Constant(DataValue::from_u8(0)), DataSource::Constant(DataValue::from_u8(0))),
            0xD6 => Commands::CondEnd,
            0xFF => Commands::End,
            _ => Commands::NoOp,
        }
    }

    /// Decodes one frame.
    pub fn from_u8_vec(data: Vec<u8>) -> (r: Commands)
        requires
            data@.len() >= 1,
        ensures
            r == Commands::decode_frame(data@),
    {
        let cmd = Commands::from_u8(data[0]);
        if data.len() == 5 {
            let x = DataSource::from_u8_vec(vec![data[1], data[2]]);
            let y = DataSource::from_u8_vec(vec![data[3], data[4]]);
            match cmd {
                    Commands::SetValue(_, _) => Commands::SetValue(x, y),
                    Commands::Copy(_, _) => Commands::Copy(x, y),
                    Commands::Add(_, _) => Commands::Add(x, y),
                    Commands::Subtract(_, _) => Commands::Subtract(x, y),
                    Commands::Multiply(_, _) => Commands::Multiply(x, y),
                    Commands::Divide(_, _) => Commands::Divide(x, y),
                    Commands::GenerateEuclidean(_, _) => Commands::GenerateEuclidean(x, y),
                    Commands::CondE(_, _) => Commands::CondE(x, y),
                    Commands::CondNE(_, _) => Commands::CondNE(x, y),
                    Commands::CondGT(_, _) => Commands::CondGT(x, y),
                    Commands::CondLT(_, _) => Commands::CondLT(x, y),
                    Commands::CondGTE(_, _) => Commands::CondGTE(x, y),
                    Commands::CondLTE(_, _) => Commands::CondLTE(x, y),
                _ => Commands::NoOp,
            }
        } else if data.len() == 3 {
            match cmd {
                Commands::LoopSet(_) => Commands::LoopSet(DataSource::from_u8_vec(vec![data[1], data[2]])),
                Commands::Jump(_) => Commands::Jump(Int16::from_u8_vec(vec![data[1], data[2]])),
                _ => Commands::NoOp,
            }
        } else {
            cmd
        }
    }
}

/// The length of an instruction's frame is decided by its opcode alone:
/// the instruction the opcode stands for has the same length, whatever
/// operands either carries, and so does the frame it encodes to.
pub proof fn lemma_length_from_opcode(c: Commands)
    ensures
        Commands::skeleton(c.opcode()).frame_len() == c.frame_len(),
        c.bytes().len() == c.frame_len(),
        c.frame_len() == 1 || c.frame_len() == 3 || c.frame_len() == 5,
{
}

/// Two instructions with one opcode have frames of one length.
pub proof fn lemma_length_determinism(c: Commands, d: Commands)
    requires
        c.opcode() == d.opcode(),
    ensures
        c.frame_len() == d.frame_len(),
{
    lemma_length_from_opcode(c);
    lemma_length_from_opcode(d);
}

/// What an instruction's frame decodes to: the validated instruction, but
/// for `SelectTrack`, which shares opcode 0x00 with `NoOp` and comes back as it.
pub open spec fn decoded_form(c: Commands) -> Commands {
    match c {
        Commands::SelectTrack => Commands::NoOp,
        _ => c.validated(),
    }
}

/// An instruction's frame starts with its opcode, decodes to the validated
/// instruction (see `decoded_form`), which encodes to the same frame.
pub proof fn lemma_frame_round_trip(c: Commands)
    ensures
        c.bytes().len() == c.frame_len(),
        c.bytes()[0] == c.opcode(),
        Commands::skeleton(c.bytes()[0]).frame_len() == c.bytes().len(),
        Commands::decode_frame(c.bytes()) == decoded_form(c),
        decoded_form(c).bytes() == c.bytes(),
        c.validated().bytes() == c.bytes(),
        c.validated().validated() == c.validated(),
{
    lemma_length_from_opcode(c);
    lemma_operand_round_trip(c.first());
    lemma_operand_round_trip(c.second());
    lemma_validate_idempotent(c.first());
    lemma_validate_idempotent(c.second());
    let b = c.bytes();
    let x = c.first().bytes();
    let y = c.second().bytes();
    if c.arity() == 2 {
        assert(b[1] == x[0] && b[2] == x[1] && b[3] == y[0] && b[4] == y[1]);
        assert(Commands::skeleton(c.opcode()).with_operands(
            c.first().validated(),
            c.second().validated(),
        ) == c.validated());
    } else if c.arity() == 1 {
        assert(b[1] == x[0] && b[2] == x[1]);
    }
}

} // verus!
