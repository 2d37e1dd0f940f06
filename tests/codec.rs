use ngen_nsl::{
    constant, memory_buffer, random, step_density, step_length, step_pitch, step_velocity,
    Commands, DataSource, DataValue, Int16, NSLScript,
};

#[test]
fn main_test() {
    let test_script: Vec<u8> = vec![0x4E, 0x53, 0x4C, 0x01, 0xA1, 0x06, 0x00, 0x07, 0x00, 0xB3, 0x06, 0x00, 0x00, 0x03, 0xA1, 0x06, 0x01, 0x07, 0x01, 0xB3, 0x06, 0x01, 0x00, 0x03, 0xB6, 0x06, 0x00, 0x06, 0x01, 0xA1, 0x06, 0x00, 0x00, 0x00, 0xC0, 0x00, 0x20, 0xD2, 0x03, 0x80, 0x00, 0x00, 0xA1, 0x06, 0x01, 0x0A, 0x28, 0xA1, 0x02, 0x80, 0x08, 0x81, 0xB0, 0x02, 0x80, 0x00, 0x30, 0xA1, 0x04, 0x80, 0x00, 0x01, 0xA1, 0x05, 0x80, 0x01, 0x31, 0xD6, 0xB0, 0x06, 0x00, 0x00, 0x01, 0xC1];
    let mut script = NSLScript::from_u8_vec(test_script.clone()).unwrap();
    let code = script.code();

    assert_eq!(test_script, code, "Verifying code... File: {} / Generated {}", test_script.len(), code.len());
}

#[test]
fn encode_set_then_end() {
    let mut script = NSLScript::new();
    script.add_command(Commands::SetValue(
        DataSource::StepPitch(DataValue::Number(0)),
        DataSource::Constant(DataValue::Number(36)),
    ));
    script.add_command(Commands::End);
    assert_eq!(
        script.code(),
        vec![0x4E, 0x53, 0x4C, 0x01, 0xA1, 0x02, 0x00, 0x00, 0x24, 0xFF]
    );
}

#[test]
fn decode_loop_set_and_end() {
    let bytes: Vec<u8> = vec![0x4E, 0x53, 0x4C, 0x01, 0xC0, 0x00, 0x20, 0xC1];
    let mut script = NSLScript::from_u8_vec(bytes.clone()).unwrap();
    assert_eq!(
        script.commands,
        vec![
            Commands::LoopSet(DataSource::Constant(DataValue::Number(32))),
            Commands::LoopEnd
        ]
    );
    assert_eq!(script.code(), bytes);
}

#[test]
fn scalar_buffer_byte() {
    let v = DataValue::from_u8(0x81);
    assert_eq!(v, DataValue::Buffer(1));
    assert_eq!(v.code(), 0x81);
}

#[test]
fn scalar_every_byte_round_trips() {
    for b in 0..=255u8 {
        let v = DataValue::from_u8(b);
        assert_eq!(v.code(), b);
        if b < 128 {
            assert_eq!(v, DataValue::Number(b));
        } else {
            assert_eq!(v, DataValue::Buffer(b - 128));
        }
    }
    for n in 0..=127u8 {
        assert_eq!(DataValue::from_u8(DataValue::Number(n).code()), DataValue::Number(n));
        assert_eq!(DataValue::from_u8(DataValue::Buffer(n).code()), DataValue::Buffer(n));
    }
}

#[test]
fn number_saturates_when_encoded() {
    assert_eq!(DataValue::Number(200).code(), 127);
    assert_eq!(DataValue::Number(128).code(), 127);
    assert_eq!(DataValue::Buffer(127).code(), 0xFF);
}

#[test]
fn clip_keeps_variant() {
    let mut v = DataValue::Buffer(50);
    v.clip(0, 31);
    assert_eq!(v, DataValue::Buffer(31));
    let mut w = DataValue::Number(2);
    w.clip(5, 10);
    assert_eq!(w, DataValue::Number(5));
    let mut u = DataValue::Number(7);
    u.clip(5, 10);
    assert_eq!(u, DataValue::Number(7));
}

#[test]
fn validate_twice_is_validate_once() {
    let mut once = DataSource::Params(DataValue::Number(100));
    once.validate();
    assert_eq!(once, DataSource::Params(DataValue::Number(3)));
    let mut twice = once;
    twice.validate();
    assert_eq!(twice, once);
    let mut in_range = DataSource::RandomNote(DataValue::Buffer(40));
    in_range.validate();
    assert_eq!(in_range, DataSource::RandomNote(DataValue::Buffer(40)));
}

#[test]
fn ceilings_per_kind() {
    let v = DataValue::Number(0);
    assert_eq!(DataSource::Constant(v).max(), 127);
    assert_eq!(DataSource::Random(v).max(), 127);
    assert_eq!(DataSource::StepPitch(v).max(), 31);
    assert_eq!(DataSource::StepVelocity(v).max(), 31);
    assert_eq!(DataSource::StepLength(v).max(), 31);
    assert_eq!(DataSource::StepDensity(v).max(), 31);
    assert_eq!(DataSource::MemoryBuffer(v).max(), 31);
    assert_eq!(DataSource::Params(v).max(), 3);
    assert_eq!(DataSource::Scale(v).max(), 127);
    assert_eq!(DataSource::FullScale(v).max(), 127);
    assert_eq!(DataSource::RandomNote(v).max(), 100);
}

#[test]
fn operand_code_clamps_buffer_index() {
    let mut ds = DataSource::MemoryBuffer(DataValue::Buffer(200));
    assert_eq!(ds.code(), vec![0x06, 0x80 + 31]);
    assert_eq!(ds, DataSource::MemoryBuffer(DataValue::Buffer(31)));
    let mut note = DataSource::RandomNote(DataValue::Number(120));
    assert_eq!(note.code(), vec![0x0A, 100]);
}

#[test]
fn operand_decode_and_unknown_kind() {
    assert_eq!(DataSource::from_u8_vec(vec![0x08, 0x85]), DataSource::Scale(DataValue::Buffer(5)));
    assert_eq!(DataSource::from_u8_vec(vec![0x0A, 0x10]), DataSource::RandomNote(DataValue::Number(16)));
    assert_eq!(DataSource::from_u8_vec(vec![0x0B, 0x85]), DataSource::Constant(DataValue::Number(0)));
    assert_eq!(DataSource::from_u8_vec(vec![0xFF, 0x01]), DataSource::Constant(DataValue::Number(0)));
}

#[test]
fn operand_builders() {
    assert_eq!(constant(36), DataSource::Constant(DataValue::Number(36)));
    assert_eq!(random(0x81), DataSource::Random(DataValue::Buffer(1)));
    assert_eq!(step_pitch(3), DataSource::StepPitch(DataValue::Number(3)));
    assert_eq!(step_velocity(4), DataSource::StepVelocity(DataValue::Number(4)));
    assert_eq!(step_length(5), DataSource::StepLength(DataValue::Number(5)));
    assert_eq!(step_density(6), DataSource::StepDensity(DataValue::Number(6)));
    assert_eq!(memory_buffer(0x80), DataSource::MemoryBuffer(DataValue::Buffer(0)));
}

#[test]
fn wide_integer_big_endian() {
    let w = Int16::new(0x12, 0x34);
    assert_eq!(w.get_value(), 0x1234);
    assert_eq!(w.code(), vec![0x12, 0x34]);
    assert_eq!(Int16::from_u8_vec(vec![0xFF, 0x01]).get_value(), 0xFF01);
}

#[test]
fn length_depends_on_opcode_only() {
    let a = DataSource::Constant(DataValue::Number(0));
    let b = DataSource::Params(DataValue::Buffer(99));
    assert_eq!(Commands::Add(a, a).len(), Commands::Add(b, b).len());
    assert_eq!(Commands::Add(a, b).len(), 5);
    assert_eq!(Commands::LoopSet(a).len(), Commands::LoopSet(b).len());
    assert_eq!(Commands::LoopSet(b).len(), 3);
    assert_eq!(Commands::Jump(Int16::new(0, 0)).len(), Commands::Jump(Int16::new(9, 9)).len());
    assert_eq!(Commands::Jump(Int16::new(9, 9)).len(), 3);
    assert_eq!(Commands::ClearAll.len(), 1);
    assert_eq!(Commands::NoOp.len(), 1);
    for op in 0..=255u8 {
        let sk = Commands::from_u8(op);
        let mut c = sk;
        assert_eq!(c.code().len(), sk.len());
    }
}

#[test]
fn opcodes() {
    let z = DataSource::Constant(DataValue::Number(0));
    assert_eq!(Commands::SetValue(z, z).cmd_code(), 0xA1);
    assert_eq!(Commands::ClearAll.cmd_code(), 0xA5);
    assert_eq!(Commands::GenerateEuclidean(z, z).cmd_code(), 0xB6);
    assert_eq!(Commands::Jump(Int16::new(0, 1)).cmd_code(), 0xC2);
    assert_eq!(Commands::CondEnd.cmd_code(), 0xD6);
    assert_eq!(Commands::End.cmd_code(), 0xFF);
    assert_eq!(Commands::NoOp.cmd_code(), 0x00);
    assert_eq!(Commands::SelectTrack.cmd_code(), 0x00);
    assert_eq!(Commands::new(), Commands::End);
}

#[test]
fn unknown_opcode_is_no_op() {
    assert_eq!(Commands::from_u8(0x07), Commands::NoOp);
    assert_eq!(Commands::from_u8(0xC1), Commands::LoopEnd);
    assert_eq!(Commands::from_u8(0xB0), Commands::Add(
        DataSource::Constant(DataValue::Number(0)),
        DataSource::Constant(DataValue::Number(0)),
    ));
}

#[test]
fn frame_decoding() {
    assert_eq!(
        Commands::from_u8_vec(vec![0xD2, 0x03, 0x80, 0x00, 0x00]),
        Commands::CondGT(
            DataSource::StepVelocity(DataValue::Buffer(0)),
            DataSource::Constant(DataValue::Number(0))
        )
    );
    assert_eq!(
        Commands::from_u8_vec(vec![0xC2, 0x01, 0x02]),
        Commands::Jump(Int16::new(1, 2))
    );
    assert_eq!(Commands::from_u8_vec(vec![0xC1, 0x00, 0x00]), Commands::NoOp);
    assert_eq!(Commands::from_u8_vec(vec![0xC0, 0x00, 0x00, 0x00, 0x00]), Commands::NoOp);
    assert_eq!(Commands::from_u8_vec(vec![0xA3]), Commands::ClearTrack);
}

#[test]
fn jump_round_trips() {
    let mut script = NSLScript::new();
    script.add_commands(vec![Commands::Jump(Int16::new(0x01, 0x02)), Commands::End]);
    let bytes = script.code();
    assert_eq!(bytes, vec![0x4E, 0x53, 0x4C, 0x01, 0xC2, 0x01, 0x02, 0xFF]);
    let back = NSLScript::from_u8_vec(bytes).unwrap();
    assert_eq!(back.commands, vec![Commands::Jump(Int16::new(0x01, 0x02)), Commands::End]);
}

#[test]
fn select_track_decodes_as_no_op() {
    let mut script = NSLScript::new();
    script.add_command(Commands::SelectTrack);
    let bytes = script.code();
    assert_eq!(bytes, vec![0x4E, 0x53, 0x4C, 0x01, 0x00]);
    let mut back = NSLScript::from_u8_vec(bytes.clone()).unwrap();
    assert_eq!(back.commands, vec![Commands::NoOp]);
    assert_eq!(back.code(), bytes);
}

#[test]
fn encoding_validates_in_place() {
    let mut script = NSLScript::new();
    script.add_command(Commands::Add(
        DataSource::Params(DataValue::Number(9)),
        DataSource::StepPitch(DataValue::Buffer(40)),
    ));
    let bytes = script.code();
    assert_eq!(bytes, vec![0x4E, 0x53, 0x4C, 0x01, 0xB0, 0x07, 0x03, 0x02, 0x80 + 31]);
    assert_eq!(
        script.commands,
        vec![Commands::Add(
            DataSource::Params(DataValue::Number(3)),
            DataSource::StepPitch(DataValue::Buffer(31)),
        )]
    );
    let back = NSLScript::from_u8_vec(bytes).unwrap();
    assert_eq!(back.commands, script.commands);
}

#[test]
fn header_rejection() {
    assert!(NSLScript::from_u8_vec(vec![]).is_none());
    assert!(NSLScript::from_u8_vec(vec![0x4E]).is_none());
    assert!(NSLScript::from_u8_vec(vec![0x4E, 0x53]).is_none());
    assert!(NSLScript::from_u8_vec(vec![0x4E, 0x53, 0x4D, 0x01, 0xFF]).is_none());
    assert!(NSLScript::from_u8_vec(vec![0x00, 0x53, 0x4C, 0x01]).is_none());
}

#[test]
fn header_only_streams() {
    assert_eq!(NSLScript::from_u8_vec(vec![0x4E, 0x53, 0x4C]).unwrap().commands, vec![]);
    assert_eq!(NSLScript::from_u8_vec(vec![0x4E, 0x53, 0x4C, 0x01]).unwrap().commands, vec![]);
    // The version byte is not read.
    assert_eq!(
        NSLScript::from_u8_vec(vec![0x4E, 0x53, 0x4C, 0x07, 0xFF]).unwrap().commands,
        vec![Commands::End]
    );
}

#[test]
fn truncated_stream_is_rejected() {
    assert!(NSLScript::from_u8_vec(vec![0x4E, 0x53, 0x4C, 0x01, 0xA1, 0x02, 0x00]).is_none());
    assert!(NSLScript::from_u8_vec(vec![0x4E, 0x53, 0x4C, 0x01, 0xFF, 0xC0, 0x00]).is_none());
}

#[test]
fn empty_script_encodes_to_header() {
    assert_eq!(NSLScript::new().code(), vec![0x4E, 0x53, 0x4C, 0x01]);
}
