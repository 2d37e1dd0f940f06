//! The codec of a whole script: the header, then the frames back to back.
use vstd::prelude::*;

use crate::command::{decoded_form, lemma_frame_round_trip, Commands};

verus! {

/// The four bytes every encoded script starts with: "NSL" and version 1.
pub open spec fn header() -> Seq<u8> {
    seq![0x4E, 0x53, 0x4C, 0x01]
}

/// The frames of `cs`, back to back.
pub open spec fn commands_bytes(cs: Seq<Commands>) -> Seq<u8>
    decreases cs.len(),
{
    if cs.len() == 0 {
        seq![]
    } else {
        cs[0].bytes() + commands_bytes(cs.drop_first())
    }
}

/// The bytes a script of the instructions `cs` encodes to.
pub open spec fn script_bytes(cs: Seq<Commands>) -> Seq<u8> {
    header() + commands_bytes(cs)
}

/// Each instruction of `cs` with its operands clamped.
pub open spec fn all_validated(cs: Seq<Commands>) -> Seq<Commands> {
    cs.map_values(|c: Commands| c.validated())
}

/// Whether the stream starts with the tag "NSL" (the version is not read).
pub open spec fn has_tag(data: Seq<u8>) -> bool {
    data.len() >= 3 && data[0] == 0x4E && data[1] == 0x53 && data[2] == 0x4C
}

/// The instructions of a stream of frames, read from the front: the first
/// byte's opcode decides the first frame's length. `None` where a frame
/// runs past the end of the stream.
pub open spec fn decode_body(b: Seq<u8>) -> Option<Seq<Commands>>
    decreases b.len(),
{
    if b.len() == 0 {
        Some(seq![])
    } else {
        let n = Commands::skeleton(b[0]).frame_len();
        if n > b.len() || n == 0 {
            None
        } else {
            match decode_body(b.subrange(n as int, b.len() as int)) {
                Some(rest) => Some(seq![Commands::decode_frame(b.subrange(0, n as int))] + rest),
                None => None,
            }
        }
    }
}

/// The instructions of an encoded script, or `None` where the stream lacks
/// the tag or a frame is cut short.
pub open spec fn decode_script(data: Seq<u8>) -> Option<Seq<Commands>> {
    if !has_tag(data) {
        None
    } else if data.len() <= 4 {
        Some(seq![])
    } else {
        decode_body(data.subrange(4, data.len() as int))
    }
}

/// A script under construction or decoded from a stream: its instructions in order.
#[derive(Clone, Debug)]
pub struct NSLScript {
    pub commands: Vec<Commands>,
}

/// The bytes `data[start..end]`, copied.
fn frame_at(data: &Vec<u8>, start: usize, end: usize) -> (r: Vec<u8>)
    requires
        start <= end <= data@.len(),
    ensures
        r@ == data@.subrange(start as int, end as int),
{
    let mut r: Vec<u8> = Vec::new();
    let mut k: usize = start;
    while k < end
        invariant
            start <= k <= end,
            end <= data@.len(),
            r@ == data@.subrange(start as int, k as int),
        decreases end - k,
    {
        r.push(data[k]);
        k = k + 1;
    }
    r
}

impl NSLScript {
    /// An empty script.
    pub fn new() -> (r: NSLScript)
        ensures
            r.commands@ == Seq::<Commands>::empty(),
    {
        NSLScript { commands: Vec::new() }
    }

    /// Appends one instruction; nothing is validated here.
    pub fn add_command(&mut self, command: Commands)
        ensures
            final(self).commands@ == old(self).commands@.push(command),
    {
        self.commands.push(command);
    }

    /// Appends the instructions in order; nothing is validated here.
    pub fn add_commands(&mut self, commands: Vec<Commands>)
        ensures
            final(self).commands@ == old(self).commands@ + commands@,
    {
        let ghost start = self.commands@;
        let mut i: usize = 0;
        while i < commands.len()
            invariant
                i <= commands@.len(),
                self.commands@ == start + commands@.take(i as int),
            decreases commands@.len() - i,
        {
            assert(commands@.take(i + 1) =~= commands@.take(i as int).push(commands@[i as int]));
            self.commands.push(commands[i]);
            i = i + 1;
        }
        assert(commands@.take(i as int) =~= commands@);
    }

    /// Validates every instruction in place, then encodes the script: the
    /// header, then each instruction's frame in order.
    pub fn code(&mut self) -> (r: Vec<u8>)
        ensures
            final(self).commands@ == all_validated(old(self).commands@),
            r@ == script_bytes(old(self).commands@),
    {
        let ghost start = self.commands@;
        let mut code: Vec<u8> = vec![0x4E, 0x53, 0x4C, 0x01];
        let n = self.commands.len();
        let mut i: usize = 0;
        while i < n
            invariant
                n == start.len(),
                i <= n,
                self.commands@.len() == n,
                forall|j: int| 0 <= j < i ==> self.commands@[j] == start[j].validated(),
                forall|j: int| i <= j < n ==> self.commands@[j] == start[j],
                code@ == header() + commands_bytes(start.take(i as int)),
            decreases n - i,
        {
            proof {
                lemma_commands_bytes_take(start, i as int);
            }
            let mut frame = self.commands[i].code();
            code.append(&mut frame);
            i = i + 1;
        }
        assert(start.take(n as int) =~= start);
        assert(self.commands@ =~= all_validated(start));
        code
    }

    /// Decodes a stream: `None` where it does not start with the tag "NSL"
    /// or where a frame runs past its end; otherwise the instructions of
    /// the frames that follow the four byte header.
    pub fn from_u8_vec(data: Vec<u8>) -> (r: Option<NSLScript>)
        ensures
            !has_tag(data@) ==> r is None,
            match r {
                Some(s) => decode_script(data@) == Some(s.commands@),
                None => decode_script(data@) is None,
            },
    {
        if data.len() < 3 || data[0] != 0x4E || data[1] != 0x53 || data[2] != 0x4C {
            return None;
        }
        let mut cmds: Vec<Commands> = Vec::new();
        if data.len() <= 4 {
            return Some(NSLScript { commands: cmds });
        }
        let ghost body = data@.subrange(4, data@.len() as int);
        let mut i: usize = 4;
        assert(data@.subrange(4, data@.len() as int) =~= body);
        assert(cmds@ + Seq::<Commands>::empty() =~= Seq::<Commands>::empty());
        while i < data.len()
            invariant
                4 <= i <= data@.len(),
                body == data@.subrange(4, data@.len() as int),
                decode_body(body) == prepend(cmds@, decode_body(data@.subrange(i as int, data@.len() as int))),
            decreases data@.len() - i,
        {
            let ghost rest = data@.subrange(i as int, data@.len() as int);
            let n = Commands::from_u8(data[i]).len();
            assert(rest[0] == data@[i as int]);
            if n > data.len() - i {
                return None;
            }
            let frame = frame_at(&data, i, i + n);
            let cmd = Commands::from_u8_vec(frame);
            proof {
                assert(rest.subrange(0, n as int) =~= frame@);
                assert(rest.subrange(n as int, rest.len() as int) =~= data@.subrange(
                    (i + n) as int,
                    data@.len() as int,
                ));
                match decode_body(data@.subrange((i + n) as int, data@.len() as int)) {
                    Some(t) => {
                        assert(cmds@.push(cmd) + t =~= cmds@ + (seq![cmd] + t));
                    },
                    None => {},
                }
            }
            cmds.push(cmd);
            i = i + n;
        }
        assert(data@.subrange(i as int, data@.len() as int) =~= Seq::<u8>::empty());
        assert(cmds@ + Seq::<Commands>::empty() =~= cmds@);
        Some(NSLScript { commands: cmds })
    }
}

spec fn prepend(p: Seq<Commands>, o: Option<Seq<Commands>>) -> Option<Seq<Commands>> {
    match o {
        Some(r) => Some(p + r),
        None => None,
    }
}

/// The bytes of two runs of instructions are the bytes of each, in order.
pub proof fn lemma_commands_bytes_concat(a: Seq<Commands>, b: Seq<Commands>)
    ensures
        commands_bytes(a + b) == commands_bytes(a) + commands_bytes(b),
    decreases a.len(),
{
    if a.len() == 0 {
        assert(a + b =~= b);
        assert(commands_bytes(a) + commands_bytes(b) =~= commands_bytes(b));
    } else {
        assert((a + b).drop_first() =~= a.drop_first() + b);
        lemma_commands_bytes_concat(a.drop_first(), b);
        assert(commands_bytes(a + b) =~= commands_bytes(a) + commands_bytes(b));
    }
}

/// The bytes of the first `i + 1` instructions extend those of the first `i`
/// by one frame.
proof fn lemma_commands_bytes_take(cs: Seq<Commands>, i: int)
    requires
        0 <= i < cs.len(),
    ensures
        commands_bytes(cs.take(i + 1)) == commands_bytes(cs.take(i)) + cs[i].bytes(),
{
    assert(cs.take(i + 1) =~= cs.take(i) + seq![cs[i]]);
    lemma_commands_bytes_concat(cs.take(i), seq![cs[i]]);
    let one = seq![cs[i]];
    assert(one.drop_first() =~= Seq::<Commands>::empty());
    assert(commands_bytes(one.drop_first()) =~= Seq::<u8>::empty());
    assert(commands_bytes(one) =~= cs[i].bytes());
}

/// The frames of any instructions decode, one by one, to their decoded forms.
pub proof fn lemma_decode_body_of_bytes(cs: Seq<Commands>)
    ensures
        decode_body(commands_bytes(cs)) == Some(cs.map_values(|c: Commands| decoded_form(c))),
    decreases cs.len(),
{
    let f = |c: Commands| decoded_form(c);
    if cs.len() == 0 {
        assert(cs.map_values(f) =~= Seq::<Commands>::empty());
    } else {
        let c = cs[0];
        let b = commands_bytes(cs);
        let rest = commands_bytes(cs.drop_first());
        lemma_frame_round_trip(c);
        lemma_decode_body_of_bytes(cs.drop_first());
        let n = c.bytes().len();
        assert(b[0] == c.bytes()[0]);
        assert(b.subrange(0, n as int) =~= c.bytes());
        assert(b.subrange(n as int, b.len() as int) =~= rest);
        assert(cs.map_values(f) =~= seq![decoded_form(c)] + cs.drop_first().map_values(f));
    }
}

/// Every stream the encoder produces decodes, and the decoded script
/// encodes back to exactly that stream.
pub proof fn lemma_round_trip(cs: Seq<Commands>)
    ensures
        decode_script(script_bytes(cs)) is Some,
        script_bytes(decode_script(script_bytes(cs))->Some_0) == script_bytes(cs),
{
    lemma_decode_of_encode(cs);
    lemma_bytes_of_decoded_forms(cs);
}

/// Decoding an encoded script gives back each instruction validated, but
/// `SelectTrack`, which comes back as `NoOp` (see `decoded_form`).
pub proof fn lemma_decode_of_encode(cs: Seq<Commands>)
    ensures
        decode_script(script_bytes(cs)) == Some(cs.map_values(|c: Commands| decoded_form(c))),
{
    let s = script_bytes(cs);
    lemma_decode_body_of_bytes(cs);
    assert(s.subrange(4, s.len() as int) =~= commands_bytes(cs));
    if s.len() <= 4 {
        assert(commands_bytes(cs).len() == 0);
        if cs.len() > 0 {
            lemma_frame_round_trip(cs[0]);
        }
        assert(cs.map_values(|c: Commands| decoded_form(c)) =~= Seq::<Commands>::empty());
    }
}

/// Replacing each instruction by its decoded form leaves the bytes unchanged.
pub proof fn lemma_bytes_of_decoded_forms(cs: Seq<Commands>)
    ensures
        commands_bytes(cs.map_values(|c: Commands| decoded_form(c))) == commands_bytes(cs),
    decreases cs.len(),
{
    let f = |c: Commands| decoded_form(c);
    if cs.len() > 0 {
        lemma_frame_round_trip(cs[0]);
        lemma_bytes_of_decoded_forms(cs.drop_first());
        assert(cs.map_values(f).drop_first() =~= cs.drop_first().map_values(f));
    }
}

/// Validating a script's instructions does not change its bytes, and
/// validating them again changes nothing.
pub proof fn lemma_validated_same_bytes(cs: Seq<Commands>)
    ensures
        script_bytes(all_validated(cs)) == script_bytes(cs),
        all_validated(all_validated(cs)) == all_validated(cs),
{
    lemma_validated_commands_bytes(cs);
    assert(all_validated(all_validated(cs)) =~= all_validated(cs)) by {
        assert forall|j: int| 0 <= j < cs.len() implies all_validated(all_validated(cs))[j]
            == all_validated(cs)[j] by {
            lemma_frame_round_trip(cs[j]);
        }
    }
}

proof fn lemma_validated_commands_bytes(cs: Seq<Commands>)
    ensures
        commands_bytes(all_validated(cs)) == commands_bytes(cs),
    decreases cs.len(),
{
    if cs.len() > 0 {
        lemma_frame_round_trip(cs[0]);
        lemma_validated_commands_bytes(cs.drop_first());
        assert(all_validated(cs).drop_first() =~= all_validated(cs.drop_first()));
    }
}

} // verus!
