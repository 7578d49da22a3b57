use vstd::prelude::*;

use crate::height::{loop_count, pulse_count};

verus! {

/// A saved desk position, selected by a fixed code.
#[derive(Debug, Clone, Copy, PartialEq, Eq, Structural)]
pub enum Preset {
    /// The saved standing height.
    Standing,
    /// The saved sitting height.
    Sitting,
    /// First saved position.
    Preset1,
    /// Second saved position.
    Preset2,
    /// Third saved position; the desk treats it as the standing height.
    Preset3,
    /// Fourth saved position; the desk treats it as the sitting height.
    Preset4,
}

/// What the desk is asked to do. Heights and distances are in tenths of a
/// centimetre.
#[derive(Debug, Clone, Copy, PartialEq, Eq, Structural)]
pub enum Command {
    /// Move up, by `diff` when given, else by a single nudge.
    Up { diff: Option<i32> },
    /// Move down, by `diff` (its magnitude) when given, else by a single nudge.
    Down { diff: Option<i32> },
    /// Go to a saved position.
    Go { preset: Preset },
    /// Go to an absolute height, by way of a query and a relative move.
    SetHeight { height: i32 },
    /// Wake the controller.
    WakeUp,
    /// Press the memory button; the desk answers with its height.
    Memory,
    /// Read the current height.
    Query,
}

/// One outbound frame: marker, length, type, two payload bytes, two check
/// bytes, end byte.
pub type CommandSequence = [u8; 8];

/// The frame of a saved position. Standing and the third position share one
/// frame, sitting and the fourth another.
pub open spec fn preset_frame(p: Preset) -> Seq<u8> {
    match p {
        Preset::Standing => seq![0x9bu8, 0x06u8, 0x02u8, 0x10u8, 0x00u8, 0xacu8, 0xacu8, 0x9du8],
        Preset::Preset3 => seq![0x9bu8, 0x06u8, 0x02u8, 0x10u8, 0x00u8, 0xacu8, 0xacu8, 0x9du8],
        Preset::Sitting => seq![0x9bu8, 0x06u8, 0x02u8, 0x00u8, 0x01u8, 0xacu8, 0x60u8, 0x9du8],
        Preset::Preset4 => seq![0x9bu8, 0x06u8, 0x02u8, 0x00u8, 0x01u8, 0xacu8, 0x60u8, 0x9du8],
        Preset::Preset1 => seq![0x9bu8, 0x06u8, 0x02u8, 0x04u8, 0x00u8, 0xacu8, 0xa3u8, 0x9du8],
        Preset::Preset2 => seq![0x9bu8, 0x06u8, 0x02u8, 0x08u8, 0x00u8, 0xacu8, 0xa6u8, 0x9du8],
    }
}

/// The frame that moves the desk up by one pulse.
pub open spec fn up_frame() -> Seq<u8> {
    seq![0x9bu8, 0x06u8, 0x02u8, 0x01u8, 0x00u8, 0xfcu8, 0xa0u8, 0x9du8]
}

/// The frame that moves the desk down by one pulse.
pub open spec fn down_frame() -> Seq<u8> {
    seq![0x9bu8, 0x06u8, 0x02u8, 0x02u8, 0x00u8, 0x0cu8, 0xa0u8, 0x9du8]
}

/// The frame of the memory button, which also makes the desk report its height.
pub open spec fn memory_frame() -> Seq<u8> {
    seq![0x9bu8, 0x06u8, 0x02u8, 0x20u8, 0x00u8, 0xacu8, 0xb8u8, 0x9du8]
}

/// The frame that wakes the controller.
pub open spec fn wake_up_frame() -> Seq<u8> {
    seq![0x9bu8, 0x06u8, 0x02u8, 0x00u8, 0x00u8, 0x6cu8, 0xa1u8, 0x9du8]
}

/// The frame a command is sent as, with how many times it is sent; `None`
/// for `SetHeight` and `Query`, which are carried out by a query first.
pub open spec fn command_frames(c: Command) -> Option<(Seq<u8>, int)> {
    match c {
        Command::Up { diff } => Some((up_frame(), pulse_count(opt_int(diff)))),
        Command::Down { diff } => Some((down_frame(), pulse_count(opt_int(diff)))),
        Command::Go { preset } => Some((preset_frame(preset), 1)),
        Command::WakeUp => Some((wake_up_frame(), 1)),
        Command::Memory => Some((memory_frame(), 1)),
        Command::SetHeight { .. } => None,
        Command::Query => None,
    }
}

/// An optional machine integer as an optional mathematical one.
pub open spec fn opt_int(v: Option<i32>) -> Option<int> {
    match v {
        Some(d) => Some(d as int),
        None => None,
    }
}

/// The preset that a lower-case name (as UTF-8 bytes) selects: a name that
/// starts with "st" is standing, one with "si" sitting, one that starts with
/// 'p' and ends with a digit from 1 to 4 that position; anything else is
/// standing.
pub open spec fn preset_of_name(name: Seq<u8>) -> Preset {
    let n = name.len();
    if n >= 2 && name[0] == 0x73 && name[1] == 0x74 {
        Preset::Standing
    } else if n >= 2 && name[0] == 0x73 && name[1] == 0x69 {
        Preset::Sitting
    } else if n >= 1 && name[0] == 0x70 && name[n - 1] == 0x31 {
        Preset::Preset1
    } else if n >= 1 && name[0] == 0x70 && name[n - 1] == 0x32 {
        Preset::Preset2
    } else if n >= 1 && name[0] == 0x70 && name[n - 1] == 0x33 {
        Preset::Preset3
    } else if n >= 1 && name[0] == 0x70 && name[n - 1] == 0x34 {
        Preset::Preset4
    } else {
        Preset::Standing
    }
}

/// The frame of a saved position.
pub fn preset_sequence(preset: Preset) -> (r: CommandSequence)
    ensures
        r@ == preset_frame(preset),
{
    let r: CommandSequence = match preset {
        Preset::Standing | Preset::Preset3 => [0x9b, 0x06, 0x02, 0x10, 0x00, 0xac, 0xac, 0x9d],
        Preset::Sitting | Preset::Preset4 => [0x9b, 0x06, 0x02, 0x00, 0x01, 0xac, 0x60, 0x9d],
        Preset::Preset1 => [0x9b, 0x06, 0x02, 0x04, 0x00, 0xac, 0xa3, 0x9d],
        Preset::Preset2 => [0x9b, 0x06, 0x02, 0x08, 0x00, 0xac, 0xa6, 0x9d],
    };
    assert(r@ =~= preset_frame(preset));
    r
}

/// The frame a command is sent as and how many times it is sent, or `None`
/// for `SetHeight` and `Query`.
pub fn encode(command: &Command) -> (r: Option<(CommandSequence, u64)>)
    ensures
        match command_frames(*command) {
            None => r is None,
            Some(f) => r is Some && r.unwrap().0@ == f.0 && r.unwrap().1 == f.1,
        },
{
    match *command {
        Command::Up { diff } => {
            let f: CommandSequence = [0x9b, 0x06, 0x02, 0x01, 0x00, 0xfc, 0xa0, 0x9d];
            assert(f@ =~= up_frame());
            Some((f, loop_count(diff)))
        },
        Command::Down { diff } => {
            let f: CommandSequence = [0x9b, 0x06, 0x02, 0x02, 0x00, 0x0c, 0xa0, 0x9d];
            assert(f@ =~= down_frame());
            Some((f, loop_count(diff)))
        },
        Command::Go { preset } => Some((preset_sequence(preset), 1)),
        Command::WakeUp => {
            let f: CommandSequence = [0x9b, 0x06, 0x02, 0x00, 0x00, 0x6c, 0xa1, 0x9d];
            assert(f@ =~= wake_up_frame());
            Some((f, 1))
        },
        Command::Memory => Some((memory_sequence(), 1)),
        Command::SetHeight { .. } => None,
        Command::Query => None,
    }
}

/// The frame of the memory button.
pub fn memory_sequence() -> (r: CommandSequence)
    ensures
        r@ == memory_frame(),
{
    let f: CommandSequence = [0x9b, 0x06, 0x02, 0x20, 0x00, 0xac, 0xb8, 0x9d];
    assert(f@ =~= memory_frame());
    f
}

/// Standing and the third position go out as one frame, sitting and the
/// fourth as another; the other presets each have a frame of their own.
pub proof fn lemma_preset_aliases()
    ensures
        command_frames(Command::Go { preset: Preset::Standing })
            == command_frames(Command::Go { preset: Preset::Preset3 }),
        command_frames(Command::Go { preset: Preset::Sitting })
            == command_frames(Command::Go { preset: Preset::Preset4 }),
        forall|p: Preset, q: Preset|
            preset_frame(p) == preset_frame(q) <==> (p == q || (p == Preset::Standing
                && q == Preset::Preset3) || (p == Preset::Preset3 && q == Preset::Standing) || (p
                == Preset::Sitting && q == Preset::Preset4) || (p == Preset::Preset4 && q
                == Preset::Sitting)),
{
    assert forall|p: Preset, q: Preset|
        preset_frame(p) == preset_frame(q) implies (p == q || (p == Preset::Standing && q
            == Preset::Preset3) || (p == Preset::Preset3 && q == Preset::Standing) || (p
            == Preset::Sitting && q == Preset::Preset4) || (p == Preset::Preset4 && q
            == Preset::Sitting)) by {
        if preset_frame(p) == preset_frame(q) {
            assert(preset_frame(p)[3] == preset_frame(q)[3]);
            assert(preset_frame(p)[4] == preset_frame(q)[4]);
        }
    }
}

/// Names the lower-case form of a string, as UTF-8 bytes.
pub uninterp spec fn lowercase_utf8(s: Seq<char>) -> Seq<u8>;

/// Relies on `str::to_lowercase` and `String::into_bytes`: the lower-case
/// form depends on the characters of `s` alone.
#[verifier::external_body]
fn lowercase_bytes(s: &str) -> (r: Vec<u8>)
    ensures
        r@ == lowercase_utf8(s@),
{
    s.to_lowercase().into_bytes()
}

impl Preset {
    /// The preset that a lower-case name, given as UTF-8 bytes, selects.
    pub fn from_lowercase(name: &[u8]) -> (r: Preset)
        ensures
            r == preset_of_name(name@),
    {
        let n = name.len();
        if n >= 2 && name[0] == 0x73 && name[1] == 0x74 {
            Preset::Standing
        } else if n >= 2 && name[0] == 0x73 && name[1] == 0x69 {
            Preset::Sitting
        } else if n >= 1 && name[0] == 0x70 {
            let last = name[n - 1];
            if last == 0x31 {
                Preset::Preset1
            } else if last == 0x32 {
                Preset::Preset2
            } else if last == 0x33 {
                Preset::Preset3
            } else if last == 0x34 {
                Preset::Preset4
            } else {
                Preset::Standing
            }
        } else {
            Preset::Standing
        }
    }
}

impl From<String> for Preset {
    /// The preset that a name selects, whatever its case.
    fn from(s: String) -> (r: Preset) {
        let lower = lowercase_bytes(s.as_str());
        Preset::from_lowercase(lower.as_slice())
    }
}

impl vstd::std_specs::convert::FromSpecImpl<String> for Preset {
    open spec fn obeys_from_spec() -> bool {
        true
    }

    open spec fn from_spec(s: String) -> Preset {
        preset_of_name(lowercase_utf8(s@))
    }
}

} // verus!
