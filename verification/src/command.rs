use vstd::pervasive::unreached;
use vstd::prelude::*;

use crate::profile::ProtocolProfile;

verus! {

/// A logical device command, before byte encoding.
///
/// Brightness and effect-speed percentages are clamped to 100 where the
/// firmware family documents a clamp; the encoder performs the clamp, so
/// callers never see an out-of-range value rejected.
#[derive(Clone, Copy, Debug, PartialEq, Eq, Structural)]
pub enum Command {
    SetPower(bool),
    SetColor(u8, u8, u8),
    SetBrightness(u8),
    SetWarmWhite(u8),
    /// Animation effect code plus speed percentage; ProtocolA only.
    SetEffect(u8, u8),
    /// Single mode byte; ProtocolB only.
    SetMode(u8),
}

/// Which commands exist for which firmware family: effects belong to
/// ProtocolA alone and modes to ProtocolB alone; the rest are shared.
pub open spec fn command_fits(p: ProtocolProfile, c: Command) -> bool {
    match c {
        Command::SetEffect(_, _) => p is ProtocolA,
        Command::SetMode(_) => p is ProtocolB,
        _ => true,
    }
}

/// Percentage clamp applied by ProtocolA before encoding.
pub open spec fn clamp_100(v: u8) -> u8 {
    if v > 100 { 100u8 } else { v }
}

/// ProtocolA frames: 9 bytes shaped `7e 00 TAG PAYLOAD.. 00/ff 00 ef`.
/// SetEffect takes two frames, written in order: effect selection, then speed.
pub open spec fn spec_frames_a(c: Command) -> Seq<Seq<u8>> {
    match c {
        Command::SetPower(on) => if on {
            seq![seq![0x7eu8, 0x00, 0x04, 0xf0, 0x00, 0x01, 0xff, 0x00, 0xef]]
        } else {
            seq![seq![0x7eu8, 0x00, 0x04, 0x00, 0x00, 0x00, 0xff, 0x00, 0xef]]
        },
        Command::SetColor(r, g, b) => seq![seq![0x7eu8, 0x00, 0x05, 0x03, r, g, b, 0x00, 0xef]],
        Command::SetBrightness(v) => seq![
            seq![0x7eu8, 0x00, 0x01, clamp_100(v), 0x00, 0x00, 0x00, 0x00, 0xef],
        ],
        Command::SetWarmWhite(v) => seq![seq![0x7eu8, 0x00, 0x05, 0x02, v, v, v, 0x00, 0xef]],
        Command::SetEffect(code, speed) => seq![
            seq![0x7eu8, 0x00, 0x03, code, 0x03, 0x00, 0x00, 0x00, 0xef],
            seq![0x7eu8, 0x00, 0x02, clamp_100(speed), 0x00, 0x00, 0x00, 0x00, 0xef],
        ],
        Command::SetMode(_) => seq![],
    }
}

/// ProtocolB frames: variable length, no fixed delimiters, and no clamp on
/// brightness or warm-white levels (the firmware tolerates the full range).
pub open spec fn spec_frames_b(c: Command) -> Seq<Seq<u8>> {
    match c {
        Command::SetPower(on) => if on {
            seq![seq![0xccu8, 0x23, 0x33]]
        } else {
            seq![seq![0xccu8, 0x24, 0x33]]
        },
        Command::SetColor(r, g, b) => seq![seq![0x56u8, r, g, b, 0x00, 0xf0, 0xaa]],
        Command::SetBrightness(v) => seq![seq![0x56u8, v, v, v, 0x00, 0xf0, 0xaa]],
        Command::SetWarmWhite(v) => seq![seq![0x56u8, v, v, 0x00, 0x0f, 0xaa]],
        Command::SetMode(code) => seq![seq![0xbbu8, code, 0x44]],
        Command::SetEffect(_, _) => seq![],
    }
}

/// The exact frame sequence a command encodes to under a profile.
/// These byte layouts are the device's physical command set and are
/// reproduced bit for bit. A command foreign to the profile has no frames;
/// `command_fits` rules such pairings out for the encoder.
pub open spec fn spec_frames(p: ProtocolProfile, c: Command) -> Seq<Seq<u8>> {
    match p {
        ProtocolProfile::ProtocolA => spec_frames_a(c),
        ProtocolProfile::ProtocolB => spec_frames_b(c),
    }
}

fn clamp_pct(v: u8) -> (r: u8)
    ensures
        r == clamp_100(v),
{
    if v > 100 { 100 } else { v }
}

/// Encode a command as the frames to write, in order. Deterministic and
/// pure: the bytes depend only on the profile and the command.
pub fn encode(p: ProtocolProfile, c: Command) -> (frames: Vec<Vec<u8>>)
    requires
        command_fits(p, c),
    ensures
        frames.deep_view() == spec_frames(p, c),
{
    let frames: Vec<Vec<u8>> = match p {
        ProtocolProfile::ProtocolA => match c {
            Command::SetPower(on) => if on {
                vec![vec![0x7e, 0x00, 0x04, 0xf0, 0x00, 0x01, 0xff, 0x00, 0xef]]
            } else {
                vec![vec![0x7e, 0x00, 0x04, 0x00, 0x00, 0x00, 0xff, 0x00, 0xef]]
            },
            Command::SetColor(r, g, b) => vec![vec![0x7e, 0x00, 0x05, 0x03, r, g, b, 0x00, 0xef]],
            Command::SetBrightness(v) => {
                let v = clamp_pct(v);
                vec![vec![0x7e, 0x00, 0x01, v, 0x00, 0x00, 0x00, 0x00, 0xef]]
            },
            Command::SetWarmWhite(v) => vec![vec![0x7e, 0x00, 0x05, 0x02, v, v, v, 0x00, 0xef]],
            Command::SetEffect(code, speed) => {
                let speed = clamp_pct(speed);
                vec![
                    vec![0x7e, 0x00, 0x03, code, 0x03, 0x00, 0x00, 0x00, 0xef],
                    vec![0x7e, 0x00, 0x02, speed, 0x00, 0x00, 0x00, 0x00, 0xef],
                ]
            },
            Command::SetMode(_) => unreached(),
        },
        ProtocolProfile::ProtocolB => match c {
            Command::SetPower(on) => if on {
                vec![vec![0xcc, 0x23, 0x33]]
            } else {
                vec![vec![0xcc, 0x24, 0x33]]
            },
            Command::SetColor(r, g, b) => vec![vec![0x56, r, g, b, 0x00, 0xf0, 0xaa]],
            Command::SetBrightness(v) => vec![vec![0x56, v, v, v, 0x00, 0xf0, 0xaa]],
            Command::SetWarmWhite(v) => vec![vec![0x56, v, v, 0x00, 0x0f, 0xaa]],
            Command::SetMode(code) => vec![vec![0xbb, code, 0x44]],
            Command::SetEffect(_, _) => unreached(),
        },
    };
    proof {
        assert(frames.deep_view() =~~= spec_frames(p, c));
    }
    frames
}

/// The power commands encode to fixed literals per profile: no caller-supplied
/// byte reaches the frame, so the output is constant in everything but the
/// profile and the on/off flag.
pub proof fn lemma_power_frames_fixed(p: ProtocolProfile, on: bool)
    ensures
        p is ProtocolA && on ==> spec_frames(p, Command::SetPower(on))
            =~~= seq![seq![0x7eu8, 0x00, 0x04, 0xf0, 0x00, 0x01, 0xff, 0x00, 0xef]],
        p is ProtocolA && !on ==> spec_frames(p, Command::SetPower(on))
            =~~= seq![seq![0x7eu8, 0x00, 0x04, 0x00, 0x00, 0x00, 0xff, 0x00, 0xef]],
        p is ProtocolB && on ==> spec_frames(p, Command::SetPower(on))
            =~~= seq![seq![0xccu8, 0x23, 0x33]],
        p is ProtocolB && !on ==> spec_frames(p, Command::SetPower(on))
            =~~= seq![seq![0xccu8, 0x24, 0x33]],
{
}

/// Brightness encoding, for every input value: ProtocolA clamps the
/// percentage at 100; ProtocolB replicates the raw value across the three
/// channels without a clamp.
pub proof fn lemma_brightness_frames(v: u8)
    ensures
        spec_frames(ProtocolProfile::ProtocolA, Command::SetBrightness(v))
            =~~= seq![seq![0x7eu8, 0x00, 0x01, clamp_100(v), 0x00, 0x00, 0x00, 0x00, 0xef]],
        spec_frames(ProtocolProfile::ProtocolB, Command::SetBrightness(v))
            =~~= seq![seq![0x56u8, v, v, v, 0x00, 0xf0, 0xaa]],
        v <= 100 ==> clamp_100(v) == v,
        v > 100 ==> clamp_100(v) == 100,
{
}

} // verus!
