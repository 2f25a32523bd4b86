//! Audio bus ordinals carried by audio commands.
use crate::error::ProtocolError;
use vstd::prelude::*;

verus! {

/// The wire `AudioBus` enum.
#[derive(Clone, Copy, Debug, PartialEq, Eq, Structural)]
pub enum AudioBusCode {
    /// The music bus.
    Music,
    /// The effects bus.
    Effects,
    /// An ordinal the schema does not name.
    Unknown,
}

/// Mixer gains as binary32 bit patterns, and the mute switch.
#[derive(Clone, Copy, Debug, PartialEq, Eq, Structural)]
pub struct AudioMix {
    /// Master gain.
    pub master: u32,
    /// Music bus gain.
    pub music: u32,
    /// Effects bus gain.
    pub effects: u32,
    /// Whether all audio is muted.
    pub muted: bool,
}

/// A binary32 gain `g` satisfies `0.0 <= g <= 1.0`: it is `-0.0`, or a
/// nonnegative pattern up to that of `1.0` (`0x3f80_0000`); nonnegative
/// patterns order as their values do, and NaNs and infinity lie above `1.0`.
pub open spec fn unit_gain(bits: u32) -> bool {
    bits == 0x8000_0000u32 || bits <= 0x3f80_0000u32
}

/// Refuses a mix unless every gain lies between zero and one.
pub fn validate_mix(value: AudioMix) -> (r: Result<(), ProtocolError>)
    ensures
        match r {
            Ok(()) => unit_gain(value.master) && unit_gain(value.music) && unit_gain(value.effects),
            Err(e) => !(unit_gain(value.master) && unit_gain(value.music) && unit_gain(
                value.effects,
            )) && e@ == "audio mixer gains must be between zero and one"@,
        },
{
    let gains = [value.master, value.music, value.effects];
    let mut i: usize = 0;
    while i < 3
        invariant
            i <= 3,
            gains@ == seq![value.master, value.music, value.effects],
            forall|k: int| 0 <= k < i ==> unit_gain(#[trigger] gains@[k]),
        decreases 3 - i,
    {
        let g = gains[i];
        if !(g == 0x8000_0000u32 || g <= 0x3f80_0000u32) {
            return Err(ProtocolError::new("audio mixer gains must be between zero and one"));
        }
        i += 1;
    }
    assert(unit_gain(gains@[0]) && unit_gain(gains@[1]) && unit_gain(gains@[2]));
    Ok(())
}

/// Refuses an audio bus the schema does not name.
pub fn validate_bus(value: AudioBusCode) -> (r: Result<(), ProtocolError>)
    ensures
        match r {
            Ok(()) => value != AudioBusCode::Unknown,
            Err(e) => value == AudioBusCode::Unknown && e@ == "audio bus is unknown"@,
        },
{
    match value {
        AudioBusCode::Unknown => Err(ProtocolError::new("audio bus is unknown")),
        _ => Ok(()),
    }
}

} // verus!
