use vstd::prelude::*;

use crate::devices::soundcore::a3953::state::A3953State;
use crate::devices::soundcore::common::packet::{Command, Outbound};

verus! {

/// Brings the device's spatial audio to the wanted value with command `[0x10, 0x81]`.
#[derive(Debug, Default, Clone, Copy)]
pub struct SpatialAudioStateModifier;

/// Whether the device must be told: the wanted spatial audio differs from the current one.
pub open spec fn spec_spatial_audio_differs(current: A3953State, target: A3953State) -> bool {
    current.spatial_audio != target.spatial_audio
}

/// The state once the device has acknowledged the write.
pub open spec fn spec_spatial_audio_written(current: A3953State, target: A3953State) -> A3953State {
    A3953State { spatial_audio: target.spatial_audio, ..current }
}

impl SpatialAudioStateModifier {
    pub fn new() -> (r: Self) {
        SpatialAudioStateModifier
    }

    /// The packet to send to move from `current` to `target`, or `None` when spatial audio
    /// already matches.
    pub fn move_to_state(&self, current: &A3953State, target: &A3953State) -> (r: Option<Outbound>)
        ensures
            r is None <==> !spec_spatial_audio_differs(*current, *target),
            r is None <==> current.spatial_audio == target.spatial_audio,
            r matches Some(p) ==> p.command == (Command { first: 16, second: 129 })
                && p.body@ == target.spatial_audio.spec_bytes(),
    {
        if current.spatial_audio == target.spatial_audio {
            return None;
        }
        let bytes = target.spatial_audio.bytes();
        let mut body = Vec::new();
        body.push(bytes[0]);
        body.push(bytes[1]);
        body.push(bytes[2]);
        assert(body@ =~= target.spatial_audio.spec_bytes());
        Some(Outbound::new(Command::new(0x10, 0x81), body))
    }

    /// Records that the device acknowledged the write.
    pub fn on_sent(&self, state: &mut A3953State, target: &A3953State)
        ensures
            *final(state) == spec_spatial_audio_written(*old(state), *target),
            *final(state) == (A3953State { spatial_audio: target.spatial_audio, ..*old(state) }),
    {
        state.spatial_audio = target.spatial_audio;
    }
}

/// Once the write is acknowledged, nothing more is sent for the same target.
pub proof fn lemma_spatial_audio_converges(current: A3953State, target: A3953State)
    ensures
        !spec_spatial_audio_differs(spec_spatial_audio_written(current, target), target),
        spec_spatial_audio_written(current, target).press_sensitivity == current.press_sensitivity,
{
}

/// A write is due exactly when some part of spatial audio differs: the switch, the effect mode
/// or the content mode.
pub proof fn lemma_spatial_audio_write_due(current: A3953State, target: A3953State)
    ensures
        spec_spatial_audio_differs(current, target) <==> {
            let (c, t) = (current.spatial_audio, target.spatial_audio);
            ||| c.is_enabled != t.is_enabled
            ||| c.effect_mode != t.effect_mode
            ||| c.sound_mode != t.sound_mode
        },
{
}

} // verus!
