use vstd::prelude::*;

use crate::devices::soundcore::a3953::state::A3953State;
use crate::devices::soundcore::common::packet::{Command, Outbound};

verus! {

/// Brings the device's sound modes to the wanted value with command `[0x06, 0x81]`.
#[derive(Debug, Default, Clone, Copy)]
pub struct SoundModesStateModifier;

/// Whether the device must be told: the wanted sound modes differ from the current ones.
pub open spec fn spec_sound_modes_differ(current: A3953State, target: A3953State) -> bool {
    current.sound_modes != target.sound_modes
}

/// The state once the device has acknowledged the write.
pub open spec fn spec_sound_modes_written(current: A3953State, target: A3953State) -> A3953State {
    A3953State { sound_modes: target.sound_modes, ..current }
}

impl SoundModesStateModifier {
    pub fn new() -> (r: Self) {
        SoundModesStateModifier
    }

    /// The packet to send to move from `current` to `target`, or `None` when the sound modes
    /// already match.
    pub fn move_to_state(&self, current: &A3953State, target: &A3953State) -> (r: Option<Outbound>)
        ensures
            r is None <==> !spec_sound_modes_differ(*current, *target),
            r is None <==> current.sound_modes == target.sound_modes,
            r matches Some(p) ==> p.command == (Command { first: 6, second: 129 })
                && p.body@ == target.sound_modes.spec_bytes(),
    {
        if current.sound_modes == target.sound_modes {
            return None;
        }
        let bytes = target.sound_modes.bytes();
        let mut body = Vec::new();
        crate::devices::soundcore::common::bytes::push_all(&mut body, &bytes);
        Some(Outbound::new(Command::new(0x06, 0x81), body))
    }

    /// Records that the device acknowledged the write.
    pub fn on_sent(&self, state: &mut A3953State, target: &A3953State)
        ensures
            *final(state) == spec_sound_modes_written(*old(state), *target),
            *final(state) == (A3953State { sound_modes: target.sound_modes, ..*old(state) }),
    {
        state.sound_modes = target.sound_modes;
    }
}

/// Once the write is acknowledged, nothing more is sent for the same target.
pub proof fn lemma_sound_modes_converge(current: A3953State, target: A3953State)
    ensures
        !spec_sound_modes_differ(spec_sound_modes_written(current, target), target),
        spec_sound_modes_written(current, target).spatial_audio == current.spatial_audio,
{
}

/// A write is due exactly when some part of the sound modes differs: the ambient sound mode,
/// either noise canceling option, the transparency option, the automation mode, either wind
/// noise bit, or the automatic sensitivity level.
pub proof fn lemma_sound_modes_write_due(current: A3953State, target: A3953State)
    ensures
        spec_sound_modes_differ(current, target) <==> {
            let (c, t) = (current.sound_modes, target.sound_modes);
            ||| c.ambient_sound_mode != t.ambient_sound_mode
            ||| c.anc_option_manual != t.anc_option_manual
            ||| c.anc_option_auto != t.anc_option_auto
            ||| c.trans_option != t.trans_option
            ||| c.anc_automation_mode != t.anc_automation_mode
            ||| c.wind_noise.is_suppression_enabled != t.wind_noise.is_suppression_enabled
            ||| c.wind_noise.is_detected != t.wind_noise.is_detected
            ||| c.anc_auto_sensitivity_level != t.anc_auto_sensitivity_level
        },
{
}

} // verus!
