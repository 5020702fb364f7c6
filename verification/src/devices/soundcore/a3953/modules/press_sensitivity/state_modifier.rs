use vstd::prelude::*;

use crate::devices::soundcore::a3953::state::A3953State;
use crate::devices::soundcore::common::packet::{Command, Outbound};

verus! {

/// Brings the device's press sensitivity to the wanted value with command `[0x04, 0x85]`.
#[derive(Debug, Default, Clone, Copy)]
pub struct PressSensitivityStateModifier;

/// Whether the device must be told: the wanted press sensitivity differs from the current one.
pub open spec fn spec_press_sensitivity_differs(current: A3953State, target: A3953State) -> bool {
    current.press_sensitivity != target.press_sensitivity
}

/// The state once the device has acknowledged the write: the wanted press sensitivity, all else
/// as it was.
pub open spec fn spec_press_sensitivity_written(current: A3953State, target: A3953State) -> A3953State {
    A3953State { press_sensitivity: target.press_sensitivity, ..current }
}

impl PressSensitivityStateModifier {
    pub fn new() -> (r: Self) {
        PressSensitivityStateModifier
    }

    /// The packet to send to move from `current` to `target`, or `None` when the press
    /// sensitivity already matches.
    pub fn move_to_state(&self, current: &A3953State, target: &A3953State) -> (r: Option<Outbound>)
        ensures
            r is None <==> !spec_press_sensitivity_differs(*current, *target),
            r is None <==> current.press_sensitivity.0 == target.press_sensitivity.0,
            r matches Some(p) ==> p.command == (Command { first: 4, second: 133 })
                && p.body@ == target.press_sensitivity.spec_bytes(),
    {
        if current.press_sensitivity == target.press_sensitivity {
            return None;
        }
        let bytes = target.press_sensitivity.bytes();
        let mut body = Vec::new();
        body.push(bytes[0]);
        assert(body@ =~= target.press_sensitivity.spec_bytes());
        Some(Outbound::new(Command::new(0x04, 0x85), body))
    }

    /// Records that the device acknowledged the write.
    pub fn on_sent(&self, state: &mut A3953State, target: &A3953State)
        ensures
            *final(state) == spec_press_sensitivity_written(*old(state), *target),
            *final(state) == (A3953State { press_sensitivity: target.press_sensitivity, ..*old(state) }),
    {
        state.press_sensitivity = target.press_sensitivity;
    }
}

/// Once the write is acknowledged, nothing more is sent for the same target, and no other
/// field of the state has changed.
pub proof fn lemma_press_sensitivity_converges(current: A3953State, target: A3953State)
    ensures
        !spec_press_sensitivity_differs(spec_press_sensitivity_written(current, target), target),
        spec_press_sensitivity_written(current, target).sound_modes == current.sound_modes,
        spec_press_sensitivity_written(current, target).spatial_audio == current.spatial_audio,
{
}

/// A write is due exactly when the two press sensitivity levels differ.
pub proof fn lemma_press_sensitivity_write_due(current: A3953State, target: A3953State)
    ensures
        spec_press_sensitivity_differs(current, target) <==> current.press_sensitivity.0 != target.press_sensitivity.0,
{
}

} // verus!
