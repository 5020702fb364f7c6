use vstd::prelude::*;

use crate::api::settings::{Setting, SettingId, Value, ValueError};
use crate::devices::soundcore::a3953::state::A3953State;
use crate::devices::soundcore::a3953::structures::{spec_clamp, PressSensitivity};

verus! {

/// Shows and sets the press sensitivity as a number from 0 to 4.
#[derive(Debug, Default, Clone, Copy)]
pub struct PressSensitivitySettingHandler;

/// The state after asking for press sensitivity `v`: `v` limited to `0..=4`.
pub open spec fn spec_set_press_sensitivity(state: A3953State, v: i32) -> A3953State {
    A3953State { press_sensitivity: PressSensitivity(spec_clamp(v as int, 0, 4) as u8), ..state }
}

/// What the press sensitivity setting shows for `state`.
pub open spec fn spec_press_sensitivity_setting(state: A3953State) -> Setting {
    Setting::I32Range { start: 0, end: 4, step: 1, value: state.press_sensitivity.0 as i32 }
}

impl PressSensitivitySettingHandler {
    pub open spec fn spec_handles(id: SettingId) -> bool {
        id == SettingId::PressSensitivity
    }

    pub fn settings(&self) -> (r: Vec<SettingId>)
        ensures
            r@ == seq![SettingId::PressSensitivity],
    {
        let mut r = Vec::new();
        r.push(SettingId::PressSensitivity);
        r
    }

    pub fn get(&self, state: &A3953State, setting_id: &SettingId) -> (r: Option<Setting>)
        ensures
            Self::spec_handles(*setting_id) ==> r == Some(spec_press_sensitivity_setting(*state)),
            !Self::spec_handles(*setting_id) ==> r is None,
    {
        match setting_id {
            SettingId::PressSensitivity => Some(Setting::I32Range {
                start: 0,
                end: 4,
                step: 1,
                value: state.press_sensitivity.0 as i32,
            }),
            _ => None,
        }
    }

    /// Takes a number, limits it to `0..=4` and stores it; any other kind of value is refused
    /// and the state is left as it was.
    pub fn set(&self, state: &mut A3953State, setting_id: &SettingId, value: Value) -> (r: Result<(), ValueError>)
        requires
            Self::spec_handles(*setting_id),
        ensures
            match value {
                Value::I32(v) => r is Ok && *final(state) == spec_set_press_sensitivity(*old(state), v),
                _ => r == Err::<(), ValueError>(ValueError::WrongType) && *final(state) == *old(state),
            },
    {
        let v = value.try_as_i32()?;
        let clamped: i32 = if v < 0 {
            0
        } else if v > 4 {
            4
        } else {
            v
        };
        state.press_sensitivity = PressSensitivity(clamped as u8);
        Ok(())
    }
}

/// Setting the press sensitivity and reading it back gives the asked value limited to `0..=4`.
pub proof fn lemma_press_sensitivity_set_then_get(state: A3953State, v: i32)
    ensures
        spec_press_sensitivity_setting(spec_set_press_sensitivity(state, v))
            == (Setting::I32Range { start: 0, end: 4, step: 1, value: spec_clamp(v as int, 0, 4) as i32 }),
{
}

/// The press sensitivity setting is a range from 0 to 4 in steps of 1 showing the stored
/// level; asking for a level stores it limited to `0..=4` (below 0 gives 0, above 4 gives 4)
/// and changes nothing else.
pub proof fn lemma_press_sensitivity_setting_values(state: A3953State, v: i32)
    ensures
        spec_press_sensitivity_setting(state) == (Setting::I32Range {
            start: 0,
            end: 4,
            step: 1,
            value: state.press_sensitivity.0 as i32,
        }),
        spec_set_press_sensitivity(state, v) == (A3953State {
            press_sensitivity: PressSensitivity(if v < 0 { 0u8 } else if v > 4 { 4u8 } else { v as u8 }),
            ..state
        }),
{
}

} // verus!
