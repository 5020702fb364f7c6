use vstd::prelude::*;

use crate::api::settings::{select, spec_is_select, Setting, SettingId, Value, ValueError};
use crate::devices::soundcore::a3953::state::A3953State;
use crate::devices::soundcore::a3953::structures::SoundModes;
use crate::devices::soundcore::common::structures::{AmbientSoundMode, WindNoise};

verus! {

/// Shows and sets the ambient sound mode and wind noise suppression. The other sound mode
/// options are kept as they are and not offered as settings.
#[derive(Debug, Default, Clone, Copy)]
pub struct SoundModesSettingHandler;

impl SoundModesSettingHandler {
    pub open spec fn spec_handles(id: SettingId) -> bool {
        id == SettingId::AmbientSoundMode || id == SettingId::WindNoiseSuppression
    }

    pub fn settings(&self) -> (r: Vec<SettingId>)
        ensures
            r@ == seq![SettingId::AmbientSoundMode, SettingId::WindNoiseSuppression],
    {
        let mut r = Vec::new();
        r.push(SettingId::AmbientSoundMode);
        r.push(SettingId::WindNoiseSuppression);
        r
    }

    pub fn get(&self, state: &A3953State, setting_id: &SettingId) -> (r: Option<Setting>)
        ensures
            !Self::spec_handles(*setting_id) ==> r is None,
            *setting_id == SettingId::AmbientSoundMode ==> (r matches Some(s) && spec_is_select(
                s,
                AmbientSoundMode::spec_variant_names(),
                state.sound_modes.ambient_sound_mode.spec_name(),
            )),
            *setting_id == SettingId::WindNoiseSuppression ==> r == Some(
                Setting::Toggle { value: state.sound_modes.wind_noise.is_suppression_enabled },
            ),
    {
        match setting_id {
            SettingId::AmbientSoundMode => Some(
                select(AmbientSoundMode::variant_names(), state.sound_modes.ambient_sound_mode.name()),
            ),
            SettingId::WindNoiseSuppression => Some(
                Setting::Toggle { value: state.sound_modes.wind_noise.is_suppression_enabled },
            ),
            _ => None,
        }
    }

    /// The ambient sound mode takes a variant name, wind noise suppression a boolean. A value
    /// of the wrong kind, or a name that is no variant, is refused and the state is left as it
    /// was.
    pub fn set(&self, state: &mut A3953State, setting_id: &SettingId, value: Value) -> (r: Result<(), ValueError>)
        requires
            Self::spec_handles(*setting_id),
        ensures
            r is Err ==> *final(state) == *old(state),
            *setting_id == SettingId::AmbientSoundMode ==> match value {
                Value::String(s) => match AmbientSoundMode::spec_from_name(s@) {
                    Some(m) => r is Ok && *final(state) == (A3953State {
                        sound_modes: SoundModes { ambient_sound_mode: m, ..old(state).sound_modes },
                        ..*old(state)
                    }),
                    None => r == Err::<(), ValueError>(ValueError::UnknownVariant),
                },
                _ => r == Err::<(), ValueError>(ValueError::WrongType),
            },
            *setting_id == SettingId::WindNoiseSuppression ==> match value {
                Value::Bool(b) => r is Ok && *final(state) == (A3953State {
                    sound_modes: SoundModes {
                        wind_noise: WindNoise { is_suppression_enabled: b, ..old(state).sound_modes.wind_noise },
                        ..old(state).sound_modes
                    },
                    ..*old(state)
                }),
                _ => r == Err::<(), ValueError>(ValueError::WrongType),
            },
    {
        match setting_id {
            SettingId::AmbientSoundMode => {
                let name = value.try_as_str()?;
                match AmbientSoundMode::from_name(name) {
                    Some(m) => state.sound_modes.ambient_sound_mode = m,
                    None => return Err(ValueError::UnknownVariant),
                }
            },
            _ => {
                state.sound_modes.wind_noise.is_suppression_enabled = value.try_as_bool()?;
            },
        }
        Ok(())
    }
}

} // verus!
