use vstd::prelude::*;

use crate::api::settings::{select, spec_is_select, Setting, SettingId, Value, ValueError};
use crate::devices::soundcore::a3953::state::A3953State;
use crate::devices::soundcore::a3953::structures::{SpatialAudio, SpatialContentMode, SpatialMode};

verus! {

/// Shows and sets spatial audio: the switch, the content mode (`SpatialAudioMode`: music or
/// movie) and the effect mode (`SpatialAudioMusicMode`: fixed or head tracking).
#[derive(Debug, Default, Clone, Copy)]
pub struct SpatialAudioSettingHandler;

impl SpatialAudioSettingHandler {
    pub open spec fn spec_handles(id: SettingId) -> bool {
        ||| id == SettingId::SpatialAudio
        ||| id == SettingId::SpatialAudioMode
        ||| id == SettingId::SpatialAudioMusicMode
    }

    pub fn settings(&self) -> (r: Vec<SettingId>)
        ensures
            r@ == seq![SettingId::SpatialAudio, SettingId::SpatialAudioMode, SettingId::SpatialAudioMusicMode],
    {
        let mut r = Vec::new();
        r.push(SettingId::SpatialAudio);
        r.push(SettingId::SpatialAudioMode);
        r.push(SettingId::SpatialAudioMusicMode);
        r
    }

    pub fn get(&self, state: &A3953State, setting_id: &SettingId) -> (r: Option<Setting>)
        ensures
            !Self::spec_handles(*setting_id) ==> r is None,
            *setting_id == SettingId::SpatialAudio ==> r == Some(Setting::Toggle { value: state.spatial_audio.is_enabled }),
            *setting_id == SettingId::SpatialAudioMode ==> (r matches Some(s) && spec_is_select(
                s,
                SpatialContentMode::spec_variant_names(),
                state.spatial_audio.sound_mode.spec_name(),
            )),
            *setting_id == SettingId::SpatialAudioMusicMode ==> (r matches Some(s) && spec_is_select(
                s,
                SpatialMode::spec_variant_names(),
                state.spatial_audio.effect_mode.spec_name(),
            )),
    {
        match setting_id {
            SettingId::SpatialAudio => Some(Setting::Toggle { value: state.spatial_audio.is_enabled }),
            SettingId::SpatialAudioMode => Some(
                select(SpatialContentMode::variant_names(), state.spatial_audio.sound_mode.name()),
            ),
            SettingId::SpatialAudioMusicMode => Some(
                select(SpatialMode::variant_names(), state.spatial_audio.effect_mode.name()),
            ),
            _ => None,
        }
    }

    /// The switch takes a boolean; the two modes take a variant name. A value of the wrong
    /// kind, or a name that is no variant, is refused and the state is left as it was.
    pub fn set(&self, state: &mut A3953State, setting_id: &SettingId, value: Value) -> (r: Result<(), ValueError>)
        requires
            Self::spec_handles(*setting_id),
        ensures
            r is Err ==> *final(state) == *old(state),
            *setting_id == SettingId::SpatialAudio ==> match value {
                Value::Bool(b) => r is Ok && *final(state) == (A3953State {
                    spatial_audio: SpatialAudio { is_enabled: b, ..old(state).spatial_audio },
                    ..*old(state)
                }),
                _ => r == Err::<(), ValueError>(ValueError::WrongType),
            },
            *setting_id == SettingId::SpatialAudioMode ==> match value {
                Value::String(s) => match SpatialContentMode::spec_from_name(s@) {
                    Some(m) => r is Ok && *final(state) == (A3953State {
                        spatial_audio: SpatialAudio { sound_mode: m, ..old(state).spatial_audio },
                        ..*old(state)
                    }),
                    None => r == Err::<(), ValueError>(ValueError::UnknownVariant),
                },
                _ => r == Err::<(), ValueError>(ValueError::WrongType),
            },
            *setting_id == SettingId::SpatialAudioMusicMode ==> match value {
                Value::String(s) => match SpatialMode::spec_from_name(s@) {
                    Some(m) => r is Ok && *final(state) == (A3953State {
                        spatial_audio: SpatialAudio { effect_mode: m, ..old(state).spatial_audio },
                        ..*old(state)
                    }),
                    None => r == Err::<(), ValueError>(ValueError::UnknownVariant),
                },
                _ => r == Err::<(), ValueError>(ValueError::WrongType),
            },
    {
        match setting_id {
            SettingId::SpatialAudio => {
                state.spatial_audio.is_enabled = value.try_as_bool()?;
            },
            SettingId::SpatialAudioMode => {
                let name = value.try_as_str()?;
                match SpatialContentMode::from_name(name) {
                    Some(m) => state.spatial_audio.sound_mode = m,
                    None => return Err(ValueError::UnknownVariant),
                }
            },
            _ => {
                let name = value.try_as_str()?;
                match SpatialMode::from_name(name) {
                    Some(m) => state.spatial_audio.effect_mode = m,
                    None => return Err(ValueError::UnknownVariant),
                }
            },
        }
        Ok(())
    }
}

} // verus!
