pub mod misc_toggles;
pub mod press_sensitivity;
pub mod sound_modes;
pub mod spatial_audio;

use vstd::prelude::*;

use crate::api::settings::CategoryId;
use crate::devices::soundcore::common::device::SoundcoreDeviceBuilder;
use crate::devices::soundcore::common::modules::module_collection::{SettingHandlerKind, StateModifierKind};
use misc_toggles::{
    spec_ambient_sound_prompt_configuration, spec_support_two_connections_configuration, A3953Flag,
    FlagSettingHandler, FlagStateModifier,
};
use press_sensitivity::setting_handler::PressSensitivitySettingHandler;
use press_sensitivity::state_modifier::PressSensitivityStateModifier;
use sound_modes::setting_handler::SoundModesSettingHandler;
use sound_modes::state_modifier::SoundModesStateModifier;
use spatial_audio::setting_handler::SpatialAudioSettingHandler;
use spatial_audio::state_modifier::SpatialAudioStateModifier;

verus! {

/// The sound modes handler, under sound modes.
pub open spec fn spec_sound_modes_handler() -> (CategoryId, SettingHandlerKind) {
    (CategoryId::SoundModes, SettingHandlerKind::SoundModes(SoundModesSettingHandler))
}

/// The ambient sound prompt flag, under miscellaneous.
pub open spec fn spec_ambient_sound_prompt_handler() -> (CategoryId, SettingHandlerKind) {
    (CategoryId::Miscellaneous, SettingHandlerKind::Flag(FlagSettingHandler { flag: A3953Flag::AmbientSoundPrompt, configuration: spec_ambient_sound_prompt_configuration() }))
}

/// The dual connections flag, under miscellaneous.
pub open spec fn spec_support_two_connections_handler() -> (CategoryId, SettingHandlerKind) {
    (CategoryId::Miscellaneous, SettingHandlerKind::Flag(FlagSettingHandler { flag: A3953Flag::SupportTwoConnections, configuration: spec_support_two_connections_configuration() }))
}

/// The spatial audio handler, under miscellaneous.
pub open spec fn spec_spatial_audio_handler() -> (CategoryId, SettingHandlerKind) {
    (CategoryId::Miscellaneous, SettingHandlerKind::SpatialAudio(SpatialAudioSettingHandler))
}

/// The press sensitivity handler, under miscellaneous.
pub open spec fn spec_press_sensitivity_handler() -> (CategoryId, SettingHandlerKind) {
    (CategoryId::Miscellaneous, SettingHandlerKind::PressSensitivity(PressSensitivitySettingHandler))
}

pub open spec fn spec_sound_modes_modifier() -> StateModifierKind {
    StateModifierKind::SoundModes(SoundModesStateModifier)
}

pub open spec fn spec_ambient_sound_prompt_modifier() -> StateModifierKind {
    StateModifierKind::Flag(FlagStateModifier { flag: A3953Flag::AmbientSoundPrompt, configuration: spec_ambient_sound_prompt_configuration() })
}

pub open spec fn spec_support_two_connections_modifier() -> StateModifierKind {
    StateModifierKind::Flag(FlagStateModifier { flag: A3953Flag::SupportTwoConnections, configuration: spec_support_two_connections_configuration() })
}

pub open spec fn spec_spatial_audio_modifier() -> StateModifierKind {
    StateModifierKind::SpatialAudio(SpatialAudioStateModifier)
}

pub open spec fn spec_press_sensitivity_modifier() -> StateModifierKind {
    StateModifierKind::PressSensitivity(PressSensitivityStateModifier)
}

impl SoundcoreDeviceBuilder {
    /// Adds the A3953's sound mode settings.
    pub fn a3953_sound_modes(&mut self)
        ensures
            final(self).module_collection.setting_handlers@ == old(self).module_collection.setting_handlers@.push((CategoryId::SoundModes, SettingHandlerKind::SoundModes(SoundModesSettingHandler))),
            final(self).module_collection.state_modifiers@ == old(self).module_collection.state_modifiers@.push(StateModifierKind::SoundModes(SoundModesStateModifier)),
    {
        self.module_collection.add_a3953_sound_modes();
    }

    /// Adds the A3953's press sensitivity setting.
    pub fn a3953_press_sensitivity(&mut self)
        ensures
            final(self).module_collection.setting_handlers@ == old(self).module_collection.setting_handlers@.push((CategoryId::Miscellaneous, SettingHandlerKind::PressSensitivity(PressSensitivitySettingHandler))),
            final(self).module_collection.state_modifiers@ == old(self).module_collection.state_modifiers@.push(StateModifierKind::PressSensitivity(PressSensitivityStateModifier)),
    {
        self.module_collection.add_a3953_press_sensitivity();
    }

    /// Adds the A3953's ambient sound prompt and dual connection flags.
    pub fn a3953_misc_toggles(&mut self)
        ensures
            final(self).module_collection.setting_handlers@ == old(self).module_collection.setting_handlers@.push(
                (CategoryId::Miscellaneous, SettingHandlerKind::Flag(FlagSettingHandler { flag: A3953Flag::AmbientSoundPrompt, configuration: spec_ambient_sound_prompt_configuration() })),
            ).push(
                (CategoryId::Miscellaneous, SettingHandlerKind::Flag(FlagSettingHandler { flag: A3953Flag::SupportTwoConnections, configuration: spec_support_two_connections_configuration() })),
            ),
            final(self).module_collection.state_modifiers@ == old(self).module_collection.state_modifiers@.push(
                StateModifierKind::Flag(FlagStateModifier { flag: A3953Flag::AmbientSoundPrompt, configuration: spec_ambient_sound_prompt_configuration() }),
            ).push(
                StateModifierKind::Flag(FlagStateModifier { flag: A3953Flag::SupportTwoConnections, configuration: spec_support_two_connections_configuration() }),
            ),
    {
        self.module_collection.add_a3953_misc_toggles();
    }

    /// Adds the A3953's spatial audio settings.
    pub fn a3953_spatial_audio(&mut self)
        ensures
            final(self).module_collection.setting_handlers@ == old(self).module_collection.setting_handlers@.push((CategoryId::Miscellaneous, SettingHandlerKind::SpatialAudio(SpatialAudioSettingHandler))),
            final(self).module_collection.state_modifiers@ == old(self).module_collection.state_modifiers@.push(StateModifierKind::SpatialAudio(SpatialAudioStateModifier)),
    {
        self.module_collection.add_a3953_spatial_audio();
    }
}

} // verus!
