use vstd::prelude::*;

use crate::api::settings::CategoryId;
use crate::devices::soundcore::a3953::modules::misc_toggles::{A3953Flag, FlagSettingHandler, FlagStateModifier};
use crate::devices::soundcore::a3953::modules::press_sensitivity::setting_handler::PressSensitivitySettingHandler;
use crate::devices::soundcore::a3953::modules::press_sensitivity::state_modifier::PressSensitivityStateModifier;
use crate::devices::soundcore::a3953::modules::sound_modes::setting_handler::SoundModesSettingHandler;
use crate::devices::soundcore::a3953::modules::sound_modes::state_modifier::SoundModesStateModifier;
use crate::devices::soundcore::a3953::modules::spatial_audio::setting_handler::SpatialAudioSettingHandler;
use crate::devices::soundcore::a3953::modules::spatial_audio::state_modifier::SpatialAudioStateModifier;
use crate::devices::soundcore::common::modules::flag::FlagConfiguration;

verus! {

/// A registered setting handler.
#[derive(Debug, Clone, Copy)]
pub enum SettingHandlerKind {
    SoundModes(SoundModesSettingHandler),
    PressSensitivity(PressSensitivitySettingHandler),
    SpatialAudio(SpatialAudioSettingHandler),
    Flag(FlagSettingHandler),
}

/// A registered state modifier.
#[derive(Debug, Clone, Copy)]
pub enum StateModifierKind {
    SoundModes(SoundModesStateModifier),
    PressSensitivity(PressSensitivityStateModifier),
    SpatialAudio(SpatialAudioStateModifier),
    Flag(FlagStateModifier),
}

/// The setting handlers (each with the category it is shown in) and state modifiers of a
/// device, in the order they were added.
#[derive(Debug, Clone)]
pub struct ModuleCollection {
    pub setting_handlers: Vec<(CategoryId, SettingHandlerKind)>,
    pub state_modifiers: Vec<StateModifierKind>,
}

impl ModuleCollection {
    pub fn new() -> (r: Self)
        ensures
            r.setting_handlers@.len() == 0,
            r.state_modifiers@.len() == 0,
    {
        ModuleCollection { setting_handlers: Vec::new(), state_modifiers: Vec::new() }
    }

    /// Adds an on/off setting: its handler in the configured category, and its state modifier.
    pub fn add_flag(&mut self, flag: A3953Flag, configuration: FlagConfiguration)
        ensures
            final(self).setting_handlers@ == old(self).setting_handlers@.push(
                (configuration.category_id, SettingHandlerKind::Flag(FlagSettingHandler { flag, configuration })),
            ),
            final(self).state_modifiers@ == old(self).state_modifiers@.push(
                StateModifierKind::Flag(FlagStateModifier { flag, configuration }),
            ),
    {
        self.setting_handlers.push(
            (configuration.category_id, SettingHandlerKind::Flag(FlagSettingHandler { flag, configuration })),
        );
        self.state_modifiers.push(StateModifierKind::Flag(FlagStateModifier { flag, configuration }));
    }
}

} // verus!
