pub mod setting_handler;
pub mod state_modifier;

use vstd::prelude::*;

use crate::api::settings::CategoryId;
use crate::devices::soundcore::common::modules::module_collection::{ModuleCollection, SettingHandlerKind, StateModifierKind};
use setting_handler::SpatialAudioSettingHandler;
use state_modifier::SpatialAudioStateModifier;

verus! {

impl ModuleCollection {
    /// Adds the spatial audio settings under miscellaneous, and their state modifier.
    pub fn add_a3953_spatial_audio(&mut self)
        ensures
            final(self).setting_handlers@ == old(self).setting_handlers@.push(
                (CategoryId::Miscellaneous, SettingHandlerKind::SpatialAudio(SpatialAudioSettingHandler)),
            ),
            final(self).state_modifiers@ == old(self).state_modifiers@.push(
                StateModifierKind::SpatialAudio(SpatialAudioStateModifier),
            ),
    {
        self.setting_handlers.push(
            (CategoryId::Miscellaneous, SettingHandlerKind::SpatialAudio(SpatialAudioSettingHandler)),
        );
        self.state_modifiers.push(StateModifierKind::SpatialAudio(SpatialAudioStateModifier::new()));
    }
}

} // verus!
