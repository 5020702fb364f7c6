pub mod setting_handler;
pub mod state_modifier;

use vstd::prelude::*;

use crate::api::settings::CategoryId;
use crate::devices::soundcore::common::modules::module_collection::{ModuleCollection, SettingHandlerKind, StateModifierKind};
use setting_handler::SoundModesSettingHandler;
use state_modifier::SoundModesStateModifier;

verus! {

impl ModuleCollection {
    /// Adds the sound mode settings under sound modes, and their state modifier.
    pub fn add_a3953_sound_modes(&mut self)
        ensures
            final(self).setting_handlers@ == old(self).setting_handlers@.push(
                (CategoryId::SoundModes, SettingHandlerKind::SoundModes(SoundModesSettingHandler)),
            ),
            final(self).state_modifiers@ == old(self).state_modifiers@.push(
                StateModifierKind::SoundModes(SoundModesStateModifier),
            ),
    {
        self.setting_handlers.push((CategoryId::SoundModes, SettingHandlerKind::SoundModes(SoundModesSettingHandler)));
        self.state_modifiers.push(StateModifierKind::SoundModes(SoundModesStateModifier::new()));
    }
}

} // verus!
