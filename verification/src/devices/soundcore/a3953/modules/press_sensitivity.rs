pub mod setting_handler;
pub mod state_modifier;

use vstd::prelude::*;

use crate::api::settings::CategoryId;
use crate::devices::soundcore::common::modules::module_collection::{ModuleCollection, SettingHandlerKind, StateModifierKind};
use setting_handler::PressSensitivitySettingHandler;
use state_modifier::PressSensitivityStateModifier;

verus! {

impl ModuleCollection {
    /// Adds the press sensitivity setting under miscellaneous, and its state modifier.
    pub fn add_a3953_press_sensitivity(&mut self)
        ensures
            final(self).setting_handlers@ == old(self).setting_handlers@.push(
                (CategoryId::Miscellaneous, SettingHandlerKind::PressSensitivity(PressSensitivitySettingHandler)),
            ),
            final(self).state_modifiers@ == old(self).state_modifiers@.push(
                StateModifierKind::PressSensitivity(PressSensitivityStateModifier),
            ),
    {
        self.setting_handlers.push(
            (CategoryId::Miscellaneous, SettingHandlerKind::PressSensitivity(PressSensitivitySettingHandler)),
        );
        self.state_modifiers.push(StateModifierKind::PressSensitivity(PressSensitivityStateModifier::new()));
    }
}

} // verus!
