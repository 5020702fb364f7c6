use vstd::prelude::*;

use crate::api::settings::{CategoryId, Setting, SettingId, Value, ValueError};
use crate::devices::soundcore::a3953::state::A3953State;
use crate::devices::soundcore::a3953::structures::{AmbientSoundPrompt, SupportTwoConnections};
use crate::devices::soundcore::common::{
    flag::Flag,
    modules::flag::FlagConfiguration,
    packet::{Command, Outbound},
    parsing::bool_byte,
    structures::spec_bool_byte,
};

verus! {

/// The on/off settings of the A3953 that are plain flags.
#[derive(Debug, Clone, Copy, PartialEq, Eq, Structural)]
pub enum A3953Flag {
    AmbientSoundPrompt,
    SupportTwoConnections,
}

impl A3953Flag {
    /// The device's value of the flag in `state`.
    pub open spec fn spec_get(self, state: A3953State) -> bool {
        match self {
            A3953Flag::AmbientSoundPrompt => state.ambient_sound_prompt.0,
            A3953Flag::SupportTwoConnections => state.dual_connections.is_enabled,
        }
    }

    /// `state` with the device's value of the flag set to `value`.
    pub open spec fn spec_set(self, state: A3953State, value: bool) -> A3953State {
        match self {
            A3953Flag::AmbientSoundPrompt => A3953State { ambient_sound_prompt: AmbientSoundPrompt(value), ..state },
            A3953Flag::SupportTwoConnections => A3953State {
                dual_connections: crate::devices::soundcore::common::structures::DualConnections {
                    is_enabled: value,
                    devices: state.dual_connections.devices,
                },
                ..state
            },
        }
    }

    pub fn get(&self, state: &A3953State) -> (r: bool)
        ensures
            r == self.spec_get(*state),
    {
        match self {
            A3953Flag::AmbientSoundPrompt => state.ambient_sound_prompt.get_bool(),
            A3953Flag::SupportTwoConnections => state.support_two_connections().get_bool(),
        }
    }

    pub fn set(&self, state: &mut A3953State, value: bool)
        ensures
            *final(state) == self.spec_set(*old(state), value),
    {
        match self {
            A3953Flag::AmbientSoundPrompt => state.ambient_sound_prompt.set_bool(value),
            A3953Flag::SupportTwoConnections => {
                let mut flag = state.support_two_connections();
                flag.set_bool(value);
                state.set_support_two_connections(flag);
            },
        }
    }
}

/// Shows and sets one flag.
#[derive(Debug, Clone, Copy, PartialEq, Eq, Structural)]
pub struct FlagSettingHandler {
    pub flag: A3953Flag,
    pub configuration: FlagConfiguration,
}

impl FlagSettingHandler {
    pub open spec fn spec_handles(self, id: SettingId) -> bool {
        id == self.configuration.setting_id
    }

    /// What the setting shows: the device's value, inverted when the configuration says so.
    pub open spec fn spec_shown(self, state: A3953State) -> bool {
        self.flag.spec_get(state) != self.configuration.is_inverted
    }

    pub fn settings(&self) -> (r: Vec<SettingId>)
        ensures
            r@ == seq![self.configuration.setting_id],
    {
        let mut r = Vec::new();
        r.push(self.configuration.setting_id);
        r
    }

    pub fn get(&self, state: &A3953State, setting_id: &SettingId) -> (r: Option<Setting>)
        ensures
            self.spec_handles(*setting_id) ==> r == Some(Setting::Toggle { value: self.spec_shown(*state) }),
            !self.spec_handles(*setting_id) ==> r is None,
    {
        if *setting_id == self.configuration.setting_id {
            Some(Setting::Toggle { value: self.flag.get(state) != self.configuration.is_inverted })
        } else {
            None
        }
    }

    /// Takes a boolean; any other kind of value is refused and the state left as it was.
    pub fn set(&self, state: &mut A3953State, setting_id: &SettingId, value: Value) -> (r: Result<(), ValueError>)
        requires
            self.spec_handles(*setting_id),
        ensures
            match value {
                Value::Bool(b) => r is Ok && *final(state) == self.flag.spec_set(*old(state), b != self.configuration.is_inverted),
                _ => r == Err::<(), ValueError>(ValueError::WrongType) && *final(state) == *old(state),
            },
    {
        let b = value.try_as_bool()?;
        self.flag.set(state, b != self.configuration.is_inverted);
        Ok(())
    }
}

/// Writes one flag to the device with the configured command.
#[derive(Debug, Clone, Copy, PartialEq, Eq, Structural)]
pub struct FlagStateModifier {
    pub flag: A3953Flag,
    pub configuration: FlagConfiguration,
}

impl FlagStateModifier {
    /// The packet to send to move from `current` to `target`, or `None` when the flag already
    /// matches. The body is the device's value of the flag.
    pub fn move_to_state(&self, current: &A3953State, target: &A3953State) -> (r: Option<Outbound>)
        ensures
            r is None <==> self.flag.spec_get(*current) == self.flag.spec_get(*target),
            r matches Some(p) ==> p.command == self.configuration.set_command
                && p.body@ == seq![spec_bool_byte(self.flag.spec_get(*target))],
    {
        let wanted = self.flag.get(target);
        if self.flag.get(current) == wanted {
            return None;
        }
        let mut body = Vec::new();
        body.push(bool_byte(wanted));
        assert(body@ =~= seq![spec_bool_byte(self.flag.spec_get(*target))]);
        Some(Outbound::new(self.configuration.set_command, body))
    }

    /// Records that the device acknowledged the write.
    pub fn on_sent(&self, state: &mut A3953State, target: &A3953State)
        ensures
            *final(state) == self.flag.spec_set(*old(state), self.flag.spec_get(*target)),
    {
        let wanted = self.flag.get(target);
        self.flag.set(state, wanted);
    }
}

/// Setting a flag and reading it back shows the value set, whether or not it is inverted.
pub proof fn lemma_flag_set_then_get(handler: FlagSettingHandler, state: A3953State, b: bool)
    ensures
        handler.spec_shown(handler.flag.spec_set(state, b != handler.configuration.is_inverted)) == b,
{
}

/// Once a flag write is acknowledged, nothing more is sent for the same target.
pub proof fn lemma_flag_converges(modifier: FlagStateModifier, current: A3953State, target: A3953State)
    ensures
        modifier.flag.spec_get(modifier.flag.spec_set(current, modifier.flag.spec_get(target)))
            == modifier.flag.spec_get(target),
{
}

/// The two flags: the ambient sound prompt reads and sets the state's ambient sound prompt, is
/// written with command `[0x10, 0x83]` and shown as it is under miscellaneous; connection to
/// two hosts reads and sets the dual connections switch, keeping the list of connected hosts,
/// is written with command `[0x0B, 0x84]` and shown as it is under miscellaneous. Setting a
/// flag changes nothing else in the state.
pub proof fn lemma_a3953_flags(state: A3953State, value: bool)
    ensures
        A3953Flag::AmbientSoundPrompt.spec_get(state) == state.ambient_sound_prompt.0,
        A3953Flag::SupportTwoConnections.spec_get(state) == state.dual_connections.is_enabled,
        A3953Flag::AmbientSoundPrompt.spec_set(state, value) == (A3953State {
            ambient_sound_prompt: AmbientSoundPrompt(value),
            ..state
        }),
        A3953Flag::SupportTwoConnections.spec_set(state, value) == (A3953State {
            dual_connections: crate::devices::soundcore::common::structures::DualConnections {
                is_enabled: value,
                devices: state.dual_connections.devices,
            },
            ..state
        }),
        spec_ambient_sound_prompt_configuration().category_id == CategoryId::Miscellaneous,
        spec_ambient_sound_prompt_configuration().setting_id == SettingId::AmbientSoundPrompt,
        spec_ambient_sound_prompt_configuration().set_command == (Command { first: 0x10, second: 0x83 }),
        !spec_ambient_sound_prompt_configuration().is_inverted,
        spec_support_two_connections_configuration().category_id == CategoryId::Miscellaneous,
        spec_support_two_connections_configuration().setting_id == SettingId::SupportTwoConnections,
        spec_support_two_connections_configuration().set_command == (Command { first: 0x0B, second: 0x84 }),
        !spec_support_two_connections_configuration().is_inverted,
{
}

/// The ambient sound prompt: shown under miscellaneous, set with command `[0x10, 0x83]`.
pub open spec fn spec_ambient_sound_prompt_configuration() -> FlagConfiguration {
    FlagConfiguration {
        category_id: CategoryId::Miscellaneous,
        setting_id: SettingId::AmbientSoundPrompt,
        set_command: Command { first: 0x10, second: 0x83 },
        update_command: None,
        is_inverted: false,
    }
}

/// Connection to two hosts: shown under miscellaneous, set with command `[0x0B, 0x84]`.
pub open spec fn spec_support_two_connections_configuration() -> FlagConfiguration {
    FlagConfiguration {
        category_id: CategoryId::Miscellaneous,
        setting_id: SettingId::SupportTwoConnections,
        set_command: Command { first: 0x0B, second: 0x84 },
        update_command: None,
        is_inverted: false,
    }
}

pub fn ambient_sound_prompt_configuration() -> (r: FlagConfiguration)
    ensures
        r == spec_ambient_sound_prompt_configuration(),
{
    FlagConfiguration {
        category_id: CategoryId::Miscellaneous,
        setting_id: SettingId::AmbientSoundPrompt,
        set_command: Command::new(0x10, 0x83),
        update_command: None,
        is_inverted: false,
    }
}

pub fn support_two_connections_configuration() -> (r: FlagConfiguration)
    ensures
        r == spec_support_two_connections_configuration(),
{
    FlagConfiguration {
        category_id: CategoryId::Miscellaneous,
        setting_id: SettingId::SupportTwoConnections,
        set_command: Command::new(0x0B, 0x84),
        update_command: None,
        is_inverted: false,
    }
}

} // verus!

verus! {

impl crate::devices::soundcore::common::modules::module_collection::ModuleCollection {
    /// Adds the ambient sound prompt and the connection to two hosts as flags.
    pub fn add_a3953_misc_toggles(&mut self)
        ensures
            final(self).setting_handlers@ == old(self).setting_handlers@.push(
                (CategoryId::Miscellaneous, crate::devices::soundcore::common::modules::module_collection::SettingHandlerKind::Flag(
                    FlagSettingHandler { flag: A3953Flag::AmbientSoundPrompt, configuration: spec_ambient_sound_prompt_configuration() },
                )),
            ).push(
                (CategoryId::Miscellaneous, crate::devices::soundcore::common::modules::module_collection::SettingHandlerKind::Flag(
                    FlagSettingHandler { flag: A3953Flag::SupportTwoConnections, configuration: spec_support_two_connections_configuration() },
                )),
            ),
            final(self).state_modifiers@ == old(self).state_modifiers@.push(
                crate::devices::soundcore::common::modules::module_collection::StateModifierKind::Flag(
                    FlagStateModifier { flag: A3953Flag::AmbientSoundPrompt, configuration: spec_ambient_sound_prompt_configuration() },
                ),
            ).push(
                crate::devices::soundcore::common::modules::module_collection::StateModifierKind::Flag(
                    FlagStateModifier { flag: A3953Flag::SupportTwoConnections, configuration: spec_support_two_connections_configuration() },
                ),
            ),
    {
        self.add_flag(A3953Flag::AmbientSoundPrompt, ambient_sound_prompt_configuration());
        self.add_flag(A3953Flag::SupportTwoConnections, support_two_connections_configuration());
    }
}

} // verus!
