pub mod modules;
pub mod packets;
pub mod state;
pub mod structures;

use vstd::prelude::*;

use crate::devices::soundcore::common::device::SoundcoreDeviceBuilder;
use packets::state_update::A3953StateUpdatePacket;

verus! {

/// Whether, after reading the state report, the list of hosts connected at once must be
/// fetched: only when dual connections are on (otherwise the list is empty).
pub fn should_fetch_dual_connection_devices(packet: &A3953StateUpdatePacket) -> (r: bool)
    ensures
        r == packet.dual_connections_enabled,
{
    packet.dual_connections_enabled
}

/// Adds the A3953's own modules in the order the device registers them: sound modes, the
/// ambient sound prompt and dual connection flags, spatial audio, press sensitivity.
pub fn add_a3953_modules(builder: &mut SoundcoreDeviceBuilder)
    ensures
        final(builder).module_collection.setting_handlers@ == old(builder).module_collection.setting_handlers@
            + seq![
                modules::spec_sound_modes_handler(),
                modules::spec_ambient_sound_prompt_handler(),
                modules::spec_support_two_connections_handler(),
                modules::spec_spatial_audio_handler(),
                modules::spec_press_sensitivity_handler(),
            ],
        final(builder).module_collection.state_modifiers@ == old(builder).module_collection.state_modifiers@
            + seq![
                modules::spec_sound_modes_modifier(),
                modules::spec_ambient_sound_prompt_modifier(),
                modules::spec_support_two_connections_modifier(),
                modules::spec_spatial_audio_modifier(),
                modules::spec_press_sensitivity_modifier(),
            ],
{
    builder.a3953_sound_modes();
    builder.a3953_misc_toggles();
    builder.a3953_spatial_audio();
    builder.a3953_press_sensitivity();
    assert(builder.module_collection.setting_handlers@ =~= old(builder).module_collection.setting_handlers@
        + seq![
            modules::spec_sound_modes_handler(),
            modules::spec_ambient_sound_prompt_handler(),
            modules::spec_support_two_connections_handler(),
            modules::spec_spatial_audio_handler(),
            modules::spec_press_sensitivity_handler(),
        ]);
    assert(builder.module_collection.state_modifiers@ =~= old(builder).module_collection.state_modifiers@
        + seq![
            modules::spec_sound_modes_modifier(),
            modules::spec_ambient_sound_prompt_modifier(),
            modules::spec_support_two_connections_modifier(),
            modules::spec_spatial_audio_modifier(),
            modules::spec_press_sensitivity_modifier(),
        ]);
}

} // verus!
