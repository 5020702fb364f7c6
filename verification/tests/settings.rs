use openscq30_lib::devices::soundcore::a3953::add_a3953_modules;
use openscq30_lib::api::settings::{CategoryId, Setting, SettingId, Value, ValueError};
use openscq30_lib::devices::soundcore::a3953::modules::misc_toggles::{
    ambient_sound_prompt_configuration, A3953Flag, FlagSettingHandler, FlagStateModifier,
};
use openscq30_lib::devices::soundcore::a3953::modules::press_sensitivity::setting_handler::PressSensitivitySettingHandler;
use openscq30_lib::devices::soundcore::a3953::modules::press_sensitivity::state_modifier::PressSensitivityStateModifier;
use openscq30_lib::devices::soundcore::a3953::modules::sound_modes::setting_handler::SoundModesSettingHandler;
use openscq30_lib::devices::soundcore::a3953::modules::sound_modes::state_modifier::SoundModesStateModifier;
use openscq30_lib::devices::soundcore::a3953::modules::spatial_audio::setting_handler::SpatialAudioSettingHandler;
use openscq30_lib::devices::soundcore::a3953::modules::spatial_audio::state_modifier::SpatialAudioStateModifier;
use openscq30_lib::devices::soundcore::a3953::packets::state_update::A3953StateUpdatePacket;
use openscq30_lib::devices::soundcore::a3953::state::A3953State;
use openscq30_lib::devices::soundcore::a3953::structures::{PressSensitivity, SpatialContentMode, SpatialMode};
use openscq30_lib::devices::soundcore::common::device::SoundcoreDeviceBuilder;
use openscq30_lib::devices::soundcore::common::modules::module_collection::{
    ModuleCollection, SettingHandlerKind, StateModifierKind,
};
use openscq30_lib::devices::soundcore::common::packet::Command;
use openscq30_lib::devices::soundcore::common::structures::AmbientSoundMode;

fn state() -> A3953State {
    A3953State::new(A3953StateUpdatePacket::default(), Vec::new())
}

#[test]
fn press_sensitivity_setting_clamps() {
    let handler = PressSensitivitySettingHandler;
    let mut s = state();
    assert_eq!(handler.settings(), vec![SettingId::PressSensitivity]);
    handler.set(&mut s, &SettingId::PressSensitivity, Value::I32(9)).unwrap();
    assert_eq!(s.press_sensitivity, PressSensitivity(4));
    handler.set(&mut s, &SettingId::PressSensitivity, Value::I32(-3)).unwrap();
    assert_eq!(s.press_sensitivity, PressSensitivity(0));
    handler.set(&mut s, &SettingId::PressSensitivity, Value::I32(2)).unwrap();
    match handler.get(&s, &SettingId::PressSensitivity) {
        Some(Setting::I32Range { start, end, step, value }) => {
            assert_eq!((start, end, step, value), (0, 4, 1, 2));
        }
        other => panic!("unexpected {other:?}"),
    }
    assert_eq!(handler.set(&mut s, &SettingId::PressSensitivity, Value::Bool(true)), Err(ValueError::WrongType));
    assert_eq!(s.press_sensitivity, PressSensitivity(2));
    assert!(handler.get(&s, &SettingId::SpatialAudio).is_none());
}

#[test]
fn sound_modes_setting_selects_by_name() {
    let handler = SoundModesSettingHandler;
    let mut s = state();
    handler.set(&mut s, &SettingId::AmbientSoundMode, Value::String("Transparency".to_string())).unwrap();
    assert_eq!(s.sound_modes.ambient_sound_mode, AmbientSoundMode::Transparency);
    match handler.get(&s, &SettingId::AmbientSoundMode) {
        Some(Setting::Select { options, value }) => {
            assert_eq!(options, vec!["NoiseCanceling", "Transparency", "Normal"]);
            assert_eq!(value, "Transparency");
        }
        other => panic!("unexpected {other:?}"),
    }
    assert_eq!(
        handler.set(&mut s, &SettingId::AmbientSoundMode, Value::String("Loud".to_string())),
        Err(ValueError::UnknownVariant)
    );
    assert_eq!(s.sound_modes.ambient_sound_mode, AmbientSoundMode::Transparency);
    handler.set(&mut s, &SettingId::WindNoiseSuppression, Value::Bool(true)).unwrap();
    assert!(matches!(handler.get(&s, &SettingId::WindNoiseSuppression), Some(Setting::Toggle { value: true })));
    assert_eq!(handler.set(&mut s, &SettingId::WindNoiseSuppression, Value::I32(1)), Err(ValueError::WrongType));
}

#[test]
fn spatial_audio_settings_map_to_the_right_fields() {
    let handler = SpatialAudioSettingHandler;
    let mut s = state();
    handler.set(&mut s, &SettingId::SpatialAudioMode, Value::String("Movie".to_string())).unwrap();
    handler.set(&mut s, &SettingId::SpatialAudioMusicMode, Value::String("HeadTracking".to_string())).unwrap();
    handler.set(&mut s, &SettingId::SpatialAudio, Value::Bool(true)).unwrap();
    assert_eq!(s.spatial_audio.sound_mode, SpatialContentMode::Movie);
    assert_eq!(s.spatial_audio.effect_mode, SpatialMode::HeadTracking);
    assert!(s.spatial_audio.is_enabled);
    match handler.get(&s, &SettingId::SpatialAudioMusicMode) {
        Some(Setting::Select { options, value }) => {
            assert_eq!(options, vec!["Fixed", "HeadTracking"]);
            assert_eq!(value, "HeadTracking");
        }
        other => panic!("unexpected {other:?}"),
    }
    assert_eq!(
        handler.set(&mut s, &SettingId::SpatialAudioMode, Value::String("HeadTracking".to_string())),
        Err(ValueError::UnknownVariant)
    );
}

#[test]
fn state_modifiers_send_only_when_needed() {
    let current = state();
    let mut target = current.clone();
    assert!(PressSensitivityStateModifier::new().move_to_state(&current, &target).is_none());
    target.press_sensitivity = PressSensitivity(3);
    let packet = PressSensitivityStateModifier::new().move_to_state(&current, &target).unwrap();
    assert_eq!(packet.command, Command { first: 4, second: 133 });
    assert_eq!(packet.body, vec![3]);
    let mut after = current.clone();
    PressSensitivityStateModifier::new().on_sent(&mut after, &target);
    assert!(PressSensitivityStateModifier::new().move_to_state(&after, &target).is_none());

    target.spatial_audio.is_enabled = true;
    let packet = SpatialAudioStateModifier::new().move_to_state(&current, &target).unwrap();
    assert_eq!(packet.command, Command { first: 16, second: 129 });
    assert_eq!(packet.body, vec![1, 1, 0]);

    target.sound_modes.ambient_sound_mode = AmbientSoundMode::Normal;
    let packet = SoundModesStateModifier::new().move_to_state(&current, &target).unwrap();
    assert_eq!(packet.command, Command { first: 6, second: 129 });
    assert_eq!(packet.body, vec![2, 0x10, 0, 0, 0, 0]);
}

#[test]
fn flags_show_and_write_the_stored_value() {
    let handler = FlagSettingHandler { flag: A3953Flag::AmbientSoundPrompt, configuration: ambient_sound_prompt_configuration() };
    let modifier = FlagStateModifier { flag: A3953Flag::AmbientSoundPrompt, configuration: ambient_sound_prompt_configuration() };
    let current = state();
    let mut target = current.clone();
    handler.set(&mut target, &SettingId::AmbientSoundPrompt, Value::Bool(true)).unwrap();
    assert!(matches!(handler.get(&target, &SettingId::AmbientSoundPrompt), Some(Setting::Toggle { value: true })));
    let packet = modifier.move_to_state(&current, &target).unwrap();
    assert_eq!(packet.command, Command { first: 0x10, second: 0x83 });
    assert_eq!(packet.body, vec![1]);

    let mut inverted_configuration = ambient_sound_prompt_configuration();
    inverted_configuration.is_inverted = true;
    let inverted = FlagSettingHandler { flag: A3953Flag::SupportTwoConnections, configuration: inverted_configuration };
    let mut s = state();
    inverted.set(&mut s, &SettingId::AmbientSoundPrompt, Value::Bool(true)).unwrap();
    assert!(!s.dual_connections.is_enabled);
    assert!(matches!(inverted.get(&s, &SettingId::AmbientSoundPrompt), Some(Setting::Toggle { value: true })));
}

#[test]
fn builder_registers_the_a3953_modules() {
    let mut builder = SoundcoreDeviceBuilder::new();
    builder.a3953_sound_modes();
    builder.a3953_misc_toggles();
    builder.a3953_spatial_audio();
    builder.a3953_press_sensitivity();
    let collection: &ModuleCollection = &builder.module_collection;
    assert_eq!(collection.setting_handlers.len(), 5);
    assert_eq!(collection.state_modifiers.len(), 5);
    assert_eq!(collection.setting_handlers[0].0, CategoryId::SoundModes);
    match collection.setting_handlers[1].1 {
        SettingHandlerKind::Flag(h) => {
            assert_eq!(h.configuration.setting_id, SettingId::AmbientSoundPrompt);
            assert_eq!(h.configuration.set_command, Command { first: 0x10, second: 0x83 });
        }
        _ => panic!("expected a flag"),
    }
    match collection.state_modifiers[2] {
        StateModifierKind::Flag(m) => {
            assert_eq!(m.configuration.setting_id, SettingId::SupportTwoConnections);
            assert_eq!(m.configuration.set_command, Command { first: 0x0B, second: 0x84 });
        }
        _ => panic!("expected a flag"),
    }
    assert!(matches!(collection.setting_handlers[4].1, SettingHandlerKind::PressSensitivity(_)));
}

#[test]
fn a3953_modules_are_added_in_device_order() {
    let mut builder = SoundcoreDeviceBuilder::new();
    add_a3953_modules(&mut builder);
    let handlers = &builder.module_collection.setting_handlers;
    assert_eq!(handlers.len(), 5);
    assert!(matches!(handlers[0], (CategoryId::SoundModes, SettingHandlerKind::SoundModes(_))));
    assert!(matches!(handlers[3], (CategoryId::Miscellaneous, SettingHandlerKind::SpatialAudio(_))));
    assert!(matches!(handlers[4], (CategoryId::Miscellaneous, SettingHandlerKind::PressSensitivity(_))));
    assert!(matches!(builder.module_collection.state_modifiers[0], StateModifierKind::SoundModes(_)));
}
