use openscq30_lib::devices::soundcore::a3953::should_fetch_dual_connection_devices;
use openscq30_lib::devices::soundcore::a3953::packets::set_equalizer_configuration::set_equalizer_configuration;
use openscq30_lib::devices::soundcore::a3953::packets::state_update::A3953StateUpdatePacket;
use openscq30_lib::devices::soundcore::a3953::state::A3953State;
use openscq30_lib::devices::soundcore::a3953::structures::{
    AmbientSoundPrompt, IsHearIdInitialized, PressSensitivity, SoundModes, SpatialAudio,
    SpatialContentMode, SpatialMode,
};
use openscq30_lib::devices::soundcore::common::packet::{Command, Inbound, Outbound};
use openscq30_lib::devices::soundcore::common::parsing::ParseError;
use openscq30_lib::devices::soundcore::common::structures::{
    AmbientSoundMode, CommonEqualizerConfiguration, CustomHearId, DeviceSide, DualConnectionsDevice,
    FirmwareVersion, HearIdType, VolumeAdjustments, WindNoise,
};

fn capture(ambient_sound_mode: u8) -> Vec<u8> {
    vec![
        1, 1, 5, 5, 0, 0, 48, 51, 46, 50, 51, 48, 51, 46, 50, 51, 51, 57, 53, 51, 53, 52, 67, 54,
        51, 51, 67, 67, 69, 69, 69, 56, 0, 0, 120, 120, 120, 120, 120, 120, 120, 120, 0, 0, 255,
        255, 255, 255, 255, 255, 255, 255, 255, 255, 255, 0, 60, 60, 60, 60, 60, 60, 60, 60, 0, 0,
        60, 60, 60, 60, 60, 60, 60, 60, 0, 0, 0, 0, 0, 0, 0, 60, 60, 60, 60, 60, 60, 60, 60, 0, 0,
        60, 60, 60, 60, 60, 60, 60, 60, 0, 0, 0, 0, 18, 17, 102, 17, 102, 17, 52, 17, 52, 17, 36,
        17, 36, 17, 82, 17, 83, 3, ambient_sound_mode, 48, 0, 0, 1, 1, 0, 0, 0, 0, 255, 255, 1, 1,
        0, 5, 0, 0, 0, 1, 2, 0, 1, 1, 1, 0, 1, 0, 0, 0, 0, 120, 255, 50, 0, 255, 255,
    ]
}

fn parse(body: &[u8]) -> A3953StateUpdatePacket {
    let (rest, packet) = A3953StateUpdatePacket::take(body).unwrap();
    assert_eq!(rest.len(), 0);
    packet
}

#[test]
fn parses_known_packet() {
    let packet = parse(&capture(2));
    let state = A3953State::new(packet, Vec::new());
    assert_eq!(state.tws_status.host_device, DeviceSide::Right);
    assert!(state.tws_status.is_connected);
    assert_eq!(state.battery.left.level, 5);
    assert_eq!(state.battery.right.level, 5);
    assert!(!state.battery.left.is_charging);
    assert!(!state.battery.right.is_charging);
    assert_eq!(state.dual_firmware_version.left, FirmwareVersion { major: 3, minor: 23 });
    assert_eq!(state.dual_firmware_version.right, FirmwareVersion { major: 3, minor: 23 });
    assert_eq!(&state.serial_number.0, b"395354C633CCEEE8");
    assert_eq!(state.sound_modes.ambient_sound_mode, AmbientSoundMode::Normal);
    assert!(state.sound_modes.wind_noise.is_suppression_enabled);
    assert!(state.wearing_detection.is_enabled);
    assert_eq!(state.case_battery_level.0, 5);
    assert!(!state.ldac.is_enabled);
    assert!(state.auto_power_off.is_enabled);
    assert_eq!(state.auto_power_off.duration, 2);
    assert!(state.wearing_tone.is_enabled);
    assert_eq!(state.press_sensitivity, PressSensitivity(0));
    assert!(state.low_battery_prompt.is_enabled);
    assert_eq!(state.ambient_sound_prompt, AmbientSoundPrompt(true));
    assert!(!state.dual_connections.is_enabled);
    assert!(!state.spatial_audio.is_enabled);
    assert_eq!(state.spatial_audio.sound_mode, SpatialContentMode::Music);
    assert_eq!(state.spatial_audio.effect_mode, SpatialMode::Fixed);
    for channel in state.equalizer_configuration.volume_adjustments.iter().take(1) {
        assert_eq!(&channel.bands[..8], &[120; 8]);
    }
}

#[test]
fn parses_known_packet_read_only_fields() {
    let packet = parse(&capture(2));
    assert!(!packet.ambient_sound_mode_cycle.normal_mode);
    assert!(packet.ambient_sound_mode_cycle.transparency_mode);
    assert!(packet.ambient_sound_mode_cycle.noise_canceling_mode);
    assert_eq!(packet.custom_length, 18);
    assert!(packet.unknown_gap.is_empty());
    assert_eq!(packet.device_colour, Some(50));
    assert_eq!(packet.press_sensitivity, Some(PressSensitivity(0)));
    assert_eq!(packet.unknown_suffix, vec![255, 255]);
    assert_eq!(packet.is_hear_id_initialized, IsHearIdInitialized(false));
    assert_eq!(packet.sound_modes.anc_option_manual, 3);
    assert_eq!(packet.sound_modes.anc_option_auto, 0);
    assert_eq!(packet.hear_id.volume_adjustments[0].bands, [60, 60, 60, 60, 60, 60, 60, 60, 0, 0]);
    assert_eq!(packet.hear_id.time, 0);
    assert_eq!(packet.hear_id.hear_id_type, HearIdType(0));
}

#[test]
fn parses_noise_canceling_mode() {
    let packet = parse(&capture(0));
    assert_eq!(packet.sound_modes.ambient_sound_mode, AmbientSoundMode::NoiseCanceling);
}

#[test]
fn parses_transparency_mode() {
    let packet = parse(&capture(1));
    assert_eq!(packet.sound_modes.ambient_sound_mode, AmbientSoundMode::Transparency);
}

#[test]
fn serialize_and_deserialize() {
    let bytes = A3953StateUpdatePacket::default().to_packet().bytes_with_checksum();
    let (_, packet) = Inbound::take_with_checksum(&bytes).unwrap();
    assert_eq!(packet.command, Command { first: 1, second: 1 });
    let (_, parsed) = A3953StateUpdatePacket::take(&packet.body).unwrap();
    assert_eq!(parsed.serial_number.0, [b'0'; 16]);
}

#[test]
fn framing_checks_prefix_length_and_checksum() {
    let inbound = Inbound { command: Command { first: 1, second: 1 }, body: vec![1, 2, 3] };
    let bytes = inbound.bytes_with_checksum();
    assert_eq!(bytes, vec![0x09, 0xFF, 0x00, 0x00, 0x01, 1, 1, 13, 0, 1, 2, 3, 0x1E]);
    let mut with_more = bytes.clone();
    with_more.push(0xAA);
    let (rest, read) = Inbound::take_with_checksum(&with_more).unwrap();
    assert_eq!(rest, &[0xAA]);
    assert_eq!(read.body, vec![1, 2, 3]);
    let mut corrupted = bytes.clone();
    corrupted[10] = 9;
    assert_eq!(Inbound::take_with_checksum(&corrupted).unwrap_err(), ParseError::ChecksumMismatch);
    let mut wrong_prefix = bytes.clone();
    wrong_prefix[0] = 0x08;
    assert_eq!(Inbound::take_with_checksum(&wrong_prefix).unwrap_err(), ParseError::InvalidValue);
    assert_eq!(Inbound::take_with_checksum(&bytes[..12]).unwrap_err(), ParseError::UnexpectedEndOfInput);
    let outbound = Outbound { command: Command { first: 4, second: 133 }, body: vec![3] };
    assert_eq!(outbound.bytes(), vec![0x08, 0xEE, 0x00, 0x00, 0x00, 4, 133, 11, 0, 3, 0x8D]);
}

#[test]
fn capture_body_reads_back_unchanged_apart_from_unknown_fields() {
    let body = capture(2);
    let packet = parse(&body);
    let written = packet.body();
    assert_eq!(written.len(), body.len());
    // Unknown fields are written as zeros: 127..133, 134..136, 137, 142, 149..154.
    for (i, (a, b)) in body.iter().zip(written.iter()).enumerate() {
        let unknown = (127..133).contains(&i)
            || (134..136).contains(&i)
            || i == 137
            || i == 142
            || (149..154).contains(&i);
        if !unknown {
            assert_eq!(a, b, "byte {i}");
        }
    }
    // The law proved for well-formed reports: writing and reading back gives the same report.
    assert_eq!(parse(&written), packet);
}

#[test]
fn short_or_malformed_bodies_are_refused() {
    let body = capture(2);
    assert_eq!(
        A3953StateUpdatePacket::take(&body[..100]).unwrap_err(),
        ParseError::UnexpectedEndOfInput
    );
    assert_eq!(
        A3953StateUpdatePacket::take(&body[..153]).unwrap_err(),
        ParseError::UnexpectedEndOfInput
    );
    // Longer than 154 bytes announces the colour and press sensitivity, which are missing here.
    assert_eq!(
        A3953StateUpdatePacket::take(&body[..155]).unwrap_err(),
        ParseError::UnexpectedEndOfInput
    );
    let mut bad_version = body.clone();
    bad_version[8] = b'x';
    assert_eq!(A3953StateUpdatePacket::take(&bad_version).unwrap_err(), ParseError::InvalidValue);
}

#[test]
fn body_of_exactly_154_bytes_has_no_colour_or_press_sensitivity() {
    let body = capture(2);
    let packet = parse(&body[..154]);
    assert_eq!(packet.device_colour, None);
    assert_eq!(packet.press_sensitivity, None);
    assert!(packet.unknown_suffix.is_empty());
    let state = A3953State::new(packet, Vec::new());
    assert_eq!(state.press_sensitivity, PressSensitivity(0));
}

#[test]
fn custom_length_above_18_opens_a_gap() {
    let mut body = capture(2);
    body[103] = 20;
    body.insert(120, 7);
    body.insert(120, 9);
    let packet = parse(&body);
    assert_eq!(packet.unknown_gap, vec![9, 7]);
    assert_eq!(packet.sound_modes.ambient_sound_mode, AmbientSoundMode::Normal);
    assert_eq!(packet.press_sensitivity, Some(PressSensitivity(0)));
    assert_eq!(packet.body(), body.iter().enumerate().map(|(i, b)| {
        if (129..135).contains(&i) || (136..138).contains(&i) || i == 139 || i == 144 || (151..156).contains(&i) { 0 } else { *b }
    }).collect::<Vec<_>>());
}

#[test]
fn update_keeps_the_dual_connection_devices() {
    let packet = parse(&capture(2));
    let device = DualConnectionsDevice { is_connected: true, mac_address: [1, 2, 3, 4, 5, 6], name: "Phone".to_string() };
    let mut state = A3953State::new(packet.clone(), vec![device]);
    let mut next = parse(&capture(0));
    next.dual_connections_enabled = true;
    state.update(next);
    assert_eq!(state.dual_connections.devices.len(), 1);
    assert_eq!(state.dual_connections.devices[0].name, "Phone");
    assert!(state.dual_connections.is_enabled);
    assert_eq!(state.sound_modes.ambient_sound_mode, AmbientSoundMode::NoiseCanceling);
}

#[test]
fn sound_modes_bytes_clamp_options() {
    let sound_modes = SoundModes {
        ambient_sound_mode: AmbientSoundMode::Transparency,
        anc_option_manual: 9,
        anc_option_auto: 0x1F,
        trans_option: 5,
        anc_automation_mode: 4,
        wind_noise: WindNoise { is_suppression_enabled: true, is_detected: true },
        anc_auto_sensitivity_level: 3,
    };
    assert_eq!(sound_modes.bytes(), [1, 0x6F, 2, 4, 1, 3]);
    let (_, read) = SoundModes::take(&sound_modes.bytes()).unwrap();
    assert_eq!(read.anc_option_manual, 6);
    assert_eq!(read.anc_option_auto, 0x0F);
    assert_eq!(read.trans_option, 2);
    assert!(!read.wind_noise.is_detected);
    let zero_manual = SoundModes { anc_option_manual: 0, ..sound_modes };
    assert_eq!(zero_manual.bytes()[1], 0x1F);
    let (_, read) = SoundModes::take(&[2, 0x00, 0, 0, 2, 0]).unwrap();
    assert_eq!(read.anc_option_manual, 1);
    assert_eq!(read.wind_noise, WindNoise { is_suppression_enabled: false, is_detected: true });
    assert_eq!(SoundModes::take(&[2, 0, 0]).unwrap_err(), ParseError::UnexpectedEndOfInput);
}

#[test]
fn press_sensitivity_is_limited_to_four() {
    assert_eq!(PressSensitivity(9).bytes(), [4]);
    assert_eq!(PressSensitivity(3).bytes(), [3]);
    let (rest, value) = PressSensitivity::take(&[7, 1]).unwrap();
    assert_eq!(value, PressSensitivity(4));
    assert_eq!(rest, &[1]);
}

#[test]
fn spatial_audio_round_trips_and_defaults_unknown_modes() {
    let spatial_audio = SpatialAudio {
        is_enabled: true,
        effect_mode: SpatialMode::HeadTracking,
        sound_mode: SpatialContentMode::Movie,
    };
    assert_eq!(spatial_audio.bytes(), [1, 2, 1]);
    let (_, read) = SpatialAudio::take(&spatial_audio.bytes()).unwrap();
    assert_eq!(read, spatial_audio);
    let (_, unknown) = SpatialAudio::take(&[2, 9, 9]).unwrap();
    assert_eq!(
        unknown,
        SpatialAudio { is_enabled: false, effect_mode: SpatialMode::Fixed, sound_mode: SpatialContentMode::Music }
    );
}

#[test]
fn ambient_sound_prompt_bytes() {
    assert_eq!(AmbientSoundPrompt(true).bytes(), [1]);
    assert_eq!(AmbientSoundPrompt(false).bytes(), [0]);
    let (_, read) = AmbientSoundPrompt::take(&[1]).unwrap();
    assert_eq!(read, AmbientSoundPrompt(true));
}

fn channel(bands: [u8; 10]) -> VolumeAdjustments {
    VolumeAdjustments { bands }
}

#[test]
fn sets_custom_equalizer() {
    let packet = parse(&capture(2));
    // Gains 60, -60, ... tenths of a decibel, stored as gain + 120.
    let new_bands = [180, 60, 180, 60, 180, 60, 180, 60, 120, 120];
    let equalizer = CommonEqualizerConfiguration { preset_id: 0xFEFE, volume_adjustments: [channel(new_bands), channel(new_bands)] };
    let drc = [channel([1, 2, 3, 4, 5, 6, 7, 8, 9, 10]), channel([11, 12, 13, 14, 15, 16, 17, 18, 19, 20])];
    let outbound = set_equalizer_configuration(&equalizer, &packet.hear_id, packet.is_hear_id_initialized.0, &drc);
    assert_eq!(outbound.command, Command { first: 3, second: 135 });
    let stored = [60, 60, 60, 60, 60, 60, 60, 60, 0, 0];
    let mut expected = Vec::new();
    expected.extend([254u8, 254u8]);
    expected.extend([0u8, 0u8]);
    expected.extend(new_bands);
    expected.extend(new_bands);
    expected.extend([255u8, 255u8]);
    expected.push(0);
    expected.extend(stored);
    expected.extend(stored);
    expected.extend(0u32.to_be_bytes());
    expected.push(0);
    expected.extend(stored);
    expected.extend(stored);
    expected.extend([1, 2, 3, 4, 5, 6, 7, 8, 9, 10]);
    expected.extend([11, 12, 13, 14, 15, 16, 17, 18, 19, 20]);
    expected.push(0);
    assert_eq!(outbound.body, expected);
}

#[test]
fn equalizer_write_marks_initialized_hear_id_and_unset_channels() {
    let flat = VolumeAdjustments::flat();
    let unset = channel([255; 10]);
    let hear_id = CustomHearId {
        is_enabled: true,
        volume_adjustments: [unset, flat],
        time: 0x0102_0304,
        hear_id_type: HearIdType(2),
        custom_volume_adjustments: [flat, unset],
        favorite_music_genre: [7, 8],
    };
    let equalizer = CommonEqualizerConfiguration::default();
    let outbound = set_equalizer_configuration(&equalizer, &hear_id, true, &[flat, flat]);
    let body = outbound.body;
    assert_eq!(body.len(), 93);
    assert_eq!(&body[0..4], &[0, 0, 7, 8]);
    assert_eq!(&body[24..26], &[0, 0]);
    assert_eq!(body[26], 1);
    assert_eq!(&body[27..37], &[255, 255, 255, 255, 255, 255, 255, 255, 255, 0]);
    assert_eq!(&body[47..51], &[1, 2, 3, 4]);
    assert_eq!(body[51], 2);
    assert_eq!(&body[62..72], &[255, 255, 255, 255, 255, 255, 255, 255, 255, 0]);
    assert_eq!(body[92], 0);
}

#[test]
fn hear_id_status_bytes() {
    assert_eq!(IsHearIdInitialized::from_status(255), IsHearIdInitialized(false));
    assert_eq!(IsHearIdInitialized::from_status(254), IsHearIdInitialized(false));
    assert_eq!(IsHearIdInitialized::from_status(0), IsHearIdInitialized(true));
    assert_eq!(IsHearIdInitialized::from_status(3), IsHearIdInitialized(true));
    assert_eq!(IsHearIdInitialized(true).status(), 0);
    assert_eq!(IsHearIdInitialized(false).status(), 255);
}

#[test]
fn firmware_version_formats_two_digits() {
    assert_eq!(FirmwareVersion { major: 3, minor: 23 }.bytes(), b"03.23".to_vec());
    assert_eq!(FirmwareVersion { major: 123, minor: 5 }.bytes(), b"123.05".to_vec());
    let (_, read) = FirmwareVersion::take(b"12.07").unwrap();
    assert_eq!(read, FirmwareVersion { major: 12, minor: 7 });
    assert_eq!(FirmwareVersion::take(b"1.234").unwrap_err(), ParseError::InvalidValue);
    assert_eq!(FirmwareVersion::take(b"12.3").unwrap_err(), ParseError::UnexpectedEndOfInput);
}

#[test]
fn non_canonical_report_reserializes_to_the_same_bytes() {
    let mut packet = parse(&capture(2));
    packet.sound_modes.anc_option_manual = 0;
    packet.sound_modes.trans_option = 5;
    packet.sound_modes.wind_noise.is_detected = true;
    packet.press_sensitivity = Some(PressSensitivity(9));
    let body = packet.body();
    let reparsed = parse(&body);
    assert_eq!(reparsed.body(), body);
    assert_eq!(reparsed.press_sensitivity, Some(PressSensitivity(4)));
    assert_eq!(reparsed.sound_modes.anc_option_manual, 1);
    assert_eq!(reparsed.sound_modes.trans_option, 2);
}

#[test]
fn dual_connection_devices_are_fetched_only_when_enabled() {
    let mut packet = parse(&capture(2));
    assert!(!should_fetch_dual_connection_devices(&packet));
    packet.dual_connections_enabled = true;
    assert!(should_fetch_dual_connection_devices(&packet));
}
