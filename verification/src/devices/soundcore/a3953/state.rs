use vstd::prelude::*;

use crate::devices::soundcore::a3953::packets::state_update::{
    lemma_state_report_head_offsets, lemma_state_report_settings_offsets, spec_fields_match, spec_parses,
    A3953StateUpdatePacket,
};
use crate::devices::soundcore::a3953::structures::{
    AmbientSoundPrompt, IsHearIdInitialized, PressSensitivity, SoundModes, SpatialAudio,
    SpatialContentMode, SpatialMode, SupportTwoConnections,
};
use crate::devices::soundcore::common::structures::{
    AmbientSoundMode, AutoPowerOff, CaseBatteryLevel, CommonEqualizerConfiguration, CustomHearId, DualBattery,
    DualConnections, DualConnectionsDevice, DualFirmwareVersion, Ldac, LowBatteryPrompt,
    SerialNumber, TwsStatus, WearingDetection, WearingTone,
};

verus! {

/// What the library knows of an A3953's settings and status.
#[derive(Debug, Clone, PartialEq, Eq)]
pub struct A3953State {
    pub tws_status: TwsStatus,
    pub battery: DualBattery,
    pub dual_firmware_version: DualFirmwareVersion,
    pub serial_number: SerialNumber,
    pub equalizer_configuration: CommonEqualizerConfiguration,
    pub is_hear_id_initialized: IsHearIdInitialized,
    pub hear_id: CustomHearId,
    pub sound_modes: SoundModes,
    pub wearing_detection: WearingDetection,
    pub case_battery_level: CaseBatteryLevel,
    pub ldac: Ldac,
    pub dual_connections: DualConnections,
    pub auto_power_off: AutoPowerOff,
    pub wearing_tone: WearingTone,
    pub low_battery_prompt: LowBatteryPrompt,
    pub ambient_sound_prompt: AmbientSoundPrompt,
    pub spatial_audio: SpatialAudio,
    pub press_sensitivity: PressSensitivity,
}

/// The press sensitivity a report carries, `0` when it carries none.
pub open spec fn spec_press_sensitivity_or_default(p: Option<PressSensitivity>) -> PressSensitivity {
    match p {
        Some(v) => v,
        None => PressSensitivity(0),
    }
}

/// The state built from a report and the separately fetched list of connected hosts.
pub open spec fn spec_new(packet: A3953StateUpdatePacket, devices: Vec<DualConnectionsDevice>) -> A3953State {
    A3953State {
        tws_status: packet.tws_status,
        battery: packet.battery,
        dual_firmware_version: packet.dual_firmware_version,
        serial_number: packet.serial_number,
        equalizer_configuration: packet.equalizer_configuration,
        is_hear_id_initialized: packet.is_hear_id_initialized,
        hear_id: packet.hear_id,
        sound_modes: packet.sound_modes,
        wearing_detection: packet.wearing_detection,
        case_battery_level: packet.case_battery_level,
        ldac: packet.ldac,
        dual_connections: DualConnections { is_enabled: packet.dual_connections_enabled, devices },
        auto_power_off: packet.auto_power_off,
        wearing_tone: packet.wearing_tone,
        low_battery_prompt: packet.low_battery_prompt,
        ambient_sound_prompt: packet.ambient_sound_prompt,
        spatial_audio: packet.spatial_audio,
        press_sensitivity: spec_press_sensitivity_or_default(packet.press_sensitivity),
    }
}

/// The state after a new report: every field the report carries is replaced, except that the
/// list of connected hosts, which a report does not carry, is kept.
pub open spec fn spec_update(state: A3953State, packet: A3953StateUpdatePacket) -> A3953State {
    spec_new(packet, state.dual_connections.devices)
}

impl A3953State {
    pub fn new(packet: A3953StateUpdatePacket, dual_connections_devices: Vec<DualConnectionsDevice>) -> (r: Self)
        ensures
            r == spec_new(packet, dual_connections_devices),
            r.tws_status == packet.tws_status,
            r.battery == packet.battery,
            r.dual_firmware_version == packet.dual_firmware_version,
            r.serial_number == packet.serial_number,
            r.equalizer_configuration == packet.equalizer_configuration,
            r.is_hear_id_initialized == packet.is_hear_id_initialized,
            r.hear_id == packet.hear_id,
            r.sound_modes == packet.sound_modes,
            r.wearing_detection == packet.wearing_detection,
            r.case_battery_level == packet.case_battery_level,
            r.ldac == packet.ldac,
            r.dual_connections.is_enabled == packet.dual_connections_enabled,
            r.dual_connections.devices == dual_connections_devices,
            r.auto_power_off == packet.auto_power_off,
            r.wearing_tone == packet.wearing_tone,
            r.low_battery_prompt == packet.low_battery_prompt,
            r.ambient_sound_prompt == packet.ambient_sound_prompt,
            r.spatial_audio == packet.spatial_audio,
            packet.press_sensitivity matches Some(v) ==> r.press_sensitivity == v,
            packet.press_sensitivity is None ==> r.press_sensitivity == PressSensitivity(0),
    {
        A3953State {
            tws_status: packet.tws_status,
            battery: packet.battery,
            dual_firmware_version: packet.dual_firmware_version,
            serial_number: packet.serial_number,
            equalizer_configuration: packet.equalizer_configuration,
            is_hear_id_initialized: packet.is_hear_id_initialized,
            hear_id: packet.hear_id,
            sound_modes: packet.sound_modes,
            wearing_detection: packet.wearing_detection,
            case_battery_level: packet.case_battery_level,
            ldac: packet.ldac,
            dual_connections: DualConnections {
                is_enabled: packet.dual_connections_enabled,
                devices: dual_connections_devices,
            },
            auto_power_off: packet.auto_power_off,
            wearing_tone: packet.wearing_tone,
            low_battery_prompt: packet.low_battery_prompt,
            ambient_sound_prompt: packet.ambient_sound_prompt,
            spatial_audio: packet.spatial_audio,
            press_sensitivity: match packet.press_sensitivity {
                Some(v) => v,
                None => PressSensitivity(0),
            },
        }
    }

    /// Takes in a new report. A report does not carry the list of connected hosts (that is
    /// fetched separately), so the list is kept and only the dual connections switch is
    /// refreshed.
    pub fn update(&mut self, packet: A3953StateUpdatePacket)
        ensures
            *final(self) == spec_update(*old(self), packet),
            final(self).tws_status == packet.tws_status,
            final(self).battery == packet.battery,
            final(self).dual_firmware_version == packet.dual_firmware_version,
            final(self).serial_number == packet.serial_number,
            final(self).equalizer_configuration == packet.equalizer_configuration,
            final(self).is_hear_id_initialized == packet.is_hear_id_initialized,
            final(self).hear_id == packet.hear_id,
            final(self).sound_modes == packet.sound_modes,
            final(self).wearing_detection == packet.wearing_detection,
            final(self).case_battery_level == packet.case_battery_level,
            final(self).ldac == packet.ldac,
            final(self).dual_connections.is_enabled == packet.dual_connections_enabled,
            final(self).dual_connections.devices == old(self).dual_connections.devices,
            final(self).auto_power_off == packet.auto_power_off,
            final(self).wearing_tone == packet.wearing_tone,
            final(self).low_battery_prompt == packet.low_battery_prompt,
            final(self).ambient_sound_prompt == packet.ambient_sound_prompt,
            final(self).spatial_audio == packet.spatial_audio,
            packet.press_sensitivity matches Some(v) ==> final(self).press_sensitivity == v,
            packet.press_sensitivity is None ==> final(self).press_sensitivity == PressSensitivity(0),
    {
        self.tws_status = packet.tws_status;
        self.battery = packet.battery;
        self.dual_firmware_version = packet.dual_firmware_version;
        self.serial_number = packet.serial_number;
        self.equalizer_configuration = packet.equalizer_configuration;
        self.is_hear_id_initialized = packet.is_hear_id_initialized;
        self.hear_id = packet.hear_id;
        self.sound_modes = packet.sound_modes;
        self.wearing_detection = packet.wearing_detection;
        self.case_battery_level = packet.case_battery_level;
        self.ldac = packet.ldac;
        self.dual_connections.is_enabled = packet.dual_connections_enabled;
        self.auto_power_off = packet.auto_power_off;
        self.wearing_tone = packet.wearing_tone;
        self.low_battery_prompt = packet.low_battery_prompt;
        self.ambient_sound_prompt = packet.ambient_sound_prompt;
        self.spatial_audio = packet.spatial_audio;
        self.press_sensitivity = match packet.press_sensitivity {
            Some(v) => v,
            None => PressSensitivity(0),
        };
    }

    /// The dual connections switch, seen as the flag that command `[0x0B, 0x84]` sets.
    pub fn support_two_connections(&self) -> (r: SupportTwoConnections)
        ensures
            r.0 == self.dual_connections.is_enabled,
    {
        SupportTwoConnections(self.dual_connections.is_enabled)
    }

    pub fn set_support_two_connections(&mut self, value: SupportTwoConnections)
        ensures
            *final(self) == (A3953State {
                dual_connections: DualConnections { is_enabled: value.0, devices: old(self).dual_connections.devices },
                ..*old(self)
            }),
    {
        self.dual_connections.is_enabled = value.0;
    }
}

/// Taking in a report keeps the list of connected hosts, and a state built from one report and
/// then updated with another is the state built from the second report with the same list.
pub proof fn lemma_update_after_new(
    first: A3953StateUpdatePacket,
    second: A3953StateUpdatePacket,
    devices: Vec<DualConnectionsDevice>,
)
    ensures
        spec_update(spec_new(first, devices), second) == spec_new(second, devices),
        spec_update(spec_new(first, devices), second).dual_connections.devices == devices,
{
}

/// Taking in the same report twice is the same as taking it in once.
pub proof fn lemma_update_idempotent(state: A3953State, packet: A3953StateUpdatePacket)
    ensures
        spec_update(spec_update(state, packet), packet) == spec_update(state, packet),
{
}

/// A state built from a report holds each value the report carries (the Hear ID status, the
/// sound modes, the switches, the batteries, and so on), the dual connections switch as the
/// report has it, the list of connected hosts it was given, and press sensitivity 0 when the
/// report carries none. Taking a report into a state sets the same values and keeps the list
/// of connected hosts that the state had.
pub proof fn lemma_state_holds_report(
    state: A3953State,
    packet: A3953StateUpdatePacket,
    devices: Vec<DualConnectionsDevice>,
)
    ensures
        ({
            let n = spec_new(packet, devices);
        &&& n.tws_status == packet.tws_status
        &&& n.battery == packet.battery
        &&& n.dual_firmware_version == packet.dual_firmware_version
        &&& n.serial_number == packet.serial_number
        &&& n.equalizer_configuration == packet.equalizer_configuration
        &&& n.is_hear_id_initialized == packet.is_hear_id_initialized
        &&& n.hear_id == packet.hear_id
        &&& n.sound_modes == packet.sound_modes
        &&& n.wearing_detection == packet.wearing_detection
        &&& n.case_battery_level == packet.case_battery_level
        &&& n.ldac == packet.ldac
        &&& n.dual_connections.is_enabled == packet.dual_connections_enabled
        &&& n.auto_power_off == packet.auto_power_off
        &&& n.wearing_tone == packet.wearing_tone
        &&& n.low_battery_prompt == packet.low_battery_prompt
        &&& n.ambient_sound_prompt == packet.ambient_sound_prompt
        &&& n.spatial_audio == packet.spatial_audio
        &&& (packet.press_sensitivity matches Some(v) ==> n.press_sensitivity == v)
        &&& (packet.press_sensitivity is None ==> n.press_sensitivity == PressSensitivity(0))
        &&& n.dual_connections.devices == devices
        }),
        ({
            let u = spec_update(state, packet);
        &&& u.tws_status == packet.tws_status
        &&& u.battery == packet.battery
        &&& u.dual_firmware_version == packet.dual_firmware_version
        &&& u.serial_number == packet.serial_number
        &&& u.equalizer_configuration == packet.equalizer_configuration
        &&& u.is_hear_id_initialized == packet.is_hear_id_initialized
        &&& u.hear_id == packet.hear_id
        &&& u.sound_modes == packet.sound_modes
        &&& u.wearing_detection == packet.wearing_detection
        &&& u.case_battery_level == packet.case_battery_level
        &&& u.ldac == packet.ldac
        &&& u.dual_connections.is_enabled == packet.dual_connections_enabled
        &&& u.auto_power_off == packet.auto_power_off
        &&& u.wearing_tone == packet.wearing_tone
        &&& u.low_battery_prompt == packet.low_battery_prompt
        &&& u.ambient_sound_prompt == packet.ambient_sound_prompt
        &&& u.spatial_audio == packet.spatial_audio
        &&& (packet.press_sensitivity matches Some(v) ==> u.press_sensitivity == v)
        &&& (packet.press_sensitivity is None ==> u.press_sensitivity == PressSensitivity(0))
        &&& u.dual_connections.devices == state.dual_connections.devices
        }),
{
}

/// A state built from a report that `take` read from the body `s` holds what the body's bytes
/// say, `g` being the length of the unknown gap: Hear ID initialized unless byte 54 is 255 or
/// 254; the ambient sound mode from byte 121 after the gap (1 transparency, 2 normal, else
/// noise canceling) and wind noise suppression from bit 0 of byte 125; LDAC and dual
/// connections on when bytes 138 and 139 are 1; spatial audio from bytes 146 to 148; the
/// press sensitivity from byte 155 limited to 4 when the body is longer than 154 bytes, and 0
/// otherwise.
pub proof fn lemma_state_from_body(
    s: Seq<u8>,
    packet: A3953StateUpdatePacket,
    devices: Vec<DualConnectionsDevice>,
    g: int,
)
    requires
        spec_parses(s),
        spec_fields_match(s, packet),
        g == (if s[103] >= 18 { s[103] - 18 } else { 0 }),
    ensures
        ({
            let n = spec_new(packet, devices);
            &&& n.is_hear_id_initialized.0 == (s[54] != 255 && s[54] != 254)
            &&& n.sound_modes.ambient_sound_mode == (if s[121 + g] == 1 {
                AmbientSoundMode::Transparency
            } else if s[121 + g] == 2 {
                AmbientSoundMode::Normal
            } else {
                AmbientSoundMode::NoiseCanceling
            })
            &&& n.sound_modes.wind_noise.is_suppression_enabled == (s[125 + g] % 2 == 1)
            &&& n.ldac.is_enabled == (s[138 + g] == 1)
            &&& n.dual_connections.is_enabled == (s[139 + g] == 1)
            &&& n.dual_connections.devices == devices
            &&& n.spatial_audio.is_enabled == (s[146 + g] == 1)
            &&& n.spatial_audio.effect_mode == (if s[147 + g] == 2 { SpatialMode::HeadTracking } else { SpatialMode::Fixed })
            &&& n.spatial_audio.sound_mode == (if s[148 + g] == 1 { SpatialContentMode::Movie } else { SpatialContentMode::Music })
            &&& n.press_sensitivity.0 == (if s.len() > 154 { if s[155 + g] > 4 { 4 } else { s[155 + g] } } else { 0 })
        }),
{
    lemma_state_report_head_offsets(s, packet);
    lemma_state_report_settings_offsets(s, packet, g);
}

} // verus!
