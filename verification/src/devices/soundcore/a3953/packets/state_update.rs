use vstd::prelude::*;

use crate::devices::soundcore::a3953::structures::{
    lemma_sound_modes_wire, lemma_spatial_audio_wire, AmbientSoundPrompt, ButtonConfig, IsHearIdInitialized, PressSensitivity, SoundModes, SpatialAudio,
    SpatialContentMode, SpatialMode,
};
use crate::devices::soundcore::common::{
    bytes::push_all,
    packet::{Command, Inbound},
    parsing::{bool_byte, spec_bool_from_byte, ParseError},
    structures::{
        spec_bool_byte, AmbientSoundModeCycle, AutoPowerOff, CaseBatteryLevel,
        AmbientSoundMode, CommonEqualizerConfiguration, CustomHearId, DeviceSide, DualBattery,
        DualFirmwareVersion, FirmwareVersion, Ldac, LowBatteryPrompt, SerialNumber, SingleBattery,
        TwsStatus, WearingDetection, WearingTone, WindNoise,
    },
};

verus! {

/// How many unknown bytes follow the button configuration: the custom length minus 18, or 0.
pub open spec fn spec_gap_len(custom_length: u8) -> int {
    if custom_length >= 18 { custom_length - 18 } else { 0 }
}

/// `n` zero bytes.
pub open spec fn spec_zeros(n: nat) -> Seq<u8> {
    Seq::new(n, |i: int| 0u8)
}

/// The full state report of the A3953. Offsets below are into the packet body.
#[derive(Debug, Clone, PartialEq, Eq)]
pub struct A3953StateUpdatePacket {
    pub tws_status: TwsStatus,
    pub battery: DualBattery,
    pub dual_firmware_version: DualFirmwareVersion,
    pub serial_number: SerialNumber,
    pub equalizer_configuration: CommonEqualizerConfiguration,
    pub is_hear_id_initialized: IsHearIdInitialized,
    pub hear_id: CustomHearId,
    pub custom_length: u8,
    pub button_config: ButtonConfig,
    pub unknown_gap: Vec<u8>,
    pub ambient_sound_mode_cycle: AmbientSoundModeCycle,
    pub sound_modes: SoundModes,
    pub wearing_detection: WearingDetection,
    pub case_battery_level: CaseBatteryLevel,
    pub ldac: Ldac,
    pub dual_connections_enabled: bool,
    pub auto_power_off: AutoPowerOff,
    pub wearing_tone: WearingTone,
    pub low_battery_prompt: LowBatteryPrompt,
    pub ambient_sound_prompt: AmbientSoundPrompt,
    pub spatial_audio: SpatialAudio,
    pub device_colour: Option<u8>,
    pub press_sensitivity: Option<PressSensitivity>,
    pub unknown_suffix: Vec<u8>,
}

/// The body `s` is long enough for its gap and its optional fields, and its firmware versions
/// read as `DD.DD`.
pub open spec fn spec_parses(s: Seq<u8>) -> bool {
    &&& s.len() >= 104
    &&& s.len() >= 154 + spec_gap_len(s[103])
    &&& DualFirmwareVersion::spec_valid(s.skip(6))
    &&& s.len() > 154 ==> s.len() >= 156 + spec_gap_len(s[103])
}

/// The fields of `p` read from bytes 0 to 120 of `s`.
#[verifier::opaque]
pub open spec fn spec_head_fields(s: Seq<u8>, p: A3953StateUpdatePacket) -> bool {
    &&& p.tws_status == TwsStatus::spec_decode(s)
    &&& p.battery == DualBattery::spec_decode(s.skip(2))
    &&& p.dual_firmware_version == DualFirmwareVersion::spec_decode(s.skip(6))
    &&& p.serial_number.0@ == s.subrange(16, 32)
    &&& CommonEqualizerConfiguration::spec_decode(s.skip(32), p.equalizer_configuration)
    &&& p.is_hear_id_initialized == IsHearIdInitialized::spec_from_status(s[54])
    &&& CustomHearId::spec_decode(s.skip(55), p.hear_id)
    &&& p.custom_length == s[103]
    &&& p.button_config.0@ == s.subrange(104, 120)
}

/// The fields of `p` read from the gap and the 34 bytes after it, the gap being `g` long.
#[verifier::opaque]
pub open spec fn spec_mid_fields(s: Seq<u8>, g: int, p: A3953StateUpdatePacket) -> bool {
    &&& p.unknown_gap@ == s.subrange(120, 120 + g)
    &&& p.ambient_sound_mode_cycle == AmbientSoundModeCycle::spec_from_byte(s[120 + g])
    &&& p.sound_modes == SoundModes::spec_decode(s.skip(121 + g))
    &&& p.wearing_detection.is_enabled == spec_bool_from_byte(s[133 + g])
    &&& p.case_battery_level.0 == s[136 + g]
    &&& p.ldac.is_enabled == spec_bool_from_byte(s[138 + g])
    &&& p.dual_connections_enabled == spec_bool_from_byte(s[139 + g])
    &&& p.auto_power_off == (AutoPowerOff { is_enabled: spec_bool_from_byte(s[140 + g]), duration: s[141 + g] })
    &&& p.wearing_tone.is_enabled == spec_bool_from_byte(s[143 + g])
    &&& p.low_battery_prompt.is_enabled == spec_bool_from_byte(s[144 + g])
    &&& p.ambient_sound_prompt.0 == spec_bool_from_byte(s[145 + g])
    &&& p.spatial_audio == SpatialAudio::spec_decode(s.skip(146 + g))
}

/// The optional fields and the suffix of `p`, read from what follows the fixed block.
#[verifier::opaque]
pub open spec fn spec_tail_fields(s: Seq<u8>, g: int, p: A3953StateUpdatePacket) -> bool {
    if s.len() > 154 {
        &&& p.device_colour == Some(s[154 + g])
        &&& p.press_sensitivity == Some(PressSensitivity::spec_from_byte(s[155 + g]))
        &&& p.unknown_suffix@ == s.skip(156 + g)
    } else {
        &&& p.device_colour is None
        &&& p.press_sensitivity is None
        &&& p.unknown_suffix@ == s.skip(154 + g)
    }
}

/// `p` holds what the body `s` says.
pub open spec fn spec_fields_match(s: Seq<u8>, p: A3953StateUpdatePacket) -> bool {
    &&& spec_head_fields(s, p)
    &&& spec_mid_fields(s, spec_gap_len(s[103]), p)
    &&& spec_tail_fields(s, spec_gap_len(s[103]), p)
}

/// Appends `n` zero bytes.
fn push_zeros(out: &mut Vec<u8>, n: usize)
    ensures
        final(out)@ == old(out)@ + spec_zeros(n as nat),
{
    let ghost start = out@;
    let mut i: usize = 0;
    while i < n
        invariant
            i <= n,
            out@ == start + spec_zeros(i as nat),
        decreases n - i,
    {
        out.push(0);
        i = i + 1;
        assert(out@ =~= start + spec_zeros(i as nat));
    }
}

/// `s` from offset `off` on.
fn at(s: &[u8], off: usize) -> (r: &[u8])
    requires
        off <= s@.len(),
    ensures
        r@ == s@.skip(off as int),
{
    let r = vstd::slice::slice_subrange(s, off, s.len());
    assert(r@ =~= s@.skip(off as int));
    r
}

impl A3953StateUpdatePacket {
    /// The two packets hold the same values, their byte lists compared by content.
    pub open spec fn spec_same(self, other: Self) -> bool {
        &&& self.tws_status == other.tws_status
        &&& self.battery == other.battery
        &&& self.dual_firmware_version == other.dual_firmware_version
        &&& self.serial_number == other.serial_number
        &&& self.equalizer_configuration == other.equalizer_configuration
        &&& self.is_hear_id_initialized == other.is_hear_id_initialized
        &&& self.hear_id == other.hear_id
        &&& self.custom_length == other.custom_length
        &&& self.button_config == other.button_config
        &&& self.unknown_gap@ == other.unknown_gap@
        &&& self.ambient_sound_mode_cycle == other.ambient_sound_mode_cycle
        &&& self.sound_modes == other.sound_modes
        &&& self.wearing_detection == other.wearing_detection
        &&& self.case_battery_level == other.case_battery_level
        &&& self.ldac == other.ldac
        &&& self.dual_connections_enabled == other.dual_connections_enabled
        &&& self.auto_power_off == other.auto_power_off
        &&& self.wearing_tone == other.wearing_tone
        &&& self.low_battery_prompt == other.low_battery_prompt
        &&& self.ambient_sound_prompt == other.ambient_sound_prompt
        &&& self.spatial_audio == other.spatial_audio
        &&& self.device_colour == other.device_colour
        &&& self.press_sensitivity == other.press_sensitivity
        &&& self.unknown_suffix@ == other.unknown_suffix@
    }

    /// A packet that reads back as itself: firmware versions of two digits each, a gap as long
    /// as the custom length says, sound modes and press sensitivity within their ranges, the
    /// colour and press sensitivity present together, and, when they are absent, no gap and no
    /// suffix (so that the body keeps the length that marks them absent).
    pub open spec fn wf(self) -> bool {
        &&& self.wf_layout()
        &&& self.sound_modes == self.sound_modes.spec_normalized()
        &&& (self.press_sensitivity matches Some(p) ==> p.0 <= 4)
    }

    /// A packet whose body parses: firmware versions of two digits each, a gap as long as the
    /// custom length says, the colour and press sensitivity present together, and, when they
    /// are absent, no gap and no suffix.
    pub open spec fn wf_layout(self) -> bool {
        &&& self.dual_firmware_version.wf()
        &&& self.unknown_gap@.len() == spec_gap_len(self.custom_length)
        &&& (self.device_colour is Some <==> self.press_sensitivity is Some)
        &&& (self.device_colour is None ==> self.unknown_gap@.len() + self.unknown_suffix@.len() == 0)
    }

    /// Bytes 0 to 120 of the body.
    pub open spec fn spec_head(self) -> Seq<u8> {
        self.tws_status.spec_bytes() + self.battery.spec_bytes() + self.dual_firmware_version.spec_bytes()
            + self.serial_number.spec_bytes() + self.equalizer_configuration.spec_bytes()
            + seq![self.is_hear_id_initialized.spec_status()] + self.hear_id.spec_bytes_with_music_genre_at_end()
            + seq![self.custom_length] + self.button_config.0@
    }

    /// Byte `k` of the 34 bytes after the gap; unknown fields are written as zeros.
    pub open spec fn spec_mid_byte(self, k: int) -> u8 {
        let sm = self.sound_modes.spec_bytes();
        let sa = self.spatial_audio.spec_bytes();
        if k == 0 {
            self.ambient_sound_mode_cycle.spec_byte()
        } else if k < 7 {
            sm[k - 1]
        } else if k < 13 {
            0
        } else if k == 13 {
            spec_bool_byte(self.wearing_detection.is_enabled)
        } else if k < 16 {
            0
        } else if k == 16 {
            self.case_battery_level.0
        } else if k == 17 {
            0
        } else if k == 18 {
            spec_bool_byte(self.ldac.is_enabled)
        } else if k == 19 {
            spec_bool_byte(self.dual_connections_enabled)
        } else if k == 20 {
            spec_bool_byte(self.auto_power_off.is_enabled)
        } else if k == 21 {
            self.auto_power_off.duration
        } else if k == 22 {
            0
        } else if k == 23 {
            spec_bool_byte(self.wearing_tone.is_enabled)
        } else if k == 24 {
            spec_bool_byte(self.low_battery_prompt.is_enabled)
        } else if k == 25 {
            spec_bool_byte(self.ambient_sound_prompt.0)
        } else if k < 29 {
            sa[k - 26]
        } else {
            0
        }
    }

    /// The 34 bytes after the gap: the cycle, the sound modes, six unknown bytes, wearing
    /// detection, two unknown, the case battery, one unknown, LDAC, dual connections, auto power
    /// off, one unknown, the wearing tone, the low battery prompt, the ambient sound prompt,
    /// spatial audio, five unknown.
    pub open spec fn spec_mid(self) -> Seq<u8> {
        Seq::new(34, |k: int| self.spec_mid_byte(k))
    }

    /// The optional colour and press sensitivity, then the suffix.
    pub open spec fn spec_tail(self) -> Seq<u8> {
        (match self.device_colour {
            Some(c) => seq![c],
            None => Seq::empty(),
        }) + (match self.press_sensitivity {
            Some(p) => p.spec_bytes(),
            None => Seq::empty(),
        }) + self.unknown_suffix@
    }

    /// The packet body: the fields in wire order, with zeros where unknown fields were read.
    pub open spec fn spec_body(self) -> Seq<u8> {
        self.spec_head() + self.unknown_gap@ + self.spec_mid() + self.spec_tail()
    }

    fn head_bytes(&self) -> (r: Vec<u8>)
        ensures
            r@ == self.spec_head(),
    {
        let mut r = Vec::new();
        push_all(&mut r, &self.tws_status.bytes());
        push_all(&mut r, &self.battery.bytes());
        let fw = self.dual_firmware_version.bytes();
        push_all(&mut r, fw.as_slice());
        push_all(&mut r, &self.serial_number.bytes());
        let eq = self.equalizer_configuration.bytes();
        push_all(&mut r, eq.as_slice());
        r.push(self.is_hear_id_initialized.status());
        let hear_id = self.hear_id.bytes_with_music_genre_at_end();
        push_all(&mut r, hear_id.as_slice());
        r.push(self.custom_length);
        push_all(&mut r, &self.button_config.bytes());
        assert(r@ =~= self.spec_head());
        r
    }

    fn mid_byte(&self, sm: &[u8; 6], sa: &[u8; 3], k: usize) -> (r: u8)
        requires
            sm@ == self.sound_modes.spec_bytes(),
            sa@ == self.spatial_audio.spec_bytes(),
            k < 34,
        ensures
            r == self.spec_mid_byte(k as int),
    {
        if k == 0 {
            self.ambient_sound_mode_cycle.bytes()[0]
        } else if k < 7 {
            sm[k - 1]
        } else if k < 13 {
            0
        } else if k == 13 {
            bool_byte(self.wearing_detection.is_enabled)
        } else if k < 16 {
            0
        } else if k == 16 {
            self.case_battery_level.0
        } else if k == 17 {
            0
        } else if k == 18 {
            bool_byte(self.ldac.is_enabled)
        } else if k == 19 {
            bool_byte(self.dual_connections_enabled)
        } else if k == 20 {
            bool_byte(self.auto_power_off.is_enabled)
        } else if k == 21 {
            self.auto_power_off.duration
        } else if k == 22 {
            0
        } else if k == 23 {
            bool_byte(self.wearing_tone.is_enabled)
        } else if k == 24 {
            bool_byte(self.low_battery_prompt.is_enabled)
        } else if k == 25 {
            bool_byte(self.ambient_sound_prompt.0)
        } else if k < 29 {
            sa[k - 26]
        } else {
            0
        }
    }

    fn mid_bytes(&self) -> (r: Vec<u8>)
        ensures
            r@ == self.spec_mid(),
    {
        let sm = self.sound_modes.bytes();
        let sa = self.spatial_audio.bytes();
        let mut r = Vec::new();
        let mut k: usize = 0;
        while k < 34
            invariant
                k <= 34,
                sm@ == self.sound_modes.spec_bytes(),
                sa@ == self.spatial_audio.spec_bytes(),
                r@ == Seq::new(k as nat, |j: int| self.spec_mid_byte(j)),
            decreases 34 - k,
        {
            r.push(self.mid_byte(&sm, &sa, k));
            k = k + 1;
            assert(r@ =~= Seq::new(k as nat, |j: int| self.spec_mid_byte(j)));
        }
        r
    }

    fn tail_bytes(&self) -> (r: Vec<u8>)
        ensures
            r@ == self.spec_tail(),
    {
        let mut r = Vec::new();
        match self.device_colour {
            Some(c) => r.push(c),
            None => {},
        }
        match self.press_sensitivity {
            Some(p) => push_all(&mut r, &p.bytes()),
            None => {},
        }
        push_all(&mut r, self.unknown_suffix.as_slice());
        assert(r@ =~= self.spec_tail());
        r
    }

    /// The packet body: the fields in wire order, zeros where unknown fields were read, then
    /// the colour and press sensitivity when present, then the unknown suffix.
    pub fn body(&self) -> (r: Vec<u8>)
        ensures
            r@ == self.spec_body(),
    {
        let mut r = self.head_bytes();
        push_all(&mut r, self.unknown_gap.as_slice());
        let mid = self.mid_bytes();
        push_all(&mut r, mid.as_slice());
        let tail = self.tail_bytes();
        push_all(&mut r, tail.as_slice());
        r
    }

    /// The packet as received from the device: the state command and the body.
    pub fn to_packet(&self) -> (r: Inbound)
        ensures
            r.command == (Command { first: 1, second: 1 }),
            r.body@ == self.spec_body(),
    {
        Inbound::new(self.command(), self.body())
    }

    /// Every field at its default: no gap, no colour or press sensitivity, no suffix, the serial
    /// number sixteen `'0'`s, firmware versions `00.00`, Hear ID not initialized.
    pub fn default() -> (r: Self)
        ensures
            r.wf_layout(),
            r.tws_status == (TwsStatus { host_device: DeviceSide::Left, is_connected: false }),
            r.battery == (DualBattery {
                left: SingleBattery { level: 0, is_charging: false },
                right: SingleBattery { level: 0, is_charging: false },
            }),
            r.dual_firmware_version == (DualFirmwareVersion {
                left: FirmwareVersion { major: 0, minor: 0 },
                right: FirmwareVersion { major: 0, minor: 0 },
            }),
            r.serial_number.0@ == Seq::new(16, |i: int| 48u8),
            r.equalizer_configuration.preset_id == 0,
            forall|c: int| 0 <= c < 2 ==> #[trigger] r.equalizer_configuration.volume_adjustments@[c].bands@
                == Seq::new(10, |i: int| 120u8),
            r.is_hear_id_initialized == IsHearIdInitialized(false),
            !r.hear_id.is_enabled,
            r.hear_id.time == 0,
            r.hear_id.hear_id_type.0 == 0,
            r.hear_id.favorite_music_genre@ == seq![0u8, 0u8],
            forall|c: int| 0 <= c < 2 ==> #[trigger] r.hear_id.volume_adjustments@[c].bands@ == Seq::new(10, |i: int| 120u8),
            forall|c: int| 0 <= c < 2 ==> #[trigger] r.hear_id.custom_volume_adjustments@[c].bands@
                == Seq::new(10, |i: int| 120u8),
            r.custom_length == 0,
            r.button_config.0@ == Seq::new(16, |i: int| 0u8),
            r.unknown_gap@.len() == 0,
            r.ambient_sound_mode_cycle == (AmbientSoundModeCycle {
                noise_canceling_mode: false,
                transparency_mode: false,
                normal_mode: false,
            }),
            r.sound_modes == (SoundModes {
                ambient_sound_mode: AmbientSoundMode::NoiseCanceling,
                anc_option_manual: 0,
                anc_option_auto: 0,
                trans_option: 0,
                anc_automation_mode: 0,
                wind_noise: WindNoise { is_suppression_enabled: false, is_detected: false },
                anc_auto_sensitivity_level: 0,
            }),
            !r.wearing_detection.is_enabled,
            r.case_battery_level.0 == 0,
            !r.ldac.is_enabled,
            !r.dual_connections_enabled,
            r.auto_power_off == (AutoPowerOff { is_enabled: false, duration: 0 }),
            !r.wearing_tone.is_enabled,
            !r.low_battery_prompt.is_enabled,
            r.ambient_sound_prompt == AmbientSoundPrompt(false),
            r.spatial_audio == (SpatialAudio {
                is_enabled: false,
                effect_mode: SpatialMode::Fixed,
                sound_mode: SpatialContentMode::Music,
            }),
            r.device_colour is None,
            r.press_sensitivity is None,
            r.unknown_suffix@.len() == 0,
    {
        let zero_version = FirmwareVersion { major: 0, minor: 0 };
        A3953StateUpdatePacket {
            tws_status: TwsStatus { host_device: DeviceSide::Left, is_connected: false },
            battery: DualBattery {
                left: SingleBattery { level: 0, is_charging: false },
                right: SingleBattery { level: 0, is_charging: false },
            },
            dual_firmware_version: DualFirmwareVersion { left: zero_version, right: zero_version },
            serial_number: SerialNumber::default(),
            equalizer_configuration: CommonEqualizerConfiguration::default(),
            is_hear_id_initialized: IsHearIdInitialized(false),
            hear_id: CustomHearId::default(),
            custom_length: 0,
            button_config: ButtonConfig::default(),
            unknown_gap: Vec::new(),
            ambient_sound_mode_cycle: AmbientSoundModeCycle {
                noise_canceling_mode: false,
                transparency_mode: false,
                normal_mode: false,
            },
            sound_modes: SoundModes {
                ambient_sound_mode: AmbientSoundMode::NoiseCanceling,
                anc_option_manual: 0,
                anc_option_auto: 0,
                trans_option: 0,
                anc_automation_mode: 0,
                wind_noise: WindNoise { is_suppression_enabled: false, is_detected: false },
                anc_auto_sensitivity_level: 0,
            },
            wearing_detection: WearingDetection { is_enabled: false },
            case_battery_level: CaseBatteryLevel(0),
            ldac: Ldac { is_enabled: false },
            dual_connections_enabled: false,
            auto_power_off: AutoPowerOff { is_enabled: false, duration: 0 },
            wearing_tone: WearingTone { is_enabled: false },
            low_battery_prompt: LowBatteryPrompt { is_enabled: false },
            ambient_sound_prompt: AmbientSoundPrompt(false),
            spatial_audio: SpatialAudio {
                is_enabled: false,
                effect_mode: SpatialMode::Fixed,
                sound_mode: SpatialContentMode::Music,
            },
            device_colour: None,
            press_sensitivity: None,
            unknown_suffix: Vec::new(),
        }
    }

    /// The command of a state report.
    pub fn command(&self) -> (r: Command)
        ensures
            r == (Command { first: 1, second: 1 }),
    {
        Command::state()
    }

    /// Reads a state report body. All of the input is consumed; the colour and press
    /// sensitivity are read only when the body is longer than 154 bytes.
    pub fn take(input: &[u8]) -> (r: Result<(&[u8], Self), ParseError>)
        ensures
            spec_parses(input@) <==> r is Ok,
            r matches Ok((rest, p)) ==> rest@.len() == 0 && spec_fields_match(input@, p),
    {
        let n = input.len();
        if n < 104 {
            return Err(ParseError::UnexpectedEndOfInput);
        }
        let custom_length = input[103];
        let g: usize = if custom_length >= 18 { (custom_length - 18) as usize } else { 0 };
        if n < 154 + g {
            return Err(ParseError::UnexpectedEndOfInput);
        }
        assert(spec_gap_len(input@[103]) == g as int);
        let head = take_head(input)?;
        let mid = take_mid(input, g);
        let (device_colour, press_sensitivity, suffix_start) = if n > 154 {
            if n < 156 + g {
                return Err(ParseError::UnexpectedEndOfInput);
            }
            let (_, press_sensitivity) = PressSensitivity::take(at(input, 155 + g))?;
            (Some(input[154 + g]), Some(press_sensitivity), 156 + g)
        } else {
            (None, None, 154 + g)
        };
        let unknown_gap = vstd::slice::slice_to_vec(vstd::slice::slice_subrange(input, 120, 120 + g));
        let unknown_suffix = vstd::slice::slice_to_vec(at(input, suffix_start));
        let rest = vstd::slice::slice_subrange(input, n, n);
        assert(rest@ =~= Seq::<u8>::empty());
        let p = assemble(input, g, head, mid, unknown_gap, device_colour, press_sensitivity, unknown_suffix);
        Ok((rest, p))
    }
}

#[verifier::spinoff_prover]
fn assemble(
    input: &[u8],
    g: usize,
    head: Head,
    mid: Mid,
    unknown_gap: Vec<u8>,
    device_colour: Option<u8>,
    press_sensitivity: Option<PressSensitivity>,
    unknown_suffix: Vec<u8>,
) -> (p: A3953StateUpdatePacket)
    requires
        input@.len() >= 154 + g,
        g == spec_gap_len(input@[103]),
        head.tws_status == TwsStatus::spec_decode(input@),
        head.battery == DualBattery::spec_decode(input@.skip(2)),
        head.dual_firmware_version == DualFirmwareVersion::spec_decode(input@.skip(6)),
        head.serial_number.0@ == input@.subrange(16, 32),
        CommonEqualizerConfiguration::spec_decode(input@.skip(32), head.equalizer_configuration),
        head.is_hear_id_initialized == IsHearIdInitialized::spec_from_status(input@[54]),
        CustomHearId::spec_decode(input@.skip(55), head.hear_id),
        head.button_config.0@ == input@.subrange(104, 120),
        unknown_gap@ == input@.subrange(120, 120 + g),
        mid.ambient_sound_mode_cycle == AmbientSoundModeCycle::spec_from_byte(input@[120 + g]),
        mid.sound_modes == SoundModes::spec_decode(input@.skip(121 + g)),
        mid.wearing_detection.is_enabled == spec_bool_from_byte(input@[133 + g]),
        mid.case_battery_level.0 == input@[136 + g],
        mid.ldac.is_enabled == spec_bool_from_byte(input@[138 + g]),
        mid.dual_connections_enabled == spec_bool_from_byte(input@[139 + g]),
        mid.auto_power_off == (AutoPowerOff { is_enabled: spec_bool_from_byte(input@[140 + g]), duration: input@[141 + g] }),
        mid.wearing_tone.is_enabled == spec_bool_from_byte(input@[143 + g]),
        mid.low_battery_prompt.is_enabled == spec_bool_from_byte(input@[144 + g]),
        mid.ambient_sound_prompt.0 == spec_bool_from_byte(input@[145 + g]),
        mid.spatial_audio == SpatialAudio::spec_decode(input@.skip(146 + g)),
        if input@.len() > 154 {
            &&& device_colour == Some(input@[154 + g])
            &&& press_sensitivity == Some(PressSensitivity::spec_from_byte(input@[155 + g]))
            &&& unknown_suffix@ == input@.skip(156 + g)
        } else {
            &&& device_colour is None
            &&& press_sensitivity is None
            &&& unknown_suffix@ == input@.skip(154 + g)
        },
    ensures
        spec_fields_match(input@, p),
{
    let p = A3953StateUpdatePacket {
        tws_status: head.tws_status,
        battery: head.battery,
        dual_firmware_version: head.dual_firmware_version,
        serial_number: head.serial_number,
        equalizer_configuration: head.equalizer_configuration,
        is_hear_id_initialized: head.is_hear_id_initialized,
        hear_id: head.hear_id,
        custom_length: input[103],
        button_config: head.button_config,
        unknown_gap,
        ambient_sound_mode_cycle: mid.ambient_sound_mode_cycle,
        sound_modes: mid.sound_modes,
        wearing_detection: mid.wearing_detection,
        case_battery_level: mid.case_battery_level,
        ldac: mid.ldac,
        dual_connections_enabled: mid.dual_connections_enabled,
        auto_power_off: mid.auto_power_off,
        wearing_tone: mid.wearing_tone,
        low_battery_prompt: mid.low_battery_prompt,
        ambient_sound_prompt: mid.ambient_sound_prompt,
        spatial_audio: mid.spatial_audio,
        device_colour,
        press_sensitivity,
        unknown_suffix,
    };
    assert(spec_head_fields(input@, p)) by {
        reveal(spec_head_fields);
    }
    assert(spec_mid_fields(input@, g as int, p)) by {
        reveal(spec_mid_fields);
    }
    assert(spec_tail_fields(input@, g as int, p)) by {
        reveal(spec_tail_fields);
    }
    p
}

/// The fields of bytes 0 to 120.
struct Head {
    tws_status: TwsStatus,
    battery: DualBattery,
    dual_firmware_version: DualFirmwareVersion,
    serial_number: SerialNumber,
    equalizer_configuration: CommonEqualizerConfiguration,
    is_hear_id_initialized: IsHearIdInitialized,
    hear_id: CustomHearId,
    button_config: ButtonConfig,
}

/// The fields of the 34 bytes after the gap.
struct Mid {
    ambient_sound_mode_cycle: AmbientSoundModeCycle,
    sound_modes: SoundModes,
    wearing_detection: WearingDetection,
    case_battery_level: CaseBatteryLevel,
    ldac: Ldac,
    dual_connections_enabled: bool,
    auto_power_off: AutoPowerOff,
    wearing_tone: WearingTone,
    low_battery_prompt: LowBatteryPrompt,
    ambient_sound_prompt: AmbientSoundPrompt,
    spatial_audio: SpatialAudio,
}

fn take_head(input: &[u8]) -> (r: Result<Head, ParseError>)
    requires
        input@.len() >= 120,
    ensures
        DualFirmwareVersion::spec_valid(input@.skip(6)) <==> r is Ok,
        r matches Ok(h) ==> {
            &&& h.tws_status == TwsStatus::spec_decode(input@)
            &&& h.battery == DualBattery::spec_decode(input@.skip(2))
            &&& h.dual_firmware_version == DualFirmwareVersion::spec_decode(input@.skip(6))
            &&& h.serial_number.0@ == input@.subrange(16, 32)
            &&& CommonEqualizerConfiguration::spec_decode(input@.skip(32), h.equalizer_configuration)
            &&& h.is_hear_id_initialized == IsHearIdInitialized::spec_from_status(input@[54])
            &&& CustomHearId::spec_decode(input@.skip(55), h.hear_id)
            &&& h.button_config.0@ == input@.subrange(104, 120)
        },
{
    let (_, tws_status) = TwsStatus::take(input)?;
    let (_, battery) = DualBattery::take(at(input, 2))?;
    let (_, dual_firmware_version) = DualFirmwareVersion::take(at(input, 6))?;
    let (_, serial_number) = SerialNumber::take(at(input, 16))?;
    assert(input@.skip(16).subrange(0, 16) =~= input@.subrange(16, 32));
    let (_, equalizer_configuration) = CommonEqualizerConfiguration::take(at(input, 32))?;
    let is_hear_id_initialized = IsHearIdInitialized::from_status(input[54]);
    let (_, hear_id) = CustomHearId::take_with_music_genre_at_end(at(input, 55))?;
    let (_, button_config) = ButtonConfig::take(at(input, 104))?;
    assert(input@.skip(104).subrange(0, 16) =~= input@.subrange(104, 120));
    Ok(Head {
        tws_status,
        battery,
        dual_firmware_version,
        serial_number,
        equalizer_configuration,
        is_hear_id_initialized,
        hear_id,
        button_config,
    })
}

fn take_mid(input: &[u8], g: usize) -> (m: Mid)
    requires
        g <= 255,
        input@.len() >= 154 + g,
    ensures
        m.ambient_sound_mode_cycle == AmbientSoundModeCycle::spec_from_byte(input@[120 + g]),
        m.sound_modes == SoundModes::spec_decode(input@.skip(121 + g)),
        m.wearing_detection.is_enabled == spec_bool_from_byte(input@[133 + g]),
        m.case_battery_level.0 == input@[136 + g],
        m.ldac.is_enabled == spec_bool_from_byte(input@[138 + g]),
        m.dual_connections_enabled == spec_bool_from_byte(input@[139 + g]),
        m.auto_power_off == (AutoPowerOff { is_enabled: spec_bool_from_byte(input@[140 + g]), duration: input@[141 + g] }),
        m.wearing_tone.is_enabled == spec_bool_from_byte(input@[143 + g]),
        m.low_battery_prompt.is_enabled == spec_bool_from_byte(input@[144 + g]),
        m.ambient_sound_prompt.0 == spec_bool_from_byte(input@[145 + g]),
        m.spatial_audio == SpatialAudio::spec_decode(input@.skip(146 + g)),
{
    let (_, ambient_sound_mode_cycle) = AmbientSoundModeCycle::take(at(input, 120 + g)).unwrap();
    let (_, sound_modes) = SoundModes::take(at(input, 121 + g)).unwrap();
    let (_, wearing_detection) = WearingDetection::take(at(input, 133 + g)).unwrap();
    let (_, case_battery_level) = CaseBatteryLevel::take(at(input, 136 + g)).unwrap();
    let (_, ldac) = Ldac::take(at(input, 138 + g)).unwrap();
    let (_, auto_power_off) = AutoPowerOff::take(at(input, 140 + g)).unwrap();
    let (_, wearing_tone) = WearingTone::take(at(input, 143 + g)).unwrap();
    let (_, low_battery_prompt) = LowBatteryPrompt::take(at(input, 144 + g)).unwrap();
    let (_, ambient_sound_prompt) = AmbientSoundPrompt::take(at(input, 145 + g)).unwrap();
    let (_, spatial_audio) = SpatialAudio::take(at(input, 146 + g)).unwrap();
    Mid {
        ambient_sound_mode_cycle,
        sound_modes,
        wearing_detection,
        case_battery_level,
        ldac,
        dual_connections_enabled: input[139 + g] == 1,
        auto_power_off,
        wearing_tone,
        low_battery_prompt,
        ambient_sound_prompt,
        spatial_audio,
    }
}

/// Which bodies `take` accepts: at least 104 bytes; then, with the gap as long as the custom
/// length (byte 103) minus 18 or empty, at least 154 bytes plus the gap, both firmware
/// versions as ASCII `DD.DD` at 6 and 11, and, when longer than 154 bytes, room for the
/// colour and press sensitivity after the gap and the fixed block.
pub proof fn lemma_state_report_accepted(s: Seq<u8>, g: int)
    requires
        g == (if s[103] >= 18 { s[103] - 18 } else { 0 }),
    ensures
        spec_parses(s) <==> {
            &&& s.len() >= 104
            &&& s.len() >= 154 + g
            &&& 48 <= s[6] <= 57 && 48 <= s[7] <= 57 && s[8] == 46 && 48 <= s[9] <= 57 && 48 <= s[10] <= 57
            &&& 48 <= s[11] <= 57 && 48 <= s[12] <= 57 && s[13] == 46 && 48 <= s[14] <= 57 && 48 <= s[15] <= 57
            &&& s.len() > 154 ==> s.len() >= 156 + g
        },
{
    if s.len() >= 104 {
        assert(s.skip(6).skip(5)[0] == s[11] && s.skip(6).skip(5)[1] == s[12] && s.skip(6).skip(5)[2] == s[13]);
        assert(s.skip(6).skip(5)[3] == s[14] && s.skip(6).skip(5)[4] == s[15]);
    }
}

/// Where each value sits in the first 120 bytes of a state report body that `take` accepts:
/// the earbud that talks to the host (1 right, else left) and whether the earbuds are linked
/// at 0 and 1; battery levels left and right at 2 and 3, charging left and right at 4 and 5;
/// the firmware versions as ASCII `DD.DD` at 6 and 11; the serial number at 16 to 32; the
/// equalizer preset (little-endian) at 32 and its two channels of ten bands from 34; the Hear
/// ID status at 54, which says no Hear ID is held when it is 255 or 254; the Hear ID switch at
/// 55, its two channels from 56, its time (big-endian) at 76, its type at 80, its two custom
/// channels from 81 and the music genre at 101 and 102; the custom length at 103; the button
/// configuration at 104 to 120. A switch is on only when its byte is 1.
pub proof fn lemma_state_report_head_offsets(s: Seq<u8>, p: A3953StateUpdatePacket)
    requires
        spec_parses(s),
        spec_fields_match(s, p),
    ensures
        p.tws_status.host_device == (if s[0] == 1 { DeviceSide::Right } else { DeviceSide::Left }),
        p.tws_status.is_connected == (s[1] == 1),
        p.battery.left.level == s[2],
        p.battery.right.level == s[3],
        p.battery.left.is_charging == (s[4] == 1),
        p.battery.right.is_charging == (s[5] == 1),
        p.dual_firmware_version.left.major == (s[6] - 48) * 10 + (s[7] - 48),
        p.dual_firmware_version.left.minor == (s[9] - 48) * 10 + (s[10] - 48),
        p.dual_firmware_version.right.major == (s[11] - 48) * 10 + (s[12] - 48),
        p.dual_firmware_version.right.minor == (s[14] - 48) * 10 + (s[15] - 48),
        p.serial_number.0@ == s.subrange(16, 32),
        p.equalizer_configuration.preset_id == s[32] + 256 * s[33],
        p.equalizer_configuration.volume_adjustments@[0].bands@ == s.subrange(34, 44),
        p.equalizer_configuration.volume_adjustments@[1].bands@ == s.subrange(44, 54),
        p.is_hear_id_initialized.0 == (s[54] != 255 && s[54] != 254),
        p.hear_id.is_enabled == (s[55] == 1),
        p.hear_id.volume_adjustments@[0].bands@ == s.subrange(56, 66),
        p.hear_id.volume_adjustments@[1].bands@ == s.subrange(66, 76),
        p.hear_id.time == s[76] * 0x100_0000 + s[77] * 0x1_0000 + s[78] * 256 + s[79],
        p.hear_id.hear_id_type.0 == s[80],
        p.hear_id.custom_volume_adjustments@[0].bands@ == s.subrange(81, 91),
        p.hear_id.custom_volume_adjustments@[1].bands@ == s.subrange(91, 101),
        p.hear_id.favorite_music_genre@ == s.subrange(101, 103),
        p.custom_length == s[103],
        p.button_config.0@ == s.subrange(104, 120),
{
    broadcast use vstd::array::group_array_axioms;
    reveal(spec_head_fields);
    let eq = p.equalizer_configuration.volume_adjustments;
    let hv = p.hear_id.volume_adjustments;
    let hc = p.hear_id.custom_volume_adjustments;
    assert(eq@[0].bands@ =~= s.subrange(34, 44)) by {
        assert forall|i: int| 0 <= i < 10 implies #[trigger] eq@[0].bands@[i] == s.subrange(34, 44)[i] by {
            assert(s.skip(32).skip(2)[i] == s[34 + i]);
        }
    }
    assert(eq@[1].bands@ =~= s.subrange(44, 54)) by {
        assert forall|i: int| 0 <= i < 10 implies #[trigger] eq@[1].bands@[i] == s.subrange(44, 54)[i] by {
            assert(s.skip(32).skip(2)[10 + i] == s[44 + i]);
        }
    }
    assert(hv@[0].bands@ =~= s.subrange(56, 66)) by {
        assert forall|i: int| 0 <= i < 10 implies #[trigger] hv@[0].bands@[i] == s.subrange(56, 66)[i] by {
            assert(s.skip(55).skip(1)[i] == s[56 + i]);
        }
    }
    assert(hv@[1].bands@ =~= s.subrange(66, 76)) by {
        assert forall|i: int| 0 <= i < 10 implies #[trigger] hv@[1].bands@[i] == s.subrange(66, 76)[i] by {
            assert(s.skip(55).skip(1)[10 + i] == s[66 + i]);
        }
    }
    assert(hc@[0].bands@ =~= s.subrange(81, 91)) by {
        assert forall|i: int| 0 <= i < 10 implies #[trigger] hc@[0].bands@[i] == s.subrange(81, 91)[i] by {
            assert(s.skip(55).skip(26)[i] == s[81 + i]);
        }
    }
    assert(hc@[1].bands@ =~= s.subrange(91, 101)) by {
        assert forall|i: int| 0 <= i < 10 implies #[trigger] hc@[1].bands@[i] == s.subrange(91, 101)[i] by {
            assert(s.skip(55).skip(26)[10 + i] == s[91 + i]);
        }
    }
    assert(p.hear_id.favorite_music_genre@ =~= s.subrange(101, 103));
    assert(s.skip(6).skip(5)[0] == s[11] && s.skip(6).skip(5)[1] == s[12]);
    assert(s.skip(6).skip(5)[3] == s[14] && s.skip(6).skip(5)[4] == s[15]);
}

/// Where each setting sits after the button configuration in a state report body that `take`
/// accepts. The unknown gap is as long as the custom length (byte 103) minus 18, or empty;
/// counted from its end come the ambient sound mode cycle (bit 0 noise canceling, bit 1
/// transparency, bit 2 normal) at 0; the sound modes at 1 to 6 (the mode: 1 transparency, 2
/// normal, else noise canceling; the manual noise canceling option in the high four bits of
/// the next byte limited to `1..=6`, the automatic one in its low four bits; the transparency
/// option; the automation mode; wind noise suppression in bit 0 and detected wind in bit 1;
/// the automatic sensitivity level); wearing detection at 13; the case battery at 16; LDAC at
/// 18; dual connections at 19; auto power off and its duration at 20 and 21; the wearing tone
/// at 23; the low battery prompt at 24; the ambient sound prompt at 25; spatial audio at 26 to
/// 28 (the switch; 2 head tracking, else fixed; 1 movie, else music). A body longer than 154
/// bytes then holds the colour and the press sensitivity (limited to 4); the rest is the
/// suffix. A switch is on only when its byte is 1.
pub proof fn lemma_state_report_settings_offsets(s: Seq<u8>, p: A3953StateUpdatePacket, g: int)
    requires
        spec_parses(s),
        spec_fields_match(s, p),
        g == (if s[103] >= 18 { s[103] - 18 } else { 0 }),
    ensures
        p.unknown_gap@ == s.subrange(120, 120 + g),
        p.ambient_sound_mode_cycle.noise_canceling_mode == (s[120 + g] % 2 == 1),
        p.ambient_sound_mode_cycle.transparency_mode == ((s[120 + g] / 2) % 2 == 1),
        p.ambient_sound_mode_cycle.normal_mode == ((s[120 + g] / 4) % 2 == 1),
        p.sound_modes.ambient_sound_mode == (if s[121 + g] == 1 {
            AmbientSoundMode::Transparency
        } else if s[121 + g] == 2 {
            AmbientSoundMode::Normal
        } else {
            AmbientSoundMode::NoiseCanceling
        }),
        p.sound_modes.anc_option_manual == (if s[122 + g] < 16 {
            1u8
        } else if s[122 + g] >= 112 {
            6u8
        } else {
            s[122 + g] / 16
        }),
        p.sound_modes.anc_option_auto == s[122 + g] % 16,
        p.sound_modes.trans_option == s[123 + g],
        p.sound_modes.anc_automation_mode == s[124 + g],
        p.sound_modes.wind_noise.is_suppression_enabled == (s[125 + g] % 2 == 1),
        p.sound_modes.wind_noise.is_detected == ((s[125 + g] / 2) % 2 == 1),
        p.sound_modes.anc_auto_sensitivity_level == s[126 + g],
        p.wearing_detection.is_enabled == (s[133 + g] == 1),
        p.case_battery_level.0 == s[136 + g],
        p.ldac.is_enabled == (s[138 + g] == 1),
        p.dual_connections_enabled == (s[139 + g] == 1),
        p.auto_power_off.is_enabled == (s[140 + g] == 1),
        p.auto_power_off.duration == s[141 + g],
        p.wearing_tone.is_enabled == (s[143 + g] == 1),
        p.low_battery_prompt.is_enabled == (s[144 + g] == 1),
        p.ambient_sound_prompt.0 == (s[145 + g] == 1),
        p.spatial_audio.is_enabled == (s[146 + g] == 1),
        p.spatial_audio.effect_mode == (if s[147 + g] == 2 { SpatialMode::HeadTracking } else { SpatialMode::Fixed }),
        p.spatial_audio.sound_mode == (if s[148 + g] == 1 { SpatialContentMode::Movie } else { SpatialContentMode::Music }),
        s.len() > 154 ==> {
            &&& p.device_colour == Some(s[154 + g])
            &&& p.press_sensitivity == Some(PressSensitivity(if s[155 + g] > 4 { 4 } else { s[155 + g] }))
            &&& p.unknown_suffix@ == s.skip(156 + g)
        },
        s.len() <= 154 ==> {
            &&& p.device_colour is None
            &&& p.press_sensitivity is None
            &&& p.unknown_suffix@ == s.skip(154 + g)
        },
{
    reveal(spec_mid_fields);
    reveal(spec_tail_fields);
    assert(g == spec_gap_len(s[103]));
    lemma_sound_modes_wire(p.sound_modes, s.skip(121 + g));
    lemma_spatial_audio_wire(p.spatial_audio, s.skip(146 + g));
}

/// Where `body` writes each value of the first 120 bytes of a report whose firmware versions
/// have two digits a part (a part of 100 or more takes three and moves everything after it):
/// the offsets that `take` reads. Switches are written 1 on, 0 off; the Hear ID status is 0
/// when Hear ID data is held and 255 when not; the firmware versions as ASCII `DD.DD`; the
/// preset little-endian and the Hear ID time big-endian.
#[verifier::spinoff_prover]
#[verifier::rlimit(80)]
pub proof fn lemma_state_report_body_head_offsets(p: A3953StateUpdatePacket, b: Seq<u8>)
    requires
        p.dual_firmware_version.wf(),
        b == p.spec_body(),
    ensures
        b[0] == (if p.tws_status.host_device == DeviceSide::Right { 1u8 } else { 0u8 }),
        b[1] == (if p.tws_status.is_connected { 1u8 } else { 0u8 }),
        b[2] == p.battery.left.level,
        b[3] == p.battery.right.level,
        b[4] == (if p.battery.left.is_charging { 1u8 } else { 0u8 }),
        b[5] == (if p.battery.right.is_charging { 1u8 } else { 0u8 }),
        b[6] == p.dual_firmware_version.left.major / 10 + 48,
        b[7] == p.dual_firmware_version.left.major % 10 + 48,
        b[8] == 46,
        b[9] == p.dual_firmware_version.left.minor / 10 + 48,
        b[10] == p.dual_firmware_version.left.minor % 10 + 48,
        b[11] == p.dual_firmware_version.right.major / 10 + 48,
        b[12] == p.dual_firmware_version.right.major % 10 + 48,
        b[13] == 46,
        b[14] == p.dual_firmware_version.right.minor / 10 + 48,
        b[15] == p.dual_firmware_version.right.minor % 10 + 48,
        b.subrange(16, 32) == p.serial_number.0@,
        b[32] == p.equalizer_configuration.preset_id % 256,
        b[33] == p.equalizer_configuration.preset_id / 256,
        b.subrange(34, 44) == p.equalizer_configuration.volume_adjustments@[0].bands@,
        b.subrange(44, 54) == p.equalizer_configuration.volume_adjustments@[1].bands@,
        b[54] == (if p.is_hear_id_initialized.0 { 0u8 } else { 255u8 }),
        b[55] == (if p.hear_id.is_enabled { 1u8 } else { 0u8 }),
        b.subrange(56, 66) == p.hear_id.volume_adjustments@[0].bands@,
        b.subrange(66, 76) == p.hear_id.volume_adjustments@[1].bands@,
        b[76] == p.hear_id.time / 0x100_0000,
        b[77] == (p.hear_id.time / 0x1_0000) % 256,
        b[78] == (p.hear_id.time / 256) % 256,
        b[79] == p.hear_id.time % 256,
        b[80] == p.hear_id.hear_id_type.0,
        b.subrange(81, 91) == p.hear_id.custom_volume_adjustments@[0].bands@,
        b.subrange(91, 101) == p.hear_id.custom_volume_adjustments@[1].bands@,
        b.subrange(101, 103) == p.hear_id.favorite_music_genre@,
        b[103] == p.custom_length,
        b.subrange(104, 120) == p.button_config.0@,
{
    broadcast use vstd::array::group_array_axioms;
    let h = p.spec_head();
    let fw = p.dual_firmware_version.spec_bytes();
    let eq = p.equalizer_configuration.spec_bytes();
    let hid = p.hear_id.spec_bytes_with_music_genre_at_end();
    assert(fw =~= p.dual_firmware_version.left.spec_bytes() + p.dual_firmware_version.right.spec_bytes());
    assert(h.len() == 120);
    assert(b.subrange(0, 120) =~= h);
    assert forall|k: int| 0 <= k < 120 implies #[trigger] b[k] == h[k] by {
        assert(b.subrange(0, 120)[k] == b[k]);
    }
    assert(h.subrange(0, 2) =~= p.tws_status.spec_bytes());
    assert(h.subrange(2, 6) =~= p.battery.spec_bytes());
    assert(h.subrange(6, 16) =~= fw);
    assert(h.subrange(16, 32) =~= p.serial_number.spec_bytes());
    assert(h.subrange(32, 54) =~= eq);
    assert(h.subrange(55, 103) =~= hid);
    assert(h.subrange(104, 120) =~= p.button_config.0@);
    assert(b.subrange(16, 32) =~= h.subrange(16, 32));
    assert(b.subrange(104, 120) =~= h.subrange(104, 120));
    assert(b.subrange(34, 44) =~= eq.subrange(2, 12));
    assert(b.subrange(44, 54) =~= eq.subrange(12, 22));
    assert(eq.subrange(2, 12) =~= p.equalizer_configuration.volume_adjustments@[0].bands@);
    assert(eq.subrange(12, 22) =~= p.equalizer_configuration.volume_adjustments@[1].bands@);
    assert(b.subrange(56, 66) =~= hid.subrange(1, 11));
    assert(b.subrange(66, 76) =~= hid.subrange(11, 21));
    assert(b.subrange(81, 91) =~= hid.subrange(26, 36));
    assert(b.subrange(91, 101) =~= hid.subrange(36, 46));
    assert(b.subrange(101, 103) =~= hid.subrange(46, 48));
    assert(hid.subrange(1, 11) =~= p.hear_id.volume_adjustments@[0].bands@);
    assert(hid.subrange(11, 21) =~= p.hear_id.volume_adjustments@[1].bands@);
    assert(hid.subrange(26, 36) =~= p.hear_id.custom_volume_adjustments@[0].bands@);
    assert(hid.subrange(36, 46) =~= p.hear_id.custom_volume_adjustments@[1].bands@);
    assert(hid.subrange(46, 48) =~= p.hear_id.favorite_music_genre@);
    assert(b[76] == hid[21] && b[77] == hid[22] && b[78] == hid[23] && b[79] == hid[24] && b[80] == hid[25]);
    assert(b[55] == hid[0]);
    assert(b[32] == eq[0] && b[33] == eq[1]);
    assert(b[54] == h[54] && b[103] == h[103]);
}

/// Where `body` writes each setting after the button configuration of a report whose firmware
/// versions have two digits a part, `g` being the length of the unknown gap: the offsets that
/// `take` reads. Switches are written 1 on, 0 off; the sound modes with the manual option
/// limited to `1..=6` and the transparency option to 2; spatial audio as 1 fixed, 2 head
/// tracking, 0 music, 1 movie; zeros where the unknown fields were; then the colour and the
/// press sensitivity (limited to 4) when present, and the suffix.
#[verifier::spinoff_prover]
#[verifier::rlimit(80)]
pub proof fn lemma_state_report_body_settings_offsets(p: A3953StateUpdatePacket, b: Seq<u8>, g: int)
    requires
        p.dual_firmware_version.wf(),
        b == p.spec_body(),
        g == p.unknown_gap@.len(),
    ensures
        b.len() == 154 + g + (if p.device_colour is Some { 1int } else { 0 })
            + (if p.press_sensitivity is Some { 1int } else { 0 }) + p.unknown_suffix@.len(),
        b.subrange(120, 120 + g) == p.unknown_gap@,
        b[120 + g] == (if p.ambient_sound_mode_cycle.noise_canceling_mode { 1int } else { 0 })
            + (if p.ambient_sound_mode_cycle.transparency_mode { 2int } else { 0 })
            + (if p.ambient_sound_mode_cycle.normal_mode { 4int } else { 0 }),
        b[121 + g] == (if p.sound_modes.ambient_sound_mode == AmbientSoundMode::Transparency {
            1u8
        } else if p.sound_modes.ambient_sound_mode == AmbientSoundMode::Normal {
            2u8
        } else {
            0u8
        }),
        b[122 + g] == (if p.sound_modes.anc_option_manual < 1 {
            1int
        } else if p.sound_modes.anc_option_manual > 6 {
            6int
        } else {
            p.sound_modes.anc_option_manual as int
        }) * 16 + p.sound_modes.anc_option_auto % 16,
        b[123 + g] == (if p.sound_modes.trans_option > 2 { 2u8 } else { p.sound_modes.trans_option }),
        b[124 + g] == p.sound_modes.anc_automation_mode,
        b[125 + g] == (if p.sound_modes.wind_noise.is_suppression_enabled { 1u8 } else { 0u8 }),
        b[126 + g] == p.sound_modes.anc_auto_sensitivity_level,
        b[127 + g] == 0,
        b[128 + g] == 0,
        b[129 + g] == 0,
        b[130 + g] == 0,
        b[131 + g] == 0,
        b[132 + g] == 0,
        b[133 + g] == (if p.wearing_detection.is_enabled { 1u8 } else { 0u8 }),
        b[134 + g] == 0,
        b[135 + g] == 0,
        b[136 + g] == p.case_battery_level.0,
        b[137 + g] == 0,
        b[138 + g] == (if p.ldac.is_enabled { 1u8 } else { 0u8 }),
        b[139 + g] == (if p.dual_connections_enabled { 1u8 } else { 0u8 }),
        b[140 + g] == (if p.auto_power_off.is_enabled { 1u8 } else { 0u8 }),
        b[141 + g] == p.auto_power_off.duration,
        b[142 + g] == 0,
        b[143 + g] == (if p.wearing_tone.is_enabled { 1u8 } else { 0u8 }),
        b[144 + g] == (if p.low_battery_prompt.is_enabled { 1u8 } else { 0u8 }),
        b[145 + g] == (if p.ambient_sound_prompt.0 { 1u8 } else { 0u8 }),
        b[146 + g] == (if p.spatial_audio.is_enabled { 1u8 } else { 0u8 }),
        b[147 + g] == (if p.spatial_audio.effect_mode == SpatialMode::HeadTracking { 2u8 } else { 1u8 }),
        b[148 + g] == (if p.spatial_audio.sound_mode == SpatialContentMode::Movie { 1u8 } else { 0u8 }),
        b[149 + g] == 0,
        b[150 + g] == 0,
        b[151 + g] == 0,
        b[152 + g] == 0,
        b[153 + g] == 0,
        p.device_colour matches Some(c) ==> b[154 + g] == c,
        p.press_sensitivity matches Some(v) ==> b[b.len() - p.unknown_suffix@.len() - 1] == (if v.0 > 4 {
            4u8
        } else {
            v.0
        }),
        b.skip(b.len() - p.unknown_suffix@.len()) == p.unknown_suffix@,
{
    lemma_body_after_head(p, b, g);
    lemma_mid_byte_values(p);
    assert(b[120 + g + 0] == p.spec_mid_byte(0));
    assert(b[120 + g + 1] == p.spec_mid_byte(1));
    assert(b[120 + g + 2] == p.spec_mid_byte(2));
    assert(b[120 + g + 3] == p.spec_mid_byte(3));
    assert(b[120 + g + 4] == p.spec_mid_byte(4));
    assert(b[120 + g + 5] == p.spec_mid_byte(5));
    assert(b[120 + g + 6] == p.spec_mid_byte(6));
    assert(b[120 + g + 7] == p.spec_mid_byte(7));
    assert(b[120 + g + 8] == p.spec_mid_byte(8));
    assert(b[120 + g + 9] == p.spec_mid_byte(9));
    assert(b[120 + g + 10] == p.spec_mid_byte(10));
    assert(b[120 + g + 11] == p.spec_mid_byte(11));
    assert(b[120 + g + 12] == p.spec_mid_byte(12));
    assert(b[120 + g + 13] == p.spec_mid_byte(13));
    assert(b[120 + g + 14] == p.spec_mid_byte(14));
    assert(b[120 + g + 15] == p.spec_mid_byte(15));
    assert(b[120 + g + 16] == p.spec_mid_byte(16));
    assert(b[120 + g + 17] == p.spec_mid_byte(17));
    assert(b[120 + g + 18] == p.spec_mid_byte(18));
    assert(b[120 + g + 19] == p.spec_mid_byte(19));
    assert(b[120 + g + 20] == p.spec_mid_byte(20));
    assert(b[120 + g + 21] == p.spec_mid_byte(21));
    assert(b[120 + g + 22] == p.spec_mid_byte(22));
    assert(b[120 + g + 23] == p.spec_mid_byte(23));
    assert(b[120 + g + 24] == p.spec_mid_byte(24));
    assert(b[120 + g + 25] == p.spec_mid_byte(25));
    assert(b[120 + g + 26] == p.spec_mid_byte(26));
    assert(b[120 + g + 27] == p.spec_mid_byte(27));
    assert(b[120 + g + 28] == p.spec_mid_byte(28));
    assert(b[120 + g + 29] == p.spec_mid_byte(29));
    assert(b[120 + g + 30] == p.spec_mid_byte(30));
    assert(b[120 + g + 31] == p.spec_mid_byte(31));
    assert(b[120 + g + 32] == p.spec_mid_byte(32));
    assert(b[120 + g + 33] == p.spec_mid_byte(33));
}

/// The 34 bytes after the gap, one by one.
proof fn lemma_mid_byte_values(p: A3953StateUpdatePacket)
    ensures
        p.spec_mid_byte(0) == (if p.ambient_sound_mode_cycle.noise_canceling_mode { 1int } else { 0 })
            + (if p.ambient_sound_mode_cycle.transparency_mode { 2int } else { 0 })
            + (if p.ambient_sound_mode_cycle.normal_mode { 4int } else { 0 }),
        p.spec_mid_byte(1) == (if p.sound_modes.ambient_sound_mode == AmbientSoundMode::Transparency {
            1u8
        } else if p.sound_modes.ambient_sound_mode == AmbientSoundMode::Normal {
            2u8
        } else {
            0u8
        }),
        p.spec_mid_byte(2) == (if p.sound_modes.anc_option_manual < 1 {
            1int
        } else if p.sound_modes.anc_option_manual > 6 {
            6int
        } else {
            p.sound_modes.anc_option_manual as int
        }) * 16 + p.sound_modes.anc_option_auto % 16,
        p.spec_mid_byte(3) == (if p.sound_modes.trans_option > 2 { 2u8 } else { p.sound_modes.trans_option }),
        p.spec_mid_byte(4) == p.sound_modes.anc_automation_mode,
        p.spec_mid_byte(5) == (if p.sound_modes.wind_noise.is_suppression_enabled { 1u8 } else { 0u8 }),
        p.spec_mid_byte(6) == p.sound_modes.anc_auto_sensitivity_level,
        p.spec_mid_byte(7) == 0,
        p.spec_mid_byte(8) == 0,
        p.spec_mid_byte(9) == 0,
        p.spec_mid_byte(10) == 0,
        p.spec_mid_byte(11) == 0,
        p.spec_mid_byte(12) == 0,
        p.spec_mid_byte(13) == (if p.wearing_detection.is_enabled { 1u8 } else { 0u8 }),
        p.spec_mid_byte(14) == 0,
        p.spec_mid_byte(15) == 0,
        p.spec_mid_byte(16) == p.case_battery_level.0,
        p.spec_mid_byte(17) == 0,
        p.spec_mid_byte(18) == (if p.ldac.is_enabled { 1u8 } else { 0u8 }),
        p.spec_mid_byte(19) == (if p.dual_connections_enabled { 1u8 } else { 0u8 }),
        p.spec_mid_byte(20) == (if p.auto_power_off.is_enabled { 1u8 } else { 0u8 }),
        p.spec_mid_byte(21) == p.auto_power_off.duration,
        p.spec_mid_byte(22) == 0,
        p.spec_mid_byte(23) == (if p.wearing_tone.is_enabled { 1u8 } else { 0u8 }),
        p.spec_mid_byte(24) == (if p.low_battery_prompt.is_enabled { 1u8 } else { 0u8 }),
        p.spec_mid_byte(25) == (if p.ambient_sound_prompt.0 { 1u8 } else { 0u8 }),
        p.spec_mid_byte(26) == (if p.spatial_audio.is_enabled { 1u8 } else { 0u8 }),
        p.spec_mid_byte(27) == (if p.spatial_audio.effect_mode == SpatialMode::HeadTracking { 2u8 } else { 1u8 }),
        p.spec_mid_byte(28) == (if p.spatial_audio.sound_mode == SpatialContentMode::Movie { 1u8 } else { 0u8 }),
        p.spec_mid_byte(29) == 0,
        p.spec_mid_byte(30) == 0,
        p.spec_mid_byte(31) == 0,
        p.spec_mid_byte(32) == 0,
        p.spec_mid_byte(33) == 0,
{
    lemma_sound_modes_wire(p.sound_modes, p.sound_modes.spec_bytes());
}

/// The body after its first 120 bytes: the gap, the 34 bytes of settings, then the optional
/// fields and the suffix.
proof fn lemma_body_after_head(p: A3953StateUpdatePacket, b: Seq<u8>, g: int)
    requires
        p.dual_firmware_version.wf(),
        b == p.spec_body(),
        g == p.unknown_gap@.len(),
    ensures
        b.len() == 154 + g + (if p.device_colour is Some { 1int } else { 0 })
            + (if p.press_sensitivity is Some { 1int } else { 0 }) + p.unknown_suffix@.len(),
        b.subrange(120, 120 + g) == p.unknown_gap@,
        forall|k: int| 0 <= k < 34 ==> #[trigger] b[120 + g + k] == p.spec_mid_byte(k),
        p.device_colour matches Some(c) ==> b[154 + g] == c,
        p.press_sensitivity matches Some(v) ==> b[b.len() - p.unknown_suffix@.len() - 1] == (if v.0 > 4 {
            4u8
        } else {
            v.0
        }),
        b.skip(b.len() - p.unknown_suffix@.len()) == p.unknown_suffix@,
{
    let h = p.spec_head();
    let m = p.spec_mid();
    let t = p.spec_tail();
    assert(h.len() == 120);
    assert(b.subrange(120, 120 + g) =~= p.unknown_gap@);
    assert(b.subrange(120 + g, 154 + g) =~= m);
    assert(b.skip(154 + g) =~= t);
    assert forall|k: int| 0 <= k < 34 implies #[trigger] b[120 + g + k] == m[k] by {
        assert(b.subrange(120 + g, 154 + g)[k] == b[120 + g + k]);
    }
    assert(b.skip(b.len() - p.unknown_suffix@.len()) =~= p.unknown_suffix@);
    match p.press_sensitivity {
        Some(v) => {
            assert(b[b.len() - p.unknown_suffix@.len() - 1] == t[t.len() - p.unknown_suffix@.len() - 1]);
        },
        None => {},
    }
    match p.device_colour {
        Some(c) => {
            assert(b[154 + g] == t[0]);
        },
        None => {},
    }
}

/// Every index of `a` below `n` holds what the same index of `b` holds.
pub open spec fn spec_agree(a: Seq<u8>, b: Seq<u8>, n: int) -> bool {
    forall|k: int| 0 <= k < n ==> #[trigger] a[k] == b[k]
}

/// The head of a well-formed report reads back as its own fields, and as no others.
#[verifier::spinoff_prover]
#[verifier::rlimit(30)]
proof fn lemma_head_roundtrip(p: A3953StateUpdatePacket, s: Seq<u8>)
    requires
        p.dual_firmware_version.wf(),
        s.len() >= 120,
        s.subrange(0, 120) == p.spec_head(),
    ensures
        spec_head_fields(s, p),
        forall|q: A3953StateUpdatePacket| #[trigger] spec_head_fields(s, q) ==> {
            &&& q.tws_status == p.tws_status
            &&& q.battery == p.battery
            &&& q.dual_firmware_version == p.dual_firmware_version
            &&& q.serial_number == p.serial_number
            &&& q.equalizer_configuration == p.equalizer_configuration
            &&& q.is_hear_id_initialized == p.is_hear_id_initialized
            &&& q.hear_id == p.hear_id
            &&& q.custom_length == p.custom_length
            &&& q.button_config == p.button_config
        },
{
    broadcast use vstd::array::group_array_axioms;
    reveal(spec_head_fields);
    let h = p.spec_head();
    let tws = p.tws_status.spec_bytes();
    let bat = p.battery.spec_bytes();
    let fw = p.dual_firmware_version.spec_bytes();
    let ser = p.serial_number.spec_bytes();
    let eq = p.equalizer_configuration.spec_bytes();
    let hid = p.hear_id.spec_bytes_with_music_genre_at_end();
    let btn = p.button_config.0@;
    p.dual_firmware_version.lemma_roundtrip();
    assert(h.subrange(0, 2) =~= tws);
    assert(h.subrange(2, 6) =~= bat);
    assert(h.subrange(6, 16) =~= fw);
    assert(h.subrange(16, 32) =~= ser);
    assert(h.subrange(32, 54) =~= eq);
    assert(h[54] == p.is_hear_id_initialized.spec_status());
    assert(h.subrange(55, 103) =~= hid);
    assert(h[103] == p.custom_length);
    assert(h.subrange(104, 120) =~= btn);
    assert(forall|k: int| 0 <= k < 120 ==> s[k] == #[trigger] h[k]) by {
        assert forall|k: int| 0 <= k < 120 implies s[k] == #[trigger] h[k] by {
            assert(s.subrange(0, 120)[k] == s[k]);
        }
    }
    assert(s.subrange(16, 32) =~= ser);
    assert(s.subrange(104, 120) =~= btn);
    p.tws_status.lemma_roundtrip();
    assert(s[0] == tws[0] && s[1] == tws[1]);
    p.battery.lemma_roundtrip();
    assert(s.skip(2)[0] == bat[0] && s.skip(2)[1] == bat[1] && s.skip(2)[2] == bat[2] && s.skip(2)[3] == bat[3]);
    assert(spec_agree(s.skip(6), fw, 10)) by {
        assert forall|k: int| 0 <= k < 10 implies #[trigger] s.skip(6)[k] == fw[k] by {
            assert(h.subrange(6, 16)[k] == h[6 + k]);
        }
    }
    assert(DualFirmwareVersion::spec_decode(s.skip(6)) == DualFirmwareVersion::spec_decode(fw)) by {
        assert(s.skip(6).skip(5)[0] == fw.skip(5)[0]);
        assert(s.skip(6).skip(5)[1] == fw.skip(5)[1]);
        assert(s.skip(6).skip(5)[3] == fw.skip(5)[3]);
        assert(s.skip(6).skip(5)[4] == fw.skip(5)[4]);
    }
    assert(s.skip(32).subrange(0, 22) =~= eq) by {
        assert forall|k: int| 0 <= k < 22 implies #[trigger] s.skip(32).subrange(0, 22)[k] == eq[k] by {
            assert(h.subrange(32, 54)[k] == h[32 + k]);
        }
    }
    p.equalizer_configuration.lemma_roundtrip(s.skip(32));
    assert(s.skip(55).subrange(0, 48) =~= hid) by {
        assert forall|k: int| 0 <= k < 48 implies #[trigger] s.skip(55).subrange(0, 48)[k] == hid[k] by {
            assert(h.subrange(55, 103)[k] == h[55 + k]);
        }
    }
    p.hear_id.lemma_roundtrip(s.skip(55));
    assert forall|q: A3953StateUpdatePacket| #[trigger] spec_head_fields(s, q) implies {
        &&& q.tws_status == p.tws_status
        &&& q.battery == p.battery
        &&& q.dual_firmware_version == p.dual_firmware_version
        &&& q.serial_number == p.serial_number
        &&& q.equalizer_configuration == p.equalizer_configuration
        &&& q.is_hear_id_initialized == p.is_hear_id_initialized
        &&& q.hear_id == p.hear_id
        &&& q.custom_length == p.custom_length
        &&& q.button_config == p.button_config
    } by {
        assert(q.serial_number.0@ =~= p.serial_number.0@);
        assert(q.button_config.0@ =~= p.button_config.0@);
        assert(q.tws_status == p.tws_status);
        assert(q.battery == p.battery);
        assert(q.dual_firmware_version == p.dual_firmware_version);
        assert(q.serial_number.0 =~= p.serial_number.0);
        assert(q.serial_number == p.serial_number);
        assert(q.equalizer_configuration == p.equalizer_configuration);
        assert(q.is_hear_id_initialized == p.is_hear_id_initialized);
        assert(q.hear_id == p.hear_id);
        assert(q.button_config.0 =~= p.button_config.0);
        assert(q.button_config == p.button_config);
    }
}

/// The gap and the fixed block after it read back as the report's own fields, and as no others.
proof fn lemma_mid_roundtrip(p: A3953StateUpdatePacket, s: Seq<u8>, g: int)
    requires
        0 <= g,
        s.len() >= 154 + g,
        s.subrange(120, 120 + g) == p.unknown_gap@,
        s.subrange(120 + g, 154 + g) == p.spec_mid(),
        p.sound_modes == p.sound_modes.spec_normalized(),
    ensures
        spec_mid_fields(s, g, p),
        forall|q: A3953StateUpdatePacket| #[trigger] spec_mid_fields(s, g, q) ==> {
            &&& q.unknown_gap@ == p.unknown_gap@
            &&& q.ambient_sound_mode_cycle == p.ambient_sound_mode_cycle
            &&& q.sound_modes == p.sound_modes
            &&& q.wearing_detection == p.wearing_detection
            &&& q.case_battery_level == p.case_battery_level
            &&& q.ldac == p.ldac
            &&& q.dual_connections_enabled == p.dual_connections_enabled
            &&& q.auto_power_off == p.auto_power_off
            &&& q.wearing_tone == p.wearing_tone
            &&& q.low_battery_prompt == p.low_battery_prompt
            &&& q.ambient_sound_prompt == p.ambient_sound_prompt
            &&& q.spatial_audio == p.spatial_audio
        },
{
    reveal(spec_mid_fields);
    let m = p.spec_mid();
    let sm = p.sound_modes.spec_bytes();
    let sa = p.spatial_audio.spec_bytes();
    assert(forall|k: int| 0 <= k < 34 ==> s[120 + g + k] == #[trigger] m[k]) by {
        assert forall|k: int| 0 <= k < 34 implies s[120 + g + k] == #[trigger] m[k] by {
            assert(s.subrange(120 + g, 154 + g)[k] == s[120 + g + k]);
        }
    }
    p.ambient_sound_mode_cycle.lemma_roundtrip();
    p.sound_modes.lemma_roundtrip();
    p.spatial_audio.lemma_roundtrip();
    assert(SoundModes::spec_decode(s.skip(121 + g)) == SoundModes::spec_decode(sm)) by {
        assert forall|k: int| 0 <= k < 6 implies #[trigger] s.skip(121 + g)[k] == sm[k] by {
            assert(m[1 + k] == sm[k]);
        }
        assert(s.skip(121 + g)[0] == sm[0]);
        assert(s.skip(121 + g)[1] == sm[1]);
        assert(s.skip(121 + g)[2] == sm[2]);
        assert(s.skip(121 + g)[3] == sm[3]);
        assert(s.skip(121 + g)[4] == sm[4]);
        assert(s.skip(121 + g)[5] == sm[5]);
    }
    assert(SpatialAudio::spec_decode(s.skip(146 + g)) == SpatialAudio::spec_decode(sa)) by {
        assert forall|k: int| 0 <= k < 3 implies #[trigger] s.skip(146 + g)[k] == sa[k] by {
            assert(m[26 + k] == sa[k]);
        }
        assert(s.skip(146 + g)[0] == sa[0]);
        assert(s.skip(146 + g)[1] == sa[1]);
        assert(s.skip(146 + g)[2] == sa[2]);
    }
    assert(s[120 + g] == m[0]);
    assert(s[133 + g] == m[13]);
    assert(s[136 + g] == m[16]);
    assert(s[138 + g] == m[18]);
    assert(s[139 + g] == m[19]);
    assert(s[140 + g] == m[20]);
    assert(s[141 + g] == m[21]);
    assert(s[143 + g] == m[23]);
    assert(s[144 + g] == m[24]);
    assert(s[145 + g] == m[25]);
}

/// What follows the fixed block reads back as the report's optional fields and suffix.
proof fn lemma_tail_roundtrip(p: A3953StateUpdatePacket, s: Seq<u8>, g: int)
    requires
        0 <= g,
        p.wf(),
        p.unknown_gap@.len() == g,
        s.len() == 154 + g + p.spec_tail().len(),
        s.skip(154 + g) == p.spec_tail(),
    ensures
        spec_tail_fields(s, g, p),
        forall|q: A3953StateUpdatePacket| #[trigger] spec_tail_fields(s, g, q) ==> {
            &&& q.device_colour == p.device_colour
            &&& q.press_sensitivity == p.press_sensitivity
            &&& q.unknown_suffix@ == p.unknown_suffix@
        },
{
    reveal(spec_tail_fields);
    let t = p.spec_tail();
    match p.device_colour {
        Some(c) => {
            let ps = p.press_sensitivity.unwrap();
            assert(t =~= seq![c] + ps.spec_bytes() + p.unknown_suffix@);
            assert(s.len() > 154);
            assert(s[154 + g] == t[0]);
            assert(s[155 + g] == t[1]);
            assert(s.skip(156 + g) =~= t.skip(2));
            assert(t.skip(2) =~= p.unknown_suffix@);
            ps.lemma_roundtrip();
        },
        None => {
            assert(t =~= p.unknown_suffix@);
            assert(s.len() == 154);
        },
    }
}

/// Writing a well-formed state report and reading the body back gives the same report: the
/// body parses, and every packet that it reads as holds the values of the one written.
pub proof fn lemma_body_take_roundtrip(p: A3953StateUpdatePacket)
    requires
        p.wf(),
    ensures
        spec_parses(p.spec_body()),
        spec_fields_match(p.spec_body(), p),
        forall|q: A3953StateUpdatePacket| spec_fields_match(p.spec_body(), q) ==> q.spec_same(p),
{
    let s = p.spec_body();
    let h = p.spec_head();
    let m = p.spec_mid();
    let t = p.spec_tail();
    let g = spec_gap_len(p.custom_length);
    p.dual_firmware_version.lemma_roundtrip();
    assert(h.len() == 120);
    assert(s.subrange(0, 120) =~= h);
    assert(s.subrange(120, 120 + g) =~= p.unknown_gap@);
    assert(s.subrange(120 + g, 154 + g) =~= m);
    assert(s.skip(154 + g) =~= t);
    assert(s[103] == h[103]);
    lemma_head_roundtrip(p, s);
    lemma_mid_roundtrip(p, s, g);
    lemma_tail_roundtrip(p, s, g);
    assert(spec_gap_len(s[103]) == g);
}

/// The body of a report whose layout is well formed always parses.
pub proof fn lemma_body_parses(p: A3953StateUpdatePacket)
    requires
        p.wf_layout(),
    ensures
        spec_parses(p.spec_body()),
{
    let s = p.spec_body();
    let h = p.spec_head();
    let g = spec_gap_len(p.custom_length);
    p.dual_firmware_version.lemma_roundtrip();
    assert(h.len() == 120);
    assert(s.subrange(0, 120) =~= h);
    assert(s[103] == h[103]);
    assert(h.subrange(6, 16) =~= p.dual_firmware_version.spec_bytes());
    assert(DualFirmwareVersion::spec_valid(s.skip(6))) by {
        let fw = p.dual_firmware_version.spec_bytes();
        assert forall|k: int| 0 <= k < 10 implies #[trigger] s.skip(6)[k] == fw[k] by {
            assert(s.subrange(0, 120)[6 + k] == s[6 + k]);
            assert(h.subrange(6, 16)[k] == h[6 + k]);
        }
        assert(s.skip(6).skip(5)[0] == fw.skip(5)[0]);
        assert(s.skip(6).skip(5)[1] == fw.skip(5)[1]);
        assert(s.skip(6).skip(5)[2] == fw.skip(5)[2]);
        assert(s.skip(6).skip(5)[3] == fw.skip(5)[3]);
        assert(s.skip(6).skip(5)[4] == fw.skip(5)[4]);
    }
}

/// Two reports that hold the same values have the same body.
pub proof fn lemma_same_body(p: A3953StateUpdatePacket, q: A3953StateUpdatePacket)
    requires
        p.spec_same(q),
    ensures
        p.spec_body() == q.spec_body(),
{
    assert(p.spec_head() =~= q.spec_head());
    assert(p.spec_mid() =~= q.spec_mid());
    assert(p.spec_tail() =~= q.spec_tail());
}

/// `p` as the device keeps it once written: sound modes and press sensitivity within their
/// ranges.
pub open spec fn spec_normalized(p: A3953StateUpdatePacket) -> A3953StateUpdatePacket {
    A3953StateUpdatePacket {
        sound_modes: p.sound_modes.spec_normalized(),
        press_sensitivity: match p.press_sensitivity {
            Some(v) => Some(PressSensitivity(if v.0 > 4 { 4 } else { v.0 })),
            None => None,
        },
        ..p
    }
}

/// Serializing a report, reading the body back and serializing again gives the same bytes, for
/// every report whose layout is well formed, whatever its sound modes and press sensitivity:
/// the body parses, and every report it reads as has the same body.
pub proof fn lemma_body_reserializes(p: A3953StateUpdatePacket)
    requires
        p.wf_layout(),
    ensures
        spec_parses(p.spec_body()),
        forall|q: A3953StateUpdatePacket| spec_fields_match(p.spec_body(), q) ==> q.spec_body() == p.spec_body(),
{
    let r = spec_normalized(p);
    p.sound_modes.lemma_normalized_bytes();
    p.sound_modes.lemma_roundtrip();
    match p.press_sensitivity {
        Some(v) => v.lemma_limited_bytes(),
        None => {},
    }
    assert(r.sound_modes.spec_normalized() == r.sound_modes) by {
        r.sound_modes.lemma_roundtrip();
        p.sound_modes.spec_normalized().lemma_normalized_bytes();
    }
    assert(r.wf());
    assert(r.spec_head() =~= p.spec_head());
    assert(r.spec_mid() =~= p.spec_mid());
    assert(r.spec_tail() =~= p.spec_tail());
    assert(r.spec_body() == p.spec_body());
    lemma_body_take_roundtrip(r);
    assert forall|q: A3953StateUpdatePacket| spec_fields_match(p.spec_body(), q) implies q.spec_body() == p.spec_body() by {
        lemma_same_body(q, r);
    }
}

} // verus!
