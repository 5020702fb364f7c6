use vstd::prelude::*;

use crate::api::settings::str_eq;
use crate::devices::soundcore::common::{
    flag::Flag,
    parsing::{bool_byte, spec_bool_from_byte, take_bool, take_u8, ParseError},
    structures::{array16, spec_bool_byte, AmbientSoundMode, WindNoise},
};

verus! {

/// `v` limited to the range `lo..=hi`.
pub open spec fn spec_clamp(v: int, lo: int, hi: int) -> int {
    if v < lo {
        lo
    } else if v > hi {
        hi
    } else {
        v
    }
}

/// Sound mode settings (command `[0x06, 0x81]`). The manual noise canceling option is kept in
/// `1..=6`, the transparency option in `0..=2` when written; the other options are carried as
/// they are read. Whether wind is detected is read but never written back.
#[derive(Debug, Default, Clone, Copy, PartialEq, Eq, Structural)]
pub struct SoundModes {
    pub ambient_sound_mode: AmbientSoundMode,
    pub anc_option_manual: u8,
    pub anc_option_auto: u8,
    pub trans_option: u8,
    pub anc_automation_mode: u8,
    pub wind_noise: WindNoise,
    pub anc_auto_sensitivity_level: u8,
}

impl SoundModes {
    /// The six wire bytes.
    pub open spec fn spec_bytes(self) -> Seq<u8> {
        seq![
            self.ambient_sound_mode.spec_repr(),
            (spec_clamp(self.anc_option_manual as int, 1, 6) * 16 + self.anc_option_auto % 16) as u8,
            spec_clamp(self.trans_option as int, 0, 2) as u8,
            self.anc_automation_mode,
            spec_bool_byte(self.wind_noise.is_suppression_enabled),
            self.anc_auto_sensitivity_level,
        ]
    }

    /// The value read from the first six bytes of `s`.
    pub open spec fn spec_decode(s: Seq<u8>) -> SoundModes {
        SoundModes {
            ambient_sound_mode: AmbientSoundMode::spec_from_byte(s[0]),
            anc_option_manual: spec_clamp((s[1] / 16) as int, 1, 6) as u8,
            anc_option_auto: s[1] % 16,
            trans_option: s[2],
            anc_automation_mode: s[3],
            wind_noise: WindNoise::spec_from_byte(s[4]),
            anc_auto_sensitivity_level: s[5],
        }
    }

    /// The value as the device keeps it once written: options limited to their ranges and no
    /// wind detected.
    pub open spec fn spec_normalized(self) -> SoundModes {
        SoundModes {
            anc_option_manual: spec_clamp(self.anc_option_manual as int, 1, 6) as u8,
            anc_option_auto: self.anc_option_auto % 16,
            trans_option: spec_clamp(self.trans_option as int, 0, 2) as u8,
            wind_noise: WindNoise { is_suppression_enabled: self.wind_noise.is_suppression_enabled, is_detected: false },
            ..self
        }
    }

    pub fn bytes(&self) -> (r: [u8; 6])
        ensures
            r@ == self.spec_bytes(),
    {
        let manual = if self.anc_option_manual < 1 {
            1
        } else if self.anc_option_manual > 6 {
            6
        } else {
            self.anc_option_manual
        };
        let auto = self.anc_option_auto;
        let packed = (manual << 4) | (auto & 0x0F);
        assert(packed == manual * 16 + auto % 16) by (bit_vector)
            requires
                packed == (manual << 4) | (auto & 0x0F),
                1 <= manual <= 6,
        ;
        let trans = if self.trans_option > 2 { 2 } else { self.trans_option };
        let r = [
            self.ambient_sound_mode.repr(),
            packed,
            trans,
            self.anc_automation_mode,
            bool_byte(self.wind_noise.is_suppression_enabled),
            self.anc_auto_sensitivity_level,
        ];
        assert(r@ =~= self.spec_bytes());
        r
    }

    pub fn take(input: &[u8]) -> (r: Result<(&[u8], Self), ParseError>)
        ensures
            input@.len() >= 6 <==> r is Ok,
            r matches Ok((rest, v)) ==> v == Self::spec_decode(input@) && rest@ == input@.skip(6),
    {
        if input.len() < 6 {
            return Err(ParseError::UnexpectedEndOfInput);
        }
        let (rest, ambient_sound_mode) = AmbientSoundMode::take(input)?;
        let (rest, manual_auto_byte) = take_u8(rest)?;
        let (rest, trans_option) = take_u8(rest)?;
        let (rest, anc_automation_mode) = take_u8(rest)?;
        let (rest, wind_noise) = WindNoise::take(rest)?;
        let (rest, anc_auto_sensitivity_level) = take_u8(rest)?;
        let high = manual_auto_byte >> 4;
        let low = manual_auto_byte & 0x0F;
        assert(high == manual_auto_byte / 16 && low == manual_auto_byte % 16) by (bit_vector)
            requires
                high == manual_auto_byte >> 4,
                low == manual_auto_byte & 0x0F,
        ;
        let anc_option_manual = if high < 1 {
            1
        } else if high > 6 {
            6
        } else {
            high
        };
        assert(input@.skip(1).skip(1).skip(1).skip(1).skip(1).skip(1) =~= input@.skip(6));
        Ok((
            rest,
            SoundModes {
                ambient_sound_mode,
                anc_option_manual,
                anc_option_auto: low,
                trans_option,
                anc_automation_mode,
                wind_noise,
                anc_auto_sensitivity_level,
            },
        ))
    }

    /// Normalizing does not change the bytes written.
    pub proof fn lemma_normalized_bytes(self)
        ensures
            self.spec_normalized().spec_bytes() == self.spec_bytes(),
    {
        let a = self.anc_option_auto;
        assert((a % 16) % 16 == a % 16);
        assert(self.spec_normalized().spec_bytes() =~= self.spec_bytes());
    }

    /// Reading back the bytes of a value gives the value as the device keeps it.
    pub proof fn lemma_roundtrip(self)
        ensures
            Self::spec_decode(self.spec_bytes()) == self.spec_normalized(),
    {
        self.ambient_sound_mode.lemma_roundtrip();
        let m = spec_clamp(self.anc_option_manual as int, 1, 6);
        let a = self.anc_option_auto % 16;
        assert((m * 16 + a) / 16 == m) by (nonlinear_arith)
            requires
                1 <= m <= 6,
                0 <= a < 16,
        ;
        assert((m * 16 + a) % 16 == a) by (nonlinear_arith)
            requires
                1 <= m <= 6,
                0 <= a < 16,
        ;
    }
}

/// The six bytes of command `[0x06, 0x81]`: the ambient sound mode (0 noise canceling, 1
/// transparency, 2 normal), the manual noise canceling option limited to `1..=6` times 16 plus
/// the automatic option modulo 16, the transparency option limited to 2, the automation mode,
/// the wind noise suppression switch (1 on, 0 off), the automatic sensitivity level. Reading
/// six bytes takes the mode from the first (an unknown byte reads as noise canceling), the
/// manual option from the high four bits of the second limited to `1..=6`, the automatic one
/// from its low four bits, the suppression switch from bit 0 and detected wind from bit 1 of
/// the fifth, and the other bytes as they are.
pub proof fn lemma_sound_modes_wire(v: SoundModes, s: Seq<u8>)
    requires
        s.len() >= 6,
    ensures
        v.spec_bytes().len() == 6,
        v.spec_bytes()[0] == (if v.ambient_sound_mode == AmbientSoundMode::Transparency {
            1u8
        } else if v.ambient_sound_mode == AmbientSoundMode::Normal {
            2u8
        } else {
            0u8
        }),
        v.spec_bytes()[1] == (if v.anc_option_manual < 1 {
            1int
        } else if v.anc_option_manual > 6 {
            6int
        } else {
            v.anc_option_manual as int
        }) * 16 + v.anc_option_auto % 16,
        v.spec_bytes()[2] == (if v.trans_option > 2 { 2u8 } else { v.trans_option }),
        v.spec_bytes()[3] == v.anc_automation_mode,
        v.spec_bytes()[4] == (if v.wind_noise.is_suppression_enabled { 1u8 } else { 0u8 }),
        v.spec_bytes()[5] == v.anc_auto_sensitivity_level,
        SoundModes::spec_decode(s).ambient_sound_mode == (if s[0] == 1 {
            AmbientSoundMode::Transparency
        } else if s[0] == 2 {
            AmbientSoundMode::Normal
        } else {
            AmbientSoundMode::NoiseCanceling
        }),
        SoundModes::spec_decode(s).anc_option_manual == (if s[1] < 16 {
            1u8
        } else if s[1] >= 112 {
            6u8
        } else {
            s[1] / 16
        }),
        SoundModes::spec_decode(s).anc_option_auto == s[1] % 16,
        SoundModes::spec_decode(s).trans_option == s[2],
        SoundModes::spec_decode(s).anc_automation_mode == s[3],
        SoundModes::spec_decode(s).wind_noise.is_suppression_enabled == (s[4] % 2 == 1),
        SoundModes::spec_decode(s).wind_noise.is_detected == ((s[4] / 2) % 2 == 1),
        SoundModes::spec_decode(s).anc_auto_sensitivity_level == s[5],
{
}

/// The byte of command `[0x04, 0x85]` is the level limited to 4, and a byte read is limited
/// to 4 the same way.
pub proof fn lemma_press_sensitivity_wire(v: PressSensitivity, b: u8)
    ensures
        v.spec_bytes() == seq![if v.0 > 4 { 4u8 } else { v.0 }],
        PressSensitivity::spec_from_byte(b).0 == (if b > 4 { 4u8 } else { b }),
{
}

/// How firmly a button must be pressed (command `[0x04, 0x85]`), `0` to `4`.
#[derive(Debug, Default, Clone, Copy, PartialEq, Eq, Structural)]
pub struct PressSensitivity(pub u8);

impl PressSensitivity {
    /// The value kept when `b` is read: values above 4 become 4.
    pub open spec fn spec_from_byte(b: u8) -> PressSensitivity {
        PressSensitivity(if b > 4 { 4 } else { b })
    }

    pub open spec fn spec_bytes(self) -> Seq<u8> {
        seq![if self.0 > 4 { 4u8 } else { self.0 }]
    }

    pub fn take(input: &[u8]) -> (r: Result<(&[u8], Self), ParseError>)
        ensures
            input@.len() >= 1 <==> r is Ok,
            r matches Ok((rest, v)) ==> v == Self::spec_from_byte(input@[0]) && rest@ == input@.skip(1),
    {
        let (rest, value) = take_u8(input)?;
        Ok((rest, PressSensitivity(if value > 4 { 4 } else { value })))
    }

    pub fn bytes(&self) -> (r: [u8; 1])
        ensures
            r@ == self.spec_bytes(),
    {
        let r = [if self.0 > 4 { 4 } else { self.0 }];
        assert(r@ =~= self.spec_bytes());
        r
    }

    /// Limiting a value to 4 does not change the byte written.
    pub proof fn lemma_limited_bytes(self)
        ensures
            PressSensitivity(if self.0 > 4 { 4 } else { self.0 }).spec_bytes() == self.spec_bytes(),
    {
    }

    /// A value in range survives writing and reading back; any value reads back limited to 4.
    pub proof fn lemma_roundtrip(self)
        ensures
            Self::spec_from_byte(self.spec_bytes()[0]) == PressSensitivity(if self.0 > 4 { 4 } else { self.0 }),
            self.0 <= 4 ==> Self::spec_from_byte(self.spec_bytes()[0]) == self,
    {
    }
}

/// Spatial audio effect: fixed (wire value 1) or following head movement (2).
#[derive(Debug, Default, Clone, Copy, PartialEq, Eq, Structural)]
pub enum SpatialMode {
    #[default]
    Fixed,
    HeadTracking,
}

impl SpatialMode {

    /// The variant's name, as shown and as accepted when set.
    pub open spec fn spec_name(self) -> Seq<char> {
        match self {
            SpatialMode::Fixed => "Fixed"@,
            SpatialMode::HeadTracking => "HeadTracking"@,
        }
    }

    /// The variant named `s`, if any.
    pub open spec fn spec_from_name(s: Seq<char>) -> Option<SpatialMode> {
        if s == "Fixed"@ {
            Some(SpatialMode::Fixed)
        } else if s == "HeadTracking"@ {
            Some(SpatialMode::HeadTracking)
        } else {
            None
        }
    }

    /// The names of every variant, in declaration order.
    pub open spec fn spec_variant_names() -> Seq<Seq<char>> {
        seq!["Fixed"@, "HeadTracking"@]
    }

    pub fn name(&self) -> (r: &'static str)
        ensures
            r@ == self.spec_name(),
    {
        match self {
            SpatialMode::Fixed => "Fixed",
            SpatialMode::HeadTracking => "HeadTracking",
        }
    }

    pub fn from_name(s: &str) -> (r: Option<SpatialMode>)
        ensures
            r == Self::spec_from_name(s@),
    {
        if str_eq(s, "Fixed") {
            Some(SpatialMode::Fixed)
        } else if str_eq(s, "HeadTracking") {
            Some(SpatialMode::HeadTracking)
        } else {
            None
        }
    }

    /// The names of every variant, in declaration order.
    pub fn variant_names() -> (r: Vec<&'static str>)
        ensures
            r@.len() == Self::spec_variant_names().len(),
            forall|i: int| 0 <= i < r@.len() ==> #[trigger] r@[i]@ == Self::spec_variant_names()[i],
    {
        let mut r = Vec::new();
        r.push("Fixed");
        r.push("HeadTracking");
        r
    }

    /// A variant's name reads back as the variant.
    pub proof fn lemma_name_roundtrip(self)
        ensures
            Self::spec_from_name(self.spec_name()) == Some(self),
    {
        reveal_strlit("Fixed");
        reveal_strlit("HeadTracking");
        assert("Fixed"@.len() != "HeadTracking"@.len());
    }

    /// Each effect mode is shown under its own declared name and selected by exactly that
    /// name: `"Fixed"`, `"HeadTracking"`, listed in that order; any other string selects
    /// nothing.
    pub proof fn lemma_names()
        ensures
            SpatialMode::Fixed.spec_name() == "Fixed"@,
            SpatialMode::HeadTracking.spec_name() == "HeadTracking"@,
            Self::spec_from_name("Fixed"@) == Some(SpatialMode::Fixed),
            Self::spec_from_name("HeadTracking"@) == Some(SpatialMode::HeadTracking),
            Self::spec_variant_names() == seq!["Fixed"@, "HeadTracking"@],
            forall|s: Seq<char>| s != "Fixed"@ && s != "HeadTracking"@ ==> #[trigger] Self::spec_from_name(s) is None,
            forall|s: Seq<char>| #[trigger] Self::spec_from_name(s) matches Some(m) ==> m.spec_name() == s,
    {
        reveal_strlit("Fixed");
        reveal_strlit("HeadTracking");
        assert("Fixed"@.len() != "HeadTracking"@.len());
    }
    pub open spec fn spec_from_repr(b: u8) -> Option<SpatialMode> {
        if b == 1 {
            Some(SpatialMode::Fixed)
        } else if b == 2 {
            Some(SpatialMode::HeadTracking)
        } else {
            None
        }
    }

    pub open spec fn spec_repr(self) -> u8 {
        match self {
            SpatialMode::Fixed => 1u8,
            SpatialMode::HeadTracking => 2u8,
        }
    }

    /// The mode a byte stands for; an unknown byte reads as `Fixed`.
    pub open spec fn spec_from_byte(b: u8) -> SpatialMode {
        match Self::spec_from_repr(b) {
            Some(m) => m,
            None => SpatialMode::Fixed,
        }
    }

    pub fn from_repr(b: u8) -> (r: Option<SpatialMode>)
        ensures
            r == Self::spec_from_repr(b),
    {
        if b == 1 {
            Some(SpatialMode::Fixed)
        } else if b == 2 {
            Some(SpatialMode::HeadTracking)
        } else {
            None
        }
    }

    pub fn repr(&self) -> (r: u8)
        ensures
            r == self.spec_repr(),
    {
        match self {
            SpatialMode::Fixed => 1,
            SpatialMode::HeadTracking => 2,
        }
    }

    pub fn take(input: &[u8]) -> (r: Result<(&[u8], Self), ParseError>)
        ensures
            input@.len() >= 1 <==> r is Ok,
            r matches Ok((rest, v)) ==> v == Self::spec_from_byte(input@[0]) && rest@ == input@.skip(1),
    {
        let (rest, b) = take_u8(input)?;
        let v = match Self::from_repr(b) {
            Some(m) => m,
            None => SpatialMode::Fixed,
        };
        Ok((rest, v))
    }
}

/// Spatial audio content: music (wire value 0) or movie (1).
#[derive(Debug, Default, Clone, Copy, PartialEq, Eq, Structural)]
pub enum SpatialContentMode {
    #[default]
    Music,
    Movie,
}

impl SpatialContentMode {

    /// The variant's name, as shown and as accepted when set.
    pub open spec fn spec_name(self) -> Seq<char> {
        match self {
            SpatialContentMode::Music => "Music"@,
            SpatialContentMode::Movie => "Movie"@,
        }
    }

    /// The variant named `s`, if any.
    pub open spec fn spec_from_name(s: Seq<char>) -> Option<SpatialContentMode> {
        if s == "Music"@ {
            Some(SpatialContentMode::Music)
        } else if s == "Movie"@ {
            Some(SpatialContentMode::Movie)
        } else {
            None
        }
    }

    /// The names of every variant, in declaration order.
    pub open spec fn spec_variant_names() -> Seq<Seq<char>> {
        seq!["Music"@, "Movie"@]
    }

    pub fn name(&self) -> (r: &'static str)
        ensures
            r@ == self.spec_name(),
    {
        match self {
            SpatialContentMode::Music => "Music",
            SpatialContentMode::Movie => "Movie",
        }
    }

    pub fn from_name(s: &str) -> (r: Option<SpatialContentMode>)
        ensures
            r == Self::spec_from_name(s@),
    {
        if str_eq(s, "Music") {
            Some(SpatialContentMode::Music)
        } else if str_eq(s, "Movie") {
            Some(SpatialContentMode::Movie)
        } else {
            None
        }
    }

    /// The names of every variant, in declaration order.
    pub fn variant_names() -> (r: Vec<&'static str>)
        ensures
            r@.len() == Self::spec_variant_names().len(),
            forall|i: int| 0 <= i < r@.len() ==> #[trigger] r@[i]@ == Self::spec_variant_names()[i],
    {
        let mut r = Vec::new();
        r.push("Music");
        r.push("Movie");
        r
    }

    /// A variant's name reads back as the variant.
    pub proof fn lemma_name_roundtrip(self)
        ensures
            Self::spec_from_name(self.spec_name()) == Some(self),
    {
        reveal_strlit("Music");
        reveal_strlit("Movie");
        assert("Movie"@[1] != "Music"@[1]);
    }

    /// Each content mode is shown under its own declared name and selected by exactly that
    /// name: `"Music"`, `"Movie"`, listed in that order; any other string selects nothing.
    pub proof fn lemma_names()
        ensures
            SpatialContentMode::Music.spec_name() == "Music"@,
            SpatialContentMode::Movie.spec_name() == "Movie"@,
            Self::spec_from_name("Music"@) == Some(SpatialContentMode::Music),
            Self::spec_from_name("Movie"@) == Some(SpatialContentMode::Movie),
            Self::spec_variant_names() == seq!["Music"@, "Movie"@],
            forall|s: Seq<char>| s != "Music"@ && s != "Movie"@ ==> #[trigger] Self::spec_from_name(s) is None,
            forall|s: Seq<char>| #[trigger] Self::spec_from_name(s) matches Some(m) ==> m.spec_name() == s,
    {
        reveal_strlit("Music");
        reveal_strlit("Movie");
        assert("Movie"@[1] != "Music"@[1]);
    }
    pub open spec fn spec_from_repr(b: u8) -> Option<SpatialContentMode> {
        if b == 0 {
            Some(SpatialContentMode::Music)
        } else if b == 1 {
            Some(SpatialContentMode::Movie)
        } else {
            None
        }
    }

    pub open spec fn spec_repr(self) -> u8 {
        match self {
            SpatialContentMode::Music => 0u8,
            SpatialContentMode::Movie => 1u8,
        }
    }

    /// The mode a byte stands for; an unknown byte reads as `Music`.
    pub open spec fn spec_from_byte(b: u8) -> SpatialContentMode {
        match Self::spec_from_repr(b) {
            Some(m) => m,
            None => SpatialContentMode::Music,
        }
    }

    pub fn from_repr(b: u8) -> (r: Option<SpatialContentMode>)
        ensures
            r == Self::spec_from_repr(b),
    {
        if b == 0 {
            Some(SpatialContentMode::Music)
        } else if b == 1 {
            Some(SpatialContentMode::Movie)
        } else {
            None
        }
    }

    pub fn repr(&self) -> (r: u8)
        ensures
            r == self.spec_repr(),
    {
        match self {
            SpatialContentMode::Music => 0,
            SpatialContentMode::Movie => 1,
        }
    }

    pub fn take(input: &[u8]) -> (r: Result<(&[u8], Self), ParseError>)
        ensures
            input@.len() >= 1 <==> r is Ok,
            r matches Ok((rest, v)) ==> v == Self::spec_from_byte(input@[0]) && rest@ == input@.skip(1),
    {
        let (rest, b) = take_u8(input)?;
        let v = match Self::from_repr(b) {
            Some(m) => m,
            None => SpatialContentMode::Music,
        };
        Ok((rest, v))
    }
}

/// Spatial audio (command `[0x10, 0x81]`): the switch, the effect mode, the content mode.
#[derive(Debug, Default, Clone, Copy, PartialEq, Eq, Structural)]
pub struct SpatialAudio {
    pub is_enabled: bool,
    pub effect_mode: SpatialMode,
    pub sound_mode: SpatialContentMode,
}

impl SpatialAudio {
    pub open spec fn spec_decode(s: Seq<u8>) -> SpatialAudio {
        SpatialAudio {
            is_enabled: spec_bool_from_byte(s[0]),
            effect_mode: SpatialMode::spec_from_byte(s[1]),
            sound_mode: SpatialContentMode::spec_from_byte(s[2]),
        }
    }

    pub open spec fn spec_bytes(self) -> Seq<u8> {
        seq![spec_bool_byte(self.is_enabled), self.effect_mode.spec_repr(), self.sound_mode.spec_repr()]
    }

    pub fn take(input: &[u8]) -> (r: Result<(&[u8], Self), ParseError>)
        ensures
            input@.len() >= 3 <==> r is Ok,
            r matches Ok((rest, v)) ==> v == Self::spec_decode(input@) && rest@ == input@.skip(3),
    {
        if input.len() < 3 {
            return Err(ParseError::UnexpectedEndOfInput);
        }
        let (rest, is_enabled) = take_bool(input)?;
        let (rest, effect_mode) = SpatialMode::take(rest)?;
        let (rest, sound_mode) = SpatialContentMode::take(rest)?;
        assert(input@.skip(1).skip(1).skip(1) =~= input@.skip(3));
        Ok((rest, SpatialAudio { is_enabled, effect_mode, sound_mode }))
    }

    pub fn bytes(&self) -> (r: [u8; 3])
        ensures
            r@ == self.spec_bytes(),
    {
        let r = [bool_byte(self.is_enabled), self.effect_mode.repr(), self.sound_mode.repr()];
        assert(r@ =~= self.spec_bytes());
        r
    }

    /// Writing a value and reading it back gives the value.
    pub proof fn lemma_roundtrip(self)
        ensures
            Self::spec_decode(self.spec_bytes()) == self,
    {
    }
}

/// The three bytes of command `[0x10, 0x81]`: the switch (1 on, 0 off), the effect mode (1
/// fixed, 2 head tracking), the content mode (0 music, 1 movie); reading them back gives the
/// value, and a byte that names no mode reads as fixed or music.
pub proof fn lemma_spatial_audio_wire(v: SpatialAudio, s: Seq<u8>)
    requires
        s.len() >= 3,
    ensures
        v.spec_bytes() == seq![
            if v.is_enabled { 1u8 } else { 0u8 },
            if v.effect_mode == SpatialMode::HeadTracking { 2u8 } else { 1u8 },
            if v.sound_mode == SpatialContentMode::Movie { 1u8 } else { 0u8 },
        ],
        SpatialAudio::spec_decode(s) == (SpatialAudio {
            is_enabled: s[0] == 1,
            effect_mode: if s[1] == 2 { SpatialMode::HeadTracking } else { SpatialMode::Fixed },
            sound_mode: if s[2] == 1 { SpatialContentMode::Movie } else { SpatialContentMode::Music },
        }),
{
    assert(v.spec_bytes() =~= seq![
        if v.is_enabled { 1u8 } else { 0u8 },
        if v.effect_mode == SpatialMode::HeadTracking { 2u8 } else { 1u8 },
        if v.sound_mode == SpatialContentMode::Movie { 1u8 } else { 0u8 },
    ]);
}

/// Whether a voice prompt announces ambient sound mode changes (command `[0x10, 0x83]`).
#[derive(Debug, Default, Clone, Copy, PartialEq, Eq, Structural)]
pub struct AmbientSoundPrompt(pub bool);

impl AmbientSoundPrompt {
    pub fn take(input: &[u8]) -> (r: Result<(&[u8], Self), ParseError>)
        ensures
            input@.len() >= 1 <==> r is Ok,
            r matches Ok((rest, v)) ==> v.0 == spec_bool_from_byte(input@[0]) && rest@ == input@.skip(1),
    {
        let (rest, b) = take_bool(input)?;
        Ok((rest, AmbientSoundPrompt(b)))
    }

    pub fn bytes(&self) -> (r: [u8; 1])
        ensures
            r@ == seq![spec_bool_byte(self.0)],
    {
        let r = [bool_byte(self.0)];
        assert(r@ =~= seq![spec_bool_byte(self.0)]);
        r
    }

    /// Writing the prompt switch and reading it back gives the switch.
    pub proof fn lemma_roundtrip(self)
        ensures
            spec_bool_from_byte(spec_bool_byte(self.0)) == self.0,
    {
    }
}

impl Flag for AmbientSoundPrompt {
    open spec fn spec_get_bool(&self) -> bool {
        self.0
    }

    fn get_bool(&self) -> (r: bool) {
        self.0
    }

    fn set_bool(&mut self, value: bool) {
        self.0 = value;
    }
}

/// Whether the earbuds may connect to two hosts at once (command `[0x0B, 0x84]`).
#[derive(Debug, Default, Clone, Copy, PartialEq, Eq, Structural)]
pub struct SupportTwoConnections(pub bool);

impl SupportTwoConnections {
    pub fn bytes(&self) -> (r: [u8; 1])
        ensures
            r@ == seq![spec_bool_byte(self.0)],
    {
        let r = [bool_byte(self.0)];
        assert(r@ =~= seq![spec_bool_byte(self.0)]);
        r
    }
}

impl Flag for SupportTwoConnections {
    open spec fn spec_get_bool(&self) -> bool {
        self.0
    }

    fn get_bool(&self) -> (r: bool) {
        self.0
    }

    fn set_bool(&mut self, value: bool) {
        self.0 = value;
    }
}

/// Whether the device holds Hear ID data: the status byte reads `255` or `254` when it does not.
/// Decides whether the equalizer write sends the "uninitialized" marker.
#[derive(Debug, Default, Clone, Copy, PartialEq, Eq, Structural)]
pub struct IsHearIdInitialized(pub bool);

impl IsHearIdInitialized {
    pub open spec fn spec_from_status(status: u8) -> IsHearIdInitialized {
        IsHearIdInitialized(status != 255 && status != 254)
    }

    /// The status byte written for this value: `0` when initialized, `255` when not.
    pub open spec fn spec_status(self) -> u8 {
        if self.0 { 0u8 } else { 255u8 }
    }

    pub fn from_status(status: u8) -> (r: IsHearIdInitialized)
        ensures
            r == Self::spec_from_status(status),
    {
        IsHearIdInitialized(status != 255 && status != 254)
    }

    pub fn status(&self) -> (r: u8)
        ensures
            r == self.spec_status(),
    {
        if self.0 { 0 } else { 255 }
    }

    /// The status byte written for a value reads back as the value.
    pub proof fn lemma_roundtrip(self)
        ensures
            Self::spec_from_status(self.spec_status()) == self,
    {
    }
}

/// The button configuration block, sixteen bytes carried as read.
#[derive(Debug, Clone, Copy, PartialEq, Eq)]
pub struct ButtonConfig(pub [u8; 16]);

impl ButtonConfig {
    pub fn default() -> (r: ButtonConfig)
        ensures
            r.0@ == Seq::new(16, |i: int| 0u8),
    {
        let r = ButtonConfig([0u8; 16]);
        assert(r.0@ =~= Seq::new(16, |i: int| 0u8));
        r
    }

    pub fn take(input: &[u8]) -> (r: Result<(&[u8], Self), ParseError>)
        ensures
            input@.len() >= 16 <==> r is Ok,
            r matches Ok((rest, v)) ==> v.0@ == input@.subrange(0, 16) && rest@ == input@.skip(16),
    {
        if input.len() < 16 {
            return Err(ParseError::UnexpectedEndOfInput);
        }
        Ok((vstd::slice::slice_subrange(input, 16, input.len()), ButtonConfig(array16(input))))
    }

    pub fn bytes(&self) -> (r: [u8; 16])
        ensures
            r@ == self.0@,
    {
        self.0
    }
}

} // verus!
