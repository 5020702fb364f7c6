use vstd::prelude::*;

use super::bytes::{
    lemma_u16_le_roundtrip, lemma_u32_be_roundtrip, push_all, spec_u16_from_le, spec_u16_le,
    spec_u32_be, spec_u32_from_be, u16_from_le, u16_le_bytes, u32_be_bytes, u32_from_be,
};
use super::parsing::{bool_byte, spec_bool_from_byte, ParseError};
use crate::api::settings::str_eq;

verus! {

/// The wire byte of a boolean.
pub open spec fn spec_bool_byte(b: bool) -> u8 {
    if b { 1u8 } else { 0u8 }
}

/// Which earbud.
#[derive(Debug, Default, Clone, Copy, PartialEq, Eq, Structural)]
pub enum DeviceSide {
    #[default]
    Left,
    Right,
}

impl DeviceSide {
    pub open spec fn spec_from_byte(b: u8) -> DeviceSide {
        if b == 1 { DeviceSide::Right } else { DeviceSide::Left }
    }

    pub open spec fn spec_byte(self) -> u8 {
        match self {
            DeviceSide::Left => 0u8,
            DeviceSide::Right => 1u8,
        }
    }

    pub fn from_byte(b: u8) -> (r: DeviceSide)
        ensures
            r == Self::spec_from_byte(b),
    {
        if b == 1 { DeviceSide::Right } else { DeviceSide::Left }
    }

    pub fn byte(&self) -> (r: u8)
        ensures
            r == self.spec_byte(),
    {
        match self {
            DeviceSide::Left => 0,
            DeviceSide::Right => 1,
        }
    }
}

/// Which earbud talks to the host, and whether the two earbuds are connected to each other.
#[derive(Debug, Default, Clone, Copy, PartialEq, Eq, Structural)]
pub struct TwsStatus {
    pub host_device: DeviceSide,
    pub is_connected: bool,
}

impl TwsStatus {
    pub open spec fn spec_decode(s: Seq<u8>) -> TwsStatus {
        TwsStatus {
            host_device: DeviceSide::spec_from_byte(s[0]),
            is_connected: spec_bool_from_byte(s[1]),
        }
    }

    pub open spec fn spec_bytes(self) -> Seq<u8> {
        seq![self.host_device.spec_byte(), spec_bool_byte(self.is_connected)]
    }

    pub fn take(input: &[u8]) -> (r: Result<(&[u8], Self), ParseError>)
        ensures
            input@.len() >= 2 <==> r is Ok,
            r matches Ok((rest, v)) ==> v == Self::spec_decode(input@) && rest@ == input@.skip(2),
    {
        if input.len() < 2 {
            return Err(ParseError::UnexpectedEndOfInput);
        }
        let v = TwsStatus { host_device: DeviceSide::from_byte(input[0]), is_connected: input[1] == 1 };
        Ok((vstd::slice::slice_subrange(input, 2, input.len()), v))
    }

    pub fn bytes(&self) -> (r: [u8; 2])
        ensures
            r@ == self.spec_bytes(),
    {
        let r = [self.host_device.byte(), bool_byte(self.is_connected)];
        assert(r@ =~= self.spec_bytes());
        r
    }

    pub proof fn lemma_roundtrip(self)
        ensures
            Self::spec_decode(self.spec_bytes()) == self,
    {
    }
}

/// Charge level and charging state of one earbud.
#[derive(Debug, Default, Clone, Copy, PartialEq, Eq, Structural)]
pub struct SingleBattery {
    pub level: u8,
    pub is_charging: bool,
}

/// Both earbuds' batteries. On the wire: left level, right level, left charging, right charging.
#[derive(Debug, Default, Clone, Copy, PartialEq, Eq, Structural)]
pub struct DualBattery {
    pub left: SingleBattery,
    pub right: SingleBattery,
}

impl DualBattery {
    pub open spec fn spec_decode(s: Seq<u8>) -> DualBattery {
        DualBattery {
            left: SingleBattery { level: s[0], is_charging: spec_bool_from_byte(s[2]) },
            right: SingleBattery { level: s[1], is_charging: spec_bool_from_byte(s[3]) },
        }
    }

    pub open spec fn spec_bytes(self) -> Seq<u8> {
        seq![
            self.left.level,
            self.right.level,
            spec_bool_byte(self.left.is_charging),
            spec_bool_byte(self.right.is_charging),
        ]
    }

    pub fn take(input: &[u8]) -> (r: Result<(&[u8], Self), ParseError>)
        ensures
            input@.len() >= 4 <==> r is Ok,
            r matches Ok((rest, v)) ==> v == Self::spec_decode(input@) && rest@ == input@.skip(4),
    {
        if input.len() < 4 {
            return Err(ParseError::UnexpectedEndOfInput);
        }
        let v = DualBattery {
            left: SingleBattery { level: input[0], is_charging: input[2] == 1 },
            right: SingleBattery { level: input[1], is_charging: input[3] == 1 },
        };
        Ok((vstd::slice::slice_subrange(input, 4, input.len()), v))
    }

    pub fn bytes(&self) -> (r: [u8; 4])
        ensures
            r@ == self.spec_bytes(),
    {
        let r = [
            self.left.level,
            self.right.level,
            bool_byte(self.left.is_charging),
            bool_byte(self.right.is_charging),
        ];
        assert(r@ =~= self.spec_bytes());
        r
    }

    pub proof fn lemma_roundtrip(self)
        ensures
            Self::spec_decode(self.spec_bytes()) == self,
    {
    }
}

/// Whether `b` is an ASCII decimal digit.
pub open spec fn spec_is_digit(b: u8) -> bool {
    48 <= b <= 57
}

/// `v` in decimal ASCII digits, with a leading zero below 10.
pub open spec fn spec_decimal_2(v: u8) -> Seq<u8> {
    if v < 100 {
        seq![(v / 10 + 48) as u8, (v % 10 + 48) as u8]
    } else {
        seq![(v / 100 + 48) as u8, ((v / 10) % 10 + 48) as u8, (v % 10 + 48) as u8]
    }
}

pub fn decimal_2(v: u8) -> (r: Vec<u8>)
    ensures
        r@ == spec_decimal_2(v),
{
    let mut r = Vec::new();
    if v < 100 {
        r.push(v / 10 + 48);
        r.push(v % 10 + 48);
    } else {
        r.push(v / 100 + 48);
        r.push((v / 10) % 10 + 48);
        r.push(v % 10 + 48);
    }
    assert(r@ =~= spec_decimal_2(v));
    r
}

/// A part below 100 is written as two ASCII digits, tens first (a leading `0` below 10); a
/// part of 100 or more as three, hundreds first.
pub proof fn lemma_decimal_2_digits(v: u8)
    ensures
        v < 100 ==> spec_decimal_2(v) == seq![(v / 10 + 48) as u8, (v % 10 + 48) as u8],
        v >= 100 ==> spec_decimal_2(v) == seq![(v / 100 + 48) as u8, ((v / 10) % 10 + 48) as u8, (v % 10 + 48) as u8],
        v < 10 ==> spec_decimal_2(v)[0] == 48,
{
}

/// A firmware version, written on the wire as ASCII `MM.mm`: five characters when both parts
/// are below 100 (as every version read from the device is); a part of 100 or more is written
/// with three digits, and such a body no longer reads back.
#[derive(Debug, Default, Clone, Copy, PartialEq, Eq, Structural)]
pub struct FirmwareVersion {
    pub major: u8,
    pub minor: u8,
}

impl FirmwareVersion {
    /// Both parts have at most two decimal digits.
    pub open spec fn wf(self) -> bool {
        self.major < 100 && self.minor < 100
    }

    /// Whether the first five bytes of `s` read `DD.DD`.
    pub open spec fn spec_valid(s: Seq<u8>) -> bool {
        &&& spec_is_digit(s[0])
        &&& spec_is_digit(s[1])
        &&& s[2] == 46
        &&& spec_is_digit(s[3])
        &&& spec_is_digit(s[4])
    }

    pub open spec fn spec_decode(s: Seq<u8>) -> FirmwareVersion {
        FirmwareVersion {
            major: ((s[0] - 48) * 10 + (s[1] - 48)) as u8,
            minor: ((s[3] - 48) * 10 + (s[4] - 48)) as u8,
        }
    }

    pub open spec fn spec_bytes(self) -> Seq<u8> {
        spec_decimal_2(self.major) + seq![46u8] + spec_decimal_2(self.minor)
    }

    pub fn take(input: &[u8]) -> (r: Result<(&[u8], Self), ParseError>)
        ensures
            (input@.len() >= 5 && Self::spec_valid(input@)) <==> r is Ok,
            r matches Ok((rest, v)) ==> v == Self::spec_decode(input@) && v.wf() && rest@ == input@.skip(5),
    {
        if input.len() < 5 {
            return Err(ParseError::UnexpectedEndOfInput);
        }
        let (d0, d1, dot, d3, d4) = (input[0], input[1], input[2], input[3], input[4]);
        if !(48 <= d0 && d0 <= 57 && 48 <= d1 && d1 <= 57 && dot == 46 && 48 <= d3 && d3 <= 57 && 48 <= d4 && d4 <= 57) {
            return Err(ParseError::InvalidValue);
        }
        let v = FirmwareVersion { major: (d0 - 48) * 10 + (d1 - 48), minor: (d3 - 48) * 10 + (d4 - 48) };
        Ok((vstd::slice::slice_subrange(input, 5, input.len()), v))
    }

    /// `MM.mm`, each part written with at least two decimal digits.
    pub fn bytes(&self) -> (r: Vec<u8>)
        ensures
            r@ == self.spec_bytes(),
    {
        let mut r = decimal_2(self.major);
        r.push(46);
        let minor = decimal_2(self.minor);
        push_all(&mut r, minor.as_slice());
        assert(r@ =~= self.spec_bytes());
        r
    }

    pub proof fn lemma_roundtrip(self)
        requires
            self.wf(),
        ensures
            Self::spec_valid(self.spec_bytes()),
            Self::spec_decode(self.spec_bytes()) == self,
    {
    }
}

/// Firmware versions of both earbuds, left first.
#[derive(Debug, Default, Clone, Copy, PartialEq, Eq, Structural)]
pub struct DualFirmwareVersion {
    pub left: FirmwareVersion,
    pub right: FirmwareVersion,
}

impl DualFirmwareVersion {
    pub open spec fn wf(self) -> bool {
        self.left.wf() && self.right.wf()
    }

    pub open spec fn spec_valid(s: Seq<u8>) -> bool {
        FirmwareVersion::spec_valid(s) && FirmwareVersion::spec_valid(s.skip(5))
    }

    pub open spec fn spec_decode(s: Seq<u8>) -> DualFirmwareVersion {
        DualFirmwareVersion {
            left: FirmwareVersion::spec_decode(s),
            right: FirmwareVersion::spec_decode(s.skip(5)),
        }
    }

    pub open spec fn spec_bytes(self) -> Seq<u8> {
        self.left.spec_bytes() + self.right.spec_bytes()
    }

    pub fn take(input: &[u8]) -> (r: Result<(&[u8], Self), ParseError>)
        ensures
            (input@.len() >= 10 && Self::spec_valid(input@)) <==> r is Ok,
            r matches Ok((rest, v)) ==> v == Self::spec_decode(input@) && v.wf() && rest@ == input@.skip(10),
    {
        let (rest1, left) = FirmwareVersion::take(input)?;
        let (rest2, right) = FirmwareVersion::take(rest1)?;
        assert(input@.skip(5).skip(5) =~= input@.skip(10));
        Ok((rest2, DualFirmwareVersion { left, right }))
    }

    pub fn bytes(&self) -> (r: Vec<u8>)
        ensures
            r@ == self.spec_bytes(),
    {
        let mut r = self.left.bytes();
        let right = self.right.bytes();
        push_all(&mut r, right.as_slice());
        r
    }

    pub proof fn lemma_roundtrip(self)
        requires
            self.wf(),
        ensures
            Self::spec_valid(self.spec_bytes()),
            Self::spec_decode(self.spec_bytes()) == self,
    {
        self.left.lemma_roundtrip();
        self.right.lemma_roundtrip();
        assert(self.spec_bytes().skip(5) =~= self.right.spec_bytes());
    }
}


/// The first ten bytes of `s`.
pub fn array10(s: &[u8]) -> (r: [u8; 10])
    requires
        s@.len() >= 10,
    ensures
        r@ == s@.subrange(0, 10),
{
    let r = [s[0], s[1], s[2], s[3], s[4], s[5], s[6], s[7], s[8], s[9]];
    assert(r@ =~= s@.subrange(0, 10));
    r
}

/// The first sixteen bytes of `s`.
pub fn array16(s: &[u8]) -> (r: [u8; 16])
    requires
        s@.len() >= 16,
    ensures
        r@ == s@.subrange(0, 16),
{
    let r = [
        s[0], s[1], s[2], s[3], s[4], s[5], s[6], s[7], s[8], s[9], s[10], s[11], s[12], s[13],
        s[14], s[15],
    ];
    assert(r@ =~= s@.subrange(0, 16));
    r
}

/// The device's serial number: sixteen bytes of ASCII text.
#[derive(Debug, Clone, Copy, PartialEq, Eq)]
pub struct SerialNumber(pub [u8; 16]);

impl SerialNumber {
    pub open spec fn spec_bytes(self) -> Seq<u8> {
        self.0@
    }

    /// Sixteen `'0'` characters.
    pub fn default() -> (r: SerialNumber)
        ensures
            r.0@ == Seq::new(16, |i: int| 48u8),
    {
        let r = SerialNumber([48u8; 16]);
        assert(r.0@ =~= Seq::new(16, |i: int| 48u8));
        r
    }

    pub fn take(input: &[u8]) -> (r: Result<(&[u8], Self), ParseError>)
        ensures
            input@.len() >= 16 <==> r is Ok,
            r matches Ok((rest, v)) ==> v.0@ == input@.subrange(0, 16) && rest@ == input@.skip(16),
    {
        if input.len() < 16 {
            return Err(ParseError::UnexpectedEndOfInput);
        }
        Ok((vstd::slice::slice_subrange(input, 16, input.len()), SerialNumber(array16(input))))
    }

    pub fn bytes(&self) -> (r: [u8; 16])
        ensures
            r@ == self.spec_bytes(),
    {
        self.0
    }
}

/// One channel's equalizer bands. Each byte is the band's gain in tenths of a decibel plus 120.
#[derive(Debug, Clone, Copy, PartialEq, Eq)]
pub struct VolumeAdjustments {
    pub bands: [u8; 10],
}

impl VolumeAdjustments {
    /// The gain of band `i` in tenths of a decibel.
    pub open spec fn spec_band_gain(self, i: int) -> int {
        self.bands@[i] - 120
    }

    pub open spec fn spec_bytes(self) -> Seq<u8> {
        self.bands@
    }

    /// Every band at 0 dB.
    pub fn flat() -> (r: VolumeAdjustments)
        ensures
            r.bands@ == Seq::new(10, |i: int| 120u8),
    {
        let r = VolumeAdjustments { bands: [120u8; 10] };
        assert(r.bands@ =~= Seq::new(10, |i: int| 120u8));
        r
    }

    pub fn take(input: &[u8]) -> (r: Result<(&[u8], Self), ParseError>)
        ensures
            input@.len() >= 10 <==> r is Ok,
            r matches Ok((rest, v)) ==> v.bands@ == input@.subrange(0, 10) && rest@ == input@.skip(10),
    {
        if input.len() < 10 {
            return Err(ParseError::UnexpectedEndOfInput);
        }
        Ok((vstd::slice::slice_subrange(input, 10, input.len()), VolumeAdjustments { bands: array10(input) }))
    }

    pub fn bytes(&self) -> (r: [u8; 10])
        ensures
            r@ == self.spec_bytes(),
    {
        self.bands
    }
}

/// The two channels' bands back to back, left first.
pub open spec fn spec_channels_bytes(channels: [VolumeAdjustments; 2]) -> Seq<u8> {
    channels@[0].bands@ + channels@[1].bands@
}

/// Both channels' bands from the first twenty bytes of `s`.
pub open spec fn spec_channels_decode(s: Seq<u8>, channels: [VolumeAdjustments; 2]) -> bool {
    forall|i: int| 0 <= i < 10 ==> channels@[0].bands@[i] == s[i] && channels@[1].bands@[i] == s[10 + i]
}

pub fn take_channels(input: &[u8]) -> (r: Result<(&[u8], [VolumeAdjustments; 2]), ParseError>)
    ensures
        input@.len() >= 20 <==> r is Ok,
        r matches Ok((rest, v)) ==> spec_channels_decode(input@, v) && rest@ == input@.skip(20),
{
    let (rest1, left) = VolumeAdjustments::take(input)?;
    let (rest2, right) = VolumeAdjustments::take(rest1)?;
    assert(input@.skip(10).skip(10) =~= input@.skip(20));
    let r = [left, right];
    assert forall|i: int| 0 <= i < 10 implies r@[0].bands@[i] == input@[i] && r@[1].bands@[i] == input@[10 + i] by {
        assert(left.bands@[i] == input@.subrange(0, 10)[i]);
        assert(right.bands@[i] == input@.skip(10).subrange(0, 10)[i]);
    }
    Ok((rest2, r))
}

pub fn push_channels(out: &mut Vec<u8>, channels: &[VolumeAdjustments; 2])
    ensures
        final(out)@ == old(out)@ + spec_channels_bytes(*channels),
{
    push_all(out, &channels[0].bands);
    push_all(out, &channels[1].bands);
    assert(final(out)@ =~= old(out)@ + spec_channels_bytes(*channels));
}

/// Reading back two channels' bytes gives the same bands.
pub proof fn lemma_channels_roundtrip(channels: [VolumeAdjustments; 2], s: Seq<u8>)
    requires
        s.len() >= 20,
        s.subrange(0, 20) == spec_channels_bytes(channels),
    ensures
        spec_channels_decode(s, channels),
        forall|other: [VolumeAdjustments; 2]| spec_channels_decode(s, other) ==> other == channels,
{
    broadcast use vstd::array::group_array_axioms;
    let b = spec_channels_bytes(channels);
    assert forall|i: int| 0 <= i < 10 implies channels@[0].bands@[i] == s[i] && channels@[1].bands@[i] == s[10 + i] by {
        assert(s[i] == s.subrange(0, 20)[i]);
        assert(s[10 + i] == s.subrange(0, 20)[10 + i]);
        assert(b[i] == channels@[0].bands@[i]);
        assert(b[10 + i] == channels@[1].bands@[i]);
    }
    assert forall|other: [VolumeAdjustments; 2]| spec_channels_decode(s, other) implies other == channels by {
        assert(other@[0].bands@ =~= channels@[0].bands@);
        assert(other@[1].bands@ =~= channels@[1].bands@);
        assert(other@[0].bands == channels@[0].bands);
        assert(other@[1].bands == channels@[1].bands);
        assert(other@ =~= channels@);
    }
}

/// The equalizer: a preset id (little-endian on the wire) and both channels' bands.
#[derive(Debug, Clone, Copy, PartialEq, Eq)]
pub struct CommonEqualizerConfiguration {
    pub preset_id: u16,
    pub volume_adjustments: [VolumeAdjustments; 2],
}

impl CommonEqualizerConfiguration {
    pub open spec fn spec_decode(s: Seq<u8>, v: Self) -> bool {
        v.preset_id == spec_u16_from_le(s[0], s[1]) && spec_channels_decode(s.skip(2), v.volume_adjustments)
    }

    pub open spec fn spec_bytes(self) -> Seq<u8> {
        spec_u16_le(self.preset_id) + spec_channels_bytes(self.volume_adjustments)
    }

    /// Preset 0 with every band at 0 dB.
    pub fn default() -> (r: Self)
        ensures
            r.preset_id == 0,
            r.volume_adjustments@[0].bands@ == Seq::new(10, |i: int| 120u8),
            r.volume_adjustments@[1].bands@ == Seq::new(10, |i: int| 120u8),
    {
        CommonEqualizerConfiguration { preset_id: 0, volume_adjustments: [VolumeAdjustments::flat(), VolumeAdjustments::flat()] }
    }

    pub fn preset_id(&self) -> (r: u16)
        ensures
            r == self.preset_id,
    {
        self.preset_id
    }

    pub fn volume_adjustments(&self) -> (r: &[VolumeAdjustments; 2])
        ensures
            *r == self.volume_adjustments,
    {
        &self.volume_adjustments
    }

    /// Both channels' band bytes, left first.
    pub fn volume_adjustments_bytes(&self) -> (r: Vec<u8>)
        ensures
            r@ == spec_channels_bytes(self.volume_adjustments),
    {
        let mut r = Vec::new();
        push_channels(&mut r, &self.volume_adjustments);
        r
    }

    pub fn take(input: &[u8]) -> (r: Result<(&[u8], Self), ParseError>)
        ensures
            input@.len() >= 22 <==> r is Ok,
            r matches Ok((rest, v)) ==> Self::spec_decode(input@, v) && rest@ == input@.skip(22),
    {
        if input.len() < 22 {
            return Err(ParseError::UnexpectedEndOfInput);
        }
        let preset_id = u16_from_le(input[0], input[1]);
        let (rest, volume_adjustments) = take_channels(vstd::slice::slice_subrange(input, 2, input.len()))?;
        assert(input@.subrange(2, input@.len() as int) =~= input@.skip(2));
        assert(input@.skip(2).skip(20) =~= input@.skip(22));
        Ok((rest, CommonEqualizerConfiguration { preset_id, volume_adjustments }))
    }

    pub fn bytes(&self) -> (r: Vec<u8>)
        ensures
            r@ == self.spec_bytes(),
    {
        let mut r = Vec::new();
        push_all(&mut r, &u16_le_bytes(self.preset_id));
        push_channels(&mut r, &self.volume_adjustments);
        r
    }

    pub proof fn lemma_roundtrip(self, s: Seq<u8>)
        requires
            s.len() >= 22,
            s.subrange(0, 22) == self.spec_bytes(),
        ensures
            Self::spec_decode(s, self),
            forall|other: Self| Self::spec_decode(s, other) ==> other == self,
    {
        lemma_u16_le_roundtrip(self.preset_id);
        assert(s[0] == s.subrange(0, 22)[0]);
        assert(s[1] == s.subrange(0, 22)[1]);
        assert(s.skip(2).subrange(0, 20) =~= spec_channels_bytes(self.volume_adjustments)) by {
            assert(s.skip(2).subrange(0, 20) =~= s.subrange(0, 22).subrange(2, 22));
            assert(self.spec_bytes().subrange(2, 22) =~= spec_channels_bytes(self.volume_adjustments));
        }
        lemma_channels_roundtrip(self.volume_adjustments, s.skip(2));
    }
}

/// The kind of a hearing test result, as its raw wire byte.
#[derive(Debug, Default, Clone, Copy, PartialEq, Eq, Structural)]
pub struct HearIdType(pub u8);

/// The Hear ID data stored on the device.
#[derive(Debug, Clone, Copy, PartialEq, Eq)]
pub struct CustomHearId {
    pub is_enabled: bool,
    pub volume_adjustments: [VolumeAdjustments; 2],
    pub time: u32,
    pub hear_id_type: HearIdType,
    pub custom_volume_adjustments: [VolumeAdjustments; 2],
    pub favorite_music_genre: [u8; 2],
}

impl CustomHearId {
    /// Reads the 48-byte layout that ends with the favorite music genre: the switch, both
    /// channels, the time (big-endian), the type, both custom channels, the genre.
    pub open spec fn spec_decode(s: Seq<u8>, v: Self) -> bool {
        &&& v.is_enabled == spec_bool_from_byte(s[0])
        &&& spec_channels_decode(s.skip(1), v.volume_adjustments)
        &&& v.time == spec_u32_from_be(s[21], s[22], s[23], s[24])
        &&& v.hear_id_type == HearIdType(s[25])
        &&& spec_channels_decode(s.skip(26), v.custom_volume_adjustments)
        &&& v.favorite_music_genre@[0] == s[46]
        &&& v.favorite_music_genre@[1] == s[47]
    }

    pub open spec fn spec_bytes_with_music_genre_at_end(self) -> Seq<u8> {
        seq![spec_bool_byte(self.is_enabled)] + spec_channels_bytes(self.volume_adjustments)
            + spec_u32_be(self.time) + seq![self.hear_id_type.0]
            + spec_channels_bytes(self.custom_volume_adjustments) + self.favorite_music_genre@
    }

    /// Disabled, time 0, type 0, genre 0, every band at 0 dB.
    pub fn default() -> (r: Self)
        ensures
            !r.is_enabled,
            r.time == 0,
            r.hear_id_type == HearIdType(0),
            r.favorite_music_genre@ == seq![0u8, 0u8],
            forall|c: int| 0 <= c < 2 ==> #[trigger] r.volume_adjustments@[c].bands@ == Seq::new(10, |i: int| 120u8),
            forall|c: int| 0 <= c < 2 ==> #[trigger] r.custom_volume_adjustments@[c].bands@ == Seq::new(10, |i: int| 120u8),
    {
        let r = CustomHearId {
            is_enabled: false,
            volume_adjustments: [VolumeAdjustments::flat(), VolumeAdjustments::flat()],
            time: 0,
            hear_id_type: HearIdType(0),
            custom_volume_adjustments: [VolumeAdjustments::flat(), VolumeAdjustments::flat()],
            favorite_music_genre: [0, 0],
        };
        assert(r.favorite_music_genre@ =~= seq![0u8, 0u8]);
        r
    }

    pub fn take_with_music_genre_at_end(input: &[u8]) -> (r: Result<(&[u8], Self), ParseError>)
        ensures
            input@.len() >= 48 <==> r is Ok,
            r matches Ok((rest, v)) ==> Self::spec_decode(input@, v) && rest@ == input@.skip(48),
    {
        if input.len() < 48 {
            return Err(ParseError::UnexpectedEndOfInput);
        }
        let is_enabled = input[0] == 1;
        let (_, volume_adjustments) = take_channels(vstd::slice::slice_subrange(input, 1, input.len()))?;
        let time = u32_from_be(input[21], input[22], input[23], input[24]);
        let hear_id_type = HearIdType(input[25]);
        let (_, custom_volume_adjustments) = take_channels(vstd::slice::slice_subrange(input, 26, input.len()))?;
        let favorite_music_genre = [input[46], input[47]];
        assert(input@.subrange(1, input@.len() as int) =~= input@.skip(1));
        assert(input@.subrange(26, input@.len() as int) =~= input@.skip(26));
        let rest = vstd::slice::slice_subrange(input, 48, input.len());
        assert(rest@ =~= input@.skip(48));
        Ok((rest, CustomHearId { is_enabled, volume_adjustments, time, hear_id_type, custom_volume_adjustments, favorite_music_genre }))
    }

    pub fn bytes_with_music_genre_at_end(&self) -> (r: Vec<u8>)
        ensures
            r@ == self.spec_bytes_with_music_genre_at_end(),
    {
        let mut r = Vec::new();
        r.push(bool_byte(self.is_enabled));
        push_channels(&mut r, &self.volume_adjustments);
        push_all(&mut r, &u32_be_bytes(self.time));
        r.push(self.hear_id_type.0);
        push_channels(&mut r, &self.custom_volume_adjustments);
        push_all(&mut r, &self.favorite_music_genre);
        assert(r@ =~= self.spec_bytes_with_music_genre_at_end());
        r
    }

    pub proof fn lemma_roundtrip(self, s: Seq<u8>)
        requires
            s.len() >= 48,
            s.subrange(0, 48) == self.spec_bytes_with_music_genre_at_end(),
        ensures
            Self::spec_decode(s, self),
            forall|other: Self| Self::spec_decode(s, other) ==> other == self,
    {
        broadcast use vstd::array::group_array_axioms;
        let b = self.spec_bytes_with_music_genre_at_end();
        assert(s.skip(1).subrange(0, 20) =~= spec_channels_bytes(self.volume_adjustments)) by {
            assert(s.skip(1).subrange(0, 20) =~= b.subrange(1, 21));
        }
        assert(s.skip(26).subrange(0, 20) =~= spec_channels_bytes(self.custom_volume_adjustments)) by {
            assert(s.skip(26).subrange(0, 20) =~= b.subrange(26, 46));
        }
        lemma_channels_roundtrip(self.volume_adjustments, s.skip(1));
        lemma_channels_roundtrip(self.custom_volume_adjustments, s.skip(26));
        lemma_u32_be_roundtrip(self.time);
        assert(s[0] == b[0]);
        assert(s[21] == b[21] && s[22] == b[22] && s[23] == b[23] && s[24] == b[24] && s[25] == b[25]);
        assert(b[21] == spec_u32_be(self.time)[0] && b[22] == spec_u32_be(self.time)[1]);
        assert(b[23] == spec_u32_be(self.time)[2] && b[24] == spec_u32_be(self.time)[3]);
        assert(s[46] == b[46] && s[47] == b[47]);
        assert(b[46] == self.favorite_music_genre@[0] && b[47] == self.favorite_music_genre@[1]);
        assert forall|other: Self| Self::spec_decode(s, other) implies other == self by {
            assert(other.favorite_music_genre@ =~= self.favorite_music_genre@);
            assert(other.is_enabled == self.is_enabled);
            assert(other.time == self.time);
            assert(b[25] == self.hear_id_type.0);
            assert(other.hear_id_type == self.hear_id_type);
            assert(other.volume_adjustments == self.volume_adjustments);
            assert(other.custom_volume_adjustments == self.custom_volume_adjustments);
            assert(other.favorite_music_genre == self.favorite_music_genre);
        }
    }
}


/// Which ambient sound mode the earbuds are in. Wire values: noise canceling 0,
/// transparency 1, normal 2.
#[derive(Debug, Default, Clone, Copy, PartialEq, Eq, Structural)]
pub enum AmbientSoundMode {
    #[default]
    NoiseCanceling,
    Transparency,
    Normal,
}

impl AmbientSoundMode {

    /// The variant's name, as shown and as accepted when set.
    pub open spec fn spec_name(self) -> Seq<char> {
        match self {
            AmbientSoundMode::NoiseCanceling => "NoiseCanceling"@,
            AmbientSoundMode::Transparency => "Transparency"@,
            AmbientSoundMode::Normal => "Normal"@,
        }
    }

    /// The variant named `s`, if any.
    pub open spec fn spec_from_name(s: Seq<char>) -> Option<AmbientSoundMode> {
        if s == "NoiseCanceling"@ {
            Some(AmbientSoundMode::NoiseCanceling)
        } else if s == "Transparency"@ {
            Some(AmbientSoundMode::Transparency)
        } else if s == "Normal"@ {
            Some(AmbientSoundMode::Normal)
        } else {
            None
        }
    }

    /// The names of every variant, in declaration order.
    pub open spec fn spec_variant_names() -> Seq<Seq<char>> {
        seq!["NoiseCanceling"@, "Transparency"@, "Normal"@]
    }

    pub fn name(&self) -> (r: &'static str)
        ensures
            r@ == self.spec_name(),
    {
        match self {
            AmbientSoundMode::NoiseCanceling => "NoiseCanceling",
            AmbientSoundMode::Transparency => "Transparency",
            AmbientSoundMode::Normal => "Normal",
        }
    }

    pub fn from_name(s: &str) -> (r: Option<AmbientSoundMode>)
        ensures
            r == Self::spec_from_name(s@),
    {
        if str_eq(s, "NoiseCanceling") {
            Some(AmbientSoundMode::NoiseCanceling)
        } else if str_eq(s, "Transparency") {
            Some(AmbientSoundMode::Transparency)
        } else if str_eq(s, "Normal") {
            Some(AmbientSoundMode::Normal)
        } else {
            None
        }
    }

    /// The names of every variant, in declaration order.
    pub fn variant_names() -> (r: Vec<&'static str>)
        ensures
            r@.len() == Self::spec_variant_names().len(),
            forall|i: int| 0 <= i < r@.len() ==> #[trigger] r@[i]@ == Self::spec_variant_names()[i],
    {
        let mut r = Vec::new();
        r.push("NoiseCanceling");
        r.push("Transparency");
        r.push("Normal");
        r
    }

    /// A variant's name reads back as the variant.
    pub proof fn lemma_name_roundtrip(self)
        ensures
            Self::spec_from_name(self.spec_name()) == Some(self),
    {
        reveal_strlit("NoiseCanceling");
        reveal_strlit("Transparency");
        reveal_strlit("Normal");
        assert("NoiseCanceling"@.len() != "Transparency"@.len());
        assert("NoiseCanceling"@.len() != "Normal"@.len());
        assert("Normal"@.len() != "Transparency"@.len());
    }

    /// Each ambient sound mode is shown under its own declared name and selected by exactly
    /// that name: `"NoiseCanceling"`, `"Transparency"`, `"Normal"`, listed in that order; a
    /// string that is none of the three selects nothing.
    pub proof fn lemma_names()
        ensures
            AmbientSoundMode::NoiseCanceling.spec_name() == "NoiseCanceling"@,
            AmbientSoundMode::Transparency.spec_name() == "Transparency"@,
            AmbientSoundMode::Normal.spec_name() == "Normal"@,
            Self::spec_from_name("NoiseCanceling"@) == Some(AmbientSoundMode::NoiseCanceling),
            Self::spec_from_name("Transparency"@) == Some(AmbientSoundMode::Transparency),
            Self::spec_from_name("Normal"@) == Some(AmbientSoundMode::Normal),
            Self::spec_variant_names() == seq!["NoiseCanceling"@, "Transparency"@, "Normal"@],
            forall|s: Seq<char>|
                s != "NoiseCanceling"@ && s != "Transparency"@ && s != "Normal"@
                    ==> #[trigger] Self::spec_from_name(s) is None,
            forall|s: Seq<char>| #[trigger] Self::spec_from_name(s) matches Some(m) ==> m.spec_name() == s,
    {
        reveal_strlit("NoiseCanceling");
        reveal_strlit("Transparency");
        reveal_strlit("Normal");
        assert("NoiseCanceling"@.len() != "Transparency"@.len());
        assert("NoiseCanceling"@.len() != "Normal"@.len());
        assert("Normal"@.len() != "Transparency"@.len());
    }
    pub open spec fn spec_from_repr(b: u8) -> Option<AmbientSoundMode> {
        if b == 0 {
            Some(AmbientSoundMode::NoiseCanceling)
        } else if b == 1 {
            Some(AmbientSoundMode::Transparency)
        } else if b == 2 {
            Some(AmbientSoundMode::Normal)
        } else {
            None
        }
    }

    pub open spec fn spec_repr(self) -> u8 {
        match self {
            AmbientSoundMode::NoiseCanceling => 0u8,
            AmbientSoundMode::Transparency => 1u8,
            AmbientSoundMode::Normal => 2u8,
        }
    }

    /// The mode a byte stands for; an unknown byte reads as the default mode.
    pub open spec fn spec_from_byte(b: u8) -> AmbientSoundMode {
        match Self::spec_from_repr(b) {
            Some(m) => m,
            None => AmbientSoundMode::NoiseCanceling,
        }
    }

    pub fn from_repr(b: u8) -> (r: Option<AmbientSoundMode>)
        ensures
            r == Self::spec_from_repr(b),
    {
        if b == 0 {
            Some(AmbientSoundMode::NoiseCanceling)
        } else if b == 1 {
            Some(AmbientSoundMode::Transparency)
        } else if b == 2 {
            Some(AmbientSoundMode::Normal)
        } else {
            None
        }
    }

    pub fn repr(&self) -> (r: u8)
        ensures
            r == self.spec_repr(),
    {
        match self {
            AmbientSoundMode::NoiseCanceling => 0,
            AmbientSoundMode::Transparency => 1,
            AmbientSoundMode::Normal => 2,
        }
    }

    pub fn take(input: &[u8]) -> (r: Result<(&[u8], Self), ParseError>)
        ensures
            input@.len() >= 1 <==> r is Ok,
            r matches Ok((rest, v)) ==> v == Self::spec_from_byte(input@[0]) && rest@ == input@.skip(1),
    {
        if input.len() < 1 {
            return Err(ParseError::UnexpectedEndOfInput);
        }
        let v = match Self::from_repr(input[0]) {
            Some(m) => m,
            None => AmbientSoundMode::NoiseCanceling,
        };
        Ok((vstd::slice::slice_subrange(input, 1, input.len()), v))
    }

    pub proof fn lemma_roundtrip(self)
        ensures
            Self::spec_from_repr(self.spec_repr()) == Some(self),
            Self::spec_from_byte(self.spec_repr()) == self,
    {
    }
}

/// Wind noise: bit 0 of the byte is the suppression switch, bit 1 says whether wind is detected.
#[derive(Debug, Default, Clone, Copy, PartialEq, Eq, Structural)]
pub struct WindNoise {
    pub is_suppression_enabled: bool,
    pub is_detected: bool,
}

impl WindNoise {
    pub open spec fn spec_from_byte(b: u8) -> WindNoise {
        WindNoise { is_suppression_enabled: b % 2 == 1, is_detected: (b / 2) % 2 == 1 }
    }

    pub fn take(input: &[u8]) -> (r: Result<(&[u8], Self), ParseError>)
        ensures
            input@.len() >= 1 <==> r is Ok,
            r matches Ok((rest, v)) ==> v == Self::spec_from_byte(input@[0]) && rest@ == input@.skip(1),
    {
        if input.len() < 1 {
            return Err(ParseError::UnexpectedEndOfInput);
        }
        let b = input[0];
        let v = WindNoise { is_suppression_enabled: b % 2 == 1, is_detected: (b / 2) % 2 == 1 };
        Ok((vstd::slice::slice_subrange(input, 1, input.len()), v))
    }
}

/// Which ambient sound modes the on-earbud control cycles through: bit 0 noise canceling,
/// bit 1 transparency, bit 2 normal.
#[derive(Debug, Default, Clone, Copy, PartialEq, Eq, Structural)]
pub struct AmbientSoundModeCycle {
    pub noise_canceling_mode: bool,
    pub transparency_mode: bool,
    pub normal_mode: bool,
}

impl AmbientSoundModeCycle {
    pub open spec fn spec_from_byte(b: u8) -> AmbientSoundModeCycle {
        AmbientSoundModeCycle {
            noise_canceling_mode: b % 2 == 1,
            transparency_mode: (b / 2) % 2 == 1,
            normal_mode: (b / 4) % 2 == 1,
        }
    }

    pub open spec fn spec_byte(self) -> u8 {
        (spec_bool_byte(self.noise_canceling_mode) + 2 * spec_bool_byte(self.transparency_mode)
            + 4 * spec_bool_byte(self.normal_mode)) as u8
    }

    pub fn take(input: &[u8]) -> (r: Result<(&[u8], Self), ParseError>)
        ensures
            input@.len() >= 1 <==> r is Ok,
            r matches Ok((rest, v)) ==> v == Self::spec_from_byte(input@[0]) && rest@ == input@.skip(1),
    {
        if input.len() < 1 {
            return Err(ParseError::UnexpectedEndOfInput);
        }
        let b = input[0];
        let v = AmbientSoundModeCycle {
            noise_canceling_mode: b % 2 == 1,
            transparency_mode: (b / 2) % 2 == 1,
            normal_mode: (b / 4) % 2 == 1,
        };
        Ok((vstd::slice::slice_subrange(input, 1, input.len()), v))
    }

    pub fn bytes(&self) -> (r: [u8; 1])
        ensures
            r@ == seq![self.spec_byte()],
    {
        let r = [bool_byte(self.noise_canceling_mode) + 2 * bool_byte(self.transparency_mode) + 4 * bool_byte(self.normal_mode)];
        assert(r@ =~= seq![self.spec_byte()]);
        r
    }

    pub proof fn lemma_roundtrip(self)
        ensures
            Self::spec_from_byte(self.spec_byte()) == self,
    {
    }
}

/// A setting that is a single on/off byte.
pub open spec fn spec_flag_bytes(is_enabled: bool) -> Seq<u8> {
    seq![spec_bool_byte(is_enabled)]
}

/// Whether taking an earbud out pauses playback.
#[derive(Debug, Default, Clone, Copy, PartialEq, Eq, Structural)]
pub struct WearingDetection {
    pub is_enabled: bool,
}

/// Whether LDAC is in use.
#[derive(Debug, Default, Clone, Copy, PartialEq, Eq, Structural)]
pub struct Ldac {
    pub is_enabled: bool,
}

/// Whether a tone plays when an earbud is put in.
#[derive(Debug, Default, Clone, Copy, PartialEq, Eq, Structural)]
pub struct WearingTone {
    pub is_enabled: bool,
}

/// Whether a prompt plays when the battery is low.
#[derive(Debug, Default, Clone, Copy, PartialEq, Eq, Structural)]
pub struct LowBatteryPrompt {
    pub is_enabled: bool,
}

/// Reads one on/off byte.
pub fn take_flag(input: &[u8]) -> (r: Result<(&[u8], bool), ParseError>)
    ensures
        input@.len() >= 1 <==> r is Ok,
        r matches Ok((rest, v)) ==> v == spec_bool_from_byte(input@[0]) && rest@ == input@.skip(1),
{
    if input.len() < 1 {
        return Err(ParseError::UnexpectedEndOfInput);
    }
    Ok((vstd::slice::slice_subrange(input, 1, input.len()), input[0] == 1))
}

impl WearingDetection {
    pub fn take(input: &[u8]) -> (r: Result<(&[u8], Self), ParseError>)
        ensures
            input@.len() >= 1 <==> r is Ok,
            r matches Ok((rest, v)) ==> v.is_enabled == spec_bool_from_byte(input@[0]) && rest@ == input@.skip(1),
    {
        let (rest, is_enabled) = take_flag(input)?;
        Ok((rest, WearingDetection { is_enabled }))
    }

    pub fn bytes(&self) -> (r: [u8; 1])
        ensures
            r@ == spec_flag_bytes(self.is_enabled),
    {
        let r = [bool_byte(self.is_enabled)];
        assert(r@ =~= spec_flag_bytes(self.is_enabled));
        r
    }
}

impl Ldac {
    pub fn take(input: &[u8]) -> (r: Result<(&[u8], Self), ParseError>)
        ensures
            input@.len() >= 1 <==> r is Ok,
            r matches Ok((rest, v)) ==> v.is_enabled == spec_bool_from_byte(input@[0]) && rest@ == input@.skip(1),
    {
        let (rest, is_enabled) = take_flag(input)?;
        Ok((rest, Ldac { is_enabled }))
    }

    pub fn bytes(&self) -> (r: [u8; 1])
        ensures
            r@ == spec_flag_bytes(self.is_enabled),
    {
        let r = [bool_byte(self.is_enabled)];
        assert(r@ =~= spec_flag_bytes(self.is_enabled));
        r
    }
}

impl WearingTone {
    pub fn take(input: &[u8]) -> (r: Result<(&[u8], Self), ParseError>)
        ensures
            input@.len() >= 1 <==> r is Ok,
            r matches Ok((rest, v)) ==> v.is_enabled == spec_bool_from_byte(input@[0]) && rest@ == input@.skip(1),
    {
        let (rest, is_enabled) = take_flag(input)?;
        Ok((rest, WearingTone { is_enabled }))
    }

    pub fn bytes(&self) -> (r: [u8; 1])
        ensures
            r@ == spec_flag_bytes(self.is_enabled),
    {
        let r = [bool_byte(self.is_enabled)];
        assert(r@ =~= spec_flag_bytes(self.is_enabled));
        r
    }
}

impl LowBatteryPrompt {
    pub fn take(input: &[u8]) -> (r: Result<(&[u8], Self), ParseError>)
        ensures
            input@.len() >= 1 <==> r is Ok,
            r matches Ok((rest, v)) ==> v.is_enabled == spec_bool_from_byte(input@[0]) && rest@ == input@.skip(1),
    {
        let (rest, is_enabled) = take_flag(input)?;
        Ok((rest, LowBatteryPrompt { is_enabled }))
    }

    pub fn bytes(&self) -> (r: [u8; 1])
        ensures
            r@ == spec_flag_bytes(self.is_enabled),
    {
        let r = [bool_byte(self.is_enabled)];
        assert(r@ =~= spec_flag_bytes(self.is_enabled));
        r
    }
}

/// Charge level of the case.
#[derive(Debug, Default, Clone, Copy, PartialEq, Eq, Structural)]
pub struct CaseBatteryLevel(pub u8);

impl CaseBatteryLevel {
    pub fn take(input: &[u8]) -> (r: Result<(&[u8], Self), ParseError>)
        ensures
            input@.len() >= 1 <==> r is Ok,
            r matches Ok((rest, v)) ==> v.0 == input@[0] && rest@ == input@.skip(1),
    {
        if input.len() < 1 {
            return Err(ParseError::UnexpectedEndOfInput);
        }
        Ok((vstd::slice::slice_subrange(input, 1, input.len()), CaseBatteryLevel(input[0])))
    }

    pub fn bytes(&self) -> (r: [u8; 1])
        ensures
            r@ == seq![self.0],
    {
        let r = [self.0];
        assert(r@ =~= seq![self.0]);
        r
    }
}

/// Automatic power off: the switch, then the index of the chosen duration.
#[derive(Debug, Default, Clone, Copy, PartialEq, Eq, Structural)]
pub struct AutoPowerOff {
    pub is_enabled: bool,
    pub duration: u8,
}

impl AutoPowerOff {
    pub open spec fn spec_bytes(self) -> Seq<u8> {
        seq![spec_bool_byte(self.is_enabled), self.duration]
    }

    pub fn take(input: &[u8]) -> (r: Result<(&[u8], Self), ParseError>)
        ensures
            input@.len() >= 2 <==> r is Ok,
            r matches Ok((rest, v)) ==> v == (AutoPowerOff { is_enabled: spec_bool_from_byte(input@[0]), duration: input@[1] })
                && rest@ == input@.skip(2),
    {
        if input.len() < 2 {
            return Err(ParseError::UnexpectedEndOfInput);
        }
        let v = AutoPowerOff { is_enabled: input[0] == 1, duration: input[1] };
        Ok((vstd::slice::slice_subrange(input, 2, input.len()), v))
    }

    pub fn bytes(&self) -> (r: [u8; 2])
        ensures
            r@ == self.spec_bytes(),
    {
        let r = [bool_byte(self.is_enabled), self.duration];
        assert(r@ =~= self.spec_bytes());
        r
    }
}

/// A host that the earbuds know of when connected to two hosts at once.
#[derive(Debug, Clone, PartialEq, Eq)]
pub struct DualConnectionsDevice {
    pub is_connected: bool,
    pub mac_address: [u8; 6],
    pub name: String,
}

/// Connection to two hosts at once: the switch, and the hosts reported separately.
#[derive(Debug, Clone, PartialEq, Eq)]
pub struct DualConnections {
    pub is_enabled: bool,
    pub devices: Vec<DualConnectionsDevice>,
}

} // verus!
