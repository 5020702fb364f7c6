use vstd::prelude::*;

use crate::devices::soundcore::common::{
    bytes::{push_all, spec_u16_le, spec_u32_be, u16_le_bytes, u32_be_bytes},
    packet::{Command, Outbound},
    parsing::bool_byte,
    structures::{
        push_channels, spec_bool_byte, spec_channels_bytes, CommonEqualizerConfiguration,
        CustomHearId, VolumeAdjustments,
    },
};

verus! {

/// A Hear ID channel carries no data when every band byte is `0xFF`.
pub open spec fn spec_is_unset(v: VolumeAdjustments) -> bool {
    forall|i: int| 0 <= i < 10 ==> v.bands@[i] == 255u8
}

/// A Hear ID channel as the equalizer write sends it: its bands, with the last byte replaced
/// by `0` when the channel carries no data.
pub open spec fn spec_hear_id_channel_bytes(v: VolumeAdjustments) -> Seq<u8> {
    if spec_is_unset(v) {
        v.bands@.update(9, 0u8)
    } else {
        v.bands@
    }
}

/// Both Hear ID channels as the equalizer write sends them, left first.
pub open spec fn spec_hear_id_channels_bytes(channels: [VolumeAdjustments; 2]) -> Seq<u8> {
    spec_hear_id_channel_bytes(channels@[0]) + spec_hear_id_channel_bytes(channels@[1])
}

/// The body of the custom equalizer write.
pub open spec fn spec_set_equalizer_body(
    equalizer_configuration: CommonEqualizerConfiguration,
    hear_id: CustomHearId,
    is_hear_id_initialized: bool,
    drc_volume_adjustments: [VolumeAdjustments; 2],
) -> Seq<u8> {
    spec_u16_le(equalizer_configuration.preset_id) + hear_id.favorite_music_genre@
        + spec_channels_bytes(equalizer_configuration.volume_adjustments)
        + (if is_hear_id_initialized { seq![0u8, 0u8] } else { seq![255u8, 255u8] })
        + seq![spec_bool_byte(hear_id.is_enabled)]
        + spec_hear_id_channels_bytes(hear_id.volume_adjustments) + spec_u32_be(hear_id.time)
        + seq![hear_id.hear_id_type.0] + spec_hear_id_channels_bytes(hear_id.custom_volume_adjustments)
        + spec_channels_bytes(drc_volume_adjustments) + seq![0u8]
}

fn is_unset(v: &VolumeAdjustments) -> (r: bool)
    ensures
        r == spec_is_unset(*v),
{
    let mut i: usize = 0;
    while i < 10
        invariant
            i <= 10,
            forall|j: int| 0 <= j < i ==> v.bands@[j] == 255u8,
        decreases 10 - i,
    {
        if v.bands[i] != 255 {
            return false;
        }
        i = i + 1;
    }
    true
}

fn push_hear_id_channels(out: &mut Vec<u8>, channels: &[VolumeAdjustments; 2])
    ensures
        final(out)@ == old(out)@ + spec_hear_id_channels_bytes(*channels),
{
    let ghost start = out@;
    let mut i: usize = 0;
    while i < 2
        invariant
            i <= 2,
            i == 0 ==> out@ == start,
            i == 1 ==> out@ == start + spec_hear_id_channel_bytes(channels@[0]),
            i == 2 ==> out@ == start + spec_hear_id_channels_bytes(*channels),
        decreases 2 - i,
    {
        let v = channels[i];
        let mut bytes = v.bands;
        if is_unset(&v) {
            bytes[9] = 0;
        }
        assert(bytes@ == spec_hear_id_channel_bytes(v));
        push_all(out, &bytes);
        i = i + 1;
        assert(i == 2 ==> out@ =~= start + spec_hear_id_channels_bytes(*channels));
    }
}

/// The custom equalizer write (command `[0x03, 0x87]`): the preset id, the Hear ID favorite
/// music genre, the equalizer bands, a two-byte marker (`0, 0` when the device already holds
/// Hear ID data, `255, 255` when it does not), the Hear ID switch, the Hear ID bands, the Hear ID
/// time (big-endian), the Hear ID type, the custom Hear ID bands, the equalizer bands after
/// dynamic range compression, and a trailing zero. The compressed bands are computed by the
/// caller and passed in as `drc_volume_adjustments`.
pub fn set_equalizer_configuration(
    equalizer_configuration: &CommonEqualizerConfiguration,
    hear_id: &CustomHearId,
    is_hear_id_initialized: bool,
    drc_volume_adjustments: &[VolumeAdjustments; 2],
) -> (r: Outbound)
    ensures
        r.command == (Command { first: 3, second: 135 }),
        r.body@ == spec_set_equalizer_body(*equalizer_configuration, *hear_id, is_hear_id_initialized, *drc_volume_adjustments),
{
    let mut body = Vec::new();
    push_all(&mut body, &u16_le_bytes(equalizer_configuration.preset_id()));
    push_all(&mut body, &hear_id.favorite_music_genre);
    let eq = equalizer_configuration.volume_adjustments_bytes();
    push_all(&mut body, eq.as_slice());
    if is_hear_id_initialized {
        push_all(&mut body, &[0u8, 0u8]);
    } else {
        push_all(&mut body, &[255u8, 255u8]);
    }
    body.push(bool_byte(hear_id.is_enabled));
    push_hear_id_channels(&mut body, &hear_id.volume_adjustments);
    push_all(&mut body, &u32_be_bytes(hear_id.time));
    body.push(hear_id.hear_id_type.0);
    push_hear_id_channels(&mut body, &hear_id.custom_volume_adjustments);
    push_channels(&mut body, drc_volume_adjustments);
    body.push(0);
    assert(body@ =~= spec_set_equalizer_body(*equalizer_configuration, *hear_id, is_hear_id_initialized, *drc_volume_adjustments));
    Outbound::new(Command::new(3, 135), body)
}

/// The custom equalizer write on the wire: the preset id little-endian at 0 and 1, the favorite
/// music genre at 2 and 3, the two equalizer channels at 4 to 24, the marker at 24 and 25 (0, 0
/// when the device holds Hear ID data, 255, 255 when it does not), the Hear ID switch at 26
/// (1 on, 0 off), the Hear ID channels at 27 to 47 (a channel whose ten bands are all 255 is
/// sent with its last band 0), the Hear ID time big-endian at 47 to 51, its type at 51, the
/// custom Hear ID channels at 52 to 72 (the same rule for unset channels), the compressed
/// channels at 72 to 92, and a zero at 92.
pub proof fn lemma_set_equalizer_layout(
    equalizer_configuration: CommonEqualizerConfiguration,
    hear_id: CustomHearId,
    is_hear_id_initialized: bool,
    drc_volume_adjustments: [VolumeAdjustments; 2],
    b: Seq<u8>,
)
    requires
        b == spec_set_equalizer_body(equalizer_configuration, hear_id, is_hear_id_initialized, drc_volume_adjustments),
    ensures
        b.len() == 93,
        b[0] == equalizer_configuration.preset_id % 256,
        b[1] == equalizer_configuration.preset_id / 256,
        b[2] == hear_id.favorite_music_genre@[0],
        b[3] == hear_id.favorite_music_genre@[1],
        b.subrange(4, 14) == equalizer_configuration.volume_adjustments@[0].bands@,
        b.subrange(14, 24) == equalizer_configuration.volume_adjustments@[1].bands@,
        b[24] == (if is_hear_id_initialized { 0u8 } else { 255u8 }),
        b[25] == (if is_hear_id_initialized { 0u8 } else { 255u8 }),
        b[26] == (if hear_id.is_enabled { 1u8 } else { 0u8 }),
        b.subrange(27, 37) == (if (forall|j: int| 0 <= j < 10 ==> hear_id.volume_adjustments@[0].bands@[j] == 255u8) { hear_id.volume_adjustments@[0].bands@.update(9, 0u8) } else { hear_id.volume_adjustments@[0].bands@ }),
        b.subrange(37, 47) == (if (forall|j: int| 0 <= j < 10 ==> hear_id.volume_adjustments@[1].bands@[j] == 255u8) { hear_id.volume_adjustments@[1].bands@.update(9, 0u8) } else { hear_id.volume_adjustments@[1].bands@ }),
        b[47] == hear_id.time / 0x100_0000,
        b[48] == (hear_id.time / 0x1_0000) % 256,
        b[49] == (hear_id.time / 256) % 256,
        b[50] == hear_id.time % 256,
        b[51] == hear_id.hear_id_type.0,
        b.subrange(52, 62) == (if (forall|j: int| 0 <= j < 10 ==> hear_id.custom_volume_adjustments@[0].bands@[j] == 255u8) { hear_id.custom_volume_adjustments@[0].bands@.update(9, 0u8) } else { hear_id.custom_volume_adjustments@[0].bands@ }),
        b.subrange(62, 72) == (if (forall|j: int| 0 <= j < 10 ==> hear_id.custom_volume_adjustments@[1].bands@[j] == 255u8) { hear_id.custom_volume_adjustments@[1].bands@.update(9, 0u8) } else { hear_id.custom_volume_adjustments@[1].bands@ }),
        b.subrange(72, 82) == drc_volume_adjustments@[0].bands@,
        b.subrange(82, 92) == drc_volume_adjustments@[1].bands@,
        b[92] == 0,
{
    broadcast use vstd::array::group_array_axioms;
    let hv = hear_id.volume_adjustments;
    let hc = hear_id.custom_volume_adjustments;
    assert(spec_hear_id_channel_bytes(hv@[0]).len() == 10);
    assert(spec_hear_id_channel_bytes(hv@[1]).len() == 10);
    assert(spec_hear_id_channel_bytes(hc@[0]).len() == 10);
    assert(spec_hear_id_channel_bytes(hc@[1]).len() == 10);
    assert(b.subrange(4, 14) =~= equalizer_configuration.volume_adjustments@[0].bands@);
    assert(b.subrange(14, 24) =~= equalizer_configuration.volume_adjustments@[1].bands@);
    assert(b.subrange(27, 37) =~= spec_hear_id_channel_bytes(hv@[0]));
    assert(b.subrange(37, 47) =~= spec_hear_id_channel_bytes(hv@[1]));
    assert(b.subrange(52, 62) =~= spec_hear_id_channel_bytes(hc@[0]));
    assert(b.subrange(62, 72) =~= spec_hear_id_channel_bytes(hc@[1]));
    assert(b.subrange(72, 82) =~= drc_volume_adjustments@[0].bands@);
    assert(b.subrange(82, 92) =~= drc_volume_adjustments@[1].bands@);
}

} // verus!
