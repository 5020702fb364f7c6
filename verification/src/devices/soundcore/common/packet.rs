use vstd::prelude::*;

use super::bytes::{lemma_u16_le_roundtrip, push_all, spec_u16_from_le, spec_u16_le, u16_from_le, u16_le_bytes};
use super::parsing::ParseError;

verus! {

/// The two command bytes that say what a packet carries.
#[derive(Debug, Clone, Copy, PartialEq, Eq, Structural)]
pub struct Command {
    pub first: u8,
    pub second: u8,
}

impl Command {
    pub fn new(first: u8, second: u8) -> (r: Command)
        ensures
            r == (Command { first, second }),
    {
        Command { first, second }
    }

    /// The command of a full state report, `[0x01, 0x01]`.
    pub fn state() -> (r: Command)
        ensures
            r == (Command { first: 1, second: 1 }),
    {
        Command { first: 1, second: 1 }
    }
}

/// A packet sent to the device.
#[derive(Debug, Clone, PartialEq, Eq)]
pub struct Outbound {
    pub command: Command,
    pub body: Vec<u8>,
}

impl Outbound {
    pub fn new(command: Command, body: Vec<u8>) -> (r: Outbound)
        ensures
            r.command == command,
            r.body@ == body@,
    {
        Outbound { command, body }
    }
}

/// A packet received from the device.
#[derive(Debug, Clone, PartialEq, Eq)]
pub struct Inbound {
    pub command: Command,
    pub body: Vec<u8>,
}

impl Inbound {
    pub fn new(command: Command, body: Vec<u8>) -> (r: Inbound)
        ensures
            r.command == command,
            r.body@ == body@,
    {
        Inbound { command, body }
    }
}

/// The sum of the bytes of `s`.
pub open spec fn spec_sum(s: Seq<u8>) -> nat
    decreases s.len(),
{
    if s.len() == 0 {
        0
    } else {
        spec_sum(s.drop_last()) + s.last() as nat
    }
}

/// The checksum of a packet: the sum of its bytes, modulo 256.
pub open spec fn spec_checksum(s: Seq<u8>) -> u8 {
    (spec_sum(s) % 256) as u8
}

pub fn checksum(s: &[u8]) -> (r: u8)
    ensures
        r == spec_checksum(s@),
{
    let mut acc: u8 = 0;
    let mut i: usize = 0;
    while i < s.len()
        invariant
            i <= s@.len(),
            acc == spec_sum(s@.subrange(0, i as int)) % 256,
        decreases s@.len() - i,
    {
        assert(s@.subrange(0, i + 1).drop_last() =~= s@.subrange(0, i as int));
        acc = ((acc as u16 + s[i] as u16) % 256) as u8;
        i = i + 1;
    }
    assert(s@.subrange(0, s@.len() as int) =~= s@);
    acc
}

/// The prefix of packets received from the device.
pub open spec fn spec_inbound_prefix() -> Seq<u8> {
    seq![0x09u8, 0xFFu8, 0x00u8, 0x00u8, 0x01u8]
}

/// The prefix of packets sent to the device.
pub open spec fn spec_outbound_prefix() -> Seq<u8> {
    seq![0x08u8, 0xEEu8, 0x00u8, 0x00u8, 0x00u8]
}

/// A framed packet without its checksum: the prefix, the command, the total length
/// (little-endian, counting every byte including the checksum) and the body.
pub open spec fn spec_frame_head(prefix: Seq<u8>, command: Command, body: Seq<u8>) -> Seq<u8> {
    prefix + seq![command.first, command.second] + spec_u16_le((body.len() + 10) as u16) + body
}

/// A framed packet: the head followed by its checksum.
pub open spec fn spec_frame(prefix: Seq<u8>, command: Command, body: Seq<u8>) -> Seq<u8> {
    spec_frame_head(prefix, command, body) + seq![spec_checksum(spec_frame_head(prefix, command, body))]
}

fn frame(prefix: &[u8; 5], command: Command, body: &[u8]) -> (r: Vec<u8>)
    requires
        body@.len() + 10 <= u16::MAX,
    ensures
        r@ == spec_frame(prefix@, command, body@),
{
    let mut r = Vec::new();
    push_all(&mut r, prefix);
    r.push(command.first);
    r.push(command.second);
    push_all(&mut r, &u16_le_bytes((body.len() + 10) as u16));
    push_all(&mut r, body);
    assert(r@ =~= spec_frame_head(prefix@, command, body@));
    let sum = checksum(r.as_slice());
    r.push(sum);
    r
}

impl Outbound {
    /// The packet as sent: framed with the outbound prefix, its length and its checksum.
    pub fn bytes(&self) -> (r: Vec<u8>)
        requires
            self.body@.len() + 10 <= u16::MAX,
        ensures
            r@ == spec_frame(spec_outbound_prefix(), self.command, self.body@),
    {
        let prefix = [0x08u8, 0xEE, 0x00, 0x00, 0x00];
        assert(prefix@ =~= spec_outbound_prefix());
        frame(&prefix, self.command, self.body.as_slice())
    }
}

/// The checksum of no bytes is 0, and appending a byte adds the byte to it, modulo 256.
pub proof fn lemma_checksum_step(s: Seq<u8>, x: u8)
    ensures
        spec_checksum(Seq::<u8>::empty()) == 0,
        spec_checksum(s.push(x)) == (spec_checksum(s) + x) % 256,
{
    assert(s.push(x).drop_last() =~= s);
    let a = spec_sum(s) as int;
    vstd::arithmetic::div_mod::lemma_add_mod_noop(a, x as int, 256);
    vstd::arithmetic::div_mod::lemma_small_mod(x as nat, 256);
    vstd::arithmetic::div_mod::lemma_small_mod((a % 256) as nat, 256);
}

/// A packet on the wire: the prefix (`08 EE 00 00 00` when sent to the device, `09 FF 00 00
/// 01` when received from it), the two command bytes, the total length (the body's plus 10)
/// little-endian, the body, and the checksum of every byte before it.
pub proof fn lemma_frame_layout(command: Command, body: Seq<u8>)
    requires
        body.len() + 10 <= u16::MAX,
    ensures
        ({
            let f = spec_frame(spec_outbound_prefix(), command, body);
            &&& f.len() == body.len() + 10
            &&& f.subrange(0, 7) == seq![0x08u8, 0xEEu8, 0x00u8, 0x00u8, 0x00u8, command.first, command.second]
            &&& f[7] == (body.len() + 10) % 256
            &&& f[8] == (body.len() + 10) / 256
            &&& f.subrange(9, body.len() + 9 as int) == body
            &&& f[body.len() + 9 as int] == spec_checksum(f.subrange(0, body.len() + 9 as int))
        }),
        ({
            let f = spec_frame(spec_inbound_prefix(), command, body);
            &&& f.len() == body.len() + 10
            &&& f.subrange(0, 7) == seq![0x09u8, 0xFFu8, 0x00u8, 0x00u8, 0x01u8, command.first, command.second]
            &&& f[7] == (body.len() + 10) % 256
            &&& f[8] == (body.len() + 10) / 256
            &&& f.subrange(9, body.len() + 9 as int) == body
            &&& f[body.len() + 9 as int] == spec_checksum(f.subrange(0, body.len() + 9 as int))
        }),
{
    let o = spec_frame(spec_outbound_prefix(), command, body);
    let oh = spec_frame_head(spec_outbound_prefix(), command, body);
    let i = spec_frame(spec_inbound_prefix(), command, body);
    let ih = spec_frame_head(spec_inbound_prefix(), command, body);
    assert(o.subrange(0, 7) =~= seq![0x08u8, 0xEEu8, 0x00u8, 0x00u8, 0x00u8, command.first, command.second]);
    assert(i.subrange(0, 7) =~= seq![0x09u8, 0xFFu8, 0x00u8, 0x00u8, 0x01u8, command.first, command.second]);
    assert(o.subrange(9, body.len() + 9 as int) =~= body);
    assert(i.subrange(9, body.len() + 9 as int) =~= body);
    assert(o.subrange(0, body.len() + 9 as int) =~= oh);
    assert(i.subrange(0, body.len() + 9 as int) =~= ih);
}

/// The input starts with a whole inbound packet: the prefix, a length of at least 10 that the
/// input holds, and a matching checksum.
pub open spec fn spec_inbound_frame_ok(s: Seq<u8>) -> bool {
    let len = spec_u16_from_le(s[7], s[8]) as int;
    &&& s.len() >= 10
    &&& s.subrange(0, 5) == spec_inbound_prefix()
    &&& 10 <= len <= s.len()
    &&& s[len - 1] == spec_checksum(s.subrange(0, len - 1))
}

impl Inbound {
    /// The packet as the device sends it: framed with the inbound prefix, its length and its
    /// checksum.
    pub fn bytes_with_checksum(&self) -> (r: Vec<u8>)
        requires
            self.body@.len() + 10 <= u16::MAX,
        ensures
            r@ == spec_frame(spec_inbound_prefix(), self.command, self.body@),
    {
        let prefix = [0x09u8, 0xFF, 0x00, 0x00, 0x01];
        assert(prefix@ =~= spec_inbound_prefix());
        frame(&prefix, self.command, self.body.as_slice())
    }

    /// Reads one framed packet from the start of `input` and returns it with what follows it.
    pub fn take_with_checksum(input: &[u8]) -> (r: Result<(&[u8], Inbound), ParseError>)
        ensures
            spec_inbound_frame_ok(input@) <==> r is Ok,
            r matches Ok((rest, p)) ==> {
                let len = spec_u16_from_le(input@[7], input@[8]) as int;
                &&& p.command == (Command { first: input@[5], second: input@[6] })
                &&& p.body@ == input@.subrange(9, len - 1)
                &&& rest@ == input@.skip(len)
            },
    {
        if input.len() < 10 {
            return Err(ParseError::UnexpectedEndOfInput);
        }
        if !(input[0] == 0x09 && input[1] == 0xFF && input[2] == 0x00 && input[3] == 0x00 && input[4] == 0x01) {
            assert(input@.subrange(0, 5) != spec_inbound_prefix()) by {
                if input@.subrange(0, 5) == spec_inbound_prefix() {
                    assert(input@[0] == input@.subrange(0, 5)[0]);
                    assert(input@[1] == input@.subrange(0, 5)[1]);
                    assert(input@[2] == input@.subrange(0, 5)[2]);
                    assert(input@[3] == input@.subrange(0, 5)[3]);
                    assert(input@[4] == input@.subrange(0, 5)[4]);
                }
            }
            return Err(ParseError::InvalidValue);
        }
        assert(input@.subrange(0, 5) =~= spec_inbound_prefix());
        let len = u16_from_le(input[7], input[8]) as usize;
        if len < 10 {
            return Err(ParseError::InvalidValue);
        }
        if input.len() < len {
            return Err(ParseError::UnexpectedEndOfInput);
        }
        let sum = checksum(vstd::slice::slice_subrange(input, 0, len - 1));
        if input[len - 1] != sum {
            return Err(ParseError::ChecksumMismatch);
        }
        let body = vstd::slice::slice_to_vec(vstd::slice::slice_subrange(input, 9, len - 1));
        let rest = vstd::slice::slice_subrange(input, len, input.len());
        assert(rest@ =~= input@.skip(len as int));
        Ok((rest, Inbound { command: Command { first: input[5], second: input[6] }, body }))
    }
}

/// A framed packet reads back as the same command and body, followed by whatever came after it.
pub proof fn lemma_inbound_frame_roundtrip(command: Command, body: Seq<u8>, after: Seq<u8>)
    requires
        body.len() + 10 <= u16::MAX,
    ensures
        ({
            let s = spec_frame(spec_inbound_prefix(), command, body) + after;
            let len = spec_u16_from_le(s[7], s[8]) as int;
            &&& spec_inbound_frame_ok(s)
            &&& s[5] == command.first
            &&& s[6] == command.second
            &&& s.subrange(9, len - 1) == body
            &&& s.skip(len) == after
        }),
{
    let head = spec_frame_head(spec_inbound_prefix(), command, body);
    let f = spec_frame(spec_inbound_prefix(), command, body);
    let s = f + after;
    let n = (body.len() + 10) as u16;
    lemma_u16_le_roundtrip(n);
    assert(head.len() == body.len() + 9 as int);
    assert(s[7] == spec_u16_le(n)[0]);
    assert(s[8] == spec_u16_le(n)[1]);
    let len = spec_u16_from_le(s[7], s[8]) as int;
    assert(len == body.len() + 10);
    assert(s.subrange(0, 5) =~= spec_inbound_prefix());
    assert(s.subrange(0, len - 1) =~= head);
    assert(s[len - 1] == spec_checksum(head));
    assert(s.subrange(9, len - 1) =~= body);
    assert(s.skip(len) =~= after);
}

} // verus!
