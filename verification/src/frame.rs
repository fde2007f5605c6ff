//! The framing pipeline: value injection, checksum, and packet assembly.

use vstd::prelude::*;

verus! {

/// One bit-iteration of the checksum: shift the accumulator right once,
/// then fold in the reflected polynomial when the bit shifted out was set.
pub open spec fn crc_step(acc: u16) -> u16 {
    if acc & 1 == 1 {
        (acc >> 1) ^ 0xA001
    } else {
        acc >> 1
    }
}

/// `n` bit-iterations applied to `acc`.
pub open spec fn crc_steps(acc: u16, n: nat) -> u16
    decreases n,
{
    if n == 0 {
        acc
    } else {
        crc_step(crc_steps(acc, (n - 1) as nat))
    }
}

/// Absorb one message byte: XOR it into the low half of the accumulator,
/// then run the eight bit-iterations.
pub open spec fn crc_absorb(acc: u16, byte: u8) -> u16 {
    crc_steps(acc ^ (byte as u16), 8)
}

/// Accumulator after absorbing the first `n` bytes of `msg`,
/// starting from the initial value `0xFFFF`.
pub open spec fn crc_of_prefix(msg: Seq<u8>, n: nat) -> u16
    decreases n,
{
    if n == 0 {
        0xFFFF
    } else {
        crc_absorb(crc_of_prefix(msg, (n - 1) as nat), msg[n - 1])
    }
}

/// The 16-bit checksum of a whole message.
pub open spec fn checksum_spec(msg: Seq<u8>) -> u16 {
    crc_of_prefix(msg, msg.len())
}

/// Write value to command: overwrite bytes 7 and 8 of the 9-byte template
/// with the big-endian encoding of `value`, leaving bytes 0 to 6 unchanged.
pub fn write_value(cmd: [u8; 9], value: u16) -> (r: [u8; 9])
    ensures
        r@ == cmd@.update(7, ((value >> 8) & 0xff) as u8).update(8, (value & 0xff) as u8),
{
    let mut out = cmd;
    out[7] = ((value >> 8) & 0xff) as u8;
    out[8] = (value & 0xff) as u8;
    out
}

/// Calculate checksum for command using a modified CRC-16 variant:
/// initial accumulator `0xFFFF`, reflected polynomial `0xA001`, one XOR and
/// eight bit-iterations per byte. The result comes out `[low byte, high byte]`.
pub fn checksum(msg: &[u8; 9]) -> (r: [u8; 2])
    ensures
        r@ == seq![
            (checksum_spec(msg@) & 0xff) as u8,
            (checksum_spec(msg@) >> 8) as u8,
        ],
{
    let mut acc: u16 = 0xFFFF;
    let mut i: usize = 0;
    while i < 9
        invariant
            i <= 9,
            acc == crc_of_prefix(msg@, i as nat),
        decreases 9 - i,
    {
        acc = acc ^ (msg[i] as u16);
        let mut j: usize = 0;
        let ghost entry: u16 = acc;
        while j < 8
            invariant
                j <= 8,
                acc == crc_steps(entry, j as nat),
            decreases 8 - j,
        {
            let ghost pre: u16 = acc;
            let low_bit = acc & 1;
            acc = acc >> 1;
            if low_bit != 0 {
                acc = acc ^ 0xA001;
            }
            proof {
                assert(pre & 1 == 0 || pre & 1 == 1) by (bit_vector);
                assert(acc == crc_step(pre));
            }
            j = j + 1;
        }
        i = i + 1;
    }
    let r = [acc as u8, (acc >> 8) as u8];
    proof {
        assert(acc as u8 == (acc & 0xff) as u8) by (bit_vector);
        assert(r@ =~= seq![(checksum_spec(msg@) & 0xff) as u8, (checksum_spec(msg@) >> 8) as u8]);
    }
    r
}

/// Packetize the command for transmission: the 9 template bytes followed by
/// the checksum's low and high bytes, an 11-byte wire frame.
pub fn packetize(cmd: &[u8; 9]) -> (r: [u8; 11])
    ensures
        r@ == cmd@ + seq![
            (checksum_spec(cmd@) & 0xff) as u8,
            (checksum_spec(cmd@) >> 8) as u8,
        ],
{
    let cs = checksum(cmd);
    let r = [
        cmd[0], cmd[1], cmd[2], cmd[3], cmd[4], cmd[5], cmd[6], cmd[7], cmd[8], cs[0], cs[1],
    ];
    proof {
        assert(r@ =~= cmd@ + cs@);
    }
    r
}

/// The checksum is deterministic: the message bytes alone fix both output
/// bytes, so any two results that `checksum` may return for the same message
/// are equal.
pub proof fn lemma_checksum_deterministic(msg: Seq<u8>, a: Seq<u8>, b: Seq<u8>)
    requires
        a == seq![(checksum_spec(msg) & 0xff) as u8, (checksum_spec(msg) >> 8) as u8],
        b == seq![(checksum_spec(msg) & 0xff) as u8, (checksum_spec(msg) >> 8) as u8],
    ensures
        a == b,
{
}

} // verus!
