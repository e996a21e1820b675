//! A minimal WAV writer: mono 16-bit PCM around given samples.

use vstd::prelude::*;

verus! {

/// `x` as four little-endian bytes.
pub open spec fn le32(x: nat) -> Seq<u8> {
    seq![(x % 256) as u8, ((x / 256) % 256) as u8, ((x / 65536) % 256) as u8, ((x / 16777216) % 256) as u8]
}

/// `x` as two little-endian bytes.
pub open spec fn le16(x: nat) -> Seq<u8> {
    seq![(x % 256) as u8, ((x / 256) % 256) as u8]
}

/// The sample data: each sample as two little-endian bytes of its two's
/// complement.
pub open spec fn sample_bytes(samples: Seq<i16>) -> Seq<u8>
    decreases samples.len(),
{
    if samples.len() == 0 {
        Seq::empty()
    } else {
        sample_bytes(samples.drop_last()) + le16(samples.last() as u16 as nat)
    }
}

/// A mono 16-bit PCM WAV file: the RIFF header, the format chunk and the
/// data chunk.
pub open spec fn wav_file(sample_rate: nat, samples: Seq<i16>) -> Seq<u8> {
    let data_size = samples.len() * 2;
    seq![82u8, 73, 70, 70] + le32(36 + data_size) + seq![87u8, 65, 86, 69] + seq![102u8, 109, 116, 32] + le32(16)
        + le16(1) + le16(1) + le32(sample_rate) + le32(sample_rate * 2) + le16(2) + le16(16) + seq![100u8, 97, 116, 97]
        + le32(data_size) + sample_bytes(samples)
}

fn push_le32(v: &mut Vec<u8>, x: u32)
    ensures
        final(v)@ == old(v)@ + le32(x as nat),
{
    v.push((x % 256) as u8);
    v.push(((x / 256) % 256) as u8);
    v.push(((x / 65536) % 256) as u8);
    v.push(((x / 16777216) % 256) as u8);
    assert(final(v)@ =~= old(v)@ + le32(x as nat));
}

fn push_le16(v: &mut Vec<u8>, x: u16)
    ensures
        final(v)@ == old(v)@ + le16(x as nat),
{
    v.push((x % 256) as u8);
    v.push(((x / 256) % 256) as u8);
    assert(final(v)@ =~= old(v)@ + le16(x as nat));
}

fn push_bytes(v: &mut Vec<u8>, b0: u8, b1: u8, b2: u8, b3: u8)
    ensures
        final(v)@ == old(v)@ + seq![b0, b1, b2, b3],
{
    v.push(b0);
    v.push(b1);
    v.push(b2);
    v.push(b3);
    assert(final(v)@ =~= old(v)@ + seq![b0, b1, b2, b3]);
}

/// Builds a mono 16-bit PCM WAV file holding `samples` at `sample_rate`.
pub fn make_test_wav(sample_rate: u32, samples: &Vec<i16>) -> (res: Vec<u8>)
    requires
        36 + samples.len() * 2 <= u32::MAX,
        sample_rate * 2 <= u32::MAX,
    ensures
        res@ == wav_file(sample_rate as nat, samples@),
{
    let data_size: u32 = (samples.len() * 2) as u32;
    let mut buf: Vec<u8> = Vec::new();
    push_bytes(&mut buf, 82, 73, 70, 70);
    push_le32(&mut buf, 36 + data_size);
    push_bytes(&mut buf, 87, 65, 86, 69);
    push_bytes(&mut buf, 102, 109, 116, 32);
    push_le32(&mut buf, 16);
    push_le16(&mut buf, 1);
    push_le16(&mut buf, 1);
    push_le32(&mut buf, sample_rate);
    push_le32(&mut buf, sample_rate * 2);
    push_le16(&mut buf, 2);
    push_le16(&mut buf, 16);
    push_bytes(&mut buf, 100, 97, 116, 97);
    push_le32(&mut buf, data_size);
    let ghost header = buf@;
    let mut i: usize = 0;
    while i < samples.len()
        invariant
            i <= samples.len(),
            buf@ == header + sample_bytes(samples@.take(i as int)),
        decreases samples.len() - i,
    {
        assert(samples@.take(i + 1).drop_last() =~= samples@.take(i as int));
        assert(samples@.take(i + 1).last() == samples@[i as int]);
        push_le16(&mut buf, samples[i] as u16);
        i = i + 1;
        assert(buf@ =~= header + sample_bytes(samples@.take(i as int)));
    }
    assert(samples@.take(i as int) =~= samples@);
    assert(buf@ =~= wav_file(sample_rate as nat, samples@));
    buf
}

} // verus!
