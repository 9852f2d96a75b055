//! WAV encoding: 16-bit little-endian PCM under a 44-byte RIFF header,
//! byte-exact.

use vstd::prelude::*;

verus! {

/// The two little-endian bytes of a value below 2^16.
pub open spec fn le16_spec(x: int) -> Seq<u8>
    recommends
        0 <= x < 0x10000,
{
    seq![(x % 256) as u8, (x / 256 % 256) as u8]
}

/// The four little-endian bytes of a value below 2^32.
pub open spec fn le32_spec(x: int) -> Seq<u8>
    recommends
        0 <= x < 0x100000000,
{
    seq![
        (x % 256) as u8,
        (x / 256 % 256) as u8,
        (x / 65536 % 256) as u8,
        (x / 16777216 % 256) as u8,
    ]
}

/// The two's-complement 16-bit image of a signed sample.
pub open spec fn u16_of_i16_spec(s: int) -> int
    recommends
        -0x8000 <= s < 0x8000,
{
    if s >= 0 {
        s
    } else {
        s + 0x10000
    }
}

/// The sample data chunk: each sample as two little-endian bytes, in
/// order.
pub open spec fn pcm16_bytes_spec(samples: Seq<i16>) -> Seq<u8>
    decreases samples.len(),
{
    if samples.len() == 0 {
        Seq::<u8>::empty()
    } else {
        pcm16_bytes_spec(samples.drop_last()) + le16_spec(u16_of_i16_spec(samples.last() as int))
    }
}

/// The 44-byte RIFF/WAVE header for 16-bit PCM.
pub open spec fn wav_header_spec(sample_count: int, rate: int, channels: int) -> Seq<u8> {
    let data_size = 2 * sample_count;
    let byte_rate = rate * channels * 2;
    let block_align = channels * 2;
    seq![0x52u8, 0x49u8, 0x46u8, 0x46u8]  // "RIFF"
     + le32_spec(36 + data_size) + seq![0x57u8, 0x41u8, 0x56u8, 0x45u8]  // "WAVE"
     + seq![0x66u8, 0x6du8, 0x74u8, 0x20u8]  // "fmt "
     + le32_spec(16) + le16_spec(1)  // PCM
     + le16_spec(channels) + le32_spec(rate) + le32_spec(byte_rate) + le16_spec(block_align)
        + le16_spec(16)  // bits per sample
     + seq![0x64u8, 0x61u8, 0x74u8, 0x61u8]  // "data"
     + le32_spec(data_size)
}

/// A whole WAV file: header, then samples.
pub open spec fn encode_wav_spec(samples: Seq<i16>, rate: int, channels: int) -> Seq<u8> {
    wav_header_spec(samples.len() as int, rate, channels) + pcm16_bytes_spec(samples)
}

/// Append the two little-endian bytes of `x`.
fn push_le16(out: &mut Vec<u8>, x: u16)
    requires
        old(out)@.len() + 2 <= usize::MAX,
    ensures
        final(out)@ == old(out)@ + le16_spec(x as int),
{
    out.push((x % 256) as u8);
    out.push((x / 256) as u8);
    proof {
        assert(final(out)@ =~= old(out)@ + le16_spec(x as int));
    }
}

/// Append the four little-endian bytes of `x`.
fn push_le32(out: &mut Vec<u8>, x: u32)
    requires
        old(out)@.len() + 4 <= usize::MAX,
    ensures
        final(out)@ == old(out)@ + le32_spec(x as int),
{
    out.push((x % 256) as u8);
    out.push((x / 256 % 256) as u8);
    out.push((x / 65536 % 256) as u8);
    out.push((x / 16777216) as u8);
    proof {
        assert(final(out)@ =~= old(out)@ + le32_spec(x as int));
    }
}

/// Encode fixed-point PCM as a WAV file: 16-bit little-endian samples
/// under the standard 44-byte header.
pub fn encode_wav(samples: &Vec<i16>, sample_rate: u32, channels: u16) -> (r: Vec<u8>)
    requires
        2 * samples@.len() + 44 <= u32::MAX,
        sample_rate * channels * 2 <= u32::MAX,
        2 * channels <= u16::MAX,
    ensures
        r@ == encode_wav_spec(samples@, sample_rate as int, channels as int),
{
    let n = samples.len();
    let data_size: u32 = 2 * (n as u32);
    let byte_rate: u32 = sample_rate * (channels as u32) * 2;
    let block_align: u16 = channels * 2;
    let mut out: Vec<u8> = Vec::new();
    out.push(0x52);
    out.push(0x49);
    out.push(0x46);
    out.push(0x46);
    push_le32(&mut out, 36 + data_size);
    out.push(0x57);
    out.push(0x41);
    out.push(0x56);
    out.push(0x45);
    out.push(0x66);
    out.push(0x6d);
    out.push(0x74);
    out.push(0x20);
    push_le32(&mut out, 16);
    push_le16(&mut out, 1);
    push_le16(&mut out, channels);
    push_le32(&mut out, sample_rate);
    push_le32(&mut out, byte_rate);
    push_le16(&mut out, block_align);
    push_le16(&mut out, 16);
    out.push(0x64);
    out.push(0x61);
    out.push(0x74);
    out.push(0x61);
    push_le32(&mut out, data_size);
    proof {
        assert(out@ =~= wav_header_spec(n as int, sample_rate as int, channels as int));
    }
    let ghost header = out@;
    let mut i: usize = 0;
    while i < n
        invariant
            n == samples@.len(),
            2 * n + 44 <= u32::MAX,
            i <= n,
            out@ == header + pcm16_bytes_spec(samples@.subrange(0, i as int)),
            header.len() == 44,
            out@.len() == 44 + 2 * i,
        decreases n - i,
    {
        let s = samples[i];
        let u: u16 = if s >= 0 {
            s as u16
        } else {
            ((s as i32) + 0x10000) as u16
        };
        proof {
            assert(u as int == u16_of_i16_spec(s as int));
            assert(samples@.subrange(0, i + 1 as int).drop_last()
                =~= samples@.subrange(0, i as int));
        }
        push_le16(&mut out, u);
        proof {
            assert(out@ =~= header + pcm16_bytes_spec(samples@.subrange(0, i + 1 as int)));
        }
        i = i + 1;
    }
    proof {
        assert(samples@.subrange(0, n as int) =~= samples@);
    }
    out
}

} // verus!
