//! The container that each track buffer is stored in: a 44-byte RIFF/WAVE
//! header for two-channel, 16-bit, 44.1 kHz PCM, followed by the samples.
use vstd::prelude::*;
use vstd::arithmetic::div_mod::{lemma_div_denominator, lemma_fundamental_div_mod};

verus! {

/// Size of the header that precedes the sample data.
pub const HEADER_LEN: usize = 44;

/// Bytes of audio in one raw CD sector (588 stereo 16-bit frames).
pub const SECTOR_BYTES: u32 = 2352;

pub const SAMPLE_RATE: u32 = 44100;

pub const CHANNELS: u16 = 2;

pub const BITS_PER_SAMPLE: u16 = 16;

/// Bytes per frame: one 16-bit sample for each of the two channels.
pub const BLOCK_ALIGN: u16 = 4;

/// Bytes per second of audio.
pub const BYTE_RATE: u32 = 176400;

/// The largest data length whose RIFF size field (`data + 36`) still fits in 32 bits.
pub const MAX_DATA_LEN: u32 = 4294967259;

/// `v` as two little-endian bytes.
pub open spec fn le16(v: nat) -> Seq<u8> {
    seq![(v % 256) as u8, ((v / 256) % 256) as u8]
}

/// `v` as four little-endian bytes.
pub open spec fn le32(v: nat) -> Seq<u8> {
    seq![
        (v % 256) as u8,
        ((v / 256) % 256) as u8,
        ((v / 65536) % 256) as u8,
        ((v / 16777216) % 256) as u8,
    ]
}

/// The number held by the four little-endian bytes of `s` from `i` on.
pub open spec fn read_le32(s: Seq<u8>, i: int) -> nat {
    (s[i] as nat) + 256 * (s[i + 1] as nat) + 65536 * (s[i + 2] as nat) + 16777216 * (
    s[i + 3] as nat)
}

pub open spec fn riff_tag() -> Seq<u8> {
    seq![0x52u8, 0x49u8, 0x46u8, 0x46u8]
}

pub open spec fn wave_tag() -> Seq<u8> {
    seq![0x57u8, 0x41u8, 0x56u8, 0x45u8]
}

pub open spec fn fmt_tag() -> Seq<u8> {
    seq![0x66u8, 0x6du8, 0x74u8, 0x20u8]
}

pub open spec fn data_tag() -> Seq<u8> {
    seq![0x64u8, 0x61u8, 0x74u8, 0x61u8]
}

/// The header of a container whose sample data is `data_len` bytes long.
pub open spec fn header_spec(data_len: nat) -> Seq<u8> {
    riff_tag() + le32(data_len + 36) + wave_tag() + fmt_tag() + le32(16) + le16(1) + le16(
        CHANNELS as nat,
    ) + le32(SAMPLE_RATE as nat) + le32(BYTE_RATE as nat) + le16(BLOCK_ALIGN as nat) + le16(
        BITS_PER_SAMPLE as nat,
    ) + data_tag() + le32(data_len)
}

/// The sample data length that a header declares, if `h` is a header of
/// this player's format.
pub open spec fn declared_len_spec(h: Seq<u8>) -> Option<nat> {
    if h.len() >= HEADER_LEN && read_le32(h, 40) <= MAX_DATA_LEN && h.subrange(0, 40) == header_spec(
        (read_le32(h, 40) as nat),
    ).subrange(0, 40) {
        Some(read_le32(h, 40))
    } else {
        None
    }
}

fn push_le16(out: &mut Vec<u8>, v: u16)
    ensures
        final(out)@ == old(out)@ + le16(v as nat),
{
    out.push((v % 256) as u8);
    out.push(((v / 256) % 256) as u8);
    assert(final(out)@ =~= old(out)@ + le16(v as nat));
}

fn push_le32(out: &mut Vec<u8>, v: u32)
    ensures
        final(out)@ == old(out)@ + le32(v as nat),
{
    out.push((v % 256) as u8);
    out.push(((v / 256) % 256) as u8);
    out.push(((v / 65536) % 256) as u8);
    out.push(((v / 16777216) % 256) as u8);
    assert(final(out)@ =~= old(out)@ + le32(v as nat));
}

fn push_tag(out: &mut Vec<u8>, a: u8, b: u8, c: u8, d: u8)
    ensures
        final(out)@ == old(out)@ + seq![a, b, c, d],
{
    out.push(a);
    out.push(b);
    out.push(c);
    out.push(d);
    assert(final(out)@ =~= old(out)@ + seq![a, b, c, d]);
}

/// The header for `data_len` bytes of samples: RIFF size, format chunk
/// and data chunk size, all little-endian.
pub fn wav_header(data_len: u32) -> (r: Vec<u8>)
    requires
        data_len <= MAX_DATA_LEN,
    ensures
        r@ == header_spec(data_len as nat),
        r@.len() == HEADER_LEN,
{
    let mut h: Vec<u8> = Vec::new();
    push_tag(&mut h, 0x52, 0x49, 0x46, 0x46);
    push_le32(&mut h, data_len + 36);
    push_tag(&mut h, 0x57, 0x41, 0x56, 0x45);
    push_tag(&mut h, 0x66, 0x6d, 0x74, 0x20);
    push_le32(&mut h, 16);
    push_le16(&mut h, 1);
    push_le16(&mut h, CHANNELS);
    push_le32(&mut h, SAMPLE_RATE);
    push_le32(&mut h, BYTE_RATE);
    push_le16(&mut h, BLOCK_ALIGN);
    push_le16(&mut h, BITS_PER_SAMPLE);
    push_tag(&mut h, 0x64, 0x61, 0x74, 0x61);
    push_le32(&mut h, data_len);
    assert(h@ =~= header_spec(data_len as nat));
    h
}

/// Four little-endian bytes read back give the number they were written from.
pub proof fn lemma_le32_round_trip(v: nat)
    requires
        v < 0x1_0000_0000,
    ensures
        read_le32(le32(v), 0) == v,
{
    let q1 = v / 256;
    let q2 = v / 65536;
    let q3 = v / 16777216;
    lemma_fundamental_div_mod(v as int, 256);
    lemma_fundamental_div_mod(q1 as int, 256);
    lemma_fundamental_div_mod(q2 as int, 256);
    lemma_div_denominator(v as int, 256, 256);
    lemma_div_denominator(v as int, 65536, 256);
    assert(q1 / 256 == q2);
    assert(q2 / 256 == q3);
    assert(q3 < 256);
}

/// Reading the data length back from a header that `wav_header` wrote
/// gives the length it was written for.
pub proof fn lemma_header_round_trip(data_len: nat)
    requires
        data_len <= MAX_DATA_LEN,
    ensures
        header_spec(data_len).len() == HEADER_LEN,
        read_le32(header_spec(data_len), 40) == data_len,
        declared_len_spec(header_spec(data_len)) == Some(data_len),
{
    let h = header_spec(data_len);
    lemma_le32_round_trip(data_len);
    assert(h.subrange(40, 44) =~= le32(data_len));
    assert(read_le32(h, 40) == read_le32(h.subrange(40, 44), 0));
}

/// Whether `a` and `b` agree on their first `n` bytes.
fn same_prefix(a: &Vec<u8>, b: &Vec<u8>, n: usize) -> (r: bool)
    requires
        n <= a@.len(),
        n <= b@.len(),
    ensures
        r == (a@.subrange(0, n as int) == b@.subrange(0, n as int)),
{
    let mut i: usize = 0;
    while i < n
        invariant
            0 <= i <= n,
            n <= a@.len(),
            n <= b@.len(),
            forall|j: int| 0 <= j < i ==> a@[j] == b@[j],
        decreases n - i,
    {
        if a[i] != b[i] {
            assert(a@.subrange(0, n as int)[i as int] != b@.subrange(0, n as int)[i as int]);
            return false;
        }
        i = i + 1;
    }
    assert(a@.subrange(0, n as int) =~= b@.subrange(0, n as int));
    true
}

/// The sample data length that the header at the start of `h` declares,
/// or `None` where `h` does not start with a header of this format.
pub fn declared_data_len(h: &Vec<u8>) -> (r: Option<u32>)
    ensures
        r matches Some(n) ==> declared_len_spec(h@) == Some(n as nat),
        r is None ==> declared_len_spec(h@) is None,
{
    if h.len() < HEADER_LEN {
        return None;
    }
    let n: u32 = h[40] as u32 + 256 * (h[41] as u32) + 65536 * (h[42] as u32) + 16777216 * (
    h[43] as u32);
    if n > MAX_DATA_LEN {
        return None;
    }
    let expected = wav_header(n);
    if !same_prefix(h, &expected, 40) {
        return None;
    }
    Some(n)
}

} // verus!
