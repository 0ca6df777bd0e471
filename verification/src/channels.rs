//! Little-endian channel words: the bit patterns of 32-bit and 16-bit IEEE
//! channels as they are laid out in a pixel buffer.
use vstd::prelude::*;

verus! {

/// The 32-bit word stored little-endian at `bytes[i..i + 4]`.
pub open spec fn le_u32(bytes: Seq<u8>, i: int) -> u32 {
    (bytes[i] as int + bytes[i + 1] as int * 0x100 + bytes[i + 2] as int * 0x1_0000 + bytes[i + 3] as int
        * 0x100_0000) as u32
}

/// The 16-bit word stored little-endian at `bytes[i..i + 2]`.
pub open spec fn le_u16(bytes: Seq<u8>, i: int) -> u16 {
    (bytes[i] as int + bytes[i + 1] as int * 0x100) as u16
}

/// Byte `j` (0 is the least significant) of a 32-bit word.
pub open spec fn u32_byte(w: u32, j: int) -> u8 {
    if j == 0 {
        (w % 0x100) as u8
    } else if j == 1 {
        ((w / 0x100) % 0x100) as u8
    } else if j == 2 {
        ((w / 0x1_0000) % 0x100) as u8
    } else {
        (w / 0x100_0000) as u8
    }
}

/// Byte `j` (0 is the least significant) of a 16-bit word.
pub open spec fn u16_byte(h: u16, j: int) -> u8 {
    if j == 0 {
        (h % 0x100) as u8
    } else {
        (h / 0x100) as u8
    }
}

/// The 32-bit channels of a buffer read four bytes at a time; a trailing
/// partial channel is ignored.
pub open spec fn u32_channels(bytes: Seq<u8>) -> Seq<u32> {
    Seq::new(bytes.len() / 4, |i: int| le_u32(bytes, 4 * i))
}

/// The 16-bit channels of a buffer read two bytes at a time; a trailing
/// partial channel is ignored.
pub open spec fn u16_channels(bytes: Seq<u8>) -> Seq<u16> {
    Seq::new(bytes.len() / 2, |i: int| le_u16(bytes, 2 * i))
}

/// The buffer that stores each 32-bit channel little-endian, in order.
pub open spec fn u32_channel_bytes(words: Seq<u32>) -> Seq<u8> {
    Seq::new(words.len() * 4, |k: int| u32_byte(words[k / 4], k % 4))
}

/// The buffer that stores each 16-bit channel little-endian, in order.
pub open spec fn u16_channel_bytes(halves: Seq<u16>) -> Seq<u8> {
    Seq::new(halves.len() * 2, |k: int| u16_byte(halves[k / 2], k % 2))
}

/// Reads the little-endian 32-bit channels of `bytes`.
pub fn decode_u32_channels(bytes: &[u8]) -> (words: Vec<u32>)
    ensures
        words@ == u32_channels(bytes@),
{
    let n = bytes.len() / 4;
    let mut words: Vec<u32> = Vec::with_capacity(n);
    let mut i: usize = 0;
    while i < n
        invariant
            n == bytes@.len() / 4,
            4 * n <= bytes@.len() <= usize::MAX,
            i <= n,
            words@.len() == i,
            forall|j: int| 0 <= j < i ==> words@[j] == le_u32(bytes@, 4 * j),
        decreases n - i,
    {
        let k = 4 * i;
        let w: u32 = bytes[k] as u32 + (bytes[k + 1] as u32) * 0x100 + (bytes[k + 2] as u32) * 0x1_0000
            + (bytes[k + 3] as u32) * 0x100_0000;
        words.push(w);
        i = i + 1;
    }
    words
}

/// Reads the little-endian 16-bit channels of `bytes`.
pub fn decode_u16_channels(bytes: &[u8]) -> (halves: Vec<u16>)
    ensures
        halves@ == u16_channels(bytes@),
{
    let n = bytes.len() / 2;
    let mut halves: Vec<u16> = Vec::with_capacity(n);
    let mut i: usize = 0;
    while i < n
        invariant
            n == bytes@.len() / 2,
            2 * n <= bytes@.len() <= usize::MAX,
            i <= n,
            halves@.len() == i,
            forall|j: int| 0 <= j < i ==> halves@[j] == le_u16(bytes@, 2 * j),
        decreases n - i,
    {
        let k = 2 * i;
        let h: u16 = bytes[k] as u16 + (bytes[k + 1] as u16) * 0x100;
        halves.push(h);
        i = i + 1;
    }
    halves
}

/// Writes each 32-bit channel little-endian.
pub fn encode_u32_channels(words: &[u32]) -> (bytes: Vec<u8>)
    requires
        words@.len() * 4 <= usize::MAX,
    ensures
        bytes@ == u32_channel_bytes(words@),
{
    let n = words.len();
    let mut bytes: Vec<u8> = Vec::with_capacity(n * 4);
    let mut i: usize = 0;
    while i < n
        invariant
            n == words@.len(),
            i <= n,
            bytes@.len() == 4 * i,
            forall|k: int| 0 <= k < 4 * i ==> bytes@[k] == u32_byte(words@[k / 4], k % 4),
        decreases n - i,
    {
        let w = words[i];
        bytes.push((w % 0x100) as u8);
        bytes.push(((w / 0x100) % 0x100) as u8);
        bytes.push(((w / 0x1_0000) % 0x100) as u8);
        bytes.push((w / 0x100_0000) as u8);
        i = i + 1;
    }
    proof {
        assert(bytes@ =~= u32_channel_bytes(words@));
    }
    bytes
}

/// Writes each 16-bit channel little-endian.
pub fn encode_u16_channels(halves: &[u16]) -> (bytes: Vec<u8>)
    requires
        halves@.len() * 2 <= usize::MAX,
    ensures
        bytes@ == u16_channel_bytes(halves@),
{
    let n = halves.len();
    let mut bytes: Vec<u8> = Vec::with_capacity(n * 2);
    let mut i: usize = 0;
    while i < n
        invariant
            n == halves@.len(),
            i <= n,
            bytes@.len() == 2 * i,
            forall|k: int| 0 <= k < 2 * i ==> bytes@[k] == u16_byte(halves@[k / 2], k % 2),
        decreases n - i,
    {
        let h = halves[i];
        bytes.push((h % 0x100) as u8);
        bytes.push((h / 0x100) as u8);
        i = i + 1;
    }
    proof {
        assert(bytes@ =~= u16_channel_bytes(halves@));
    }
    bytes
}

proof fn lemma_u32_recompose(w: u32)
    by (bit_vector)
    ensures
        w == (w % 0x100) + ((w / 0x100) % 0x100) * 0x100 + ((w / 0x1_0000) % 0x100) * 0x1_0000 + (w
            / 0x100_0000) * 0x100_0000,
        w / 0x100_0000 < 0x100,
{
}

proof fn lemma_u32_split(b0: u32, b1: u32, b2: u32, b3: u32)
    by (bit_vector)
    requires
        b0 < 0x100,
        b1 < 0x100,
        b2 < 0x100,
        b3 < 0x100,
    ensures
        (b0 + b1 * 0x100 + b2 * 0x1_0000 + b3 * 0x100_0000) % 0x100 == b0,
        ((b0 + b1 * 0x100 + b2 * 0x1_0000 + b3 * 0x100_0000) / 0x100) % 0x100 == b1,
        ((b0 + b1 * 0x100 + b2 * 0x1_0000 + b3 * 0x100_0000) / 0x1_0000) % 0x100 == b2,
        (b0 + b1 * 0x100 + b2 * 0x1_0000 + b3 * 0x100_0000) / 0x100_0000 == b3,
{
}

/// Reading back the 32-bit channels of a buffer written from 32-bit channels
/// gives exactly those channels.
pub proof fn lemma_u32_channels_round_trip(words: Seq<u32>)
    ensures
        u32_channels(u32_channel_bytes(words)) == words,
{
    let b = u32_channel_bytes(words);
    assert forall|i: int| 0 <= i < words.len() implies le_u32(b, 4 * i) == words[i] by {
        let w = words[i];
        assert((4 * i) / 4 == i && (4 * i + 1) / 4 == i && (4 * i + 2) / 4 == i && (4 * i + 3) / 4
            == i);
        assert((4 * i) % 4 == 0 && (4 * i + 1) % 4 == 1 && (4 * i + 2) % 4 == 2 && (4 * i + 3) % 4
            == 3);
        lemma_u32_recompose(w);
    }
    assert(u32_channels(b) =~= words);
}

/// Writing back the 32-bit channels read from a buffer whose length is a
/// multiple of four gives exactly that buffer.
pub proof fn lemma_u32_bytes_round_trip(bytes: Seq<u8>)
    requires
        bytes.len() % 4 == 0,
    ensures
        u32_channel_bytes(u32_channels(bytes)) == bytes,
{
    let ws = u32_channels(bytes);
    let b = u32_channel_bytes(ws);
    assert forall|k: int| 0 <= k < bytes.len() implies b[k] == bytes[k] by {
        let i = k / 4;
        let j = k % 4;
        assert(k == 4 * i + j);
        lemma_u32_split(
            bytes[4 * i] as u32,
            bytes[4 * i + 1] as u32,
            bytes[4 * i + 2] as u32,
            bytes[4 * i + 3] as u32,
        );
    }
    assert(b =~= bytes);
}

/// Reading back the 16-bit channels of a buffer written from 16-bit channels
/// gives exactly those channels.
pub proof fn lemma_u16_channels_round_trip(halves: Seq<u16>)
    ensures
        u16_channels(u16_channel_bytes(halves)) == halves,
{
    let b = u16_channel_bytes(halves);
    assert forall|i: int| 0 <= i < halves.len() implies le_u16(b, 2 * i) == halves[i] by {
        assert((2 * i) / 2 == i && (2 * i + 1) / 2 == i);
        assert((2 * i) % 2 == 0 && (2 * i + 1) % 2 == 1);
    }
    assert(u16_channels(b) =~= halves);
}

/// Writing back the 16-bit channels read from a buffer of even length gives
/// exactly that buffer.
pub proof fn lemma_u16_bytes_round_trip(bytes: Seq<u8>)
    requires
        bytes.len() % 2 == 0,
    ensures
        u16_channel_bytes(u16_channels(bytes)) == bytes,
{
    let hs = u16_channels(bytes);
    let b = u16_channel_bytes(hs);
    assert forall|k: int| 0 <= k < bytes.len() implies b[k] == bytes[k] by {
        let i = k / 2;
        assert(k == 2 * i + k % 2);
    }
    assert(b =~= bytes);
}

/// Where each 32-bit channel comes from: channel `i` of a buffer is the
/// little-endian word in bytes `4i`, `4i + 1`, `4i + 2`, `4i + 3`, for every
/// whole channel the buffer holds.
pub proof fn lemma_u32_channel_positions(bytes: Seq<u8>)
    ensures
        u32_channels(bytes).len() == bytes.len() / 4,
        forall|i: int|
            0 <= i < bytes.len() / 4 ==> #[trigger] u32_channels(bytes)[i] == bytes[4 * i] as int
                + bytes[4 * i + 1] as int * 256 + bytes[4 * i + 2] as int * 65536 + bytes[4 * i
                + 3] as int * 16777216,
{
    assert forall|i: int| 0 <= i < bytes.len() / 4 implies #[trigger] u32_channels(bytes)[i]
        == bytes[4 * i] as int + bytes[4 * i + 1] as int * 256 + bytes[4 * i + 2] as int * 65536
        + bytes[4 * i + 3] as int * 16777216 by {
        let b0 = bytes[4 * i] as u32;
        let b1 = bytes[4 * i + 1] as u32;
        let b2 = bytes[4 * i + 2] as u32;
        let b3 = bytes[4 * i + 3] as u32;
        assert(b0 + b1 * 256 + b2 * 65536 + b3 * 16777216 <= u32::MAX);
    }
}

/// Where each 16-bit channel comes from: channel `i` of a buffer is the
/// little-endian word in bytes `2i` and `2i + 1`, for every whole channel the
/// buffer holds.
pub proof fn lemma_u16_channel_positions(bytes: Seq<u8>)
    ensures
        u16_channels(bytes).len() == bytes.len() / 2,
        forall|i: int|
            0 <= i < bytes.len() / 2 ==> #[trigger] u16_channels(bytes)[i] == bytes[2 * i] as int
                + bytes[2 * i + 1] as int * 256,
{
}

/// Where each written byte goes: the buffer written from 32-bit channels has
/// four bytes per channel, and bytes `4i` to `4i + 3` are channel `i` from
/// its least significant byte to its most significant one.
pub proof fn lemma_u32_byte_positions(words: Seq<u32>)
    ensures
        u32_channel_bytes(words).len() == 4 * words.len(),
        forall|i: int|
            0 <= i < words.len() ==> {
                &&& #[trigger] u32_channel_bytes(words)[4 * i] == words[i] % 256
                &&& u32_channel_bytes(words)[4 * i + 1] == (words[i] / 256) % 256
                &&& u32_channel_bytes(words)[4 * i + 2] == (words[i] / 65536) % 256
                &&& u32_channel_bytes(words)[4 * i + 3] == words[i] / 16777216
            },
{
    assert forall|i: int| 0 <= i < words.len() implies {
        &&& #[trigger] u32_channel_bytes(words)[4 * i] == words[i] % 256
        &&& u32_channel_bytes(words)[4 * i + 1] == (words[i] / 256) % 256
        &&& u32_channel_bytes(words)[4 * i + 2] == (words[i] / 65536) % 256
        &&& u32_channel_bytes(words)[4 * i + 3] == words[i] / 16777216
    } by {
        assert((4 * i) / 4 == i && (4 * i + 1) / 4 == i && (4 * i + 2) / 4 == i && (4 * i + 3) / 4
            == i);
        assert((4 * i) % 4 == 0 && (4 * i + 1) % 4 == 1 && (4 * i + 2) % 4 == 2 && (4 * i + 3) % 4
            == 3);
        lemma_u32_recompose(words[i]);
    }
}

/// Where each written byte goes: the buffer written from 16-bit channels has
/// two bytes per channel, and bytes `2i` and `2i + 1` are the low and high
/// byte of channel `i`.
pub proof fn lemma_u16_byte_positions(halves: Seq<u16>)
    ensures
        u16_channel_bytes(halves).len() == 2 * halves.len(),
        forall|i: int|
            0 <= i < halves.len() ==> #[trigger] u16_channel_bytes(halves)[2 * i] == halves[i]
                % 256 && u16_channel_bytes(halves)[2 * i + 1] == halves[i] / 256,
{
    assert forall|i: int| 0 <= i < halves.len() implies #[trigger] u16_channel_bytes(halves)[2 * i]
        == halves[i] % 256 && u16_channel_bytes(halves)[2 * i + 1] == halves[i] / 256 by {
        assert((2 * i) / 2 == i && (2 * i + 1) / 2 == i);
        assert((2 * i) % 2 == 0 && (2 * i + 1) % 2 == 1);
    }
}

} // verus!
