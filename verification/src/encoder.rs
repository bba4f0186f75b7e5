//! Splitting a two-bit-per-pixel image into the two bit planes of the
//! controller's memory.
//!
//! A pixel buffer holds four pixels per byte, the leftmost pixel in the two
//! most significant bits. Every two bytes of it, eight pixels, give one byte of
//! each plane: plane A takes the upper bit of each pixel and plane B the lower
//! bit, the leftmost pixel again in the most significant position.

use vstd::prelude::*;

verus! {

/// The two bit planes of an image.
#[derive(Clone, Debug, PartialEq, Eq)]
pub struct BitPlanePair {
    /// The upper bit of every pixel.
    pub plane_a: Vec<u8>,
    /// The lower bit of every pixel.
    pub plane_b: Vec<u8>,
}

/// Two buffer bytes as one word, the first byte in the upper half.
pub open spec fn word_of(first: u8, second: u8) -> u16 {
    ((first as u16) << 8) | (second as u16)
}

/// The upper bits of the eight pixels held in two buffer bytes.
pub open spec fn plane_a_byte(first: u8, second: u8) -> u8 {
    (first & 0x80) | ((first & 0x20) << 1) | ((first & 0x08) << 2) | ((first & 0x02) << 3)
        | ((second & 0x80) >> 4) | ((second & 0x20) >> 3) | ((second & 0x08) >> 2) | ((second
        & 0x02) >> 1)
}

/// The lower bits of the eight pixels held in two buffer bytes.
pub open spec fn plane_b_byte(first: u8, second: u8) -> u8 {
    ((first & 0x40) << 1) | ((first & 0x10) << 2) | ((first & 0x04) << 3) | ((first & 0x01) << 4)
        | ((second & 0x40) >> 3) | ((second & 0x10) >> 2) | ((second & 0x04) >> 1) | (second
        & 0x01)
}

/// Plane A of a whole buffer: one byte for every two bytes of input.
pub open spec fn plane_a(buf: Seq<u8>) -> Seq<u8> {
    Seq::new(buf.len() / 2, |k: int| plane_a_byte(buf[2 * k], buf[2 * k + 1]))
}

/// Plane B of a whole buffer: one byte for every two bytes of input.
pub open spec fn plane_b(buf: Seq<u8>) -> Seq<u8> {
    Seq::new(buf.len() / 2, |k: int| plane_b_byte(buf[2 * k], buf[2 * k + 1]))
}

/// The two buffer bytes whose planes are `a` and `b`: the bits of the two
/// plane bytes interleaved, those of `a` in the upper position of each pixel.
pub open spec fn interleaved(a: u8, b: u8) -> (u8, u8) {
    (
        (a & 0x80) | ((b & 0x80) >> 1) | ((a & 0x40) >> 1) | ((b & 0x40) >> 2) | ((a & 0x20) >> 2)
            | ((b & 0x20) >> 3) | ((a & 0x10) >> 3) | ((b & 0x10) >> 4),
        ((a & 0x08) << 4) | ((b & 0x08) << 3) | ((a & 0x04) << 3) | ((b & 0x04) << 2) | ((a
            & 0x02) << 2) | ((b & 0x02) << 1) | ((a & 0x01) << 1) | (b & 0x01),
    )
}

/// The buffer whose planes are `a` and `b`.
pub open spec fn merged(a: Seq<u8>, b: Seq<u8>) -> Seq<u8> {
    Seq::new(
        2 * a.len(),
        |i: int|
            if i % 2 == 0 {
                interleaved(a[i / 2], b[i / 2]).0
            } else {
                interleaved(a[i / 2], b[i / 2]).1
            },
    )
}

/// Gray level, 0 to 3, of pixel `pixel` of a buffer.
pub open spec fn gray_level(buf: Seq<u8>, pixel: int) -> u8 {
    (buf[pixel / 4] >> ((6 - 2 * (pixel % 4)) as u8)) & 3
}

/// Bit `pixel` of a plane, counted from the most significant bit of its first
/// byte.
pub open spec fn plane_bit(plane: Seq<u8>, pixel: int) -> u8 {
    (plane[pixel / 8] >> ((7 - pixel % 8) as u8)) & 1
}

/// What `reverse_bits` makes of a word: bit `i` of the result is bit `15 - i`
/// of the word.
pub open spec fn is_bit_reversal(word: u16, reversed: u16) -> bool {
    forall|i: u16| i < 16 ==> #[trigger] ((reversed >> i) & 1) == (word >> ((15 - i) as u16)) & 1
}

/// `u16::reverse_bits` of the standard library. The documentation says that it
/// reverses the order of the bits: the least significant bit becomes the most
/// significant one, the second least significant the second most significant,
/// and so on. The contract says exactly that, bit by bit.
pub assume_specification[ u16::reverse_bits ](word: u16) -> (reversed: u16)
    ensures
        is_bit_reversal(word, reversed),
;

/// The bits that `count` rounds of extraction collect from `word`, starting at
/// bit `start` and taking every second bit; each round shifts what was
/// collected up by one and puts the new bit below it.
pub open spec fn gathered(word: u16, start: u16, count: nat) -> u8
    decreases count,
{
    if count == 0 {
        0
    } else {
        (gathered(word, start, (count - 1) as nat) << 1) | (((word >> ((start + 2 * (count
            - 1)) as u16)) & 1) as u8)
    }
}

proof fn lemma_gathered_planes(first: u8, second: u8, reversed: u16)
    requires
        is_bit_reversal(word_of(first, second), reversed),
    ensures
        gathered(reversed, 0, 8) == plane_a_byte(first, second),
        gathered(reversed, 1, 8) == plane_b_byte(first, second),
{
    let w = word_of(first, second);
    let r = reversed;
    assert((r >> 0u16) & 1 == (w >> ((15 - 0u16) as u16)) & 1);
    assert((r >> 1u16) & 1 == (w >> ((15 - 1u16) as u16)) & 1);
    assert((r >> 2u16) & 1 == (w >> ((15 - 2u16) as u16)) & 1);
    assert((r >> 3u16) & 1 == (w >> ((15 - 3u16) as u16)) & 1);
    assert((r >> 4u16) & 1 == (w >> ((15 - 4u16) as u16)) & 1);
    assert((r >> 5u16) & 1 == (w >> ((15 - 5u16) as u16)) & 1);
    assert((r >> 6u16) & 1 == (w >> ((15 - 6u16) as u16)) & 1);
    assert((r >> 7u16) & 1 == (w >> ((15 - 7u16) as u16)) & 1);
    assert((r >> 8u16) & 1 == (w >> ((15 - 8u16) as u16)) & 1);
    assert((r >> 9u16) & 1 == (w >> ((15 - 9u16) as u16)) & 1);
    assert((r >> 10u16) & 1 == (w >> ((15 - 10u16) as u16)) & 1);
    assert((r >> 11u16) & 1 == (w >> ((15 - 11u16) as u16)) & 1);
    assert((r >> 12u16) & 1 == (w >> ((15 - 12u16) as u16)) & 1);
    assert((r >> 13u16) & 1 == (w >> ((15 - 13u16) as u16)) & 1);
    assert((r >> 14u16) & 1 == (w >> ((15 - 14u16) as u16)) & 1);
    assert((r >> 15u16) & 1 == (w >> ((15 - 15u16) as u16)) & 1);
    reveal_with_fuel(gathered, 9);
    assert(gathered(r, 0, 8) == plane_a_byte(first, second) && gathered(r, 1, 8) == plane_b_byte(
        first,
        second,
    )) by (bit_vector)
        requires
            w == ((first as u16) << 8) | (second as u16),
            (r >> 0u16) & 1 == (w >> 15u16) & 1,
            (r >> 1u16) & 1 == (w >> 14u16) & 1,
            (r >> 2u16) & 1 == (w >> 13u16) & 1,
            (r >> 3u16) & 1 == (w >> 12u16) & 1,
            (r >> 4u16) & 1 == (w >> 11u16) & 1,
            (r >> 5u16) & 1 == (w >> 10u16) & 1,
            (r >> 6u16) & 1 == (w >> 9u16) & 1,
            (r >> 7u16) & 1 == (w >> 8u16) & 1,
            (r >> 8u16) & 1 == (w >> 7u16) & 1,
            (r >> 9u16) & 1 == (w >> 6u16) & 1,
            (r >> 10u16) & 1 == (w >> 5u16) & 1,
            (r >> 11u16) & 1 == (w >> 4u16) & 1,
            (r >> 12u16) & 1 == (w >> 3u16) & 1,
            (r >> 13u16) & 1 == (w >> 2u16) & 1,
            (r >> 14u16) & 1 == (w >> 1u16) & 1,
            (r >> 15u16) & 1 == (w >> 0u16) & 1,
    ;
}

/// Splits the eight pixels held in two buffer bytes into their byte of plane A
/// and their byte of plane B.
///
/// The two bytes are joined into a word, the word is reversed end to end, and
/// its bits are then taken from the low end in turn for plane A and plane B,
/// each new bit entering below the ones already taken.
pub fn split_word(first: u8, second: u8) -> (bytes: (u8, u8))
    ensures
        bytes.0 == plane_a_byte(first, second),
        bytes.1 == plane_b_byte(first, second),
{
    let word: u16 = ((first as u16) << 8) | (second as u16);
    let reversed: u16 = word.reverse_bits();
    let mut sixteen_bits: u16 = reversed;
    let mut odd_bits: u8 = 0;
    let mut even_bits: u8 = 0;
    let mut round: u16 = 0;
    assert(reversed >> 0u16 == reversed) by (bit_vector);
    while round < 8
        invariant
            round <= 8,
            sixteen_bits == reversed >> ((2 * round) as u16),
            odd_bits == gathered(reversed, 0, round as nat),
            even_bits == gathered(reversed, 1, round as nat),
        decreases 8 - round,
    {
        let ghost at: u16 = (2 * round) as u16;
        assert(sixteen_bits & 1 <= 1) by (bit_vector);
        odd_bits = odd_bits << 1;
        odd_bits = odd_bits | ((sixteen_bits & 1) as u8);
        sixteen_bits = sixteen_bits >> 1;
        assert(sixteen_bits & 1 <= 1) by (bit_vector);
        assert((reversed >> at) >> 1u16 == reversed >> ((at + 1) as u16)) by (bit_vector)
            requires
                at <= 14,
        ;
        even_bits = even_bits << 1;
        even_bits = even_bits | ((sixteen_bits & 1) as u8);
        sixteen_bits = sixteen_bits >> 1;
        assert((reversed >> ((at + 1) as u16)) >> 1u16 == reversed >> ((at + 2) as u16))
            by (bit_vector)
            requires
                at <= 14,
        ;
        round = round + 1;
    }
    proof {
        lemma_gathered_planes(first, second, reversed);
    }
    (odd_bits, even_bits)
}

/// Splits a pixel buffer into its two bit planes.
///
/// The buffer holds a whole number of byte pairs; each pair gives one byte of
/// each plane, in order.
pub fn encode(buf: &[u8]) -> (planes: BitPlanePair)
    requires
        buf@.len() % 2 == 0,
    ensures
        planes.plane_a@ == plane_a(buf@),
        planes.plane_b@ == plane_b(buf@),
        planes.plane_a@.len() == buf@.len() / 2,
        planes.plane_b@.len() == buf@.len() / 2,
{
    let len: usize = buf.len();
    let pairs: usize = len / 2;
    let mut a: Vec<u8> = Vec::with_capacity(pairs);
    let mut b: Vec<u8> = Vec::with_capacity(pairs);
    let mut k: usize = 0;
    while k < pairs
        invariant
            k <= pairs,
            len == buf@.len(),
            2 * pairs == len,
            a@.len() == k,
            b@.len() == k,
            forall|j: int| 0 <= j < k ==> a@[j] == plane_a_byte(buf@[2 * j], buf@[2 * j + 1]),
            forall|j: int| 0 <= j < k ==> b@[j] == plane_b_byte(buf@[2 * j], buf@[2 * j + 1]),
        decreases pairs - k,
    {
        let (odd_bits, even_bits) = split_word(buf[2 * k], buf[2 * k + 1]);
        a.push(odd_bits);
        b.push(even_bits);
        k = k + 1;
    }
    assert(a@ =~= plane_a(buf@));
    assert(b@ =~= plane_b(buf@));
    BitPlanePair { plane_a: a, plane_b: b }
}

/// Each plane has one byte for every two bytes of the buffer.
pub proof fn lemma_plane_lengths(buf: Seq<u8>)
    ensures
        plane_a(buf).len() == buf.len() / 2,
        plane_b(buf).len() == buf.len() / 2,
{
}

/// A buffer of the panel's size gives two planes of the panel's plane size.
pub proof fn lemma_panel_plane_lengths(buf: Seq<u8>)
    requires
        buf.len() == crate::panel::PIXEL_BUFFER_LEN,
    ensures
        plane_a(buf).len() == crate::panel::PLANE_LEN,
        plane_b(buf).len() == crate::panel::PLANE_LEN,
{
}

/// Equal buffers have equal planes: the planes depend on nothing but the
/// bytes of the buffer.
pub proof fn lemma_encoding_is_a_function(buf: Seq<u8>, again: Seq<u8>)
    requires
        buf =~= again,
    ensures
        plane_a(buf) == plane_a(again),
        plane_b(buf) == plane_b(again),
{
}

/// Interleaving undoes splitting, and splitting undoes interleaving, on a
/// single pair of bytes.
pub proof fn lemma_word_round_trip(x: u8, y: u8)
    ensures
        interleaved(plane_a_byte(x, y), plane_b_byte(x, y)) == (x, y),
        plane_a_byte(interleaved(x, y).0, interleaved(x, y).1) == x,
        plane_b_byte(interleaved(x, y).0, interleaved(x, y).1) == y,
{
    assert(interleaved(plane_a_byte(x, y), plane_b_byte(x, y)).0 == x) by (bit_vector);
    assert(interleaved(plane_a_byte(x, y), plane_b_byte(x, y)).1 == y) by (bit_vector);
    assert(plane_a_byte(interleaved(x, y).0, interleaved(x, y).1) == x) by (bit_vector);
    assert(plane_b_byte(interleaved(x, y).0, interleaved(x, y).1) == y) by (bit_vector);
}

/// No image is lost: merging the two planes of a buffer gives the buffer back.
pub proof fn lemma_merge_inverts_encoding(buf: Seq<u8>)
    requires
        buf.len() % 2 == 0,
    ensures
        merged(plane_a(buf), plane_b(buf)) == buf,
{
    let a = plane_a(buf);
    let b = plane_b(buf);
    let m = merged(a, b);
    assert(m.len() == buf.len());
    assert forall|i: int| 0 <= i < buf.len() implies m[i] == buf[i] by {
        let k = i / 2;
        lemma_word_round_trip(buf[2 * k], buf[2 * k + 1]);
        assert(a[k] == plane_a_byte(buf[2 * k], buf[2 * k + 1]));
        assert(b[k] == plane_b_byte(buf[2 * k], buf[2 * k + 1]));
    }
    assert(m =~= buf);
}

/// Every pair of planes of one length is the encoding of a buffer, the merged
/// one.
pub proof fn lemma_encoding_inverts_merge(a: Seq<u8>, b: Seq<u8>)
    requires
        a.len() == b.len(),
    ensures
        merged(a, b).len() == 2 * a.len(),
        plane_a(merged(a, b)) == a,
        plane_b(merged(a, b)) == b,
{
    let m = merged(a, b);
    assert forall|k: int| 0 <= k < a.len() implies plane_a(m)[k] == a[k] && plane_b(m)[k]
        == b[k] by {
        lemma_word_round_trip(a[k], b[k]);
        assert(m[2 * k] == interleaved(a[k], b[k]).0);
        assert(m[2 * k + 1] == interleaved(a[k], b[k]).1);
    }
    assert(plane_a(m) =~= a);
    assert(plane_b(m) =~= b);
}

/// Two buffers of one even length with the same planes are the same buffer.
pub proof fn lemma_encoding_injective(buf: Seq<u8>, other: Seq<u8>)
    requires
        buf.len() % 2 == 0,
        other.len() == buf.len(),
        plane_a(buf) == plane_a(other),
        plane_b(buf) == plane_b(other),
    ensures
        buf == other,
{
    lemma_merge_inverts_encoding(buf);
    lemma_merge_inverts_encoding(other);
}

/// A buffer of nothing but `0x00` has planes of nothing but `0x00`, and a
/// buffer of nothing but `0xFF` has planes of nothing but `0xFF`.
pub proof fn lemma_uniform_planes(buf: Seq<u8>, value: u8)
    requires
        value == 0x00 || value == 0xFF,
        forall|i: int| 0 <= i < buf.len() ==> buf[i] == value,
    ensures
        forall|k: int| 0 <= k < plane_a(buf).len() ==> plane_a(buf)[k] == value,
        forall|k: int| 0 <= k < plane_b(buf).len() ==> plane_b(buf)[k] == value,
{
    assert(plane_a_byte(0x00, 0x00) == 0x00 && plane_b_byte(0x00, 0x00) == 0x00) by (bit_vector);
    assert(plane_a_byte(0xFF, 0xFF) == 0xFF && plane_b_byte(0xFF, 0xFF) == 0xFF) by (bit_vector);
}

/// What the planes mean: the bit of plane A at a pixel's position is the upper
/// bit of its gray level and the bit of plane B is the lower one.
pub proof fn lemma_planes_hold_gray_levels(buf: Seq<u8>, pixel: int)
    requires
        buf.len() % 2 == 0,
        0 <= pixel < 4 * buf.len(),
    ensures
        gray_level(buf, pixel) == 2 * plane_bit(plane_a(buf), pixel) + plane_bit(
            plane_b(buf),
            pixel,
        ),
{
    let k = pixel / 8;
    let j = (pixel % 8) as u8;
    let first = buf[2 * k];
    let second = buf[2 * k + 1];
    let a = plane_a_byte(first, second);
    let b = plane_b_byte(first, second);
    assert(plane_a(buf)[k] == a);
    assert(plane_b(buf)[k] == b);
    let source = buf[pixel / 4];
    let shift = (6 - 2 * (pixel % 4)) as u8;
    assert(pixel / 4 == 2 * k + (j as int) / 4);
    assert(pixel % 4 == (j as int) % 4);
    assert(source == if j < 4 { first } else { second });
    assert(shift == 6 - 2 * (j % 4));
    let up = (7 - j) as u8;
    assert(((source >> shift) & 3) == 2 * ((a >> up) & 1) + ((b >> up) & 1)) by (bit_vector)
        requires
            j < 8,
            source == if j < 4 { first } else { second },
            shift == 6 - 2 * (j % 4),
            up == 7 - j,
            a == plane_a_byte(first, second),
            b == plane_b_byte(first, second),
    ;
}

} // verus!
