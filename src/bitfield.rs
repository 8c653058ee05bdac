//! Arithmetic on bit groups inside 16-bit register words.
use vstd::prelude::*;

verus! {

/// The lowest `width` bits set; every bit set when `width` is 16.
pub open spec fn low_mask(width: u16) -> u16 {
    (((1u16 << width) - 1) as u16)
}

/// The bits of the group that starts at `offset` and spans `width` bits.
pub open spec fn field_mask(offset: u16, width: u16) -> u16 {
    (low_mask(width) << offset) as u16
}

/// A group is well placed when it is non-empty and lies inside the word.
pub open spec fn well_placed(offset: u16, width: u16) -> bool {
    1 <= width && offset + width <= 16
}

/// The value held by a bit group, shifted down to bit zero.
pub open spec fn get_bits(word: u16, offset: u16, width: u16) -> u16 {
    (word >> offset) & low_mask(width)
}

/// The word with the bit group replaced by the low bits of `value`; all other bits kept.
pub open spec fn put_bits(word: u16, offset: u16, width: u16, value: u16) -> u16 {
    (word & !field_mask(offset, width)) | (((value << offset) as u16) & field_mask(offset, width))
}

/// Two bit groups of one word share no bit.
pub open spec fn disjoint(o1: u16, w1: u16, o2: u16, w2: u16) -> bool {
    o1 + w1 <= o2 || o2 + w2 <= o1
}

/// Writing a group and reading it back gives the low `width` bits of what was written.
pub proof fn lemma_get_put_same(word: u16, offset: u16, width: u16, value: u16)
    requires
        well_placed(offset, width),
    ensures
        get_bits(put_bits(word, offset, width, value), offset, width) == value & low_mask(width),
{
    let low = low_mask(width);
    let m = field_mask(offset, width);
    let put = put_bits(word, offset, width, value);
    assert(((put >> offset) & low) == (value & low)) by (bit_vector)
        requires
            1u16 <= width,
            offset + width <= 16u16,
            low == (((1u16 << width) - 1) as u16),
            m == (low << offset) as u16,
            put == (word & !m) | (((value << offset) as u16) & m),
    ;
}

/// Writing a group leaves every disjoint group as it was.
pub proof fn lemma_get_put_other(word: u16, o1: u16, w1: u16, value: u16, o2: u16, w2: u16)
    requires
        well_placed(o1, w1),
        well_placed(o2, w2),
        disjoint(o1, w1, o2, w2),
    ensures
        get_bits(put_bits(word, o1, w1, value), o2, w2) == get_bits(word, o2, w2),
{
    let l1 = low_mask(w1);
    let l2 = low_mask(w2);
    let m = field_mask(o1, w1);
    let put = put_bits(word, o1, w1, value);
    assert(((put >> o2) & l2) == ((word >> o2) & l2)) by (bit_vector)
        requires
            1u16 <= w1,
            o1 + w1 <= 16u16,
            1u16 <= w2,
            o2 + w2 <= 16u16,
            o1 + w1 <= o2 || o2 + w2 <= o1,
            l1 == (((1u16 << w1) - 1) as u16),
            l2 == (((1u16 << w2) - 1) as u16),
            m == (l1 << o1) as u16,
            put == (word & !m) | (((value << o1) as u16) & m),
    ;
}

/// The mask of the lowest `width` bits.
pub fn low_mask_exec(width: u16) -> (m: u16)
    requires
        1 <= width <= 16,
    ensures
        m == low_mask(width),
{
    if width >= 16 {
        assert(low_mask(16u16) == 0xffffu16) by (bit_vector);
        0xffff
    } else {
        assert(1u16 << width >= 1u16) by (bit_vector)
            requires
                width < 16u16,
        ;
        (1u16 << width) - 1
    }
}

/// Reads the bit group at `offset` of `width` bits out of `word`.
pub fn extract_bits(word: u16, offset: u16, width: u16) -> (v: u16)
    requires
        well_placed(offset, width),
    ensures
        v == get_bits(word, offset, width),
{
    (word >> offset) & low_mask_exec(width)
}

/// Replaces the bit group at `offset` of `width` bits in `word` by the low bits of `value`.
pub fn insert_bits(word: u16, offset: u16, width: u16, value: u16) -> (r: u16)
    requires
        well_placed(offset, width),
    ensures
        r == put_bits(word, offset, width, value),
{
    let m: u16 = low_mask_exec(width) << offset;
    (word & !m) | ((value << offset) & m)
}

/// A group that spans the whole word holds exactly what was written.
pub proof fn lemma_whole_word(word: u16, value: u16)
    ensures
        put_bits(word, 0, 16, value) == value,
        get_bits(word, 0, 16) == word,
{
    assert(put_bits(word, 0u16, 16u16, value) == value && get_bits(word, 0u16, 16u16) == word)
        by (bit_vector);
}

/// Writing a group twice keeps only the second value.
pub proof fn lemma_put_put(word: u16, offset: u16, width: u16, a: u16, b: u16)
    ensures
        put_bits(put_bits(word, offset, width, a), offset, width, b) == put_bits(word, offset, width, b),
{
    let m = field_mask(offset, width);
    let p = put_bits(word, offset, width, a);
    let q = put_bits(p, offset, width, b);
    let r = put_bits(word, offset, width, b);
    assert(q == r) by (bit_vector)
        requires
            p == (word & !m) | (((a << offset) as u16) & m),
            q == (p & !m) | (((b << offset) as u16) & m),
            r == (word & !m) | (((b << offset) as u16) & m),
    ;
}

/// A group never reads more than its mask, and a value within the mask reads back whole.
pub proof fn lemma_fits(word: u16, offset: u16, width: u16, value: u16)
    requires
        well_placed(offset, width),
    ensures
        get_bits(word, offset, width) <= low_mask(width),
        value <= low_mask(width) ==> value & low_mask(width) == value,
{
    let l = low_mask(width);
    let g = get_bits(word, offset, width);
    assert(g <= l && (value <= l ==> value & l == value)) by (bit_vector)
        requires
            g == (word >> offset) & l,
            l == (((1u16 << width) - 1) as u16),
    ;
}

/// The masks of the group widths in use.
pub proof fn lemma_low_masks()
    ensures
        low_mask(1) == 1,
        low_mask(3) == 7,
        low_mask(6) == 63,
        low_mask(8) == 255,
        low_mask(16) == 0xffff,
        1u16 & low_mask(1) == 1,
        0u16 & low_mask(1) == 0,
{
    assert(low_mask(1u16) == 1u16 && low_mask(3u16) == 7u16 && low_mask(6u16) == 63u16 && low_mask(8u16)
        == 255u16 && low_mask(16u16) == 0xffffu16 && 1u16 & low_mask(1u16) == 1u16 && 0u16 & low_mask(
        1u16,
    ) == 0u16) by (bit_vector);
}

/// A cleared one-bit group reads zero.
pub proof fn lemma_cleared_bit(word: u16, offset: u16)
    requires
        offset < 16,
    ensures
        get_bits(word & !field_mask(offset, 1), offset, 1) == 0,
{
    let x = word & !field_mask(offset, 1);
    assert(get_bits(x, offset, 1u16) == 0u16) by (bit_vector)
        requires
            offset < 16u16,
            x == word & !field_mask(offset, 1u16),
    ;
}

/// Clearing one bit leaves every other bit as it was.
pub proof fn lemma_cleared_bit_other(word: u16, o1: u16, o2: u16)
    requires
        o1 < 16,
        o2 < 16,
        o1 != o2,
    ensures
        get_bits(word & !field_mask(o1, 1), o2, 1) == get_bits(word, o2, 1),
{
    let x = word & !field_mask(o1, 1);
    assert(get_bits(x, o2, 1u16) == get_bits(word, o2, 1u16)) by (bit_vector)
        requires
            o1 < 16u16,
            o2 < 16u16,
            o1 != o2,
            x == word & !field_mask(o1, 1u16),
    ;
}

} // verus!
