//! The bit-range codec: reading and writing an `n`-bit field at bit offset
//! `o` of a 32-bit raw register value, leaving every other bit untouched.
use vstd::prelude::*;

verus! {

/// A field position is valid when it holds at least one bit and ends at or
/// before bit 32.
pub open spec fn valid_range(offset: u32, width: u32) -> bool {
    1 <= width && offset + width <= 32
}

/// The value with the low `width` bits set.
pub open spec fn low_mask(width: u32) -> u32 {
    if width >= 32 {
        0xffff_ffffu32
    } else {
        ((1u32 << width) - 1) as u32
    }
}

/// The bits `[offset, offset + width)` set, all others clear.
pub open spec fn field_mask(offset: u32, width: u32) -> u32 {
    low_mask(width) << offset
}

/// The `width`-bit pattern stored at `offset` in `raw`.
pub open spec fn bits_of(raw: u32, offset: u32, width: u32) -> u32 {
    (raw >> offset) & low_mask(width)
}

/// `raw` with the field at `offset` replaced by the low `width` bits of `pattern`.
pub open spec fn with_bits(raw: u32, offset: u32, width: u32, pattern: u32) -> u32 {
    (raw & !field_mask(offset, width)) | ((pattern & low_mask(width)) << offset)
}

/// The one-bit pattern that encodes a boolean: a set bit is `true`.
pub open spec fn bit_of_bool(value: bool) -> u32 {
    if value {
        1
    } else {
        0
    }
}

/// The masks of the field widths that registers use.
pub proof fn lemma_low_mask_values()
    ensures
        low_mask(1) == 1,
        low_mask(2) == 3,
        low_mask(3) == 7,
        low_mask(6) == 63,
        low_mask(8) == 0xff,
        low_mask(16) == 0xffff,
{
    assert(low_mask(1) == 1 && low_mask(2) == 3 && low_mask(3) == 7) by (bit_vector);
    assert(low_mask(6) == 63 && low_mask(8) == 0xff && low_mask(16) == 0xffff) by (bit_vector);
}

/// Encodes a boolean as a one-bit pattern.
pub fn bit_from_bool(value: bool) -> (r: u32)
    ensures
        r == bit_of_bool(value),
{
    if value {
        1
    } else {
        0
    }
}

/// Computes the low-bit mask of a field width.
pub fn mask(width: u32) -> (r: u32)
    requires
        1 <= width <= 32,
    ensures
        r == low_mask(width),
{
    if width >= 32 {
        0xffff_ffff
    } else {
        assert(1u32 << width >= 1) by (bit_vector)
            requires
                width < 32,
        ;
        (1u32 << width) - 1
    }
}

/// Reads the `width`-bit field at `offset` of `raw`.
pub fn extract(raw: u32, offset: u32, width: u32) -> (r: u32)
    requires
        valid_range(offset, width),
    ensures
        r == bits_of(raw, offset, width),
        r <= low_mask(width),
{
    let m = mask(width);
    assert(((raw >> offset) & m) <= m) by (bit_vector);
    (raw >> offset) & m
}

/// Reads the one-bit field at `bit` of `raw` as a boolean.
pub fn extract_flag(raw: u32, bit: u32) -> (r: bool)
    requires
        bit < 32,
    ensures
        r == (bits_of(raw, bit, 1) == 1),
{
    extract(raw, bit, 1) == 1
}

/// Writes the low `width` bits of `pattern` into the field at `offset` of `raw`.
pub fn insert(raw: u32, offset: u32, width: u32, pattern: u32) -> (r: u32)
    requires
        valid_range(offset, width),
    ensures
        r == with_bits(raw, offset, width, pattern),
{
    let m = mask(width);
    (raw & !(m << offset)) | ((pattern & m) << offset)
}

/// Writing back the pattern that a field already holds leaves the raw value
/// unchanged.
pub proof fn lemma_insert_extract(raw: u32, offset: u32, width: u32)
    requires
        valid_range(offset, width),
    ensures
        with_bits(raw, offset, width, bits_of(raw, offset, width)) == raw,
{
    assert(with_bits(raw, offset, width, bits_of(raw, offset, width)) == raw) by (bit_vector)
        requires
            1 <= width,
            offset + width <= 32,
    ;
}

/// Reading a field just written gives the written pattern reduced modulo
/// `2^width`: insertion is masked to the field's width.
pub proof fn lemma_extract_insert(raw: u32, offset: u32, width: u32, pattern: u32)
    requires
        valid_range(offset, width),
    ensures
        bits_of(with_bits(raw, offset, width, pattern), offset, width) == pattern & low_mask(width),
        bits_of(with_bits(raw, offset, width, pattern), offset, width) as nat == pattern as nat
            % vstd::arithmetic::power2::pow2(width as nat),
{
    assert(bits_of(with_bits(raw, offset, width, pattern), offset, width) == pattern & low_mask(
        width,
    )) by (bit_vector)
        requires
            1 <= width,
            offset + width <= 32,
    ;
    if width < 32 {
        lemma_low_mask_is_mod(pattern, width);
    } else {
        vstd::arithmetic::power2::lemma2_to64();
        vstd::arithmetic::div_mod::lemma_small_mod(
            pattern as nat,
            vstd::arithmetic::power2::pow2(width as nat),
        );
        assert(pattern & low_mask(width) == pattern) by (bit_vector)
            requires
                width >= 32,
        ;
    }
}

/// A pattern that fits in a field reads back unchanged after it is written.
pub proof fn lemma_field_round_trip(raw: u32, offset: u32, width: u32, pattern: u32)
    requires
        valid_range(offset, width),
        pattern <= low_mask(width),
    ensures
        bits_of(with_bits(raw, offset, width, pattern), offset, width) == pattern,
{
    lemma_extract_insert(raw, offset, width, pattern);
    assert(pattern & low_mask(width) == pattern) by (bit_vector)
        requires
            pattern <= low_mask(width),
            1 <= width,
    ;
}

/// A boolean written to a one-bit field reads back unchanged.
pub proof fn lemma_flag_round_trip(raw: u32, bit: u32, value: bool)
    requires
        bit < 32,
    ensures
        (bits_of(with_bits(raw, bit, 1, bit_of_bool(value)), bit, 1) == 1) == value,
{
    lemma_low_mask_values();
    lemma_field_round_trip(raw, bit, 1, bit_of_bool(value));
}

/// For a width below 32, masking with `low_mask(width)` is reduction modulo
/// `2^width`.
pub proof fn lemma_low_mask_is_mod(x: u32, width: u32)
    requires
        width < 32,
    ensures
        (x & low_mask(width)) as nat == x as nat % vstd::arithmetic::power2::pow2(width as nat),
{
    vstd::bits::lemma_u32_pow2_no_overflow(width as nat);
    vstd::bits::lemma_u32_shl_is_mul(1, width);
    vstd::bits::lemma_u32_low_bits_mask_is_mod(x, width as nat);
}

/// Writing one field leaves every field that does not overlap it unchanged.
pub proof fn lemma_disjoint_fields(
    raw: u32,
    offset: u32,
    width: u32,
    pattern: u32,
    other_offset: u32,
    other_width: u32,
)
    requires
        valid_range(offset, width),
        valid_range(other_offset, other_width),
        offset + width <= other_offset || other_offset + other_width <= offset,
    ensures
        bits_of(with_bits(raw, offset, width, pattern), other_offset, other_width) == bits_of(
            raw,
            other_offset,
            other_width,
        ),
{
    assert(bits_of(with_bits(raw, offset, width, pattern), other_offset, other_width) == bits_of(
        raw,
        other_offset,
        other_width,
    )) by (bit_vector)
        requires
            1 <= width,
            offset + width <= 32,
            1 <= other_width,
            other_offset + other_width <= 32,
            offset + width <= other_offset || other_offset + other_width <= offset,
    ;
}

/// Writing a field changes no bit outside `[offset, offset + width)`.
pub proof fn lemma_insert_preserves_outside(raw: u32, offset: u32, width: u32, pattern: u32)
    requires
        valid_range(offset, width),
    ensures
        with_bits(raw, offset, width, pattern) & !field_mask(offset, width) == raw & !field_mask(
            offset,
            width,
        ),
{
    assert(with_bits(raw, offset, width, pattern) & !field_mask(offset, width) == raw
        & !field_mask(offset, width)) by (bit_vector)
        requires
            1 <= width,
            offset + width <= 32,
    ;
}

/// Two field positions share no bit.
pub open spec fn disjoint(a: (u32, u32), b: (u32, u32)) -> bool {
    a.0 + a.1 <= b.0 || b.0 + b.1 <= a.0
}

/// A register layout lists the `(offset, width)` of each field. It is well
/// formed for a register of `storage_bits` bits when every field is valid and
/// lies within the register, and no two fields overlap.
pub open spec fn well_formed_layout(fields: Seq<(u32, u32)>, storage_bits: u32) -> bool {
    &&& forall|i: int|
        0 <= i < fields.len() ==> #[trigger] valid_range(fields[i].0, fields[i].1) && fields[i].0
            + fields[i].1 <= storage_bits
    &&& forall|i: int, j: int|
        0 <= i < fields.len() && 0 <= j < fields.len() && i != j ==> #[trigger] disjoint(
            fields[i],
            fields[j],
        )
}

/// In a well-formed layout, a field reads back any pattern that fits in it,
/// and writing one field leaves every other field as it was.
pub proof fn lemma_layout_fields(
    fields: Seq<(u32, u32)>,
    storage_bits: u32,
    raw: u32,
    i: int,
    j: int,
    pattern: u32,
)
    requires
        well_formed_layout(fields, storage_bits),
        0 <= i < fields.len(),
        0 <= j < fields.len(),
    ensures
        pattern <= low_mask(fields[i].1) ==> bits_of(
            with_bits(raw, fields[i].0, fields[i].1, pattern),
            fields[i].0,
            fields[i].1,
        ) == pattern,
        i != j ==> bits_of(with_bits(raw, fields[i].0, fields[i].1, pattern), fields[j].0, fields[j].1)
            == bits_of(raw, fields[j].0, fields[j].1),
{
    assert(valid_range(fields[i].0, fields[i].1));
    assert(valid_range(fields[j].0, fields[j].1));
    if pattern <= low_mask(fields[i].1) {
        lemma_field_round_trip(raw, fields[i].0, fields[i].1, pattern);
    }
    if i != j {
        assert(disjoint(fields[i], fields[j]));
        lemma_disjoint_fields(raw, fields[i].0, fields[i].1, pattern, fields[j].0, fields[j].1);
    }
}

/// Writes a field of a 16-bit register value; the field lies in its low 16 bits.
pub fn insert_u16(raw: u16, offset: u32, width: u32, pattern: u32) -> (r: u16)
    requires
        valid_range(offset, width),
        offset + width <= 16,
    ensures
        r as u32 == with_bits(raw as u32, offset, width, pattern),
{
    let wide = insert(raw as u32, offset, width, pattern);
    assert(with_bits(raw as u32, offset, width, pattern) <= 0xffff) by (bit_vector)
        requires
            1 <= width,
            offset + width <= 16,
    ;
    wide as u16
}

/// Writes a field of an 8-bit register value; the field lies in its low 8 bits.
pub fn insert_u8(raw: u8, offset: u32, width: u32, pattern: u32) -> (r: u8)
    requires
        valid_range(offset, width),
        offset + width <= 8,
    ensures
        r as u32 == with_bits(raw as u32, offset, width, pattern),
{
    let wide = insert(raw as u32, offset, width, pattern);
    assert(with_bits(raw as u32, offset, width, pattern) <= 0xff) by (bit_vector)
        requires
            1 <= width,
            offset + width <= 8,
    ;
    wide as u8
}

} // verus!
