use pl011::codec::{bit_from_bool, extract, extract_flag, insert, insert_u16, insert_u8, mask};

#[test]
fn mask_of_each_width() {
    assert_eq!(mask(1), 0b1);
    assert_eq!(mask(3), 0b111);
    assert_eq!(mask(8), 0xff);
    assert_eq!(mask(16), 0xffff);
    assert_eq!(mask(31), 0x7fff_ffff);
    assert_eq!(mask(32), 0xffff_ffff);
}

#[test]
fn extract_reads_the_field_only() {
    assert_eq!(extract(0b1011_0110, 2, 3), 0b101);
    assert_eq!(extract(0xdead_beef, 0, 32), 0xdead_beef);
    assert_eq!(extract(0xdead_beef, 28, 4), 0xd);
    assert_eq!(extract(0x8000_0000, 31, 1), 1);
}

#[test]
fn insert_masks_the_pattern_to_the_width() {
    assert_eq!(insert(0, 4, 2, 0b111), 0b11_0000);
    assert_eq!(insert(0xffff_ffff, 8, 8, 0), 0xffff_00ff);
    assert_eq!(insert(0x1234_5678, 0, 32, 0xcafe_f00d), 0xcafe_f00d);
}

#[test]
fn insert_then_extract_is_pattern_mod_width() {
    let raws = [0u32, 1, 0x5555_5555, 0xffff_ffff, 0x8000_0001];
    let ranges = [(0u32, 1u32), (3, 3), (5, 2), (0, 8), (8, 8), (16, 16), (0, 32), (31, 1)];
    let patterns = [0u32, 1, 5, 0xff, 0x1234, 0xffff_ffff];
    for &raw in raws.iter() {
        for &(o, n) in ranges.iter() {
            for &p in patterns.iter() {
                let m: u64 = 1u64 << n;
                assert_eq!(extract(insert(raw, o, n, p), o, n) as u64, (p as u64) % m);
            }
            assert_eq!(insert(raw, o, n, extract(raw, o, n)), raw);
        }
    }
}

#[test]
fn insert_leaves_disjoint_fields_alone() {
    let raw = 0xa5a5_a5a5u32;
    let written = insert(raw, 4, 4, 0);
    assert_eq!(extract(written, 0, 4), extract(raw, 0, 4));
    assert_eq!(extract(written, 8, 24), extract(raw, 8, 24));
    assert_eq!(written, 0xa5a5_a505);
}

#[test]
fn narrow_inserts_keep_their_width() {
    assert_eq!(insert_u16(0xffff, 3, 3, 0), 0xffc7);
    assert_eq!(insert_u16(0, 15, 1, 1), 0x8000);
    assert_eq!(insert_u8(0xff, 0, 6, 0), 0xc0);
    assert_eq!(insert_u8(0, 0, 8, 0x1ff), 0xff);
}

#[test]
fn flags_decode_and_encode() {
    assert!(extract_flag(0b100, 2));
    assert!(!extract_flag(0b100, 1));
    assert_eq!(bit_from_bool(true), 1);
    assert_eq!(bit_from_bool(false), 0);
}
