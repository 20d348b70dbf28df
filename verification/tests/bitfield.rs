use isa::{bits, set_bits, BitRange};

#[test]
fn test_set_bits() {
    let value = 0b_110_001_000_u16;
    let b = 0b010_u16;
    assert_eq!(set_bits(value, b, BitRange::new(3, 5)), 0b_110_010_000_u16)
}

#[test]
fn test_bits_example() {
    // bits:   543210
    let v = 0b101000_u16;
    assert_eq!(bits(v, BitRange::new(3, 5)), 0b101);
}

#[test]
fn test_set_bits_example() {
    // bits:   543210
    let v = 0b101000_u16;
    assert_eq!(set_bits(v, 0b11, BitRange::new(1, 2)), 0b101110);
}

#[test]
fn test_bits_full_identity() {
    for v in [0u16, 1, 0b101010, 0xABCD, 0xFFFF] {
        assert_eq!(bits(v, BitRange::full()), v);
    }
}

#[test]
fn test_bits_fits_range_width() {
    // A 3-bit field extracted from an all-ones word is at most 0b111.
    assert_eq!(bits(0xFFFF, BitRange::new(2, 4)), 0b111);
    // A 1-bit field is at most 1.
    assert_eq!(bits(0xFFFF, BitRange::new(9, 9)), 1);
}

#[test]
fn test_round_trip() {
    // Writing a field value that fits the range and reading it back yields
    // the value unchanged, for several ranges and surrounding words.
    let cases: [(u16, u16, u16, u16); 5] = [
        (0x0000, 0b101, 3, 5),
        (0xFFFF, 0b000, 3, 5),
        (0xA5A5, 0b1111, 4, 7),
        (0x1234, 0b1, 15, 15),
        (0xFFFF, 0x1234, 0, 15),
    ];
    for (v, b, s, e) in cases {
        let r = BitRange::new(s, e);
        assert_eq!(bits(set_bits(v, b, r), r), b);
    }
}

#[test]
fn test_set_bits_preserves_outside() {
    // Clearing the field at bits 4..=7 of an all-ones word leaves every other
    // bit untouched.
    assert_eq!(set_bits(0xFFFF, 0, BitRange::new(4, 7)), 0xFF0F);
    // Setting the field at bits 8..=11 of a zero word touches nothing else.
    assert_eq!(set_bits(0x0000, 0b1010, BitRange::new(8, 11)), 0x0A00);
}

#[test]
fn test_set_bits_spill_is_kept() {
    // A field value wider than the range is not masked: the overflowing bits
    // spill into the adjacent higher-order positions.
    assert_eq!(set_bits(0, 0b11, BitRange::new(0, 0)), 0b11);
    assert_eq!(set_bits(0, 0b100, BitRange::new(1, 2)), 0b1000);
}

#[test]
fn test_range_defaults() {
    // An open end defaults to the top of the word, an open start to bit 0.
    let v = 0xABCD_u16;
    assert_eq!(BitRange::from_start(8), BitRange::new(8, 15));
    assert_eq!(BitRange::up_to(7), BitRange::new(0, 7));
    assert_eq!(bits(v, BitRange::from_start(8)), 0xAB);
    assert_eq!(bits(v, BitRange::up_to(7)), 0xCD);
}
