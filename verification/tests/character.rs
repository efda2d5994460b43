//! Glyph lookup and text composition behavior.

use led_matrix::character::{convert_str, glyph_for, lookup, Character};

#[test]
fn space_glyph_has_no_cells_and_its_own_width() {
    let space = glyph_for(b' ');
    assert!(space.coordinates.is_empty());
    assert_eq!(space.width, 2);
    assert_eq!(space.offset, 0);
}

#[test]
fn default_character_is_the_space_glyph() {
    let d = Character::default();
    let space = glyph_for(b' ');
    assert_eq!(d.coordinates, space.coordinates);
    assert_eq!(d.width, space.width);
    assert_eq!(d.offset, space.offset);
}

#[test]
fn letter_glyph_has_expected_cells() {
    // The glyph for 'I' is a 3x5 serif capital: full bars at its top and
    // bottom rows (rows 6 and 2 of the cell), a stem in column 1 between.
    let i = glyph_for(b'I');
    assert_eq!(i.width, 3);
    assert_eq!(
        i.coordinates,
        vec![
            (0, 2),
            (1, 2),
            (2, 2),
            (1, 3),
            (1, 4),
            (1, 5),
            (0, 6),
            (1, 6),
            (2, 6),
        ]
    );
}

#[test]
fn upper_and_lower_case_share_a_glyph() {
    let upper = glyph_for(b'A');
    let lower = glyph_for(b'a');
    assert_eq!(upper.coordinates, lower.coordinates);
    assert_eq!(upper.width, lower.width);
}

#[test]
fn lookup_rejects_unknown_codes() {
    assert!(lookup(0x07).is_none());
    assert!(lookup(b'\n').is_none());
    let a = lookup(b'A').unwrap();
    assert_eq!(a.width, 3);
}

#[test]
fn convert_str_assigns_cumulative_offsets() {
    // " AB ": the space is 2 wide, 'A' and 'B' are 3 wide, and every
    // glyph is followed by one cell of spacing.
    let (chars, total) = convert_str(&b" AB ".to_vec());
    assert_eq!(chars.len(), 4);
    let offsets: Vec<usize> = chars.iter().map(|c| c.offset).collect();
    assert_eq!(offsets, vec![0, 3, 7, 11]);
    let widths: Vec<usize> = chars.iter().map(|c| c.width).collect();
    assert_eq!(widths, vec![2, 3, 3, 2]);
    // Each offset exceeds the previous glyph's end by exactly the fixed
    // one-cell spacing, and the total drops the trailing gap.
    for i in 1..chars.len() {
        assert_eq!(chars[i].offset, chars[i - 1].offset + chars[i - 1].width + 1);
    }
    assert_eq!(total, 13);
}

#[test]
fn convert_str_is_deterministic() {
    let (a, wa) = convert_str(&b"HI THERE".to_vec());
    let (b, wb) = convert_str(&b"HI THERE".to_vec());
    assert_eq!(wa, wb);
    assert_eq!(a.len(), b.len());
    for (ca, cb) in a.iter().zip(b.iter()) {
        assert_eq!(ca.coordinates, cb.coordinates);
        assert_eq!(ca.width, cb.width);
        assert_eq!(ca.offset, cb.offset);
    }
}

#[test]
fn convert_str_single_character_total_is_its_width() {
    let (chars, total) = convert_str(&b"W".to_vec());
    assert_eq!(chars.len(), 1);
    assert_eq!(chars[0].offset, 0);
    assert_eq!(total, chars[0].width);
}

#[test]
fn character_new_keeps_coordinates_and_width() {
    let c = Character::new(vec![(0, 0), (1, 1)], 2);
    assert_eq!(c.coordinates, vec![(0, 0), (1, 1)]);
    assert_eq!(c.width, 2);
    assert_eq!(c.offset, 0);
}
