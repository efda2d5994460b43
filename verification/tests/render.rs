//! Frame rendering behavior.

use led_matrix::billboard::{horizontal, vertical};
use led_matrix::buffer::ColorBuffer;
use led_matrix::character::convert_str;
use led_matrix::color;

fn art(rows: &[&[u8]]) -> Vec<Vec<u8>> {
    rows.iter().map(|r| r.to_vec()).collect()
}

fn lit_cells(buffer: &ColorBuffer) -> Vec<(usize, usize)> {
    let mut lit = Vec::new();
    for y in 0..8 {
        for x in 0..8 {
            let c = buffer.get(x, y);
            if c == color::WHITE {
                lit.push((x, y));
            } else {
                assert_eq!(c, color::BLACK);
            }
        }
    }
    lit
}

const ARROW: [&[u8]; 8] = [
    b"   #    ",
    b"  ##    ",
    b" ###### ",
    b"######  ",
    b" #####  ",
    b"  ##  # ",
    b"   #   #",
    b"        ",
];

#[test]
fn vertical_frame_at_zero_shows_first_block() {
    let strip = vertical(&art(&ARROW));
    let mut buffer = ColorBuffer::new();
    buffer.draw_vertical_billboard_frame(&strip, 0);
    // The display counts rows from the bottom while art is authored
    // top-down: cell (x, y) shows art row 7 - y.
    for y in 0..8 {
        for x in 0..8 {
            let expected = ARROW[7 - y][x] == b'#';
            assert_eq!(buffer.get(x, y) == color::WHITE, expected);
        }
    }
}

#[test]
fn horizontal_frame_at_zero_shows_first_block() {
    let rows = art(&[
        b"#           ",
        b" #          ",
        b"  #         ",
        b"   #        ",
        b"    #       ",
        b"     #      ",
        b"      #     ",
        b"       #####",
    ]);
    let strip = horizontal(&rows, 12);
    let mut buffer = ColorBuffer::new();
    buffer.draw_horizontal_billboard_frame(&strip, 0);
    for y in 0..8 {
        for x in 0..8 {
            let expected = rows[7 - y][x] == b'#';
            assert_eq!(buffer.get(x, y) == color::WHITE, expected);
        }
    }
    // One step further right, the diagonal shifts one column left.
    buffer.draw_horizontal_billboard_frame(&strip, 1);
    for y in 0..8 {
        for x in 0..8 {
            let expected = x + 1 < 12 && rows[7 - y][x + 1] == b'#';
            assert_eq!(buffer.get(x, y) == color::WHITE, expected);
        }
    }
}

#[test]
fn vertical_frame_past_end_is_all_unlit() {
    let strip = vertical(&art(&ARROW));
    let mut buffer = ColorBuffer::new();
    buffer.fill(color::RED);
    buffer.draw_vertical_billboard_frame(&strip, strip.len());
    assert!(lit_cells(&buffer).is_empty());
}

#[test]
fn horizontal_frame_past_end_is_all_unlit() {
    let rows = art(&[
        b"####", b"####", b"####", b"####", b"####", b"####", b"####", b"####",
    ]);
    let strip = horizontal(&rows, 4);
    let mut buffer = ColorBuffer::new();
    buffer.fill(color::GREEN);
    buffer.draw_horizontal_billboard_frame(&strip, strip.len());
    assert!(lit_cells(&buffer).is_empty());
}

#[test]
fn text_frame_at_zero_draws_the_glyph() {
    let (chars, _) = convert_str(&b"I".to_vec());
    let mut buffer = ColorBuffer::new();
    buffer.draw_text_billboard_frame(&chars, 0);
    let mut expected = vec![
        (0, 2),
        (1, 2),
        (2, 2),
        (1, 3),
        (1, 4),
        (1, 5),
        (0, 6),
        (1, 6),
        (2, 6),
    ];
    let mut lit = lit_cells(&buffer);
    lit.sort();
    expected.sort();
    assert_eq!(lit, expected);
}

#[test]
fn text_frame_clips_glyph_half_off_the_left_edge() {
    // 'A' is 3 wide; at frame offset 2 only its rightmost column is still
    // inside the window, shifted to display column 0.
    let (chars, _) = convert_str(&b"A".to_vec());
    let mut buffer = ColorBuffer::new();
    buffer.draw_text_billboard_frame(&chars, 2);
    let mut lit = lit_cells(&buffer);
    lit.sort();
    assert_eq!(lit, vec![(0, 2), (0, 3), (0, 4), (0, 5)]);
}

#[test]
fn text_frame_past_total_width_is_empty() {
    let (chars, total) = convert_str(&b"AB".to_vec());
    let mut buffer = ColorBuffer::new();
    buffer.fill(color::BLUE);
    buffer.draw_text_billboard_frame(&chars, total + 1);
    assert!(lit_cells(&buffer).is_empty());
}

#[test]
fn text_frame_scrolls_second_glyph_into_view() {
    // "AB" puts 'B' at offset 4; at frame offset 4 the window starts
    // exactly at 'B', so the frame shows 'B' at the left edge.
    let (ab, _) = convert_str(&b"AB".to_vec());
    let (b_only, _) = convert_str(&b"B".to_vec());
    let mut scrolled = ColorBuffer::new();
    scrolled.draw_text_billboard_frame(&ab, 4);
    let mut direct = ColorBuffer::new();
    direct.draw_text_billboard_frame(&b_only, 0);
    assert_eq!(lit_cells(&scrolled), lit_cells(&direct));
}
