//! Color buffer behavior.

use led_matrix::buffer::ColorBuffer;
use led_matrix::color;
use led_matrix::{all_led_coordinates, HEIGHT, WIDTH};

#[test]
fn new_buffer_is_all_black() {
    let buffer = ColorBuffer::new();
    for y in 0..8 {
        for x in 0..8 {
            assert_eq!(buffer.get(x, y), color::BLACK);
        }
    }
}

#[test]
fn set_changes_one_cell_only() {
    let mut buffer = ColorBuffer::new();
    buffer.set(3, 5, color::PURPLE);
    for y in 0..8 {
        for x in 0..8 {
            let expected = if (x, y) == (3, 5) {
                color::PURPLE
            } else {
                color::BLACK
            };
            assert_eq!(buffer.get(x, y), expected);
        }
    }
}

#[test]
fn fill_and_clear_cover_every_cell() {
    let mut buffer = ColorBuffer::new();
    buffer.fill(color::TEAL);
    for y in 0..8 {
        for x in 0..8 {
            assert_eq!(buffer.get(x, y), color::TEAL);
        }
    }
    buffer.clear();
    for y in 0..8 {
        for x in 0..8 {
            assert_eq!(buffer.get(x, y), color::BLACK);
        }
    }
}

#[test]
fn draw_coordinates_sets_exactly_the_listed_cells() {
    let mut buffer = ColorBuffer::new();
    let coords = vec![(0, 0), (7, 7), (2, 4), (2, 4)];
    buffer.draw_coordinates(&coords, color::ORANGE);
    for y in 0..8 {
        for x in 0..8 {
            let expected = if coords.contains(&(x, y)) {
                color::ORANGE
            } else {
                color::BLACK
            };
            assert_eq!(buffer.get(x, y), expected);
        }
    }
}

#[test]
fn all_led_coordinates_walks_the_grid_bottom_up() {
    let coords = all_led_coordinates();
    assert_eq!(coords.len(), WIDTH * HEIGHT);
    assert_eq!(coords[0], (0, 0));
    assert_eq!(coords[7], (7, 0));
    assert_eq!(coords[8], (0, 1));
    assert_eq!(coords[63], (7, 7));
    for (i, &(x, y)) in coords.iter().enumerate() {
        assert_eq!((x, y), (i % 8, i / 8));
    }
}
