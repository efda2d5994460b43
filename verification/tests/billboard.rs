//! Billboard construction behavior.

use led_matrix::billboard::{horizontal, transpose, vertical};

fn art(rows: &[&[u8]]) -> Vec<Vec<u8>> {
    rows.iter().map(|r| r.to_vec()).collect()
}

#[test]
fn vertical_decodes_art() {
    let rows = art(&[b"#  #", b" ## ", b"    "]);
    let strip = vertical(&rows);
    assert_eq!(
        strip,
        vec![
            vec![true, false, false, true],
            vec![false, true, true, false],
            vec![false, false, false, false],
        ]
    );
}

#[test]
fn vertical_of_empty_art_is_empty() {
    let rows: Vec<Vec<u8>> = Vec::new();
    assert_eq!(vertical(&rows), Vec::<Vec<bool>>::new());
}

#[test]
fn transpose_swaps_axes() {
    let data = vec![vec![true, false, true], vec![false, false, true]];
    let t = transpose(&data, 3);
    assert_eq!(
        t,
        vec![vec![true, false], vec![false, false], vec![true, true]]
    );
}

#[test]
fn horizontal_is_transposed_vertical() {
    let rows = art(&[b"## ", b"# #", b"  #", b" ##"]);
    let h = horizontal(&rows, 3);
    let t = transpose(&vertical(&rows), 3);
    assert_eq!(h, t);
    assert_eq!(
        h,
        vec![
            vec![true, true, false, false],
            vec![true, false, false, true],
            vec![false, true, true, true],
        ]
    );
}
