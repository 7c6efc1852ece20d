//! Tests of the test-pattern generators and their exactly known structure.

use resamplescope::analyze::{dot_target, line_target};
use resamplescope::pattern::{
    generate_dot_pattern, generate_edge_pattern, generate_line_pattern, BRIGHT, DARK,
    DOT_DST_HEIGHT, DOT_DST_WIDTH, DOT_HCENTER, DOT_HPIXELSPAN, DOT_SRC_HEIGHT, DOT_SRC_WIDTH,
    DOT_VCENTER, LINE_DST_HEIGHT, LINE_DST_WIDTH, LINE_SRC_HEIGHT, LINE_SRC_WIDTH,
};

#[test]
fn constants_match() {
    assert_eq!(DOT_SRC_WIDTH, 557);
    assert_eq!(DOT_SRC_HEIGHT, 275);
    assert_eq!(DOT_DST_WIDTH, 555);
    assert_eq!(DOT_DST_HEIGHT, 275);
    assert_eq!(LINE_SRC_WIDTH, 15);
    assert_eq!(LINE_SRC_HEIGHT, 15);
    assert_eq!(LINE_DST_WIDTH, 555);
    assert_eq!(LINE_DST_HEIGHT, 15);
    assert_eq!(dot_target(), (555, 275));
    assert_eq!(line_target(), (555, 15));
}

#[test]
fn dot_pattern_dimensions() {
    let img = generate_dot_pattern();
    assert_eq!(img.width(), DOT_SRC_WIDTH);
    assert_eq!(img.height(), DOT_SRC_HEIGHT);
}

#[test]
fn dot_pattern_has_bright_pixels() {
    let img = generate_dot_pattern();
    let bright_count = img.buf().iter().filter(|&&v| v == BRIGHT).count();
    // Each strip has roughly (SRC_WIDTH - 2*HCENTER) / HPIXELSPAN dots
    // = (557 - 24) / 25 = 21.32 -> 22 dots per strip x 25 strips
    assert!(bright_count > 500, "only {bright_count} bright pixels");
    assert!(bright_count < 600, "{bright_count} bright pixels (too many)");
}

#[test]
fn dot_pattern_bright_count_exact() {
    // Strips 0..=7 fit 22 dots, strips 8..=24 fit 21: 8*22 + 17*21 = 533.
    let img = generate_dot_pattern();
    assert_eq!(img.count_equal(BRIGHT), 533);
    let by_iter = img.buf().iter().filter(|&&v| v == BRIGHT).count();
    assert_eq!(by_iter, 533);
}

#[test]
fn dot_pattern_center_row_of_strip0() {
    let img = generate_dot_pattern();
    // Strip 0, center row is y = DOT_VCENTER = 5
    let row: Vec<u8> =
        img.buf()[DOT_VCENTER * DOT_SRC_WIDTH..][..DOT_SRC_WIDTH].to_vec();
    // First dot at x = DOT_HCENTER = 12 (since strip=0, (12-0)%25==12)
    assert_eq!(row[DOT_HCENTER], BRIGHT);
    assert_eq!(row[DOT_HCENTER - 1], DARK);
    assert_eq!(row[DOT_HCENTER + 1], DARK);
    // Next dot at x = 37
    assert_eq!(row[DOT_HCENTER + DOT_HPIXELSPAN], BRIGHT);
}

/// The expected dot pattern, built independently from its documented
/// formula: strip s carries bright dots only on its center row, at
/// columns x with (x - s) % 25 == 12, x >= s, and 12 <= x <= 544.
fn expected_dot_pattern() -> Vec<u8> {
    let mut pixels = vec![DARK; DOT_SRC_WIDTH * DOT_SRC_HEIGHT];
    for y in 0..DOT_SRC_HEIGHT {
        if y % 11 != 5 {
            continue;
        }
        let strip = y / 11;
        for x in 12..=544 {
            if x >= strip && (x - strip) % 25 == 12 {
                pixels[y * DOT_SRC_WIDTH + x] = BRIGHT;
            }
        }
    }
    pixels
}

#[test]
fn dot_pattern_pixel_identical() {
    let img = generate_dot_pattern();
    let expected = expected_dot_pattern();
    assert_eq!(img.buf().len(), expected.len());

    let mut diffs = 0;
    let mut first_diff = None;
    for (i, (&r, &e)) in img.buf().iter().zip(expected.iter()).enumerate() {
        if r != e {
            diffs += 1;
            if first_diff.is_none() {
                let x = i % 557;
                let y = i / 557;
                first_diff = Some((x, y, r, e));
            }
        }
    }

    if let Some((x, y, r, e)) = first_diff {
        panic!("dot patterns differ at {diffs} pixels; first diff at ({x}, {y}): got={r} expected={e}");
    }
}

#[test]
fn line_pattern_pixel_identical() {
    let img = generate_line_pattern();
    let mut expected = vec![DARK; 15 * 15];
    for y in 0..15 {
        expected[y * 15 + 7] = BRIGHT;
    }
    assert_eq!(img.buf().len(), expected.len());
    for (i, (&r, &e)) in img.buf().iter().zip(expected.iter()).enumerate() {
        assert_eq!(r, e, "line pattern pixel {i}: got={r} expected={e}");
    }
}

#[test]
fn dot_pattern_off_center_rows_dark() {
    let img = generate_dot_pattern();
    for y in 0..DOT_SRC_HEIGHT {
        if y % 11 == 5 {
            continue;
        }
        for x in 0..DOT_SRC_WIDTH {
            assert_eq!(img.get(x, y), DARK, "expected DARK at ({x}, {y})");
        }
    }
}

#[test]
fn line_pattern_dimensions() {
    let img = generate_line_pattern();
    assert_eq!(img.width(), LINE_SRC_WIDTH);
    assert_eq!(img.height(), LINE_SRC_HEIGHT);
}

#[test]
fn line_pattern_center_column() {
    let img = generate_line_pattern();
    for y in 0..LINE_SRC_HEIGHT {
        for x in 0..LINE_SRC_WIDTH {
            let expected = if x == 7 { BRIGHT } else { DARK };
            assert_eq!(
                img.buf()[y * LINE_SRC_WIDTH + x],
                expected,
                "mismatch at ({x}, {y})"
            );
        }
    }
}

#[test]
fn edge_pattern_column_at_x1() {
    let img = generate_edge_pattern();
    for y in 0..LINE_SRC_HEIGHT {
        assert_eq!(img.buf()[y * LINE_SRC_WIDTH], DARK);
        assert_eq!(img.buf()[y * LINE_SRC_WIDTH + 1], BRIGHT);
        assert_eq!(img.buf()[y * LINE_SRC_WIDTH + 2], DARK);
    }
}
