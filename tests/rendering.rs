use createqrcode::raster::{render_raster, DARK, LIGHT};
use createqrcode::symbol::encode;
use createqrcode::terminal::render_qr_to_terminal;

#[test]
fn terminal_has_one_line_per_row_of_double_width() {
    let s = encode("test").unwrap();
    let n = s.width();
    let text = render_qr_to_terminal(&s);
    let lines: Vec<&str> = text.split('\n').collect();
    assert_eq!(lines.len(), n);
    for line in &lines {
        assert_eq!(line.chars().count(), 2 * n);
    }
    assert!(!text.ends_with('\n'));
}

#[test]
fn terminal_draws_each_module_twice() {
    let s = encode("test").unwrap();
    let n = s.width();
    let text = render_qr_to_terminal(&s);
    let first: String = text.split('\n').next().unwrap().to_string();
    let expected_start = format!("{}  ", "\u{2588}".repeat(14));
    assert!(first.starts_with(&expected_start));
    for (row, line) in text.split('\n').enumerate() {
        let chars: Vec<char> = line.chars().collect();
        for col in 0..n {
            let want = if s.is_dark(row, col) { '\u{2588}' } else { ' ' };
            assert_eq!(chars[2 * col], want);
            assert_eq!(chars[2 * col + 1], want);
        }
    }
}

#[test]
fn raster_dimensions_follow_scale_and_border() {
    let s = encode("test").unwrap();
    let n = s.width();
    let img = render_raster(&s, 3, 2);
    let side = (n + 4) * 3;
    assert_eq!(img.side as usize, side);
    assert_eq!(img.rows.len(), side);
    for row in &img.rows {
        assert_eq!(row.len(), side);
    }
}

#[test]
fn raster_border_band_is_light() {
    let s = encode("test").unwrap();
    let n = s.width();
    let (scale, border) = (3usize, 2usize);
    let img = render_raster(&s, scale as u32, border as u32);
    let side = img.side as usize;
    for y in 0..side {
        for x in 0..side {
            let in_band = x < border * scale
                || y < border * scale
                || x >= (n + border) * scale
                || y >= (n + border) * scale;
            if in_band {
                assert_eq!(img.rows[y][x], LIGHT);
            }
        }
    }
}

#[test]
fn raster_pixels_follow_modules() {
    let s = encode("test").unwrap();
    let n = s.width();
    let (scale, border) = (2usize, 1usize);
    let img = render_raster(&s, scale as u32, border as u32);
    for y in 0..img.side as usize {
        for x in 0..img.side as usize {
            let (mx, my) = (x / scale, y / scale);
            let dark = mx >= border
                && my >= border
                && mx - border < n
                && my - border < n
                && s.is_dark(my - border, mx - border);
            assert_eq!(img.rows[y][x], if dark { DARK } else { LIGHT });
        }
    }
    assert_eq!(img.rows[border * scale][border * scale], 0);
    assert_eq!(img.rows[0][0], 255);
}

#[test]
fn raster_without_border_starts_with_the_symbol() {
    let s = encode("test").unwrap();
    let img = render_raster(&s, 1, 0);
    assert_eq!(img.side as usize, s.width());
    assert_eq!(img.rows[0][0], DARK);
}
