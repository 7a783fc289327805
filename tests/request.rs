use createqrcode::request::{
    generate, validate, EncodingRequest, GenerateError, ValidationError, DEFAULT_BORDER,
    DEFAULT_SCALE,
};
use createqrcode::symbol::EncodingError;

fn request(data: &str, print: bool, output: Option<&str>, scale: u32, border: u32) -> EncodingRequest {
    EncodingRequest {
        data: data.to_string(),
        output: output.map(|p| p.to_string()),
        scale,
        border,
        print,
    }
}

#[test]
fn no_output_is_rejected_whatever_else() {
    for scale in [0, 1, 10] {
        for border in [0, 4] {
            let r = request("test", false, None, scale, border);
            assert_eq!(validate(&r), Err(ValidationError::NoOutputSpecified));
        }
    }
}

#[test]
fn zero_scale_is_rejected() {
    assert_eq!(validate(&request("test", true, None, 0, 4)), Err(ValidationError::InvalidScale));
    assert_eq!(
        validate(&request("test", false, Some("out.png"), 0, 4)),
        Err(ValidationError::InvalidScale)
    );
}

#[test]
fn zero_border_is_accepted() {
    assert_eq!(validate(&request("test", true, None, 1, 0)), Ok(()));
    assert_eq!(validate(&request("test", false, Some("a.png"), 3, 0)), Ok(()));
}

#[test]
fn defaults_are_ten_and_four() {
    assert_eq!(DEFAULT_SCALE, 10);
    assert_eq!(DEFAULT_BORDER, 4);
}

#[test]
fn url_to_file_gives_scaled_image_with_quiet_zone() {
    let r = request("https://example.com", false, Some("out.png"), 10, 4);
    let out = generate(&r).unwrap();
    let n = out.symbol.width();
    let img = out.raster.unwrap();
    assert_eq!(img.side as usize, (n + 8) * 10);
    assert_eq!(img.side, 330);
    assert!(out.terminal.is_none());
}

#[test]
fn print_only_gives_block_rendering_and_no_image() {
    let out = generate(&request("test", true, None, 10, 4)).unwrap();
    let text = out.terminal.unwrap();
    assert!(text.contains('\u{2588}'));
    assert!(out.raster.is_none());
}

#[test]
fn neither_output_fails() {
    let r = generate(&request("test", false, None, 10, 4));
    assert!(matches!(r, Err(GenerateError::Invalid(ValidationError::NoOutputSpecified))));
}

#[test]
fn both_outputs_share_one_symbol() {
    let out = generate(&request("test", true, Some("x.png"), 1, 0)).unwrap();
    let text = out.terminal.unwrap();
    let img = out.raster.unwrap();
    for (y, line) in text.split('\n').enumerate() {
        let chars: Vec<char> = line.chars().collect();
        for x in 0..img.side as usize {
            let dark = img.rows[y][x] == 0;
            assert_eq!(chars[2 * x] == '\u{2588}', dark);
        }
    }
}

#[test]
fn unencodable_data_fails_with_encoding_error() {
    let data = "x".repeat(5000);
    let r = generate(&request(&data, true, None, 10, 4));
    assert!(matches!(r, Err(GenerateError::Encoding(EncodingError))));
}

#[test]
fn validation_runs_before_encoding() {
    let data = "x".repeat(5000);
    let r = generate(&request(&data, true, None, 0, 4));
    assert!(matches!(r, Err(GenerateError::Invalid(ValidationError::InvalidScale))));
}

#[test]
fn huge_border_with_file_output_is_too_large() {
    let r = generate(&request("test", false, Some("out.png"), 1, u32::MAX));
    assert!(matches!(r, Err(GenerateError::ImageTooLarge)));
    let r = generate(&request("test", false, Some("out.png"), 300_000_000, 0));
    assert!(matches!(r, Err(GenerateError::ImageTooLarge)));
}

#[test]
fn huge_border_without_file_output_is_fine() {
    let out = generate(&request("test", true, None, 1, u32::MAX)).unwrap();
    assert!(out.raster.is_none());
    assert!(out.terminal.is_some());
}
