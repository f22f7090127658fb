use clockdate::parse_color;
use clockdate::Rgb;

#[test]
fn hex_purple_resolves_to_its_triple() {
    assert_eq!(parse_color("#A020F0"), Rgb { r: 160, g: 32, b: 240 });
}

#[test]
fn hex_is_case_insensitive_per_digit() {
    assert_eq!(parse_color("#a020f0"), Rgb { r: 160, g: 32, b: 240 });
    assert_eq!(parse_color("#FFffFF"), Rgb { r: 255, g: 255, b: 255 });
    assert_eq!(parse_color("#000000"), Rgb { r: 0, g: 0, b: 0 });
}

#[test]
fn symbolic_palette_resolves_to_fixed_triples() {
    assert_eq!(parse_color("Black"), Rgb { r: 0, g: 0, b: 0 });
    assert_eq!(parse_color("Red"), Rgb { r: 255, g: 0, b: 0 });
    assert_eq!(parse_color("Green"), Rgb { r: 0, g: 255, b: 0 });
    assert_eq!(parse_color("Yellow"), Rgb { r: 255, g: 255, b: 0 });
    assert_eq!(parse_color("Blue"), Rgb { r: 0, g: 0, b: 255 });
    assert_eq!(parse_color("Magenta"), Rgb { r: 255, g: 0, b: 255 });
    assert_eq!(parse_color("Purple"), Rgb { r: 160, g: 32, b: 240 });
    assert_eq!(parse_color("Cyan"), Rgb { r: 0, g: 255, b: 255 });
    assert_eq!(parse_color("Gray"), Rgb { r: 128, g: 128, b: 128 });
    assert_eq!(parse_color("DarkGray"), Rgb { r: 64, g: 64, b: 64 });
    assert_eq!(parse_color("LightRed"), Rgb { r: 255, g: 128, b: 128 });
    assert_eq!(parse_color("LightGreen"), Rgb { r: 128, g: 255, b: 128 });
    assert_eq!(parse_color("LightYellow"), Rgb { r: 255, g: 255, b: 128 });
    assert_eq!(parse_color("LightBlue"), Rgb { r: 128, g: 128, b: 255 });
    assert_eq!(parse_color("LightMagenta"), Rgb { r: 255, g: 128, b: 255 });
    assert_eq!(parse_color("LightCyan"), Rgb { r: 128, g: 255, b: 255 });
    assert_eq!(parse_color("White"), Rgb { r: 255, g: 255, b: 255 });
}

#[test]
fn unknown_token_resolves_to_default_blue() {
    assert_eq!(parse_color("purple-ish"), Rgb { r: 0, g: 0, b: 255 });
    assert_eq!(parse_color(""), Rgb { r: 0, g: 0, b: 255 });
    assert_eq!(parse_color("black"), Rgb { r: 0, g: 0, b: 255 });
}

#[test]
fn malformed_hex_resolves_to_default_blue() {
    assert_eq!(parse_color("#GGGGGG"), Rgb { r: 0, g: 0, b: 255 });
    assert_eq!(parse_color("#12345"), Rgb { r: 0, g: 0, b: 255 });
    assert_eq!(parse_color("#1234567"), Rgb { r: 0, g: 0, b: 255 });
    assert_eq!(parse_color("A020F0"), Rgb { r: 0, g: 0, b: 255 });
}
