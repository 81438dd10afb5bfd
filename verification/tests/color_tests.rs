use termcore::color::{
    ansi_16_color, default_bg, default_fg, parse_color_spec, parse_hex_component,
    xterm_256_color, ColorKind, Rgb,
};

fn rgb(r: u8, g: u8, b: u8) -> Rgb {
    Rgb { r, g, b }
}

#[test]
fn ansi_16_palette() {
    assert_eq!(ansi_16_color(0), rgb(0, 0, 0));
    assert_eq!(ansi_16_color(1), rgb(128, 0, 0));
    assert_eq!(ansi_16_color(2), rgb(0, 128, 0));
    assert_eq!(ansi_16_color(7), rgb(192, 192, 192));
    assert_eq!(ansi_16_color(8), rgb(128, 128, 128));
    assert_eq!(ansi_16_color(9), rgb(255, 0, 0));
    assert_eq!(ansi_16_color(14), rgb(0, 255, 255));
    assert_eq!(ansi_16_color(15), rgb(255, 255, 255));
    // Out-of-range indices fall back to white rather than failing.
    assert_eq!(ansi_16_color(16), rgb(255, 255, 255));
    assert_eq!(ansi_16_color(255), rgb(255, 255, 255));
}

#[test]
fn xterm_cube_corners() {
    assert_eq!(xterm_256_color(16), rgb(0, 0, 0));
    assert_eq!(xterm_256_color(231), rgb(255, 255, 255));
    // 16 + 36*1 + 6*2 + 3: levels 95, 135, 175.
    assert_eq!(xterm_256_color(67), rgb(95, 135, 175));
}

#[test]
fn xterm_grayscale_ramp() {
    assert_eq!(xterm_256_color(232), rgb(8, 8, 8));
    assert_eq!(xterm_256_color(255), rgb(238, 238, 238));
}

#[test]
fn xterm_low_indices_delegate() {
    for i in 0u8..16 {
        assert_eq!(xterm_256_color(i), ansi_16_color(i));
    }
}

#[test]
fn xterm_total_over_all_bytes() {
    for i in 0u8..=255 {
        let _ = xterm_256_color(i);
    }
}

#[test]
fn rgb_spec_two_digit() {
    assert_eq!(parse_color_spec("rgb:ff/00/80"), Some(rgb(255, 0, 128)));
}

#[test]
fn rgb_spec_mixed_widths() {
    // Each component is scaled independently of its own digit count.
    assert_eq!(parse_color_spec("rgb:f/00/8000"), Some(rgb(255, 0, 128)));
}

#[test]
fn rgb_spec_too_few_components() {
    assert_eq!(parse_color_spec("rgb:ff/00"), None);
    assert_eq!(parse_color_spec("rgb:"), None);
}

#[test]
fn rgb_spec_bad_component() {
    assert_eq!(parse_color_spec("rgb:gg/00/00"), None);
    assert_eq!(parse_color_spec("rgb://"), None);
    assert_eq!(parse_color_spec("rgb:12345/0/0"), None);
}

#[test]
fn hash_spec_short_equals_long() {
    assert_eq!(parse_color_spec("#f08"), parse_color_spec("#ff0088"));
    assert_eq!(parse_color_spec("#ff0088"), Some(rgb(255, 0, 136)));
}

#[test]
fn hash_spec_widths() {
    assert_eq!(parse_color_spec("#000"), Some(rgb(0, 0, 0)));
    assert_eq!(parse_color_spec("#fff"), Some(rgb(255, 255, 255)));
    assert_eq!(parse_color_spec("#ffff0000ffff"), Some(rgb(255, 0, 255)));
}

#[test]
fn hash_spec_bad_lengths() {
    assert_eq!(parse_color_spec("#"), None);
    assert_eq!(parse_color_spec("#ff"), None);
    assert_eq!(parse_color_spec("#f0800"), None);
    // Length 15 is divisible by 3 but gives 5-digit components.
    assert_eq!(parse_color_spec("#fffffooooofffff"), None);
    assert_eq!(parse_color_spec("#000000000000000"), None);
}

#[test]
fn none_and_unsupported_yield_nothing() {
    assert_eq!(parse_color_spec("none"), None);
    assert_eq!(parse_color_spec("NONE"), None);
    assert_eq!(parse_color_spec("NoNe"), None);
    assert_eq!(parse_color_spec("bogus"), None);
    assert_eq!(parse_color_spec(""), None);
    assert_eq!(parse_color_spec("red"), None);
}

#[test]
fn surrounding_whitespace_is_trimmed() {
    assert_eq!(parse_color_spec("  rgb:ff/00/80\n"), Some(rgb(255, 0, 128)));
    assert_eq!(parse_color_spec("\t#f08 "), parse_color_spec("#f08"));
    assert_eq!(parse_color_spec("  none  "), None);
}

#[test]
fn hex_component_scaling() {
    assert_eq!(parse_hex_component("ff"), Some(255));
    assert_eq!(parse_hex_component("0"), Some(0));
    assert_eq!(parse_hex_component("f"), Some(255));
    assert_eq!(parse_hex_component("8"), Some(136));
    assert_eq!(parse_hex_component("fff"), Some(255));
    assert_eq!(parse_hex_component("ffff"), Some(255));
    assert_eq!(parse_hex_component("8000"), Some(128));
    assert_eq!(parse_hex_component(""), None);
    assert_eq!(parse_hex_component("12345"), None);
    assert_eq!(parse_hex_component("xy"), None);
}

#[test]
fn default_colors() {
    assert_eq!(default_fg(), rgb(255, 255, 255));
    assert_eq!(default_bg(), rgb(0, 0, 0));
}

#[test]
fn color_kind_carries_values() {
    let k = ColorKind::Xterm(231);
    match k {
        ColorKind::Xterm(i) => assert_eq!(xterm_256_color(i), rgb(255, 255, 255)),
        _ => panic!("expected an xterm index"),
    }
    assert_eq!(ColorKind::Rgb(rgb(1, 2, 3)), ColorKind::Rgb(rgb(1, 2, 3)));
    assert_ne!(ColorKind::Default, ColorKind::Ansi(0));
}
