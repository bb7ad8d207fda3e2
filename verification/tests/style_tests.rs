use rusticon::look::Look;
use rusticon::style::{
    ansi8_to_hex, ansi8_to_rgb, background_str, color_str, rgb_to_ansi8, style_look, style_str,
    TextStyle,
};

#[test]
fn text_styles_wrap_in_graphic_sequences() {
    assert_eq!(style_str(TextStyle::Bold, "Hi"), "\x1b[1mHi\x1b[0m".to_string());
    assert_eq!(style_str(TextStyle::Faint, "Hi"), "\x1b[2mHi\x1b[0m".to_string());
    assert_eq!(style_str(TextStyle::Underline, "Hi"), "\x1b[4mHi\x1b[0m".to_string());
    assert_eq!(style_str(TextStyle::Inverse, "Hi"), "\x1b[7mHi\x1b[0m".to_string());
}

#[test]
fn truecolor_sequences_use_the_palette_color() {
    // 196 is bright red, 21 is blue in the fixed palette.
    assert_eq!(color_str(196, "R"), "\x1b[38;2;255;0;0mR\x1b[0m".to_string());
    assert_eq!(background_str(21, " "), "\x1b[48;2;0;0;255m \x1b[0m".to_string());
}

#[test]
fn color_conversions_match_the_fixed_palette() {
    assert_eq!(ansi8_to_rgb(196), (255, 0, 0));
    assert_eq!(ansi8_to_hex(196), "#FF0000".to_string());
    assert_eq!(rgb_to_ansi8(255, 0, 0), 196);
    assert_eq!(rgb_to_ansi8(128, 128, 128), 244);
}

#[test]
fn styling_a_look_styles_every_cell() {
    let l = Look::from_text("ab");
    let s = style_look(TextStyle::Underline, &l);
    assert_eq!(
        s.cells(),
        &vec![vec!["\x1b[4ma\x1b[0m".to_string(), "\x1b[4mb\x1b[0m".to_string()]]
    );
}
