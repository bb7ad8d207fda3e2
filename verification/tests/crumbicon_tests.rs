use rusticon::crumbicon::{
    crumbicon_from_text, get_crumbicon_data, pixels_to_icon, square_side, svg_document,
    to_colon_list,
};

#[test]
fn colon_list_renders_values_and_void() {
    assert_eq!(to_colon_list(&vec![Some(1), None, Some(255)]), "1:void:255".to_string());
    assert_eq!(to_colon_list(&vec![]), "".to_string());
    assert_eq!(to_colon_list(&vec![None]), "void".to_string());
}

#[test]
fn extracts_values_between_markers() {
    let text = "junk<!-- crumbicon-data:1: void :2:255crumbicon-data -->junk";
    let vals = get_crumbicon_data(text, "<!-- crumbicon-data:", "crumbicon-data -->");
    assert_eq!(vals, vec![Some(1), None, Some(2), Some(255)]);
}

#[test]
fn unparseable_tokens_become_transparent() {
    let text = "<!-- d:300:abc:-1:12junk:+7d -->";
    let vals = get_crumbicon_data(text, "<!-- d:", "d -->");
    assert_eq!(vals, vec![None, None, None, None, Some(7)]);
}

#[test]
fn plus_prefixed_numbers_parse() {
    let text = "<!-- d:+12d -->";
    assert_eq!(get_crumbicon_data(text, "<!-- d:", "d -->"), vec![Some(12)]);
}

#[test]
fn missing_markers_give_nothing() {
    assert_eq!(get_crumbicon_data("no markers", "<!-- d:", "d -->"), vec![]);
    assert_eq!(get_crumbicon_data("<!-- d:1:2", "<!-- d:", "d -->"), vec![]);
    // end marker before the start marker
    assert_eq!(get_crumbicon_data("d --><!-- d:1", "<!-- d:", "d -->"), vec![]);
}

#[test]
fn square_side_accepts_squares_only() {
    assert_eq!(square_side(64), Some(8));
    assert_eq!(square_side(256), Some(16));
    assert_eq!(square_side(0), Some(0));
    assert_eq!(square_side(3), None);
    assert_eq!(square_side(65), None);
}

#[test]
fn svg_document_exact_one_cell() {
    let data = vec![Some(196)];
    let palette = vec![Some(196), None, None, None, None, None, None, None];
    let doc = svg_document(&data, &palette, 1, 1, 32);
    let hex = terminal_style::color::ansi8_to_hex(196);
    let expected = format!(
        "<svg version=\"1.1\" baseProfile=\"full\" width=\"32\" height=\"32\" xmlns=\"http://www.w3.org/2000/svg\">\n<rect x=\"0\" y=\"0\" width=\"32\" height=\"32\" fill=\"{}\" />\n\n</svg>\n<!-- crumbicon-data:196crumbicon-data --><!-- crumbicon-palette:196:void:void:void:void:void:void:voidcrumbicon-palette -->\n",
        hex
    );
    assert_eq!(doc, expected);
}

#[test]
fn transparent_cells_have_no_fill() {
    let data = vec![None];
    let palette = vec![None; 8];
    let doc = svg_document(&data, &palette, 1, 1, 32);
    assert!(doc.contains("fill=\"none\""));
}

#[test]
fn document_round_trips_through_import() {
    let data = vec![Some(1), None, Some(20), Some(196)];
    let palette = vec![Some(1), Some(20), Some(196), None, None, None, None, None];
    let doc = svg_document(&data, &palette, 2, 2, 32);
    let back = crumbicon_from_text(&doc);
    let (d, p, side) = back.expect("a rendered icon reads back");
    assert_eq!(d, data);
    assert_eq!(p, palette);
    assert_eq!(side, 2);
}

#[test]
fn non_square_data_is_rejected() {
    let text = "<!-- crumbicon-data:1:2:3crumbicon-data --><!-- crumbicon-palette:1crumbicon-palette -->";
    assert!(crumbicon_from_text(text).is_none());
}

#[test]
fn missing_palette_is_rejected() {
    let text = "<!-- crumbicon-data:1crumbicon-data -->";
    assert!(crumbicon_from_text(text).is_none());
}

#[test]
fn pixels_become_cells_and_palette_in_first_appearance_order() {
    let red = [255u8, 0, 0, 255];
    let gray = [128u8, 128, 128, 255];
    let clear = [9u8, 9, 9, 0];
    let pixels = vec![vec![red, clear], vec![gray, red]];
    let (data, palette) = pixels_to_icon(&pixels, 2);
    let red8 = terminal_style::color::rgb_to_ansi8([255, 0, 0]);
    let gray8 = terminal_style::color::rgb_to_ansi8([128, 128, 128]);
    assert_eq!(data, vec![Some(red8), None, Some(gray8), Some(red8)]);
    assert_eq!(palette, vec![red8, gray8]);
}
