use rusticon::element::Element;
use rusticon::look::Look;
use rusticon::paint::{
    canvas_data_from_click, canvas_look_from_data, flood_fill, ideal_palette_index,
    set_palette_in_state,
};
use rusticon::state::AppState;

fn base_state() -> AppState {
    AppState {
        app_x: 0,
        app_y: 0,
        candidate: None,
        paintbrush: None,
        palette_index: 0,
        palette_colors: vec![None; 8],
        picker_mode: false,
        canvas16_data: vec![None; 256],
        canvas8_data: vec![None; 64],
        size: 8,
        save_flag: false,
        exit_flag: false,
        file_path: "icon.svg".to_string(),
    }
}

#[test]
fn ideal_index_is_first_empty_slot() {
    let palette = vec![Some(1), None, Some(2), None];
    assert_eq!(ideal_palette_index(3, &palette), 1);
}

#[test]
fn ideal_index_stays_put_when_full() {
    // With every slot full the cursor stays where it is.
    let palette = vec![Some(1), Some(2), Some(3)];
    assert_eq!(ideal_palette_index(2, &palette), 2);
    assert_eq!(ideal_palette_index(0, &palette), 0);
}

#[test]
fn set_palette_writes_slot_and_advances() {
    let mut s = base_state();
    s.palette_index = 0;
    set_palette_in_state(&mut s, Some(9));
    assert_eq!(s.palette_colors[0], Some(9));
    assert_eq!(s.palette_index, 1);
}

#[test]
fn set_palette_out_of_range_leaves_colors() {
    let mut s = base_state();
    s.palette_index = 100;
    set_palette_in_state(&mut s, Some(9));
    assert_eq!(s.palette_colors, vec![None; 8]);
    assert_eq!(s.palette_index, 0);
}

#[test]
fn flood_fill_fills_connected_region_only() {
    // 4x4: a wall of Some(1) splits the grid; fill the left region.
    let w = Some(1);
    let mut data = vec![
        None, w,    None, None,
        None, w,    None, None,
        None, w,    w,    w,
        None, None, w,    None,
    ];
    flood_fill(&mut data, 4, 0, 0, None, Some(7));
    let f = Some(7);
    assert_eq!(data, vec![
        f,    w, None, None,
        f,    w, None, None,
        f,    w, w,    w,
        f,    f, w,    None,
    ]);
}

#[test]
fn flood_fill_reaches_around_corners_but_not_across_walls() {
    // (1,1) is reached via (0,1); (1,0) is not the target and stays put
    let mut data = vec![Some(1), Some(1), None, Some(1)];
    flood_fill(&mut data, 2, 0, 0, Some(1), Some(2));
    assert_eq!(data, vec![Some(2), Some(2), None, Some(2)]);
}

#[test]
fn flood_fill_outside_grid_changes_nothing() {
    let mut data = vec![None; 16];
    flood_fill(&mut data, 4, 9, 0, None, Some(7));
    assert_eq!(data, vec![None; 16]);
}

#[test]
fn click_paints_one_cell() {
    let el: Element<u8> = Element::new(10, 5, Look::new());
    let mut data = vec![None; 64];
    // two columns per cell: x offset 6 is cell column 3, y offset 2 is row 2
    canvas_data_from_click(&el, 8, &mut data, Some(42), 16, 7, false);
    let mut expected = vec![None; 64];
    expected[2 * 8 + 3] = Some(42);
    assert_eq!(data, expected);
}

#[test]
fn click_with_fill_floods_from_cell() {
    let el: Element<u8> = Element::new(0, 0, Look::new());
    let mut data = vec![None; 4];
    data[3] = Some(1);
    canvas_data_from_click(&el, 2, &mut data, Some(5), 0, 0, true);
    assert_eq!(data, vec![Some(5), Some(5), Some(5), Some(1)]);
}

#[test]
fn click_outside_canvas_changes_nothing() {
    let el: Element<u8> = Element::new(0, 0, Look::new());
    let mut data = vec![None; 4];
    canvas_data_from_click(&el, 2, &mut data, Some(5), 40, 40, false);
    assert_eq!(data, vec![None; 4]);
}

#[test]
fn canvas_look_paints_two_columns_per_cell() {
    let data = vec![Some(3)];
    let l = canvas_look_from_data(1, &data);
    let painted = terminal_style::format::background(3u8, " ").unwrap();
    assert_eq!(l.cells(), &vec![vec![painted.clone(), painted]]);
    let l2 = canvas_look_from_data(1, &vec![None]);
    assert_eq!(l2.cells(), &vec![vec![":".to_string(), ":".to_string()]]);
}
