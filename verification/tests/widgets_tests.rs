use rusticon::element::{Element, ScreenCmd, ScreenSize};
use rusticon::event::EventData;
use rusticon::look::Look;
use rusticon::state::AppState;
use rusticon::widgets::{button_exit, button_save, color_label_text, draw_relative, screen, AppWidget};

fn base_state() -> AppState {
    AppState {
        app_x: 0,
        app_y: 0,
        candidate: None,
        paintbrush: None,
        palette_index: 0,
        palette_colors: vec![None; 8],
        picker_mode: false,
        canvas16_data: vec![None; 256],
        canvas8_data: vec![None; 64],
        size: 8,
        save_flag: false,
        exit_flag: false,
        file_path: "icon.svg".to_string(),
    }
}

fn big_screen() -> ScreenSize {
    ScreenSize { cols: 100, rows: 40 }
}

#[test]
fn editor_composition_has_every_widget() {
    let e = rusticon::rusticon_screen::build();
    assert_eq!(e.len(), 20);
}

#[test]
fn splash_composition_has_logo_and_footer() {
    let e = rusticon::splash_screen::build();
    assert_eq!(e.len(), 2);
}

#[test]
fn exit_button_click_raises_exit_flag() {
    let mut el = button_exit::build();
    el.x = 10;
    el.y = 10;
    let mut s = base_state();
    let over = EventData::for_mouse(0, 10, 10, vec![]);
    button_exit::on_click(&mut el, &mut s, &over, &big_screen());
    assert!(s.exit_flag);
    let mut s2 = base_state();
    let away = EventData::for_mouse(0, 0, 0, vec![]);
    button_exit::on_click(&mut el, &mut s2, &away, &big_screen());
    assert!(!s2.exit_flag);
}

#[test]
fn exit_button_keypress_needs_ctrl_and_c() {
    let mut el = button_exit::build();
    let mut s = base_state();
    let plain_c = EventData::for_key(0, "a".to_string(), vec!["ctrl".to_string()]);
    button_exit::on_keypress(&mut el, &mut s, &plain_c, &big_screen());
    assert!(!s.exit_flag);
    let ctrl_c = EventData::for_key(0, "c".to_string(), vec!["ctrl".to_string()]);
    button_exit::on_keypress(&mut el, &mut s, &ctrl_c, &big_screen());
    assert!(s.exit_flag);
}

#[test]
fn save_button_schedules_exit_one_tick_later() {
    let mut el = button_save::build();
    el.x = 1;
    el.y = 1;
    let mut s = base_state();
    let over = EventData::for_mouse(0, 1, 1, vec![]);
    button_save::on_click(&mut el, &mut s, &over, &big_screen());
    assert!(s.save_flag && !s.exit_flag);
    let tick = EventData::for_tick(1);
    button_save::on_loop(&mut el, &mut s, &tick, &big_screen());
    assert!(s.exit_flag);
}

#[test]
fn screen_recenters_and_clears_on_resize() {
    let mut el = screen::build();
    let mut s = base_state();
    s.app_x = 999;
    let tick = EventData::for_tick(0);
    let cmd = screen::on_loop(&mut el, &mut s, &tick, &big_screen());
    assert_eq!(s.app_x, (100 - 80) / 2);
    assert_eq!(s.app_y, (40 - 24) / 2);
    assert!(matches!(cmd, Some(ScreenCmd::ClearFrom { x: 0, y: 1 })));
    let again = screen::on_loop(&mut el, &mut s, &tick, &big_screen());
    assert!(again.is_none());
}

#[test]
fn draw_relative_places_only_when_the_terminal_fits() {
    let mut s = base_state();
    s.app_x = 10;
    s.app_y = 8;
    let mut el: Element<AppWidget> = Element::new(0, 0, Look::from_text("x"));
    let cmd = draw_relative(&mut el, 5, 6, &s, &big_screen());
    assert_eq!((el.x, el.y), (15, 14));
    match cmd {
        Some(ScreenCmd::Put { x, y, rows }) => {
            assert_eq!((x, y), (15, 14));
            assert_eq!(rows, vec![vec!["x".to_string()]]);
        },
        _ => panic!("a fitting terminal draws"),
    }
    let small = ScreenSize { cols: 10, rows: 10 };
    let cmd2 = draw_relative(&mut el, 5, 6, &s, &small);
    assert!(cmd2.is_none());
}

#[test]
fn pickers_are_built_at_their_fixed_offsets() {
    assert_eq!((rusticon::widgets::color_picker_16::build().x, rusticon::widgets::color_picker_16::build().y), (1, 2));
    assert_eq!((rusticon::widgets::color_picker_216::build().x, rusticon::widgets::color_picker_216::build().y), (3, 2));
    assert_eq!((rusticon::widgets::color_picker_gray::build().x, rusticon::widgets::color_picker_gray::build().y), (16, 2));
    assert_eq!((rusticon::widgets::color_picker_empty::build().x, rusticon::widgets::color_picker_empty::build().y), (16, 18));
    assert_eq!((rusticon::widgets::color_picker_palette::build().x, rusticon::widgets::color_picker_palette::build().y), (23, 21));
    assert_eq!((rusticon::widgets::label_end::build().x, rusticon::widgets::label_end::build().y), (59, 19));
}

#[test]
fn empty_picker_click_over_it_picks_transparency() {
    let mut el = rusticon::widgets::color_picker_empty::build();
    let mut s = base_state();
    s.paintbrush = Some(7);
    s.candidate = Some(7);
    s.palette_index = 0;
    s.palette_colors = vec![Some(7), Some(1), None, None, None, None, None, None];
    let over = EventData::for_mouse(0, 16, 18, vec![]);
    rusticon::widgets::color_picker_empty::on_click(&mut el, &mut s, &over, &big_screen());
    assert_eq!(s.paintbrush, None);
    assert_eq!(s.candidate, None);
    assert_eq!(s.palette_colors[0], None);
    // the cursor moves to the first empty slot of the written palette
    assert_eq!(s.palette_index, 0);
}

#[test]
fn modal_fills_small_screens_with_the_centered_request() {
    let mut el = rusticon::widgets::centered_modal::build();
    let s = base_state();
    let small = ScreenSize { cols: 40, rows: 10 };
    rusticon::widgets::centered_modal::on_state(&mut el, &s, &small);
    let cells = el.look.cells();
    assert_eq!(cells.len(), 10);
    assert_eq!(cells[0].len(), 40);
    // the message sits on the middle row starting twelve left of center
    let line: String = cells[5].concat();
    assert_eq!(line.trim(), "Enlarge Terminal Window");
    assert_eq!(&line[8..9], "E");
    // a large terminal empties the grid
    rusticon::widgets::centered_modal::on_state(&mut el, &s, &big_screen());
    assert_eq!(el.look.cells().len(), 0);
}

#[test]
fn splash_logo_tick_rebuilds_and_centers_the_banner() {
    let mut el = rusticon::widgets::splash_logo::build();
    let mut s = rusticon::state::SplashState { loop_count: 0 };
    let tick = EventData::for_tick(4);
    let screen = ScreenSize { cols: 101, rows: 26 };
    let cmd = rusticon::widgets::splash_logo::on_loop(&mut el, &mut s, &tick, &screen);
    assert_eq!(s.loop_count, 4);
    assert_eq!((el.x, el.y), ((101 - 39) / 2, (26 - 6) / 2));
    assert_eq!(el.look.cells().len(), 7);
    assert_eq!(el.look.cells()[5], vec!["".to_string()]);
    let caption = &el.look.cells()[6][0];
    assert_eq!(caption.chars().count(), 40);
    assert!(caption.contains("An icon editor for the terminal"));
    // the banner rows carry this tick's colors
    let row0 = &el.look.cells()[0][0];
    let expected = terminal_style::format::bold(
        terminal_style::format::color(((4 + 2) % 5) as u8, " ____            _   _                 ")
            .unwrap(),
    );
    assert_eq!(row0, &expected);
    assert!(cmd.is_some());
}

#[test]
fn color_label_pads_the_code_to_three_columns() {
    let hex5 = terminal_style::color::ansi8_to_hex(5);
    assert_eq!(color_label_text(5), format!("5     {}", hex5));
    let hex123 = terminal_style::color::ansi8_to_hex(123);
    assert_eq!(color_label_text(123), format!("123   {}", hex123));
}
