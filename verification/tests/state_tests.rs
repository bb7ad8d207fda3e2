use rusticon::state::{
    exit_splash, exit_ui, final_save_request, AppState, SplashState, MIN_SPLASH_LOOPS,
};
use rusticon::widgets::splash_logo::bouncing_text;

fn base_state() -> AppState {
    AppState {
        app_x: 0,
        app_y: 0,
        candidate: None,
        paintbrush: None,
        palette_index: 0,
        palette_colors: vec![None; 8],
        picker_mode: false,
        canvas16_data: vec![None; 256],
        canvas8_data: vec![None; 64],
        size: 8,
        save_flag: false,
        exit_flag: false,
        file_path: "icon.svg".to_string(),
    }
}

#[test]
fn splash_exits_when_background_done_and_time_served() {
    assert!(exit_splash(&SplashState { loop_count: MIN_SPLASH_LOOPS }, true));
    assert!(exit_splash(&SplashState { loop_count: MIN_SPLASH_LOOPS + 5 }, true));
    assert!(!exit_splash(&SplashState { loop_count: MIN_SPLASH_LOOPS - 1 }, true));
    assert!(!exit_splash(&SplashState { loop_count: MIN_SPLASH_LOOPS + 5 }, false));
}

#[test]
fn ui_exits_on_its_flag() {
    let mut s = base_state();
    assert!(!exit_ui(&s));
    s.exit_flag = true;
    assert!(exit_ui(&s));
}

#[test]
fn final_save_picks_the_active_canvas() {
    let mut s = base_state();
    assert!(final_save_request(&s).is_none());
    s.save_flag = true;
    s.size = 16;
    s.canvas16_data[0] = Some(7);
    let (data, size) = final_save_request(&s).unwrap();
    assert_eq!(size, 16);
    assert_eq!(data[0], Some(7));
    s.size = 8;
    let (_, size8) = final_save_request(&s).unwrap();
    assert_eq!(size8, 8);
}

#[test]
fn duplicate_is_structurally_equal() {
    let mut s = base_state();
    s.paintbrush = Some(3);
    s.canvas8_data[5] = Some(3);
    let d = s.duplicate();
    assert!(s.same_as(&d));
    let mut e = s.duplicate();
    e.canvas8_data[6] = Some(1);
    assert!(!s.same_as(&e));
}

#[test]
fn bouncing_text_pads_inside_forty_columns() {
    let text = "An icon editor for the terminal";
    assert_eq!(bouncing_text(0), format!("{}{}", text, " ".repeat(9)));
    assert_eq!(bouncing_text(5), format!("{}{}{}", " ".repeat(5), text, " ".repeat(4)));
    assert_eq!(bouncing_text(13), format!("{}{}{}", " ".repeat(5), text, " ".repeat(4)));
    assert_eq!(bouncing_text(18), bouncing_text(0));
    for n in 0..40 {
        assert_eq!(bouncing_text(n).chars().count(), 40);
    }
}
