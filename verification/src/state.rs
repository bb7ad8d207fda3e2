//! The two application states the icon editor runs the engine over: the
//! splash screen's counter and the editor's full state, with structural
//! equality and duplication the scheduler's change detection needs.

use vstd::prelude::*;

verus! {

/// How many loop iterations the splash screen shows at the least.
pub const MIN_SPLASH_LOOPS: usize = 20;

/// The state of the splash screen run: the tick count last observed by its
/// loop callback.
#[derive(Clone, Copy, Debug, PartialEq, Eq, Structural)]
pub struct SplashState {
    pub loop_count: usize,
}

/// The state of the editor run.
#[derive(Debug)]
pub struct AppState {
    pub app_x: u16,
    pub app_y: u16,
    pub candidate: Option<u8>,
    pub paintbrush: Option<u8>,
    pub palette_index: usize,
    pub palette_colors: Vec<Option<u8>>,
    pub picker_mode: bool,
    pub canvas16_data: Vec<Option<u8>>,
    pub canvas8_data: Vec<Option<u8>>,
    pub size: u8,
    pub save_flag: bool,
    pub exit_flag: bool,
    pub file_path: String,
}

/// Structural equality of editor states: every field agrees, vectors and
/// the path element by element.
pub open spec fn same_app_state(a: AppState, b: AppState) -> bool {
    &&& a.app_x == b.app_x
    &&& a.app_y == b.app_y
    &&& a.candidate == b.candidate
    &&& a.paintbrush == b.paintbrush
    &&& a.palette_index == b.palette_index
    &&& a.palette_colors@ == b.palette_colors@
    &&& a.picker_mode == b.picker_mode
    &&& a.canvas16_data@ == b.canvas16_data@
    &&& a.canvas8_data@ == b.canvas8_data@
    &&& a.size == b.size
    &&& a.save_flag == b.save_flag
    &&& a.exit_flag == b.exit_flag
    &&& a.file_path@ == b.file_path@
}

/// Copies a vector of optional color codes.
pub fn copy_colors(v: &Vec<Option<u8>>) -> (r: Vec<Option<u8>>)
    ensures
        r@ == v@,
{
    let mut r: Vec<Option<u8>> = Vec::new();
    let mut i: usize = 0;
    while i < v.len()
        invariant
            i <= v@.len(),
            r@ =~= v@.take(i as int),
        decreases v@.len() - i,
    {
        r.push(v[i]);
        proof {
            assert(r@ =~= v@.take(i + 1));
        }
        i = i + 1;
    }
    proof {
        assert(v@.take(v@.len() as int) =~= v@);
    }
    r
}

/// Compares two vectors of optional color codes.
pub fn colors_eq(a: &Vec<Option<u8>>, b: &Vec<Option<u8>>) -> (r: bool)
    ensures
        r == (a@ == b@),
{
    if a.len() != b.len() {
        proof {
            assert(a@.len() != b@.len());
        }
        return false;
    }
    let n = a.len();
    let mut i: usize = 0;
    while i < n
        invariant
            i <= n == a@.len(),
            a@.len() == b@.len(),
            forall|j: int| 0 <= j < i ==> a@[j] == b@[j],
        decreases n - i,
    {
        let same = match (a[i], b[i]) {
            (None, None) => true,
            (Some(x), Some(y)) => x == y,
            _ => false,
        };
        if !same {
            proof {
                assert(a@[i as int] != b@[i as int]);
            }
            return false;
        }
        i = i + 1;
    }
    proof {
        assert(a@ =~= b@);
    }
    true
}

impl AppState {
    /// Snapshots the state by value; structurally equal to the original.
    pub fn duplicate(&self) -> (r: AppState)
        ensures
            same_app_state(r, *self),
            same_app_state(*self, r),
    {
        AppState {
            app_x: self.app_x,
            app_y: self.app_y,
            candidate: self.candidate,
            paintbrush: self.paintbrush,
            palette_index: self.palette_index,
            palette_colors: copy_colors(&self.palette_colors),
            picker_mode: self.picker_mode,
            canvas16_data: copy_colors(&self.canvas16_data),
            canvas8_data: copy_colors(&self.canvas8_data),
            size: self.size,
            save_flag: self.save_flag,
            exit_flag: self.exit_flag,
            file_path: self.file_path.clone(),
        }
    }

    /// Compares two editor states structurally.
    pub fn same_as(&self, other: &AppState) -> (r: bool)
        ensures
            r == same_app_state(*self, *other),
    {
        self.app_x == other.app_x && self.app_y == other.app_y
            && opt_u8_eq(self.candidate, other.candidate)
            && opt_u8_eq(self.paintbrush, other.paintbrush)
            && self.palette_index == other.palette_index
            && colors_eq(&self.palette_colors, &other.palette_colors)
            && self.picker_mode == other.picker_mode
            && colors_eq(&self.canvas16_data, &other.canvas16_data)
            && colors_eq(&self.canvas8_data, &other.canvas8_data)
            && self.size == other.size
            && self.save_flag == other.save_flag
            && self.exit_flag == other.exit_flag
            && self.file_path == other.file_path
    }
}

/// Compares two optional color codes.
pub fn opt_u8_eq(a: Option<u8>, b: Option<u8>) -> (r: bool)
    ensures
        r == (a == b),
{
    match (a, b) {
        (None, None) => true,
        (Some(x), Some(y)) => x == y,
        _ => false,
    }
}

/// The splash run's exit condition: the background work has finished and
/// the splash has been shown for the minimum number of loops.
pub fn exit_splash(state: &SplashState, background_done: bool) -> (r: bool)
    ensures
        r == (background_done && state.loop_count >= MIN_SPLASH_LOOPS),
{
    background_done && state.loop_count >= MIN_SPLASH_LOOPS
}

/// The editor run's exit condition: its exit flag.
pub fn exit_ui(state: &AppState) -> (r: bool)
    ensures
        r == state.exit_flag,
{
    state.exit_flag
}

/// What the editor saves on exit: the active canvas and its size when the
/// save flag is set, nothing otherwise.
pub fn final_save_request(state: &AppState) -> (r: Option<(Vec<Option<u8>>, u8)>)
    ensures
        !state.save_flag ==> r is None,
        state.save_flag && state.size == 16 ==> (r matches Some(p) && p.0@ == state.canvas16_data@
            && p.1 == 16u8),
        state.save_flag && state.size != 16 ==> (r matches Some(p) && p.0@ == state.canvas8_data@
            && p.1 == 8u8),
{
    if state.save_flag {
        if state.size == 16 {
            Some((copy_colors(&state.canvas16_data), 16))
        } else {
            Some((copy_colors(&state.canvas8_data), 8))
        }
    } else {
        None
    }
}

} // verus!
