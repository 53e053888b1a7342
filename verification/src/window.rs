//! Window commands: show, hide and minimize the single named main window.
//! The windowing subsystem owns the window; this model states what each
//! command does to its observable state.

use vstd::prelude::*;
use crate::messages;

verus! {

/// The observable state of the main window.
#[derive(Clone, Copy)]
pub struct WindowModel {
    pub visible: bool,
    pub focused: bool,
    pub minimized: bool,
}

/// The windows the shell owns: the single named main window, when it
/// exists.
pub struct AppWindows {
    pub main: Option<WindowModel>,
}

/// The main window after it is shown: revealed and focused.
pub open spec fn spec_show(w: WindowModel) -> WindowModel {
    WindowModel { visible: true, focused: true, minimized: w.minimized }
}

/// The main window after it is hidden: invisible, and no longer focused.
pub open spec fn spec_hide(w: WindowModel) -> WindowModel {
    WindowModel { visible: false, focused: false, minimized: w.minimized }
}

/// The main window after it is minimized: minimized, and no longer focused.
pub open spec fn spec_minimize(w: WindowModel) -> WindowModel {
    WindowModel { visible: w.visible, focused: false, minimized: true }
}

/// Reveals the main window and gives it focus; fails when the window does
/// not exist.
pub fn show_window(app: &mut AppWindows) -> (r: Result<(), String>)
    ensures
        old(app).main is None ==> (r matches Err(e) && e@ == messages::window_not_found_msg()
            && final(app).main is None),
        old(app).main matches Some(w) ==> (r is Ok && final(app).main == Some(spec_show(w))),
{
    match app.main {
        Some(w) => {
            app.main = Some(WindowModel { visible: true, focused: true, minimized: w.minimized });
            Ok(())
        },
        None => Err("Window not found".to_owned()),
    }
}

/// Hides the main window; fails when the window does not exist.
pub fn hide_window(app: &mut AppWindows) -> (r: Result<(), String>)
    ensures
        old(app).main is None ==> (r matches Err(e) && e@ == messages::window_not_found_msg()
            && final(app).main is None),
        old(app).main matches Some(w) ==> (r is Ok && final(app).main == Some(spec_hide(w))),
{
    match app.main {
        Some(w) => {
            app.main = Some(WindowModel { visible: false, focused: false, minimized: w.minimized });
            Ok(())
        },
        None => Err("Window not found".to_owned()),
    }
}

/// Minimizes the main window; fails when the window does not exist.
pub fn minimize_window(app: &mut AppWindows) -> (r: Result<(), String>)
    ensures
        old(app).main is None ==> (r matches Err(e) && e@ == messages::window_not_found_msg()
            && final(app).main is None),
        old(app).main matches Some(w) ==> (r is Ok && final(app).main == Some(spec_minimize(w))),
{
    match app.main {
        Some(w) => {
            app.main = Some(WindowModel { visible: w.visible, focused: false, minimized: true });
            Ok(())
        },
        None => Err("Window not found".to_owned()),
    }
}

} // verus!
