//! The tray component: the minimize-to-tray preference, the tray icon's
//! two-item menu, dispatch of menu and icon click events, and the window
//! close-interception rule the preference gates.

use vstd::prelude::*;
use crate::window::{AppWindows, WindowModel, spec_show, spec_hide};

verus! {

/// Process-wide tray preference: whether a close request on the main window
/// should hide it to the tray instead of letting the process exit.
pub struct TraySettings {
    pub minimize_to_tray: bool,
}

impl TraySettings {
    /// At startup the flag is off: closing the window exits the process.
    pub fn new() -> (r: TraySettings)
        ensures
            !r.minimize_to_tray,
    {
        TraySettings { minimize_to_tray: false }
    }

    /// Sets the flag. Always succeeds; the new value is read by every later
    /// close request in the same process.
    pub fn set_minimize_to_tray_enabled(&mut self, enabled: bool)
        ensures
            final(self).minimize_to_tray == enabled,
    {
        self.minimize_to_tray = enabled;
    }
}

/// One item of the tray icon's menu: its identifier and its label.
pub struct TrayMenuItem {
    pub id: String,
    pub label: String,
}

/// Builds the tray menu: two items, "show" and "quit", with their labels.
pub fn tray_menu() -> (r: Vec<TrayMenuItem>)
    ensures
        r@.len() == 2,
        r@[0].id@ == "show"@ && r@[0].label@ == "Afficher"@,
        r@[1].id@ == "quit"@ && r@[1].label@ == "Quitter"@,
{
    let mut items: Vec<TrayMenuItem> = Vec::new();
    items.push(TrayMenuItem { id: "show".to_owned(), label: "Afficher".to_owned() });
    items.push(TrayMenuItem { id: "quit".to_owned(), label: "Quitter".to_owned() });
    items
}

/// What the process does after a tray menu event.
pub enum MenuOutcome {
    /// The event was handled (or ignored); the process keeps running.
    StillRunning,
    /// The "quit" item was chosen: the process exits at once.
    Quit,
}

/// Dispatches a tray menu event by the chosen item's identifier: "show"
/// reveals and focuses the main window (a missing window is ignored),
/// "quit" ends the process, anything else is ignored.
pub fn dispatch_menu_event(id: &String, app: &mut AppWindows) -> (r: MenuOutcome)
    ensures
        id@ == "show"@ ==> (old(app).main matches Some(w) ==> r is StillRunning
            && final(app).main == Some(spec_show(w))),
        id@ == "show"@ && old(app).main is None ==> (r is StillRunning
            && final(app).main is None),
        id@ == "quit"@ ==> (r is Quit && final(app).main == old(app).main),
        id@ != "show"@ && id@ != "quit"@ ==> (r is StillRunning
            && final(app).main == old(app).main),
{
    proof {
        reveal_strlit("show");
        reveal_strlit("quit");
        assert("show"@[0] == 's');
        assert("quit"@[0] == 'q');
        assert("show"@ != "quit"@);
    }
    let show_id = "show".to_owned();
    let quit_id = "quit".to_owned();
    if *id == show_id {
        match app.main {
            Some(w) => {
                app.main = Some(
                    WindowModel { visible: true, focused: true, minimized: w.minimized },
                );
            },
            None => {},
        }
        MenuOutcome::StillRunning
    } else if *id == quit_id {
        MenuOutcome::Quit
    } else {
        MenuOutcome::StillRunning
    }
}

/// A click on the tray icon, reduced to what the dispatch reads: whether it
/// was a left click.
#[derive(Clone, Copy)]
pub enum TrayClick {
    Left,
    Other,
}

/// Dispatches a tray icon click: a left click reveals and focuses the main
/// window (a missing window is ignored); any other click does nothing.
pub fn handle_tray_click(click: TrayClick, app: &mut AppWindows)
    ensures
        click is Left ==> (old(app).main matches Some(w) ==> final(app).main == Some(
            spec_show(w),
        )),
        click is Left && old(app).main is None ==> final(app).main is None,
        !(click is Left) ==> final(app).main == old(app).main,
{
    match click {
        TrayClick::Left => {
            match app.main {
                Some(w) => {
                    app.main = Some(
                        WindowModel { visible: true, focused: true, minimized: w.minimized },
                    );
                },
                None => {},
            }
        },
        TrayClick::Other => {},
    }
}

/// What a close request on the main window comes to.
pub enum CloseOutcome {
    /// The close was cancelled and the window hidden; the process lives on.
    HiddenToTray,
    /// The close proceeds: the process exits.
    CloseProceeds,
}

/// The close-interception rule: with the flag set the close is cancelled
/// and the window hidden, otherwise the window is left alone and the close
/// proceeds.
pub open spec fn spec_close_request(minimize_to_tray: bool, w: WindowModel) -> (
    WindowModel,
    CloseOutcome,
) {
    if minimize_to_tray {
        (spec_hide(w), CloseOutcome::HiddenToTray)
    } else {
        (w, CloseOutcome::CloseProceeds)
    }
}

/// Handles a close request on the main window, gated by the tray flag: see
/// [`spec_close_request`].
pub fn handle_close_request(settings: &TraySettings, w: &mut WindowModel) -> (r: CloseOutcome)
    ensures
        (*final(w), r) == spec_close_request(settings.minimize_to_tray, *old(w)),
{
    if settings.minimize_to_tray {
        w.visible = false;
        w.focused = false;
        CloseOutcome::HiddenToTray
    } else {
        CloseOutcome::CloseProceeds
    }
}

/// Law: with the flag set, a close request leaves the window hidden and the
/// process alive; with it clear, the window is untouched and the process
/// exits.
pub proof fn lemma_tray_flag_controls_close(w: WindowModel)
    ensures
        spec_close_request(true, w).1 is HiddenToTray && !spec_close_request(true, w).0.visible,
        spec_close_request(false, w).1 is CloseProceeds && spec_close_request(false, w).0 == w,
{
}

} // verus!
