//! The decisions behind the launcher's two windows.
//!
//! The host owns the windows. It tells this module what it observes, is told
//! what to do, and does it. [`WindowState`] and [`WindowState::after`] model
//! what a window is before and after the host has acted, so that what a
//! sequence of commands leads to can be stated and proved.

use vstd::prelude::*;

verus! {

/// The label of the window the host opens at startup.
pub const MAIN_WINDOW: &'static str = "main";

/// The label of the settings window, which is created on demand.
pub const SETTINGS_WINDOW: &'static str = "settings";

/// The global key combination that toggles the main window.
pub const TOGGLE_SHORTCUT: &'static str = "Ctrl+Space";

/// What can be observed of a window with a given label.
#[derive(Clone, Copy, Debug, PartialEq, Eq, Structural)]
pub enum WindowState {
    /// No window has the label.
    Absent,
    /// The window exists and is hidden.
    Hidden,
    /// The window is on screen without input focus.
    Visible,
    /// The window is on screen and has input focus.
    Focused,
}

/// What the host is asked to do to a window.
#[derive(Clone, Copy, Debug, PartialEq, Eq, Structural)]
pub enum WindowAction {
    /// Create the window; a new window is on screen and has focus.
    Create,
    /// Put the window on screen and give it input focus.
    ShowAndFocus,
    /// Take the window off screen.
    Hide,
}

/// How the settings window is created.
#[derive(Clone, Copy, Debug, PartialEq, Eq)]
pub struct WindowOptions {
    pub label: &'static str,
    /// The name of the application view that fills the window.
    pub route: &'static str,
    pub title: &'static str,
    /// Inner width, in logical units.
    pub width: u32,
    /// Inner height, in logical units.
    pub height: u32,
    pub resizable: bool,
}

impl WindowState {
    /// A window with the label exists.
    pub open spec fn present(self) -> bool {
        self != WindowState::Absent
    }

    /// The window is on screen.
    pub open spec fn shown(self) -> bool {
        self == WindowState::Visible || self == WindowState::Focused
    }

    /// The number of windows with the label: none or one.
    pub open spec fn count(self) -> nat {
        if self.present() {
            1
        } else {
            0
        }
    }

    /// The action can be carried out: only a missing window is created, and
    /// only an existing one is shown or hidden.
    pub open spec fn admits(self, action: WindowAction) -> bool {
        (action == WindowAction::Create) == (self == WindowState::Absent)
    }

    /// The state once the host has carried out `action`.
    pub open spec fn after_spec(self, action: WindowAction) -> WindowState {
        match action {
            WindowAction::Create => WindowState::Focused,
            WindowAction::ShowAndFocus => WindowState::Focused,
            WindowAction::Hide => WindowState::Hidden,
        }
    }

    /// Whether a window with the label exists.
    pub fn is_present(self) -> (r: bool)
        ensures
            r == self.present(),
    {
        match self {
            WindowState::Absent => false,
            _ => true,
        }
    }

    /// Whether the window is on screen.
    pub fn is_visible(self) -> (r: bool)
        ensures
            r == self.shown(),
    {
        match self {
            WindowState::Visible | WindowState::Focused => true,
            _ => false,
        }
    }

    /// The state once the host has carried out `action`.
    pub fn after(self, action: WindowAction) -> (next: WindowState)
        requires
            self.admits(action),
        ensures
            next == self.after_spec(action),
    {
        match action {
            WindowAction::Create => WindowState::Focused,
            WindowAction::ShowAndFocus => WindowState::Focused,
            WindowAction::Hide => WindowState::Hidden,
        }
    }
}

/// What showing the settings window asks of the host.
pub open spec fn settings_action(exists: bool) -> WindowAction {
    if exists {
        WindowAction::ShowAndFocus
    } else {
        WindowAction::Create
    }
}

/// What toggling the main window asks of the host.
pub open spec fn toggle_action(visible: bool) -> WindowAction {
    if visible {
        WindowAction::Hide
    } else {
        WindowAction::ShowAndFocus
    }
}

/// Shows the settings window: where none exists yet it is to be created, as
/// [`settings_window`] describes it; an existing one is to be shown and
/// focused. Never asks for a second window.
pub fn show_settings_window(exists: bool) -> (action: WindowAction)
    ensures
        action == settings_action(exists),
{
    if exists {
        WindowAction::ShowAndFocus
    } else {
        WindowAction::Create
    }
}

/// Toggles the main window, which the caller has found to exist: a visible
/// window is to be hidden, a hidden one shown and focused.
pub fn toggle_main_window(visible: bool) -> (action: WindowAction)
    ensures
        action == toggle_action(visible),
{
    if visible {
        WindowAction::Hide
    } else {
        WindowAction::ShowAndFocus
    }
}

/// The settings window as it is created: labelled `settings`, filled by the
/// view `settings`, titled `Settings`, 600 by 500 logical units inside, and
/// resizable.
pub fn settings_window() -> (options: WindowOptions)
    ensures
        options.label@ == SETTINGS_WINDOW@,
        options.route@ == "settings"@,
        options.title@ == "Settings"@,
        options.width == 600,
        options.height == 500,
        options.resizable,
{
    WindowOptions {
        label: SETTINGS_WINDOW,
        route: "settings",
        title: "Settings",
        width: 600,
        height: 500,
        resizable: true,
    }
}

/// The settings window after it has been shown from state `settings`.
pub open spec fn shown_settings(settings: WindowState) -> WindowState {
    settings.after_spec(settings_action(settings.present()))
}

/// The main window after one toggle from state `main`.
pub open spec fn toggled(main: WindowState) -> WindowState {
    main.after_spec(toggle_action(main.shown()))
}

/// Showing the settings window is idempotent: whatever the state before,
/// after one call and after two there is exactly one settings window, on
/// screen and focused, and the second call creates nothing.
pub proof fn lemma_show_settings_idempotent(settings: WindowState)
    ensures
        settings.admits(settings_action(settings.present())),
        shown_settings(settings) == WindowState::Focused,
        shown_settings(settings).count() == 1,
        shown_settings(settings).admits(settings_action(shown_settings(settings).present())),
        settings_action(shown_settings(settings).present()) != WindowAction::Create,
        shown_settings(shown_settings(settings)) == shown_settings(settings),
{
}

/// Each toggle of an existing main window negates its visibility and leaves
/// the window in existence.
pub proof fn lemma_toggle_negates(main: WindowState)
    requires
        main.present(),
    ensures
        main.admits(toggle_action(main.shown())),
        toggled(main).present(),
        toggled(main).shown() == !main.shown(),
{
}

/// Toggle symmetry: from a visible main window two toggles lead back to a
/// visible window, and three leave it hidden.
pub proof fn lemma_toggle_symmetry(main: WindowState)
    requires
        main.shown(),
    ensures
        toggled(toggled(main)).shown(),
        toggled(toggled(toggled(main))) == WindowState::Hidden,
{
}

} // verus!
