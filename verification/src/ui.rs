//! What the shell decides about its windows, its tray menu and its hotkey.
//! Carrying the decisions out is the window system's business.

use vstd::prelude::*;
use vstd::string::*;
use crate::text::same_text;

verus! {

/// Whether the shell runs as a development build or as a release.
#[derive(Clone, Copy, Debug, PartialEq, Eq, Structural)]
pub enum BuildMode {
    Dev,
    Production,
}

/// How the quick panel is set up at startup.
#[derive(Clone, Copy, Debug, PartialEq, Eq, Structural)]
pub struct PanelSetup {
    /// Whether the panel has a frame.
    pub decorations: bool,
    /// Whether the panel floats above other windows.
    pub always_on_top: bool,
    /// Whether the panel is hidden until the hotkey calls for it.
    pub start_hidden: bool,
    /// Whether the panel hides as soon as it loses the focus.
    pub hide_on_blur: bool,
}

/// The modifiers of the global hotkey; its key is the space bar.
#[derive(Clone, Copy, Debug, PartialEq, Eq, Structural)]
pub struct Hotkey {
    pub shift: bool,
    pub alt: bool,
}

/// What an entry of the tray menu asks for.
#[derive(Clone, Copy, Debug, PartialEq, Eq, Structural)]
pub enum TrayCommand {
    /// Close the main window if it is open, and open a fresh one.
    OpenMainWindow,
    /// Leave the application, with exit code 0.
    Quit,
    /// The entry is none of ours.
    Nothing,
}

/// What the hotkey does to the quick panel.
#[derive(Clone, Copy, Debug, PartialEq, Eq, Structural)]
pub enum PanelAction {
    /// Hide the panel.
    Hide,
    /// Show the panel, give it the focus and keep it above other windows.
    Reveal,
}

/// Whether the recording mode is on.
#[derive(Debug)]
pub struct RecordModeState {
    enabled: bool,
}

/// The set-up of the quick panel in `mode`: a development build gets an
/// ordinary window that stays where it is; a release gets a frameless panel
/// above all windows, hidden at first and again whenever it loses the focus.
pub open spec fn panel_setup_of(mode: BuildMode) -> PanelSetup {
    match mode {
        BuildMode::Dev => PanelSetup {
            decorations: true,
            always_on_top: false,
            start_hidden: false,
            hide_on_blur: false,
        },
        BuildMode::Production => PanelSetup {
            decorations: false,
            always_on_top: true,
            start_hidden: true,
            hide_on_blur: true,
        },
    }
}

/// The hotkey in `mode`: Alt and the space bar, with Shift besides in a
/// development build, so that the two can run side by side.
pub open spec fn hotkey_of(mode: BuildMode) -> Hotkey {
    Hotkey { shift: mode == BuildMode::Dev, alt: true }
}

/// The hotkey as the tray menu shows it.
pub open spec fn shortcut_hint_of(mode: BuildMode) -> Seq<char> {
    match mode {
        BuildMode::Dev => "⇧+⌥+Space"@,
        BuildMode::Production => "⌥+Space"@,
    }
}

/// What the tray menu entry with the identifier `id` asks for.
pub open spec fn tray_command_of(id: Seq<char>) -> TrayCommand {
    if id == "open"@ {
        TrayCommand::OpenMainWindow
    } else if id == "quit"@ {
        TrayCommand::Quit
    } else {
        TrayCommand::Nothing
    }
}

/// What the hotkey does, given whether the panel is visible: a panel known
/// to be visible is hidden; any other, one whose state could not be found
/// out included, is revealed.
pub open spec fn toggle_of(visible: Option<bool>) -> PanelAction {
    if visible == Some(true) {
        PanelAction::Hide
    } else {
        PanelAction::Reveal
    }
}

impl BuildMode {
    /// The mode of a build with or without debug assertions.
    pub fn of(debug_assertions: bool) -> (mode: BuildMode)
        ensures
            mode == if debug_assertions {
                BuildMode::Dev
            } else {
                BuildMode::Production
            },
    {
        if debug_assertions {
            BuildMode::Dev
        } else {
            BuildMode::Production
        }
    }

    /// Whether this is a development build.
    pub fn is_dev(&self) -> (dev: bool)
        ensures
            dev == (*self == BuildMode::Dev),
    {
        match self {
            BuildMode::Dev => true,
            BuildMode::Production => false,
        }
    }

    /// The set-up of the quick panel.
    pub fn panel_setup(&self) -> (setup: PanelSetup)
        ensures
            setup == panel_setup_of(*self),
    {
        let dev = self.is_dev();
        PanelSetup { decorations: dev, always_on_top: !dev, start_hidden: !dev, hide_on_blur: !dev }
    }

    /// The global hotkey.
    pub fn hotkey(&self) -> (hotkey: Hotkey)
        ensures
            hotkey == hotkey_of(*self),
    {
        Hotkey { shift: self.is_dev(), alt: true }
    }

    /// The hotkey as the tray menu shows it.
    pub fn shortcut_hint(&self) -> (hint: &'static str)
        ensures
            hint@ == shortcut_hint_of(*self),
    {
        match self {
            BuildMode::Dev => "⇧+⌥+Space",
            BuildMode::Production => "⌥+Space",
        }
    }
}

impl PanelSetup {
    /// Whether the panel is to be hidden now that its focus has changed to
    /// `focused`.
    pub fn hides_on_focus_change(&self, focused: bool) -> (hide: bool)
        ensures
            hide == (self.hide_on_blur && !focused),
    {
        self.hide_on_blur && !focused
    }
}

/// What the tray menu entry with the identifier `id` asks for.
pub fn tray_command(id: &str) -> (command: TrayCommand)
    ensures
        command == tray_command_of(id@),
{
    if same_text(id, "open") {
        TrayCommand::OpenMainWindow
    } else if same_text(id, "quit") {
        TrayCommand::Quit
    } else {
        TrayCommand::Nothing
    }
}

/// What the hotkey does to the quick panel, given whether the panel is
/// visible, as far as that could be found out.
pub fn toggle_launchbar(visible: Option<bool>) -> (action: PanelAction)
    ensures
        action == toggle_of(visible),
{
    match visible {
        Some(true) => PanelAction::Hide,
        _ => PanelAction::Reveal,
    }
}

/// Whether a hotkey event calls for the panel to be toggled: it does where
/// the hotkey is ours and the key went down, not where it came up.
pub fn hotkey_toggles(ours: bool, pressed: bool) -> (toggles: bool)
    ensures
        toggles == (ours && pressed),
{
    ours && pressed
}

impl RecordModeState {
    /// Whether the recording mode is on.
    pub closed spec fn enabled(&self) -> bool {
        self.enabled
    }

    /// The state at startup: recording is off.
    pub fn new() -> (state: RecordModeState)
        ensures
            !state.enabled(),
    {
        RecordModeState { enabled: false }
    }

    /// Switches the recording mode over and reports the new state.
    pub fn toggle_record_mode(&mut self) -> (enabled: bool)
        ensures
            enabled == !old(self).enabled(),
            final(self).enabled() == enabled,
    {
        self.enabled = !self.enabled;
        self.enabled
    }

    /// Whether the recording mode is on.
    pub fn get_record_mode(&self) -> (enabled: bool)
        ensures
            enabled == self.enabled(),
    {
        self.enabled
    }
}

} // verus!
