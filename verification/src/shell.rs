//! The frame around the two windows: which of them is shown, and which hotkeys it gets.

use vstd::prelude::*;

use crate::hotkey::HotkeyId;

verus! {

/// The two windows, of which one is shown.
#[derive(Debug, Clone, Copy, PartialEq, Eq, Structural)]
pub enum AppScreen {
    Recording,
    StaticClicker,
}

impl AppScreen {
    /// The name of the window.
    pub fn label(self) -> (r: &'static str)
        ensures
            r@ == (match self {
                AppScreen::Recording => "Recording"@,
                AppScreen::StaticClicker => "Static Clicker"@,
            }),
    {
        match self {
            AppScreen::Recording => "Recording",
            AppScreen::StaticClicker => "Static Clicker",
        }
    }

    /// The width and height that fit the window.
    pub fn viewport_size(self) -> (r: (u32, u32))
        ensures
            r == (match self {
                AppScreen::Recording => (440u32, 300u32),
                AppScreen::StaticClicker => (520u32, 460u32),
            }),
    {
        match self {
            AppScreen::Recording => (440, 300),
            AppScreen::StaticClicker => (520, 460),
        }
    }
}

/// Where a global hotkey goes.
#[derive(Debug, Clone, Copy, PartialEq, Eq, Structural)]
pub enum Route {
    ToRecording,
    ToClicker,
    Ignored,
}

/// Where a global hotkey goes: to the window that is shown, if it is one of that window's.
pub open spec fn spec_route(screen: AppScreen, id: HotkeyId) -> Route {
    match (screen, id) {
        (AppScreen::Recording, HotkeyId::Static) => Route::Ignored,
        (AppScreen::Recording, _) => Route::ToRecording,
        (AppScreen::StaticClicker, HotkeyId::Static) => Route::ToClicker,
        (AppScreen::StaticClicker, _) => Route::Ignored,
    }
}

/// Where a global hotkey goes.
pub fn route(screen: AppScreen, id: HotkeyId) -> (r: Route)
    ensures
        r == spec_route(screen, id),
{
    match (screen, id) {
        (AppScreen::Recording, HotkeyId::Record)
        | (AppScreen::Recording, HotkeyId::Play)
        | (AppScreen::Recording, HotkeyId::Stop) => Route::ToRecording,
        (AppScreen::StaticClicker, HotkeyId::Static) => Route::ToClicker,
        _ => Route::Ignored,
    }
}

/// Only the window that is shown gets hotkeys.
pub proof fn law_hidden_window_gets_no_hotkey(screen: AppScreen, id: HotkeyId)
    ensures
        spec_route(screen, id) == Route::ToRecording ==> screen == AppScreen::Recording,
        spec_route(screen, id) == Route::ToClicker ==> screen == AppScreen::StaticClicker,
{
}

/// No hotkey of the window that is shown is lost: those for recording, playing and stopping go
/// to the recording window while it is shown, that of the clicker to the clicker.
pub proof fn law_shown_window_gets_its_hotkeys(screen: AppScreen, id: HotkeyId, r: Route)
    requires
        call_ensures(route, (screen, id), r),
    ensures
        r == Route::ToRecording <==> screen == AppScreen::Recording && (id == HotkeyId::Record || id
            == HotkeyId::Play || id == HotkeyId::Stop),
        r == Route::ToClicker <==> screen == AppScreen::StaticClicker && id == HotkeyId::Static,
        r == spec_route(screen, id),
{
}

/// The frame around the two windows.
#[derive(Debug, Clone, Copy, PartialEq, Eq, Structural)]
pub struct Shell {
    pub screen: AppScreen,
    /// Whether the global hotkeys are suspended while one is being set.
    pub suspended: bool,
}

/// What becomes of the global hotkeys.
#[derive(Debug, Clone, Copy, PartialEq, Eq, Structural)]
pub enum HotkeyChange {
    Unchanged,
    Suspend,
    /// Register them again, as they are stored now.
    Reapply,
}

impl Shell {
    pub fn new() -> (r: Self)
        ensures
            r == (Shell { screen: AppScreen::StaticClicker, suspended: false }),
    {
        Shell { screen: AppScreen::StaticClicker, suspended: false }
    }

    /// Notes whether a hotkey is being set.
    pub fn note_dialog(&mut self, open: bool) -> (r: HotkeyChange)
        ensures
            r == (if open == old(self).suspended {
                HotkeyChange::Unchanged
            } else if open {
                HotkeyChange::Suspend
            } else {
                HotkeyChange::Reapply
            }),
            *final(self) == (Shell { suspended: open, ..*old(self) }),
    {
        if open == self.suspended {
            return HotkeyChange::Unchanged;
        }
        self.suspended = open;
        if open {
            HotkeyChange::Suspend
        } else {
            HotkeyChange::Reapply
        }
    }

    /// Shows the other window. Returns the one that is left, where it is another: what runs
    /// there is stopped.
    pub fn switch_to(&mut self, target: AppScreen) -> (r: Option<AppScreen>)
        ensures
            r == (if target == old(self).screen {
                None::<AppScreen>
            } else {
                Some(old(self).screen)
            }),
            *final(self) == (Shell { screen: target, ..*old(self) }),
    {
        if target == self.screen {
            return None;
        }
        let left: AppScreen = self.screen;
        self.screen = target;
        Some(left)
    }
}

/// The window that was asked for is shown; the one that is left is told of, and only where it
/// is another. Going there and back leaves the frame as it was.
pub proof fn law_switching_there_and_back(
    there: &mut Shell,
    target: AppScreen,
    left: Option<AppScreen>,
    back: &mut Shell,
    left_again: Option<AppScreen>,
)
    requires
        call_ensures(Shell::switch_to, (there, target), left),
        *old(back) == *final(there),
        call_ensures(Shell::switch_to, (back, old(there).screen), left_again),
    ensures
        final(there).screen == target,
        left is None <==> target == old(there).screen,
        left matches Some(screen) ==> screen == old(there).screen,
        left_again matches Some(screen) ==> screen == target,
        *final(back) == *old(there),
{
}

/// While a hotkey is being set the global hotkeys are suspended, and they are registered again
/// afterwards; as long as nothing changes, nothing is done.
pub proof fn law_hotkeys_are_suspended_while_one_is_set(
    s: &mut Shell,
    open: bool,
    change: HotkeyChange,
)
    requires
        call_ensures(Shell::note_dialog, (s, open), change),
    ensures
        final(s).suspended == open,
        final(s).screen == old(s).screen,
        change == HotkeyChange::Suspend <==> open && !old(s).suspended,
        change == HotkeyChange::Reapply <==> !open && old(s).suspended,
{
}

/// The error code of a name that another process has.
pub const ERROR_ALREADY_EXISTS: u32 = 183;

/// Whether another instance runs, given the error code of the request for the common name.
pub fn instance_refusal(code: u32) -> (r: Option<&'static str>)
    ensures
        match r {
            Some(text) => code == ERROR_ALREADY_EXISTS && text@ == "Clickei is already running."@,
            None => code != ERROR_ALREADY_EXISTS,
        },
{
    if code == ERROR_ALREADY_EXISTS {
        Some("Clickei is already running.")
    } else {
        None
    }
}

} // verus!
