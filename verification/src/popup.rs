//! The mutually-exclusive primary popup of the desktop window, and the
//! kinds of state-owned popups a close button can dismiss.

use vstd::prelude::*;
use crate::strings::eq_str;

verus! {

/// Mutually-exclusive primary popup. At most one of these can be open at
/// any moment — opening a different one closes the previous one.
#[derive(Debug, Clone, Copy, PartialEq, Eq, Structural)]
pub enum PrimaryPopup {
    /// No primary popup is showing.
    Closed,
    About,
    Stations,
    DjModes,
    RemixTools,
    UserGuide,
    KeyboardShortcuts,
    Settings,
    Similar,
    Related,
}

impl PrimaryPopup {
    /// Whether this value stands for a popup being shown.
    pub open spec fn is_open_spec(self) -> bool {
        self != PrimaryPopup::Closed
    }

    /// True iff a primary popup is currently shown.
    pub fn is_open(self) -> (r: bool)
        ensures
            r == self.is_open_spec(),
    {
        !matches!(self, PrimaryPopup::Closed)
    }
}

/// Which state-owned popup a `CloseStatePopup` should clear.
#[derive(Debug, Clone, Copy, PartialEq, Eq, Structural)]
pub enum StatePopupKind {
    Sort,
    Search,
    RadioLauncher,
    AdventureLauncher,
    ArtistRadioPicker,
}

/// The window's primary-popup slot, with open / close / query helpers.
/// `close_if` only clears the slot when the named popup is the one showing,
/// so a stale close never clobbers a popup that opened in the meantime.
#[derive(Debug, Clone, Copy, PartialEq, Eq)]
pub struct PopupSlot {
    pub primary_popup: PrimaryPopup,
}

/// The slot after showing `which`.
pub open spec fn opened(s: PopupSlot, which: PrimaryPopup) -> PopupSlot {
    PopupSlot { primary_popup: which }
}

/// The slot after closing `which` (a no-op unless `which` is showing).
pub open spec fn closed_if(s: PopupSlot, which: PrimaryPopup) -> PopupSlot {
    if s.primary_popup == which {
        PopupSlot { primary_popup: PrimaryPopup::Closed }
    } else {
        s
    }
}

impl PopupSlot {
    /// An empty slot.
    pub fn new() -> (r: Self)
        ensures
            r.primary_popup == PrimaryPopup::Closed,
    {
        PopupSlot { primary_popup: PrimaryPopup::Closed }
    }

    /// Show `which`, replacing whatever was open.
    pub fn open(&mut self, which: PrimaryPopup)
        ensures
            *final(self) == opened(*old(self), which),
    {
        self.primary_popup = which;
    }

    /// Close `which` if (and only if) it is the popup currently shown.
    pub fn close_if(&mut self, which: PrimaryPopup)
        ensures
            *final(self) == closed_if(*old(self), which),
    {
        if self.primary_popup == which {
            self.primary_popup = PrimaryPopup::Closed;
        }
    }

    /// Is `which` the popup currently shown?
    pub fn is(&self, which: PrimaryPopup) -> (r: bool)
        ensures
            r == (self.primary_popup == which),
    {
        self.primary_popup == which
    }

    /// Dismiss whatever primary popup is showing.
    pub fn dismiss(&mut self)
        ensures
            final(self).primary_popup == PrimaryPopup::Closed,
    {
        self.primary_popup = PrimaryPopup::Closed;
    }
}

/// Opening a popup and then closing that same popup leaves nothing open;
/// closing a different popup leaves the opened one showing; opening one
/// popup replaces any other, so two popups are never open together.
pub proof fn lemma_popup_open_close(s: PopupSlot, a: PrimaryPopup, b: PrimaryPopup)
    requires
        a != PrimaryPopup::Closed,
    ensures
        closed_if(opened(s, a), a).primary_popup == PrimaryPopup::Closed,
        b != a ==> closed_if(opened(s, a), b) == opened(s, a),
        b != a ==> opened(opened(s, a), b).primary_popup != a,
        opened(s, a).primary_popup.is_open_spec(),
{
}

/// Which of the state-owned popups are up.
#[derive(Clone, Copy, Debug)]
pub struct StatePopups {
    pub palette_open: bool,
    pub confirm_dialog: bool,
    pub input_dialog: bool,
    pub library_picker: bool,
    pub search: bool,
    pub artist_bio: bool,
    pub sort: bool,
    pub radio_launcher: bool,
    pub artist_radio_picker: bool,
    pub adventure_launcher: bool,
}

/// The state-owned popup drawn over the window.
#[derive(Debug, Clone, Copy, PartialEq, Eq, Structural)]
pub enum ActivePopup {
    CommandPalette,
    ConfirmDialog,
    InputDialog,
    LibraryPicker,
    Search,
    ArtistBio,
    Sort,
    RadioLauncher,
    ArtistRadioPicker,
    AdventureLauncher,
}

/// The popup shown when several are up: the command palette first, then
/// dialogs, then the list popups, in a fixed order.
pub open spec fn active_popup_spec(p: StatePopups) -> Option<ActivePopup> {
    if p.palette_open {
        Some(ActivePopup::CommandPalette)
    } else if p.confirm_dialog {
        Some(ActivePopup::ConfirmDialog)
    } else if p.input_dialog {
        Some(ActivePopup::InputDialog)
    } else if p.library_picker {
        Some(ActivePopup::LibraryPicker)
    } else if p.search {
        Some(ActivePopup::Search)
    } else if p.artist_bio {
        Some(ActivePopup::ArtistBio)
    } else if p.sort {
        Some(ActivePopup::Sort)
    } else if p.radio_launcher {
        Some(ActivePopup::RadioLauncher)
    } else if p.artist_radio_picker {
        Some(ActivePopup::ArtistRadioPicker)
    } else if p.adventure_launcher {
        Some(ActivePopup::AdventureLauncher)
    } else {
        None
    }
}

/// The popup to draw over the window, if any; see `active_popup_spec`.
pub fn active_popup(p: &StatePopups) -> (r: Option<ActivePopup>)
    ensures
        r == active_popup_spec(*p),
{
    if p.palette_open {
        Some(ActivePopup::CommandPalette)
    } else if p.confirm_dialog {
        Some(ActivePopup::ConfirmDialog)
    } else if p.input_dialog {
        Some(ActivePopup::InputDialog)
    } else if p.library_picker {
        Some(ActivePopup::LibraryPicker)
    } else if p.search {
        Some(ActivePopup::Search)
    } else if p.artist_bio {
        Some(ActivePopup::ArtistBio)
    } else if p.sort {
        Some(ActivePopup::Sort)
    } else if p.radio_launcher {
        Some(ActivePopup::RadioLauncher)
    } else if p.artist_radio_picker {
        Some(ActivePopup::ArtistRadioPicker)
    } else if p.adventure_launcher {
        Some(ActivePopup::AdventureLauncher)
    } else {
        None
    }
}

/// A popup is shown exactly when at least one is up, and the command
/// palette, when up, is always the one shown.
pub proof fn lemma_active_popup_shown(p: StatePopups)
    ensures
        (active_popup_spec(p) is Some) == (p.palette_open || p.confirm_dialog || p.input_dialog
            || p.library_picker || p.search || p.artist_bio || p.sort || p.radio_launcher
            || p.artist_radio_picker || p.adventure_launcher),
        p.palette_open ==> active_popup_spec(p) == Some(ActivePopup::CommandPalette),
{
}

/// The popups after the close button of `kind` was pressed: that popup
/// is down, the others are as they were.
pub open spec fn closed_state_spec(p: StatePopups, kind: StatePopupKind) -> StatePopups {
    match kind {
        StatePopupKind::Sort => StatePopups { sort: false, ..p },
        StatePopupKind::Search => StatePopups { search: false, ..p },
        StatePopupKind::RadioLauncher => StatePopups { radio_launcher: false, ..p },
        StatePopupKind::AdventureLauncher => StatePopups { adventure_launcher: false, ..p },
        StatePopupKind::ArtistRadioPicker => StatePopups { artist_radio_picker: false, ..p },
    }
}

/// Close the state-owned popup `kind`; see `closed_state_spec`.
pub fn close_state_popup(p: &mut StatePopups, kind: StatePopupKind)
    ensures
        *final(p) == closed_state_spec(*old(p), kind),
{
    match kind {
        StatePopupKind::Sort => p.sort = false,
        StatePopupKind::Search => p.search = false,
        StatePopupKind::RadioLauncher => p.radio_launcher = false,
        StatePopupKind::AdventureLauncher => p.adventure_launcher = false,
        StatePopupKind::ArtistRadioPicker => p.artist_radio_picker = false,
    }
}

/// Index in the artist-radio picker's filtered list of the artist with
/// key `key` (listed by `filtered_keys`), or 0 when it is not listed.
pub fn find_toggle_index(filtered_keys: &Vec<String>, key: &str) -> (r: usize)
    ensures
        (exists|i: int| 0 <= i < filtered_keys@.len() && (#[trigger] filtered_keys@[i])@ == key@) ==> {
            &&& r < filtered_keys@.len()
            &&& filtered_keys@[r as int]@ == key@
            &&& forall|j: int| 0 <= j < r ==> (#[trigger] filtered_keys@[j])@ != key@
        },
        !(exists|i: int| 0 <= i < filtered_keys@.len() && (#[trigger] filtered_keys@[i])@ == key@) ==> r == 0,
{
    let mut i: usize = 0;
    while i < filtered_keys.len()
        invariant
            i <= filtered_keys@.len(),
            forall|j: int| 0 <= j < i ==> (#[trigger] filtered_keys@[j])@ != key@,
        decreases filtered_keys@.len() - i,
    {
        if eq_str(filtered_keys[i].as_str(), key) {
            return i;
        }
        i = i + 1;
    }
    0
}

} // verus!
