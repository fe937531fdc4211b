//! Window-level navigation decisions: the Library / Now Playing tabs, the
//! filter box's Enter, folding full-screen views into popups, the order in
//! which Escape dismisses overlays, the desktop-only keys handled before
//! the shared key map, the window title and window-size persistence.

use vstd::prelude::*;
use crate::action::{Action, AppView};
use crate::browse::BrowseCategory;
use crate::menu_bar::TopMenu;
use crate::popup::PrimaryPopup;
use crate::strings::{chars_of, string_of, push_str, empty_string, eq_str};
use crate::text::{trim, trim_chars};

verus! {

/// The primary tabs of the transport-bar strip.
#[derive(PartialEq, Eq, Structural, Clone, Copy, Debug)]
pub enum Tab {
    Library,
    NowPlaying,
}

/// Label of a tab.
pub open spec fn tab_label_spec(t: Tab) -> Seq<char> {
    match t {
        Tab::Library => "Library"@,
        Tab::NowPlaying => "Now Playing"@,
    }
}

/// Whether a tab is the active one for `view`: any browse view counts as
/// Library; the queue and now-playing views count as Now Playing.
pub open spec fn tab_active_spec(t: Tab, view: AppView) -> bool {
    match t {
        Tab::Library => view == AppView::Browse,
        Tab::NowPlaying => view == AppView::Queue || view == AppView::NowPlaying,
    }
}

impl Tab {
    /// Label text of the tab.
    pub fn label(self) -> (r: &'static str)
        ensures
            r@ == tab_label_spec(self),
    {
        match self {
            Tab::Library => "Library",
            Tab::NowPlaying => "Now Playing",
        }
    }

    /// Commands a click on the tab dispatches: Library selects the Library
    /// category and the browse view; Now Playing shows the queue view.
    pub fn action(self) -> (r: Vec<Action>)
        ensures
            match self {
                Tab::Library => r@ =~= seq![
                    Action::SetCategory(BrowseCategory::Library),
                    Action::SetView(AppView::Browse),
                ],
                Tab::NowPlaying => r@ =~= seq![Action::SetView(AppView::Queue)],
            },
    {
        match self {
            Tab::Library => vec![Action::SetCategory(BrowseCategory::Library), Action::SetView(AppView::Browse)],
            Tab::NowPlaying => vec![Action::SetView(AppView::Queue)],
        }
    }

    /// Whether this tab is the active one while `view` is shown.
    pub fn is_active(self, view: AppView) -> (r: bool)
        ensures
            r == tab_active_spec(self, view),
    {
        match self {
            Tab::Library => view == AppView::Browse,
            Tab::NowPlaying => view == AppView::Queue || view == AppView::NowPlaying,
        }
    }
}

/// Commands for Enter in the filter box: nothing for a blank query; else
/// open the search popup seeded with the trimmed query.
pub fn submit_filter_msg(query: &str) -> (r: Vec<Action>)
    ensures
        trim(query@).len() == 0 ==> r@.len() == 0,
        trim(query@).len() > 0 ==> {
            &&& r@.len() == 2
            &&& r@[0] == Action::OpenSearchPopup
            &&& r@[1] matches Action::SetSearchQuery(q) && q@ == trim(query@)
        },
{
    let cs = chars_of(query);
    let t = trim_chars(&cs);
    if t.len() == 0 {
        Vec::new()
    } else {
        vec![Action::OpenSearchPopup, Action::SetSearchQuery(string_of(&t))]
    }
}

/// The query the live list filter narrows the columns of `category` by:
/// the trimmed filter text, when the filter is on for that category and
/// the text is not blank.
pub open spec fn live_query_spec(active: bool, filter_category: BrowseCategory, category: BrowseCategory, query: Seq<char>) -> Option<Seq<char>> {
    if active && filter_category == category && trim(query).len() > 0 {
        Some(trim(query))
    } else {
        None
    }
}

/// The live filter query for the columns of `category`; see
/// `live_query_spec`.
pub fn live_filter_query(active: bool, filter_category: BrowseCategory, category: BrowseCategory, query: &str) -> (r: Option<String>)
    ensures
        match r {
            Some(q) => live_query_spec(active, filter_category, category, query@) == Some(q@),
            None => live_query_spec(active, filter_category, category, query@) is None,
        },
{
    if !active || filter_category != category {
        return None;
    }
    let cs = chars_of(query);
    let t = trim_chars(&cs);
    if t.len() == 0 {
        None
    } else {
        Some(string_of(&t))
    }
}

/// The view, the primary popup, and the views to restore when the
/// Similar / Related popups close.
#[derive(Clone, Copy, Debug)]
pub struct ViewState {
    pub view: AppView,
    pub popup: PrimaryPopup,
    pub similar_prev_view: Option<AppView>,
    pub related_prev_view: Option<AppView>,
}

/// Where a change of view to Similar, Related or Settings is shown as the
/// matching popup over the previous view instead (the previous view is
/// remembered for Similar and Related, unless it was that same view).
pub open spec fn lift_spec(s: ViewState, prev_view: AppView) -> ViewState {
    if s.view == AppView::Similar && s.popup != PrimaryPopup::Similar {
        ViewState {
            view: prev_view,
            popup: PrimaryPopup::Similar,
            similar_prev_view: if prev_view != AppView::Similar {
                Some(prev_view)
            } else {
                None
            },
            related_prev_view: s.related_prev_view,
        }
    } else if s.view == AppView::Related && s.popup != PrimaryPopup::Related {
        ViewState {
            view: prev_view,
            popup: PrimaryPopup::Related,
            similar_prev_view: s.similar_prev_view,
            related_prev_view: if prev_view != AppView::Related {
                Some(prev_view)
            } else {
                None
            },
        }
    } else if s.view == AppView::Settings && s.popup != PrimaryPopup::Settings {
        ViewState {
            view: prev_view,
            popup: PrimaryPopup::Settings,
            similar_prev_view: s.similar_prev_view,
            related_prev_view: s.related_prev_view,
        }
    } else {
        s
    }
}

/// After a command switched the view to Similar, Related or Settings,
/// snap back to `prev_view` and open the matching popup instead.
pub fn lift_view_to_popup(s: &mut ViewState, prev_view: AppView)
    ensures
        *final(s) == lift_spec(*old(s), prev_view),
{
    if s.view == AppView::Similar && s.popup != PrimaryPopup::Similar {
        s.similar_prev_view = if prev_view != AppView::Similar {
            Some(prev_view)
        } else {
            None
        };
        s.view = prev_view;
        s.popup = PrimaryPopup::Similar;
    } else if s.view == AppView::Related && s.popup != PrimaryPopup::Related {
        s.related_prev_view = if prev_view != AppView::Related {
            Some(prev_view)
        } else {
            None
        };
        s.view = prev_view;
        s.popup = PrimaryPopup::Related;
    } else if s.view == AppView::Settings && s.popup != PrimaryPopup::Settings {
        s.view = prev_view;
        s.popup = PrimaryPopup::Settings;
    }
}

/// The state after showing the Similar (`similar`) or Related popup over
/// `prev`, the view that was up before its commands ran: that view comes
/// back, the popup opens, and the view is remembered for the close unless
/// it was the popup's own view.
pub open spec fn shown_over(s: ViewState, prev: AppView, similar: bool) -> ViewState {
    if similar {
        ViewState {
            view: prev,
            popup: PrimaryPopup::Similar,
            similar_prev_view: if prev == AppView::Similar {
                None
            } else {
                Some(prev)
            },
            related_prev_view: s.related_prev_view,
        }
    } else {
        ViewState {
            view: prev,
            popup: PrimaryPopup::Related,
            similar_prev_view: s.similar_prev_view,
            related_prev_view: if prev == AppView::Related {
                None
            } else {
                Some(prev)
            },
        }
    }
}

/// The state after closing the Similar (`similar`) or Related popup: the
/// popup closes if it is the one up, and the remembered view returns.
pub open spec fn closed_popup(s: ViewState, similar: bool) -> ViewState {
    let which = if similar {
        PrimaryPopup::Similar
    } else {
        PrimaryPopup::Related
    };
    let back = if similar {
        s.similar_prev_view
    } else {
        s.related_prev_view
    };
    ViewState {
        view: match back {
            Some(v) => v,
            None => s.view,
        },
        popup: if s.popup == which {
            PrimaryPopup::Closed
        } else {
            s.popup
        },
        similar_prev_view: if similar {
            None
        } else {
            s.similar_prev_view
        },
        related_prev_view: if similar {
            s.related_prev_view
        } else {
            None
        },
    }
}

/// Show the Similar popup over `prev_view`; see `shown_over`.
pub fn show_similar_popup(s: &mut ViewState, prev_view: AppView)
    ensures
        *final(s) == shown_over(*old(s), prev_view, true),
{
    s.similar_prev_view = if prev_view == AppView::Similar {
        None
    } else {
        Some(prev_view)
    };
    s.view = prev_view;
    s.popup = PrimaryPopup::Similar;
}

/// Close the Similar popup; see `closed_popup`.
pub fn close_similar_popup(s: &mut ViewState)
    ensures
        *final(s) == closed_popup(*old(s), true),
{
    if s.popup == PrimaryPopup::Similar {
        s.popup = PrimaryPopup::Closed;
    }
    match s.similar_prev_view {
        Some(v) => {
            s.view = v;
        },
        None => {},
    }
    s.similar_prev_view = None;
}

/// Show the Related popup over `prev_view`; see `shown_over`.
pub fn show_related_popup(s: &mut ViewState, prev_view: AppView)
    ensures
        *final(s) == shown_over(*old(s), prev_view, false),
{
    s.related_prev_view = if prev_view == AppView::Related {
        None
    } else {
        Some(prev_view)
    };
    s.view = prev_view;
    s.popup = PrimaryPopup::Related;
}

/// Close the Related popup; see `closed_popup`.
pub fn close_related_popup(s: &mut ViewState)
    ensures
        *final(s) == closed_popup(*old(s), false),
{
    if s.popup == PrimaryPopup::Related {
        s.popup = PrimaryPopup::Closed;
    }
    match s.related_prev_view {
        Some(v) => {
            s.view = v;
        },
        None => {},
    }
    s.related_prev_view = None;
}

/// A popup is not a screen: showing Similar or Related over a view and
/// closing it again leaves that view up with no primary popup open, and
/// the other popup's remembered view untouched.
pub proof fn lemma_popup_restores_view(s: ViewState, prev: AppView, similar: bool)
    ensures
        ({
            let t = closed_popup(shown_over(s, prev, similar), similar);
            &&& t.view == prev
            &&& t.popup == PrimaryPopup::Closed
            &&& similar ==> t.related_prev_view == s.related_prev_view
            &&& !similar ==> t.similar_prev_view == s.similar_prev_view
        }),
{
}

/// The overlays of the window that keys can dismiss.
#[derive(Clone, Copy, Debug)]
pub struct Overlays {
    pub art_popup_open: bool,
    pub popup: PrimaryPopup,
    pub similar_prev_view: Option<AppView>,
    pub view: AppView,
    pub context_menu_open: bool,
    pub menu_open: Option<TopMenu>,
    /// Whether the transport-bar filter box holds text.
    pub filter_has_text: bool,
}

/// The key codes the desktop handles before the shared key map.
#[derive(PartialEq, Eq, Structural, Clone, Copy, Debug)]
pub enum KeyCodeLite {
    Esc,
    Char(char),
    F(u8),
    Other,
}

/// What the desktop does with a key before the shared key map.
#[derive(PartialEq, Eq, Structural, Clone, Copy, Debug)]
pub enum KeyOutcome {
    /// Handled here; nothing else happens.
    Consumed,
    /// Clear the filter box (`DeactivateListFilter`).
    ClearFilter,
    /// The Settings popup was opened; refresh the cache statistics.
    OpenedSettings,
    /// Step the interface scale up.
    ScaleUp,
    /// Step the interface scale down.
    ScaleDown,
    /// Reset the interface scale to 100 %.
    ScaleReset,
    /// Hand the key to the shared key map.
    Dispatch,
}

/// Escape: the art popup first, then the primary popup (restoring the
/// view captured by Similar), then the context menu, then the open menu,
/// then the filter box's text; otherwise the key passes through.
pub open spec fn escape_spec(o: Overlays) -> (Overlays, KeyOutcome) {
    if o.art_popup_open {
        (Overlays { art_popup_open: false, ..o }, KeyOutcome::Consumed)
    } else if o.popup != PrimaryPopup::Closed {
        let v = if o.popup == PrimaryPopup::Similar && o.similar_prev_view is Some {
            o.similar_prev_view->0
        } else {
            o.view
        };
        let sp = if o.popup == PrimaryPopup::Similar {
            None
        } else {
            o.similar_prev_view
        };
        (Overlays { popup: PrimaryPopup::Closed, view: v, similar_prev_view: sp, ..o }, KeyOutcome::Consumed)
    } else if o.context_menu_open {
        (Overlays { context_menu_open: false, ..o }, KeyOutcome::Consumed)
    } else if o.menu_open is Some {
        (Overlays { menu_open: None, ..o }, KeyOutcome::Consumed)
    } else if o.filter_has_text {
        (o, KeyOutcome::ClearFilter)
    } else {
        (o, KeyOutcome::Dispatch)
    }
}

/// The desktop's own key handling: Escape as `escape_spec`; Ctrl+S is
/// swallowed; F2 opens Settings, F1 the User Guide; Ctrl with `+`/`=`,
/// `-`/`_` or `0` steps or resets the interface scale; everything else
/// goes to the shared key map.
pub open spec fn route_key_spec(o: Overlays, code: KeyCodeLite, ctrl: bool) -> (Overlays, KeyOutcome) {
    if code == KeyCodeLite::Esc && escape_spec(o).1 != KeyOutcome::Dispatch {
        escape_spec(o)
    } else if code == KeyCodeLite::Char('s') && ctrl {
        (o, KeyOutcome::Consumed)
    } else if code == KeyCodeLite::F(2) {
        (Overlays { popup: PrimaryPopup::Settings, ..o }, KeyOutcome::OpenedSettings)
    } else if code == KeyCodeLite::F(1) {
        (Overlays { popup: PrimaryPopup::UserGuide, ..o }, KeyOutcome::Consumed)
    } else if ctrl && (code == KeyCodeLite::Char('+') || code == KeyCodeLite::Char('=')) {
        (o, KeyOutcome::ScaleUp)
    } else if ctrl && (code == KeyCodeLite::Char('-') || code == KeyCodeLite::Char('_')) {
        (o, KeyOutcome::ScaleDown)
    } else if ctrl && code == KeyCodeLite::Char('0') {
        (o, KeyOutcome::ScaleReset)
    } else {
        (o, KeyOutcome::Dispatch)
    }
}

/// Route a key press through the desktop-only handling; see `route_key_spec`.
pub fn handle_key_press(o: &mut Overlays, code: KeyCodeLite, ctrl: bool) -> (r: KeyOutcome)
    ensures
        (*final(o), r) == route_key_spec(*old(o), code, ctrl),
{
    if code == KeyCodeLite::Esc {
        if o.art_popup_open {
            o.art_popup_open = false;
            return KeyOutcome::Consumed;
        }
        if o.popup.is_open() {
            if o.popup == PrimaryPopup::Similar {
                match o.similar_prev_view {
                    Some(v) => {
                        o.view = v;
                    },
                    None => {},
                }
                o.similar_prev_view = None;
            }
            o.popup = PrimaryPopup::Closed;
            return KeyOutcome::Consumed;
        }
        if o.context_menu_open {
            o.context_menu_open = false;
            return KeyOutcome::Consumed;
        }
        if o.menu_open.is_some() {
            o.menu_open = None;
            return KeyOutcome::Consumed;
        }
        if o.filter_has_text {
            return KeyOutcome::ClearFilter;
        }
    }
    if code == KeyCodeLite::Char('s') && ctrl {
        return KeyOutcome::Consumed;
    }
    if code == KeyCodeLite::F(2) {
        o.popup = PrimaryPopup::Settings;
        return KeyOutcome::OpenedSettings;
    }
    if code == KeyCodeLite::F(1) {
        o.popup = PrimaryPopup::UserGuide;
        return KeyOutcome::Consumed;
    }
    if ctrl {
        if code == KeyCodeLite::Char('+') || code == KeyCodeLite::Char('=') {
            return KeyOutcome::ScaleUp;
        }
        if code == KeyCodeLite::Char('-') || code == KeyCodeLite::Char('_') {
            return KeyOutcome::ScaleDown;
        }
        if code == KeyCodeLite::Char('0') {
            return KeyOutcome::ScaleReset;
        }
    }
    KeyOutcome::Dispatch
}

/// Escape never leaves an overlay open that it could have closed: when it
/// is consumed, exactly the frontmost overlay is gone and nothing behind
/// it changed; when it falls through to the shared key map, nothing was
/// open.
pub proof fn lemma_escape_closes_frontmost(o: Overlays)
    ensures
        ({
            let (p, r) = route_key_spec(o, KeyCodeLite::Esc, false);
            &&& o.art_popup_open ==> !p.art_popup_open && p.popup == o.popup && r == KeyOutcome::Consumed
            &&& (!o.art_popup_open && o.popup != PrimaryPopup::Closed) ==> p.popup == PrimaryPopup::Closed
                && p.context_menu_open == o.context_menu_open && p.menu_open == o.menu_open
            &&& r == KeyOutcome::Dispatch ==> !o.art_popup_open && o.popup == PrimaryPopup::Closed
                && !o.context_menu_open && o.menu_open is None && !o.filter_has_text && p == o
        }),
{
}

/// An entry of the server's library list.
#[derive(Clone, Debug)]
pub struct LibraryEntry {
    pub key: String,
    pub title: String,
}

/// Title of the first library whose key is `key`.
pub open spec fn library_title(libs: Seq<LibraryEntry>, key: Seq<char>) -> Option<Seq<char>>
    decreases libs.len(),
{
    if libs.len() == 0 {
        None
    } else if libs[0].key@ == key {
        Some(libs[0].title@)
    } else {
        library_title(libs.drop_first(), key)
    }
}

/// The window title: the active library's title, else the signed-in
/// user's name, after "Textamp — "; just "Textamp" otherwise.
pub open spec fn title_spec(active: Option<Seq<char>>, libs: Seq<LibraryEntry>, username: Option<Seq<char>>) -> Seq<
    char,
> {
    if active is Some && library_title(libs, active->0) is Some {
        "Textamp \u{2014} "@ + library_title(libs, active->0)->0
    } else if username is Some {
        "Textamp \u{2014} "@ + username->0
    } else {
        "Textamp"@
    }
}

/// The window title for the active library key, the library list and the
/// connected user's name (when connected).
pub fn title(active_library: Option<&str>, libraries: &Vec<LibraryEntry>, username: Option<&str>) -> (r: String)
    ensures
        r@ == title_spec(
            match active_library {
                Some(a) => Some(a@),
                None => None,
            },
            libraries@,
            match username {
                Some(u) => Some(u@),
                None => None,
            },
        ),
{
    match active_library {
        Some(key) => {
            let mut i: usize = 0;
            proof {
                assert(libraries@.skip(0) =~= libraries@);
            }
            while i < libraries.len()
                invariant
                    i <= libraries@.len(),
                    active_library == Some(key),
                    library_title(libraries@, key@) == library_title(libraries@.skip(i as int), key@),
                decreases libraries@.len() - i,
            {
                proof {
                    assert(libraries@.skip(i as int).drop_first() =~= libraries@.skip(i as int + 1));
                    assert(libraries@.skip(i as int)[0] == libraries@[i as int]);
                }
                if eq_str(libraries[i].key.as_str(), key) {
                    let mut out = empty_string();
                    push_str(&mut out, "Textamp \u{2014} ");
                    push_str(&mut out, libraries[i].title.as_str());
                    return out;
                }
                i = i + 1;
            }
        },
        None => {},
    }
    let mut out = empty_string();
    match username {
        Some(u) => {
            push_str(&mut out, "Textamp \u{2014} ");
            push_str(&mut out, u);
        },
        None => {
            push_str(&mut out, "Textamp");
        },
    }
    out
}

/// The window size in pixels.
#[derive(Clone, Copy, Debug, Default)]
pub struct Viewport {
    pub width: u32,
    pub height: u32,
}

/// Whether a resize to `width` x `height` must be saved, given the last
/// saved size, and the last saved size afterwards: not for a zero
/// dimension, not when it equals the last saved size.
pub open spec fn persist_spec(last: (u32, u32), width: u32, height: u32) -> (bool, (u32, u32)) {
    if width != 0 && height != 0 && (width, height) != last {
        (true, (width, height))
    } else {
        (false, last)
    }
}

/// Decide whether a resize must be written to the configuration; see
/// `persist_spec`.
pub fn maybe_persist_window_size(last_saved_window: &mut (u32, u32), width: u32, height: u32) -> (r: bool)
    ensures
        (r, *final(last_saved_window)) == persist_spec(*old(last_saved_window), width, height),
{
    if width == 0 || height == 0 {
        return false;
    }
    if width == last_saved_window.0 && height == last_saved_window.1 {
        return false;
    }
    *last_saved_window = (width, height);
    true
}

/// The same resize reported twice is written at most once: the second
/// report finds it already saved.
pub proof fn lemma_window_size_saved_once(last: (u32, u32), width: u32, height: u32)
    ensures
        ({
            let first = persist_spec(last, width, height);
            let second = persist_spec(first.1, width, height);
            !second.0 && second.1 == first.1
        }),
{
}

} // verus!
