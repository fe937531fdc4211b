//! What the desktop window draws, bottom to top: the menu strip, the
//! screen of the current view and the transport bar (the chrome, hidden
//! on the sign-in screen), then the overlays in their fixed order.

use vstd::prelude::*;
use crate::action::AppView;
use crate::menu_bar::TopMenu;
use crate::popup::{PrimaryPopup, StatePopups, ActivePopup, active_popup, active_popup_spec};

verus! {

/// The screens the body of the window can show.
#[derive(PartialEq, Eq, Structural, Clone, Copy, Debug)]
pub enum Screen {
    Auth,
    Browse,
    Queue,
    Similar,
    Related,
    Help,
    Settings,
    Search,
}

/// The screen that shows a view: the queue screen serves both the Queue
/// and the Now Playing views.
pub open spec fn screen_for(v: AppView) -> Screen {
    match v {
        AppView::Auth => Screen::Auth,
        AppView::Browse => Screen::Browse,
        AppView::Queue | AppView::NowPlaying => Screen::Queue,
        AppView::Similar => Screen::Similar,
        AppView::Related => Screen::Related,
        AppView::Help => Screen::Help,
        AppView::Settings => Screen::Settings,
        AppView::Search => Screen::Search,
    }
}

/// The screen that shows view `v`; see `screen_for`.
pub fn screen_of(v: AppView) -> (r: Screen)
    ensures
        r == screen_for(v),
{
    match v {
        AppView::Auth => Screen::Auth,
        AppView::Browse => Screen::Browse,
        AppView::Queue | AppView::NowPlaying => Screen::Queue,
        AppView::Similar => Screen::Similar,
        AppView::Related => Screen::Related,
        AppView::Help => Screen::Help,
        AppView::Settings => Screen::Settings,
        AppView::Search => Screen::Search,
    }
}

/// One layer of the window.
#[derive(PartialEq, Eq, Structural, Clone, Copy, Debug)]
pub enum Layer {
    MenuStrip,
    Body(Screen),
    Transport,
    MenuDropdown(TopMenu),
    StatePopup(ActivePopup),
    About,
    ArtPopup,
    Popup(PrimaryPopup),
    ContextMenu,
}

/// What decides the window's layers: the view, whether the menu bar is
/// drawn inside the window (it is not where the system menu bar serves),
/// the open top menu, the state-owned popups, the primary popup, the
/// full-size artwork popup and the context menu.
#[derive(Clone, Copy, Debug)]
pub struct WindowState {
    pub view: AppView,
    pub in_window_menu: bool,
    pub menu_open: Option<TopMenu>,
    pub state_popups: StatePopups,
    pub popup: PrimaryPopup,
    pub art_popup_open: bool,
    pub context_menu_open: bool,
}

/// `s` when `b`, else nothing.
pub open spec fn when(b: bool, s: Seq<Layer>) -> Seq<Layer> {
    if b {
        s
    } else {
        Seq::empty()
    }
}

/// Whether the chrome (menu strip and transport bar) is drawn: everywhere
/// but on the sign-in screen.
pub open spec fn chrome(w: WindowState) -> bool {
    w.view != AppView::Auth
}

/// Whether the menu strip is drawn in the window.
pub open spec fn menu_strip(w: WindowState) -> bool {
    chrome(w) && w.in_window_menu
}

/// The chrome and the screen: the menu strip, the body, the transport bar.
pub open spec fn base_layers(w: WindowState) -> Seq<Layer> {
    when(menu_strip(w), seq![Layer::MenuStrip]) + seq![Layer::Body(screen_for(w.view))] + when(
        chrome(w),
        seq![Layer::Transport],
    )
}

/// The overlays, bottom to top: the open top menu's dropdown (with the
/// in-window menu), the state-owned popup, the About popup, the artwork
/// popup, any other primary popup, and the context menu.
pub open spec fn overlay_layers(w: WindowState) -> Seq<Layer> {
    when(menu_strip(w) && w.menu_open is Some, seq![Layer::MenuDropdown(w.menu_open->0)]) + (when(
        active_popup_spec(w.state_popups) is Some,
        seq![Layer::StatePopup(active_popup_spec(w.state_popups)->0)],
    ) + (when(w.popup == PrimaryPopup::About, seq![Layer::About]) + (when(w.art_popup_open, seq![Layer::ArtPopup])
        + (when(w.popup != PrimaryPopup::Closed && w.popup != PrimaryPopup::About, seq![Layer::Popup(w.popup)])
        + when(w.context_menu_open, seq![Layer::ContextMenu])))))
}

/// The window's layers bottom to top: the chrome and the screen, then the
/// overlays (see `base_layers`, `overlay_layers`).
pub open spec fn layers_spec(w: WindowState) -> Seq<Layer> {
    base_layers(w) + overlay_layers(w)
}

fn push_layer(v: &mut Vec<Layer>, l: Layer)
    ensures
        final(v)@ == old(v)@.push(l),
{
    v.push(l);
}

fn push_when(v: &mut Vec<Layer>, b: bool, l: Layer)
    ensures
        final(v)@ == old(v)@ + when(b, seq![l]),
{
    if b {
        v.push(l);
        proof {
            assert(final(v)@ =~= old(v)@ + seq![l]);
        }
    } else {
        proof {
            assert(old(v)@ + when(b, seq![l]) =~= old(v)@);
        }
    }
}

fn overlays_of(w: &WindowState) -> (r: Vec<Layer>)
    ensures
        r@ == overlay_layers(*w),
{
    let chrome = match w.view {
        AppView::Auth => false,
        _ => true,
    };
    let menu = chrome && w.in_window_menu;
    let mut out: Vec<Layer> = Vec::new();
    let ghost a = when(menu && w.menu_open is Some, seq![Layer::MenuDropdown(w.menu_open->0)]);
    match w.menu_open {
        Some(m) => push_when(&mut out, menu, Layer::MenuDropdown(m)),
        None => {},
    }
    assert(out@ =~= a);
    let ghost b = when(
        active_popup_spec(w.state_popups) is Some,
        seq![Layer::StatePopup(active_popup_spec(w.state_popups)->0)],
    );
    match active_popup(&w.state_popups) {
        Some(p) => push_layer(&mut out, Layer::StatePopup(p)),
        None => {},
    }
    assert(out@ =~= a + b);
    push_when(&mut out, w.popup == PrimaryPopup::About, Layer::About);
    let ghost c = when(w.popup == PrimaryPopup::About, seq![Layer::About]);
    push_when(&mut out, w.art_popup_open, Layer::ArtPopup);
    let ghost d = when(w.art_popup_open, seq![Layer::ArtPopup]);
    push_when(&mut out, w.popup != PrimaryPopup::Closed && w.popup != PrimaryPopup::About, Layer::Popup(w.popup));
    let ghost e = when(w.popup != PrimaryPopup::Closed && w.popup != PrimaryPopup::About, seq![Layer::Popup(w.popup)]);
    push_when(&mut out, w.context_menu_open, Layer::ContextMenu);
    let ghost f = when(w.context_menu_open, seq![Layer::ContextMenu]);
    assert(out@ =~= a + b + c + d + e + f);
    assert(a + (b + (c + (d + (e + f)))) =~= a + b + c + d + e + f);
    out
}

/// The layers of the window bottom to top; see `layers_spec`.
pub fn window_layers(w: &WindowState) -> (r: Vec<Layer>)
    ensures
        r@ == layers_spec(*w),
{
    let chrome = match w.view {
        AppView::Auth => false,
        _ => true,
    };
    let menu = chrome && w.in_window_menu;
    let mut out: Vec<Layer> = Vec::new();
    push_when(&mut out, menu, Layer::MenuStrip);
    push_layer(&mut out, Layer::Body(screen_of(w.view)));
    push_when(&mut out, chrome, Layer::Transport);
    assert(out@ =~= base_layers(*w));
    let mut over = overlays_of(w);
    out.append(&mut over);
    out
}

/// Whether no layer of `s` is a screen.
pub open spec fn no_body(s: Seq<Layer>) -> bool {
    forall|i: int| 0 <= i < s.len() ==> !(#[trigger] s[i] is Body)
}

proof fn lemma_no_body_concat(a: Seq<Layer>, b: Seq<Layer>)
    requires
        no_body(a),
        no_body(b),
    ensures
        no_body(a + b),
{
    assert forall|i: int| 0 <= i < (a + b).len() implies !(#[trigger] (a + b)[i] is Body) by {
        if i < a.len() {
            assert((a + b)[i] == a[i]);
        } else {
            assert((a + b)[i] == b[i - a.len()]);
        }
    }
}

/// The window always draws the screen of its view exactly once, above
/// the menu strip alone and below every overlay, and an open context menu
/// on top of everything.
pub proof fn lemma_body_once_context_menu_on_top(w: WindowState)
    ensures
        ({
            let l = layers_spec(w);
            let b = if menu_strip(w) { 1int } else { 0int };
            &&& l[b] == Layer::Body(screen_for(w.view))
            &&& forall|i: int| 0 <= i < l.len() && i != b ==> !(#[trigger] l[i] is Body)
            &&& forall|i: int| 0 <= i < b ==> l[i] == Layer::MenuStrip
            &&& w.context_menu_open ==> l.last() == Layer::ContextMenu
        }),
{
    let l = layers_spec(w);
    let b = if menu_strip(w) { 1int } else { 0int };
    let head = when(menu_strip(w), seq![Layer::MenuStrip]);
    let tail = when(chrome(w), seq![Layer::Transport]) + overlay_layers(w);
    assert(l =~= head + seq![Layer::Body(screen_for(w.view))] + tail);
    let pa = when(menu_strip(w) && w.menu_open is Some, seq![Layer::MenuDropdown(w.menu_open->0)]);
    let pb = when(
        active_popup_spec(w.state_popups) is Some,
        seq![Layer::StatePopup(active_popup_spec(w.state_popups)->0)],
    );
    let pc = when(w.popup == PrimaryPopup::About, seq![Layer::About]);
    let pd = when(w.art_popup_open, seq![Layer::ArtPopup]);
    let pe = when(w.popup != PrimaryPopup::Closed && w.popup != PrimaryPopup::About, seq![Layer::Popup(w.popup)]);
    let pf = when(w.context_menu_open, seq![Layer::ContextMenu]);
    lemma_no_body_concat(pe, pf);
    lemma_no_body_concat(pd, pe + pf);
    lemma_no_body_concat(pc, pd + (pe + pf));
    lemma_no_body_concat(pb, pc + (pd + (pe + pf)));
    lemma_no_body_concat(pa, pb + (pc + (pd + (pe + pf))));
    lemma_no_body_concat(when(chrome(w), seq![Layer::Transport]), overlay_layers(w));
    assert forall|i: int| 0 <= i < l.len() && i != b implies !(#[trigger] l[i] is Body) by {
        if i < b {
            assert(l[i] == head[i]);
        } else {
            assert(l[i] == tail[i - b - 1]);
        }
    }
    if w.context_menu_open {
        assert(l.last() == pf.last());
    }
}

} // verus!
