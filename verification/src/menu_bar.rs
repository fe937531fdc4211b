//! Geometry of the in-window menu bar: the top-level menus in bar order,
//! their button widths, where each dropdown panel sits, and how tall the
//! panel grows before it scrolls.

use vstd::prelude::*;

verus! {

/// Top-level menus, in the order they appear in the bar.
#[derive(Debug, Clone, Copy, PartialEq, Eq, Structural)]
pub enum TopMenu {
    File,
    View,
    Playback,
    Queue,
    Radio,
    Tools,
    Help,
}

/// Gap between neighbouring top-level buttons, in px.
pub const BTN_GAP: u32 = 8;
/// Height of one dropdown row, in px.
pub const ITEM_HEIGHT: u32 = 24;
/// Height of one dropdown separator, in px.
pub const SEP_HEIGHT: u32 = 7;
/// Tallest a dropdown panel grows before it scrolls, in px.
pub const DROPDOWN_MAX_HEIGHT: u32 = 560;

/// Position of `m` in the bar.
pub open spec fn index_spec(m: TopMenu) -> nat {
    match m {
        TopMenu::File => 0,
        TopMenu::View => 1,
        TopMenu::Playback => 2,
        TopMenu::Queue => 3,
        TopMenu::Radio => 4,
        TopMenu::Tools => 5,
        TopMenu::Help => 6,
    }
}

/// Button width of `m`, in px.
pub open spec fn width_spec(m: TopMenu) -> nat {
    match m {
        TopMenu::File => 44,
        TopMenu::View => 48,
        TopMenu::Playback => 72,
        TopMenu::Queue => 56,
        TopMenu::Radio => 52,
        TopMenu::Tools => 52,
        TopMenu::Help => 46,
    }
}

/// The menus in bar order.
pub open spec fn all_spec() -> Seq<TopMenu> {
    seq![
        TopMenu::File,
        TopMenu::View,
        TopMenu::Playback,
        TopMenu::Queue,
        TopMenu::Radio,
        TopMenu::Tools,
        TopMenu::Help,
    ]
}

/// Sum of the button widths plus gaps of the first `k` menus in the bar.
pub open spec fn offset_of_first(k: int) -> nat
    decreases k,
{
    if k <= 0 {
        0
    } else {
        offset_of_first(k - 1) + width_spec(all_spec()[k - 1]) + (BTN_GAP as nat)
    }
}

/// Label text shown on the bar for `m`.
pub open spec fn label_spec(m: TopMenu) -> Seq<char> {
    match m {
        TopMenu::File => "File"@,
        TopMenu::View => "View"@,
        TopMenu::Playback => "Playback"@,
        TopMenu::Queue => "Queue"@,
        TopMenu::Radio => "Radio"@,
        TopMenu::Tools => "Tools"@,
        TopMenu::Help => "Help"@,
    }
}

impl TopMenu {
    /// The menus in the order they appear in the bar.
    pub fn all() -> (r: Vec<TopMenu>)
        ensures
            r@ == all_spec(),
    {
        let r = vec![
            TopMenu::File,
            TopMenu::View,
            TopMenu::Playback,
            TopMenu::Queue,
            TopMenu::Radio,
            TopMenu::Tools,
            TopMenu::Help,
        ];
        assert(r@ =~= all_spec());
        r
    }

    /// Label text for the bar button.
    pub fn label(self) -> (r: &'static str)
        ensures
            r@ == label_spec(self),
    {
        match self {
            TopMenu::File => "File",
            TopMenu::View => "View",
            TopMenu::Playback => "Playback",
            TopMenu::Queue => "Queue",
            TopMenu::Radio => "Radio",
            TopMenu::Tools => "Tools",
            TopMenu::Help => "Help",
        }
    }

    /// Position of this menu in the bar.
    pub fn index(self) -> (r: usize)
        ensures
            r == index_spec(self),
            all_spec()[r as int] == self,
    {
        match self {
            TopMenu::File => 0,
            TopMenu::View => 1,
            TopMenu::Playback => 2,
            TopMenu::Queue => 3,
            TopMenu::Radio => 4,
            TopMenu::Tools => 5,
            TopMenu::Help => 6,
        }
    }

    /// Width of the top-level button for this menu, in px: the label plus a
    /// small inset, so "Playback" gets more room than "File".
    pub fn button_width(self) -> (r: u32)
        ensures
            r == width_spec(self),
    {
        match self {
            TopMenu::File => 44,
            TopMenu::View => 48,
            TopMenu::Playback => 72,
            TopMenu::Queue => 56,
            TopMenu::Radio => 52,
            TopMenu::Tools => 52,
            TopMenu::Help => 46,
        }
    }

    /// Sum of button widths + gaps up to (but not including) this menu:
    /// where its dropdown panel starts, horizontally.
    pub fn x_offset(self) -> (r: u32)
        ensures
            r == offset_of_first(index_spec(self) as int),
    {
        let all = TopMenu::all();
        let k = self.index();
        let mut sum: u32 = 0;
        let mut i: usize = 0;
        while i < k
            invariant
                all@ == all_spec(),
                k == index_spec(self),
                k <= 6,
                i <= k,
                sum == offset_of_first(i as int),
                sum <= 80 * i,
            decreases k - i,
        {
            sum = sum + all[i].button_width() + BTN_GAP;
            i = i + 1;
        }
        sum
    }
}

/// Each dropdown starts exactly where the previous button (plus gap) ends,
/// so the panels line up under their buttons without overlapping.
pub proof fn lemma_menu_offsets_tile(k: int)
    requires
        0 < k < 7,
    ensures
        offset_of_first(index_spec(all_spec()[k]) as int) == offset_of_first(index_spec(all_spec()[k - 1]) as int)
            + width_spec(all_spec()[k - 1]) + BTN_GAP,
        index_spec(all_spec()[k]) == k,
{
    reveal_with_fuel(offset_of_first, 8);
}

/// Natural height of a dropdown listing `entries` clickable rows and
/// `separators` separators, and whether it exceeds the cap and scrolls.
pub open spec fn panel_height_spec(entries: nat, separators: nat) -> (nat, bool) {
    let natural: nat = entries * (ITEM_HEIGHT as nat) + separators * (SEP_HEIGHT as nat) + 8;
    if natural > DROPDOWN_MAX_HEIGHT {
        (DROPDOWN_MAX_HEIGHT as nat, true)
    } else {
        (natural, false)
    }
}

/// Height of a dropdown panel (capped so it never grows past the window)
/// and whether its content must scroll.
pub fn dropdown_panel_height(entries: u16, separators: u16) -> (r: (u32, bool))
    requires
        entries * ITEM_HEIGHT + separators * SEP_HEIGHT + 8 <= u16::MAX,
    ensures
        r.0 == panel_height_spec(entries as nat, separators as nat).0,
        r.1 == panel_height_spec(entries as nat, separators as nat).1,
{
    let natural: u32 = entries as u32 * ITEM_HEIGHT + separators as u32 * SEP_HEIGHT + 8;
    if natural > DROPDOWN_MAX_HEIGHT {
        (DROPDOWN_MAX_HEIGHT, true)
    } else {
        (natural, false)
    }
}

} // verus!
