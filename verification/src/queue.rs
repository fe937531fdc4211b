//! Mouse interaction with the queue list: desktop multi-select (plain,
//! shift-range and toggle clicks around an anchor row) and drag-to-reorder,
//! where a press that never crosses onto another row is a click that plays.

use vstd::prelude::*;
use crate::action::Action;
use crate::strings::{push_str, empty_string};
use crate::timefmt::{dec, push_dec, fmt_ms, fmt_ms_spec};
use crate::selection::{range_set, shift_range, toggled, range_rows, toggle_in};

verus! {

/// Selection, cursor, anchor and drag state of the queue list.
pub struct QueueInteraction {
    /// The selected rows, each once.
    pub selected: Vec<usize>,
    /// The cursor row.
    pub cursor: usize,
    /// The row shift-clicks extend from: the last plain or toggle click.
    pub anchor: Option<usize>,
    /// While the button is held after a plain click: the dragged row's
    /// current position, and whether it has moved yet.
    pub drag: Option<(usize, bool)>,
}

/// The drag state after a press: only a plain press starts one.
pub open spec fn drag_after_press(shift: bool, toggle: bool, row: usize) -> Option<(usize, bool)> {
    if !shift && !toggle {
        Some((row, false))
    } else {
        None
    }
}

/// The drag state and the reorder command after the pointer crosses onto `row`.
pub open spec fn drag_after_over(d: Option<(usize, bool)>, row: usize) -> (Option<(usize, bool)>, Option<Action>) {
    match d {
        Some((cur, moved)) => if row != cur {
            (Some((row, true)), Some(Action::MoveQueueTrack { from: cur, to: row }))
        } else {
            (d, None)
        },
        None => (None, None),
    }
}

/// The command on release: play the row of a press that never moved.
pub open spec fn release_action(d: Option<(usize, bool)>, radio_mode: bool) -> Option<Action> {
    match d {
        Some((row, false)) => Some(if radio_mode {
            Action::JumpToRadioTrack(row)
        } else {
            Action::PlayTrackFromCategory(row)
        }),
        _ => None,
    }
}

impl QueueInteraction {
    /// No row is selected twice.
    pub open spec fn wf(&self) -> bool {
        self.selected@.no_duplicates()
    }

    /// The selected rows.
    pub open spec fn selection(&self) -> Set<usize> {
        self.selected@.to_set()
    }

    /// Nothing selected, cursor on the first row, no anchor, no drag.
    pub fn new() -> (r: Self)
        ensures
            r.wf(),
            r.selection() == Set::<usize>::empty(),
            r.cursor == 0,
            r.anchor is None,
            r.drag is None,
    {
        let r = QueueInteraction { selected: Vec::new(), cursor: 0, anchor: None, drag: None };
        proof {
            assert(r.selected@.to_set() =~= Set::<usize>::empty());
        }
        r
    }

    /// Whether `row` is selected.
    pub fn is_selected(&self, row: usize) -> (r: bool)
        ensures
            r == self.selection().contains(row),
    {
        let mut i: usize = 0;
        while i < self.selected.len()
            invariant
                i <= self.selected@.len(),
                forall|k: int| 0 <= k < i ==> self.selected@[k] != row,
            decreases self.selected@.len() - i,
        {
            if self.selected[i] == row {
                proof {
                    assert(self.selected@.to_set().contains(self.selected@[i as int]));
                }
                return true;
            }
            i = i + 1;
        }
        proof {
            if self.selected@.to_set().contains(row) {
                let k = self.selected@.index_of(row);
                assert(self.selected@[k] == row);
            }
        }
        false
    }

    fn clear_selection(&mut self)
        ensures
            final(self).wf(),
            final(self).selection() == Set::<usize>::empty(),
            final(self).cursor == old(self).cursor,
            final(self).anchor == old(self).anchor,
            final(self).drag == old(self).drag,
    {
        self.selected = Vec::new();
        proof {
            assert(self.selected@.to_set() =~= Set::<usize>::empty());
        }
    }

    fn select_range(&mut self, lo: usize, hi: usize)
        requires
            lo <= hi,
        ensures
            final(self).wf(),
            final(self).selection() == range_set(lo, hi),
            final(self).cursor == old(self).cursor,
            final(self).anchor == old(self).anchor,
            final(self).drag == old(self).drag,
    {
        self.selected = range_rows(lo, hi);
    }

    fn toggle_row(&mut self, row: usize)
        requires
            old(self).wf(),
        ensures
            final(self).wf(),
            final(self).selection() == toggled(old(self).selection(), row),
            final(self).cursor == old(self).cursor,
            final(self).anchor == old(self).anchor,
            final(self).drag == old(self).drag,
    {
        toggle_in(&mut self.selected, row);
    }

    /// A press on queue row `row`: shift selects the range from the anchor
    /// (or the cursor when there is none) to `row`, keeping the anchor;
    /// toggle flips `row` in the selection and anchors there; a plain press
    /// clears the selection, anchors at `row` and may start a drag. The
    /// cursor always moves to `row`; only a plain press starts a drag.
    pub fn drag_start(&mut self, row: usize, shift: bool, toggle: bool)
        requires
            old(self).wf(),
        ensures
            final(self).wf(),
            final(self).cursor == row,
            final(self).drag == drag_after_press(shift, toggle, row),
            shift ==> final(self).selection() == shift_range(old(self).anchor, old(self).cursor, row)
                && final(self).anchor == old(self).anchor,
            (!shift && toggle) ==> final(self).selection() == toggled(old(self).selection(), row)
                && final(self).anchor == Some(row),
            (!shift && !toggle) ==> final(self).selection() == Set::<usize>::empty() && final(self).anchor
                == Some(row),
    {
        if shift {
            let a = match self.anchor {
                Some(a) => a,
                None => self.cursor,
            };
            if a <= row {
                self.select_range(a, row);
            } else {
                self.select_range(row, a);
            }
            self.cursor = row;
            self.drag = None;
        } else if toggle {
            self.toggle_row(row);
            self.cursor = row;
            self.anchor = Some(row);
            self.drag = None;
        } else {
            self.clear_selection();
            self.cursor = row;
            self.anchor = Some(row);
            self.drag = Some((row, false));
        }
    }

    /// The pointer crossed onto queue row `row` while pressed: if a drag is
    /// live and `row` is not where the dragged track sits, move it there
    /// (the returned command) and follow it.
    pub fn drag_over(&mut self, row: usize) -> (r: Option<Action>)
        ensures
            final(self).selected == old(self).selected,
            final(self).cursor == old(self).cursor,
            final(self).anchor == old(self).anchor,
            (final(self).drag, r) == drag_after_over(old(self).drag, row),
    {
        match self.drag {
            Some((cur, _moved)) => {
                if row != cur {
                    self.drag = Some((row, true));
                    Some(Action::MoveQueueTrack { from: cur, to: row })
                } else {
                    None
                }
            },
            None => None,
        }
    }

    /// The button was released: a press that never moved a track is a
    /// click, which plays the row (jumping within the radio queue in radio
    /// mode); after a drag the queue is already in its final order.
    pub fn drag_end(&mut self, radio_mode: bool) -> (r: Option<Action>)
        ensures
            final(self).selected == old(self).selected,
            final(self).cursor == old(self).cursor,
            final(self).anchor == old(self).anchor,
            final(self).drag is None,
            r == release_action(old(self).drag, radio_mode),
    {
        let d = self.drag.take();
        match d {
            Some((row, moved)) => {
                if !moved {
                    if radio_mode {
                        Some(Action::JumpToRadioTrack(row))
                    } else {
                        Some(Action::PlayTrackFromCategory(row))
                    }
                } else {
                    None
                }
            },
            None => None,
        }
    }
}

/// A plain press released on the same row is a click: it plays that row.
pub proof fn lemma_click_plays(row: usize, radio_mode: bool)
    ensures
        release_action(drag_after_over(drag_after_press(false, false, row), row).0, radio_mode) == Some(
            if radio_mode {
                Action::JumpToRadioTrack(row)
            } else {
                Action::PlayTrackFromCategory(row)
            },
        ),
{
}

/// Once a drag has moved a track, releasing it plays nothing, however the
/// pointer moves afterwards; and shift or toggle presses never drag.
pub proof fn lemma_drag_never_plays(row: usize, to: usize, later: usize, radio_mode: bool, shift: bool, toggle: bool)
    requires
        to != row,
    ensures
        release_action(drag_after_over(drag_after_over(drag_after_press(false, false, row), to).0, later).0, radio_mode) is None,
        (shift || toggle) ==> release_action(drag_after_press(shift, toggle, row), radio_mode) is None,
{
}

/// Toggling the same row twice restores the selection.
pub proof fn lemma_toggle_twice(sel: Set<usize>, row: usize)
    ensures
        toggled(toggled(sel, row), row) == sel,
{
    assert(toggled(toggled(sel, row), row) =~= sel);
}

/// Shift-presses keep the anchor, so with an anchor set, each further
/// shift-press selects the range from that same anchor.
pub proof fn lemma_shift_extends_from_anchor(a: usize, cursor: usize, r1: usize, r2: usize)
    ensures
        shift_range(Some(a), r1, r2) == shift_range(Some(a), cursor, r2),
{
}

/// How a queue row is drawn; the first that applies wins: the row being
/// dragged, the row playing, a multi-selected row, the cursor row.
#[derive(PartialEq, Eq, Structural, Clone, Copy, Debug)]
pub enum RowLook {
    Dragging,
    Current,
    Multi,
    Focused,
    Plain,
}

/// The look of a row from its flags, by that priority.
pub open spec fn row_look_spec(dragging: bool, current: bool, multi: bool, focused: bool) -> RowLook {
    if dragging {
        RowLook::Dragging
    } else if current {
        RowLook::Current
    } else if multi {
        RowLook::Multi
    } else if focused {
        RowLook::Focused
    } else {
        RowLook::Plain
    }
}

/// The look of a queue row; see `row_look_spec`.
pub fn row_look(dragging: bool, current: bool, multi: bool, focused: bool) -> (r: RowLook)
    ensures
        r == row_look_spec(dragging, current, multi, focused),
{
    if dragging {
        RowLook::Dragging
    } else if current {
        RowLook::Current
    } else if multi {
        RowLook::Multi
    } else if focused {
        RowLook::Focused
    } else {
        RowLook::Plain
    }
}

/// The marker before a queue row: the playing row and the selected rows
/// are marked, both at once with a note and a dot.
pub open spec fn queue_prefix(current: bool, multi: bool) -> Seq<char> {
    if current && multi {
        "\u{266A}\u{25CF}"@
    } else if current {
        "> "@
    } else if multi {
        "\u{25CF} "@
    } else {
        "  "@
    }
}

/// The text of a queue row: marker, title, artist and length.
pub open spec fn queue_label_spec(current: bool, multi: bool, title: Seq<char>, artist: Seq<char>, duration_ms: nat) -> Seq<char> {
    queue_prefix(current, multi) + title + "  - "@ + artist + "  - "@ + fmt_ms_spec(duration_ms)
}

/// The text of a queue row; see `queue_label_spec`.
pub fn queue_row_label(current: bool, multi: bool, title: &str, artist: &str, duration_ms: u64) -> (r: String)
    ensures
        r@ == queue_label_spec(current, multi, title@, artist@, duration_ms as nat),
{
    let mut out = empty_string();
    if current && multi {
        push_str(&mut out, "\u{266A}\u{25CF}");
    } else if current {
        push_str(&mut out, "> ");
    } else if multi {
        push_str(&mut out, "\u{25CF} ");
    } else {
        push_str(&mut out, "  ");
    }
    push_str(&mut out, title);
    push_str(&mut out, "  - ");
    push_str(&mut out, artist);
    push_str(&mut out, "  - ");
    push_str(&mut out, fmt_ms(duration_ms).as_str());
    out
}

/// The header of the queue list: which list plays and how long it is.
pub open spec fn queue_header_spec(radio_mode: bool, n: nat) -> Seq<char> {
    " "@ + (if radio_mode {
        "radio"@
    } else {
        "queue"@
    }) + " \u{2014} "@ + dec(n) + " tracks "@
}

/// The header of the queue list; see `queue_header_spec`.
pub fn queue_header(radio_mode: bool, n: usize) -> (r: String)
    ensures
        r@ == queue_header_spec(radio_mode, n as nat),
{
    let mut out = empty_string();
    push_str(&mut out, " ");
    if radio_mode {
        push_str(&mut out, "radio");
    } else {
        push_str(&mut out, "queue");
    }
    push_str(&mut out, " \u{2014} ");
    push_dec(&mut out, n as u64);
    push_str(&mut out, " tracks ");
    out
}

} // verus!
