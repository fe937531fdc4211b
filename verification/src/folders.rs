//! The Folders category: its Miller columns of folders and tracks, the
//! rows a column lists under the live filter, and what a row click does
//! to the folder navigation.

use vstd::prelude::*;
use crate::action::Action;

verus! {

/// Whether a folder row is a sub-folder or a track.
#[derive(PartialEq, Eq, Structural, Clone, Copy, Debug)]
pub enum FolderItemType {
    Folder,
    Track,
}

/// One row of a folder column.
#[derive(Clone, Debug)]
pub struct FolderItem {
    pub key: String,
    pub title: String,
    pub item_type: FolderItemType,
}

/// One column of the folder navigation: its title, rows and cursor.
#[derive(Clone, Debug)]
pub struct FolderColumn {
    pub title: String,
    pub items: Vec<FolderItem>,
    pub selected_index: usize,
}

/// The folder navigation: its columns, left to right, and the focus.
#[derive(Clone, Debug)]
pub struct FolderNav {
    pub columns: Vec<FolderColumn>,
    pub focused_column: usize,
}

/// A row of a folder column as drawn: the "no results" notice of a live
/// filter that matched nothing, or an item with its row index, label,
/// whether it is the cursor row, and whether a click drills into it.
#[derive(Clone, Debug)]
pub enum FolderRow {
    NoResults,
    Item { row_index: usize, label: String, is_selected: bool, is_folder: bool },
}

/// The filter's matched rows that exist in a column of `len` rows, in
/// the filter's order.
pub open spec fn existing_rows(len: nat, matched: Seq<usize>) -> Seq<usize>
    decreases matched.len(),
{
    if matched.len() == 0 {
        Seq::empty()
    } else {
        let rest = existing_rows(len, matched.drop_last());
        if (matched.last() as nat) < len {
            rest.push(matched.last())
        } else {
            rest
        }
    }
}

/// The rows a column lists: every row in order without a live filter,
/// else the existing matched rows.
pub open spec fn listed_rows(len: nat, matched: Option<Seq<usize>>) -> Seq<usize> {
    match matched {
        Some(m) => existing_rows(len, m),
        None => Seq::new(len, |i: int| i as usize),
    }
}

/// Whether `r` draws row `i` of `col`.
pub open spec fn draws(r: FolderRow, col: FolderColumn, i: usize) -> bool {
    &&& r matches FolderRow::Item { row_index, label, is_selected, is_folder }
    &&& row_index == i
    &&& label@ == col.items@[i as int].title@
    &&& is_selected == (i == col.selected_index)
    &&& is_folder == (col.items@[i as int].item_type == FolderItemType::Folder)
}

/// The rows drawn for a folder column: only the "no results" notice when
/// a live filter matched nothing, else the listed rows in order.
pub fn folder_rows(col: &FolderColumn, matched: Option<&Vec<usize>>) -> (r: Vec<FolderRow>)
    ensures
        matched matches Some(v) && v@.len() == 0 ==> r@.len() == 1 && r@[0] is NoResults,
        !(matched matches Some(v) && v@.len() == 0) ==> ({
            let rows = listed_rows(
                col.items@.len(),
                match matched {
                    Some(v) => Some(v@),
                    None => None,
                },
            );
            &&& r@.len() == rows.len()
            &&& forall|k: int| 0 <= k < rows.len() ==> rows[k] < col.items@.len() && draws(#[trigger] r@[k], *col, rows[k])
        }),
{
    let mut out: Vec<FolderRow> = Vec::new();
    let n = col.items.len();
    match matched {
        Some(m) => {
            if m.len() == 0 {
                out.push(FolderRow::NoResults);
                return out;
            }
            let mut j: usize = 0;
            while j < m.len()
                invariant
                    j <= m@.len(),
                    n == col.items@.len(),
                    out@.len() == existing_rows(n as nat, m@.take(j as int)).len(),
                    forall|k: int|
                        0 <= k < out@.len() ==> existing_rows(n as nat, m@.take(j as int))[k] < n && draws(
                            #[trigger] out@[k],
                            *col,
                            existing_rows(n as nat, m@.take(j as int))[k],
                        ),
                decreases m@.len() - j,
            {
                let i = m[j];
                let ghost prev = existing_rows(n as nat, m@.take(j as int));
                let ghost before = out@;
                proof {
                    assert(m@.take(j as int + 1).drop_last() =~= m@.take(j as int));
                    assert(m@.take(j as int + 1).last() == i);
                }
                if i < n {
                    let it = &col.items[i];
                    let row = FolderRow::Item {
                        row_index: i,
                        label: it.title.clone(),
                        is_selected: i == col.selected_index,
                        is_folder: match it.item_type {
                            FolderItemType::Folder => true,
                            FolderItemType::Track => false,
                        },
                    };
                    out.push(row);
                    proof {
                        let next = existing_rows(n as nat, m@.take(j as int + 1));
                        assert(next == prev.push(i));
                        assert forall|k: int| 0 <= k < out@.len() implies next[k] < n && draws(
                            out@[k],
                            *col,
                            next[k],
                        ) by {
                            if k < prev.len() {
                                assert(draws(before[k], *col, prev[k]));
                            }
                        }
                    }
                } else {
                    proof {
                        let next = existing_rows(n as nat, m@.take(j as int + 1));
                        assert(next == prev);
                        assert forall|k: int| 0 <= k < out@.len() implies next[k] < n && draws(
                            out@[k],
                            *col,
                            next[k],
                        ) by {
                            assert(draws(before[k], *col, prev[k]));
                        }
                    }
                }
                j = j + 1;
            }
            proof {
                assert(m@.take(j as int) =~= m@);
                let rows = existing_rows(n as nat, m@);
                assert forall|k: int| 0 <= k < rows.len() implies rows[k] < n && draws(out@[k], *col, rows[k]) by {
                    assert(draws(out@[k], *col, existing_rows(n as nat, m@.take(j as int))[k]));
                }
            }
        },
        None => {
            let mut i: usize = 0;
            while i < n
                invariant
                    i <= n,
                    n == col.items@.len(),
                    out@.len() == i,
                    forall|k: int| 0 <= k < i ==> draws(#[trigger] out@[k], *col, k as usize),
                decreases n - i,
            {
                let it = &col.items[i];
                let row = FolderRow::Item {
                    row_index: i,
                    label: it.title.clone(),
                    is_selected: i == col.selected_index,
                    is_folder: match it.item_type {
                        FolderItemType::Folder => true,
                        FolderItemType::Track => false,
                    },
                };
                out.push(row);
                i = i + 1;
            }
            proof {
                let rows = listed_rows(n as nat, None);
                assert forall|k: int| 0 <= k < rows.len() implies rows[k] < n && draws(out@[k], *col, rows[k]) by {
                    assert(draws(out@[k], *col, k as usize));
                }
            }
        },
    }
    out
}

/// The column drawn with the focus border: the focused column, unless the
/// category column or the track pane holds the focus.
pub fn highlighted_folder_column(category_column_focused: bool, track_pane_focused: bool, focused_column: usize) -> (r:
    Option<usize>)
    ensures
        r == (if category_column_focused || track_pane_focused {
            None
        } else {
            Some(focused_column)
        }),
{
    if category_column_focused || track_pane_focused {
        None
    } else {
        Some(focused_column)
    }
}

/// The key of row `ri` of column `ci`, when both exist.
pub open spec fn folder_key_at(fs: Option<FolderNav>, ci: usize, ri: usize) -> Option<String> {
    match fs {
        Some(n) => if ci < n.columns@.len() && ri < n.columns@[ci as int].items@.len() {
            Some(n.columns@[ci as int].items@[ri as int].key)
        } else {
            None
        },
        None => None,
    }
}

/// The folder columns after a click on row `ri` of column `ci`: the row
/// becomes that column's cursor when it exists.
pub open spec fn clicked_columns(cols: Seq<FolderColumn>, ci: usize, ri: usize) -> Seq<FolderColumn> {
    if ri < cols[ci as int].items@.len() {
        cols.update(ci as int, FolderColumn { selected_index: ri, ..cols[ci as int] })
    } else {
        cols
    }
}

/// A left click on a folder row. The clicked column takes the focus and
/// the row its cursor first, so that the drill that follows replaces the
/// columns right of this one; then a folder row drills into the folder
/// (`None` when the row does not exist) and a track row plays it.
pub fn folder_row_click(fs: &mut Option<FolderNav>, column_index: usize, row_index: usize, is_folder: bool) -> (r:
    Option<Action>)
    ensures
        *old(fs) is None ==> *final(fs) is None,
        *old(fs) matches Some(n) ==> (*final(fs) matches Some(m) && if column_index < n.columns@.len() {
            m.focused_column == column_index && m.columns@ == clicked_columns(n.columns@, column_index, row_index)
        } else {
            m == n
        }),
        is_folder ==> r == match folder_key_at(*old(fs), column_index, row_index) {
            Some(k) => Some(Action::NavigateIntoFolder(k)),
            None => None,
        },
        !is_folder ==> r == Some(Action::PlayFolderTrack(row_index)),
{
    let mut key: Option<String> = None;
    match fs {
        Some(nav) => {
            if column_index < nav.columns.len() {
                let ghost cols = nav.columns@;
                let mut col = nav.columns.remove(column_index);
                proof {
                    assert(col == cols[column_index as int]);
                }
                if row_index < col.items.len() {
                    key = Some(col.items[row_index].key.clone());
                    col.selected_index = row_index;
                }
                nav.columns.insert(column_index, col);
                nav.focused_column = column_index;
                proof {
                    assert(nav.columns@ =~= clicked_columns(cols, column_index, row_index));
                }
            }
        },
        None => {},
    }
    if is_folder {
        match key {
            Some(k) => Some(Action::NavigateIntoFolder(k)),
            None => None,
        }
    } else {
        Some(Action::PlayFolderTrack(row_index))
    }
}

} // verus!
