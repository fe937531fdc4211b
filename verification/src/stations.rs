//! The Radio stations popup: the breadcrumb of the station columns drilled
//! into, and the rows of the focused column — playable stations and
//! categories, with the playing station marked.

use vstd::prelude::*;
use crate::strings::{push_str, empty_string, eq_str};

verus! {

/// What a station-list entry is.
#[derive(PartialEq, Eq, Structural, Clone, Copy, Debug)]
pub enum StationKind {
    /// A playable station.
    Station,
    /// A category that drills into more stations.
    Category,
    /// A DJ mode (offered in its own popup).
    DjMode,
    /// An action entry.
    Action,
    /// A visual separator.
    Separator,
    /// A remix tool (offered in its own popup).
    Remix,
}

/// An entry of a station column.
#[derive(Clone, Debug)]
pub struct StationEntry {
    pub key: String,
    pub title: String,
    pub kind: StationKind,
}

/// A row of the stations popup.
#[derive(Clone, Debug)]
pub struct StationRow {
    /// Index of the entry in its column.
    pub index: usize,
    pub label: String,
    /// The column's cursor is on it.
    pub selected: bool,
    /// It is the station playing.
    pub active: bool,
    /// A click drills into it (a category) rather than playing it.
    pub drill: bool,
}

/// A row as a value: index, label, selected, active, drill.
pub type StationRowView = (nat, Seq<char>, bool, bool, bool);

/// The values of rows.
pub open spec fn station_rows_view(v: Seq<StationRow>) -> Seq<StationRowView> {
    v.map_values(|r: StationRow| (r.index as nat, r.label@, r.selected, r.active, r.drill))
}

/// Whether an entry is listed: stations and categories only.
pub open spec fn listed(k: StationKind) -> bool {
    k == StationKind::Station || k == StationKind::Category
}

/// The label of a listed entry: a note before the playing station, a
/// chevron after a category.
pub open spec fn station_label(e: StationEntry, active: bool) -> Seq<char> {
    (if active {
        "\u{266A} "@
    } else {
        "  "@
    }) + e.title@ + if e.kind == StationKind::Category {
        "  \u{203A}"@
    } else {
        Seq::<char>::empty()
    }
}

/// The rows of the listed entries among the first `k` of `es`.
pub open spec fn station_rows_spec(es: Seq<StationEntry>, k: int, selected: nat, active_key: Option<Seq<char>>) -> Seq<
    StationRowView,
>
    decreases k,
{
    if k <= 0 || k > es.len() {
        Seq::<StationRowView>::empty()
    } else {
        let e = es[k - 1];
        let active = active_key == Some(e.key@);
        station_rows_spec(es, k - 1, selected, active_key) + if listed(e.kind) {
            seq![((k - 1) as nat, station_label(e, active), (k - 1) == selected, active, e.kind == StationKind::Category)]
        } else {
            Seq::<StationRowView>::empty()
        }
    }
}

/// The rows of a station column whose cursor is at `selected_index`, with
/// `active_key` the key of the station playing; see `station_rows_spec`.
pub fn station_rows(stations: &Vec<StationEntry>, selected_index: usize, active_key: Option<&str>) -> (r: Vec<StationRow>)
    ensures
        station_rows_view(r@) == station_rows_spec(
            stations@,
            stations@.len() as int,
            selected_index as nat,
            match active_key {
                Some(k) => Some(k@),
                None => None,
            },
        ),
{
    let ghost ak = match active_key {
        Some(k) => Some(k@),
        None => None::<Seq<char>>,
    };
    let mut out: Vec<StationRow> = Vec::new();
    let mut i: usize = 0;
    while i < stations.len()
        invariant
            i <= stations@.len(),
            ak == match active_key {
                Some(k) => Some(k@),
                None => None::<Seq<char>>,
            },
            station_rows_view(out@) == station_rows_spec(stations@, i as int, selected_index as nat, ak),
        decreases stations@.len() - i,
    {
        let e = &stations[i];
        let is_listed = match e.kind {
            StationKind::Station => true,
            StationKind::Category => true,
            _ => false,
        };
        if is_listed {
            let active = match active_key {
                Some(k) => eq_str(e.key.as_str(), k),
                None => false,
            };
            let category = match e.kind {
                StationKind::Category => true,
                _ => false,
            };
            let mut label = empty_string();
            if active {
                push_str(&mut label, "\u{266A} ");
            } else {
                push_str(&mut label, "  ");
            }
            push_str(&mut label, e.title.as_str());
            if category {
                push_str(&mut label, "  \u{203A}");
            }
            let ghost before = out@;
            out.push(StationRow { index: i, label, selected: i == selected_index, active, drill: category });
            proof {
                assert(active == (ak == Some(stations@[i as int].key@)));
                assert(station_rows_view(out@) =~= station_rows_view(before).push(
                    (i as nat, station_label(stations@[i as int], active), i == selected_index, active, category),
                ));
            }
        }
        proof {
            assert(station_rows_view(out@) =~= station_rows_spec(stations@, i as int + 1, selected_index as nat, ak));
        }
        i = i + 1;
    }
    out
}

/// The titles of the first `k` columns joined by " › ".
pub open spec fn joined(titles: Seq<String>, k: int) -> Seq<char>
    decreases k,
{
    if k <= 0 {
        Seq::<char>::empty()
    } else if k == 1 {
        titles[0]@
    } else {
        joined(titles, k - 1) + "  \u{203A}  "@ + titles[k - 1]@
    }
}

/// The popup's breadcrumb: the titles of the columns up to the focused
/// one, or "Radio" when there are none.
pub open spec fn breadcrumb_spec(titles: Seq<String>, focused_column: nat) -> Seq<char> {
    let k: int = if focused_column + 1 < titles.len() {
        (focused_column + 1) as int
    } else {
        titles.len() as int
    };
    if k == 0 {
        "Radio"@
    } else {
        joined(titles, k)
    }
}

/// The breadcrumb for column titles `titles` with `focused_column` focused.
pub fn breadcrumb(titles: &Vec<String>, focused_column: usize) -> (r: String)
    ensures
        r@ == breadcrumb_spec(titles@, focused_column as nat),
{
    let k: usize = if focused_column < titles.len() {
        focused_column + 1
    } else {
        titles.len()
    };
    let mut out = empty_string();
    if k == 0 {
        push_str(&mut out, "Radio");
        return out;
    }
    let mut i: usize = 0;
    while i < k
        invariant
            i <= k <= titles@.len(),
            out@ == joined(titles@, i as int),
        decreases k - i,
    {
        if i > 0 {
            push_str(&mut out, "  \u{203A}  ");
        }
        push_str(&mut out, titles[i].as_str());
        i = i + 1;
    }
    out
}

} // verus!
