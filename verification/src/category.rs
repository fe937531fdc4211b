//! The left-hand category column of the browse view: which categories it
//! lists, which row is highlighted or selected, and the playlist rows under
//! them, with pinned playlists (hearts, "Recently Added") set apart by a
//! divider.

use vstd::prelude::*;
use crate::browse::BrowseCategory;
use crate::strings::chars_of;

verus! {

/// A playlist shown in the category column.
#[derive(Clone, Debug)]
pub struct PlaylistEntry {
    pub key: String,
    pub title: String,
}

/// One row of the category column.
#[derive(PartialEq, Eq, Structural, Clone, Copy, Debug)]
pub enum CategoryColumnRow {
    /// A browse category: the keyboard-selected one, and the active one.
    Category { cat: BrowseCategory, selected: bool, highlighted: bool },
    Divider,
    /// The playlist at this index of the playlist rows; `active` when it is
    /// the one open in the Playlists category.
    Playlist { index: usize, active: bool },
}

/// The state the category column reads.
pub struct CategoryColumnState {
    pub browse_category: BrowseCategory,
    pub category_column_focused: bool,
    pub category_column_index: usize,
    /// Categories hidden in Settings.
    pub hidden: Vec<BrowseCategory>,
    /// Key of the playlist selected in the Playlists navigation.
    pub active_playlist_key: Option<String>,
}

/// ASCII lower-casing of a character.
pub open spec fn lower_ascii(c: char) -> char {
    if 'A' <= c && c <= 'Z' {
        ((c as u32) + 32) as char
    } else {
        c
    }
}

/// `str::eq_ignore_ascii_case`.
pub open spec fn eq_ignore_ascii_case(a: Seq<char>, b: Seq<char>) -> bool {
    a.len() == b.len() && forall|i: int| 0 <= i < a.len() ==> lower_ascii(#[trigger] a[i]) == lower_ascii(b[i])
}

/// Whether a playlist is pinned: "Recently Added" (in any ASCII case) or a
/// title holding a heart (❤ ♡ 🤍 ♥).
pub open spec fn is_pinned(title: Seq<char>) -> bool {
    eq_ignore_ascii_case(title, "recently added"@) || title.contains('\u{2764}') || title.contains('\u{2661}')
        || title.contains('\u{1f90d}') || title.contains('\u{2665}')
}

/// The categories the column lists, in order: all but Playlists and the
/// hidden ones.
pub open spec fn visible_categories(all: Seq<BrowseCategory>, hidden: Seq<BrowseCategory>) -> Seq<BrowseCategory> {
    all.filter(|c: BrowseCategory| c != BrowseCategory::Playlists && !hidden.contains(c))
}

/// The category rows from position `i` on.
pub open spec fn category_rows_from(vis: Seq<BrowseCategory>, i: int, s: CategoryColumnState) -> Seq<
    CategoryColumnRow,
>
    decreases vis.len() - i,
{
    if i < 0 || i >= vis.len() {
        Seq::<CategoryColumnRow>::empty()
    } else {
        let cat = vis[i];
        let first = vis.index_of_first(s.browse_category);
        let selected = first == Some(i) && cat == s.browse_category && s.category_column_focused && i
            == s.category_column_index;
        seq![CategoryColumnRow::Category { cat, selected, highlighted: cat == s.browse_category }]
            + category_rows_from(vis, i + 1, s)
    }
}

/// The playlist rows from position `i` on; `prev` is whether the last
/// listed playlist was pinned. A divider separates the pinned playlists
/// from the ones after them; rows whose playlist is missing are skipped.
pub open spec fn playlist_rows_from(
    ps: Seq<Option<PlaylistEntry>>,
    i: int,
    prev: Option<bool>,
    s: CategoryColumnState,
) -> Seq<CategoryColumnRow>
    decreases ps.len() - i,
{
    if i < 0 || i >= ps.len() {
        Seq::<CategoryColumnRow>::empty()
    } else {
        match ps[i] {
            None => playlist_rows_from(ps, i + 1, prev, s),
            Some(p) => {
                let pinned = is_pinned(p.title@);
                let active = s.browse_category == BrowseCategory::Playlists && s.active_playlist_key is Some
                    && s.active_playlist_key->0@ == p.key@;
                (if prev == Some(true) && !pinned {
                    seq![CategoryColumnRow::Divider]
                } else {
                    Seq::<CategoryColumnRow>::empty()
                }) + seq![CategoryColumnRow::Playlist { index: i as usize, active }] + playlist_rows_from(
                    ps,
                    i + 1,
                    Some(pinned),
                    s,
                )
            },
        }
    }
}

/// The rows of the category column.
pub open spec fn category_column_spec(
    all: Seq<BrowseCategory>,
    playlists: Seq<Option<PlaylistEntry>>,
    s: CategoryColumnState,
) -> Seq<CategoryColumnRow> {
    let vis = visible_categories(all, s.hidden@);
    category_rows_from(vis, 0, s) + if s.hidden@.contains(BrowseCategory::Playlists) {
        Seq::<CategoryColumnRow>::empty()
    } else {
        (if vis.len() > 0 && playlists.len() > 0 {
            seq![CategoryColumnRow::Divider]
        } else {
            Seq::<CategoryColumnRow>::empty()
        }) + playlist_rows_from(playlists, 0, None, s)
    }
}

fn contains_cat(v: &Vec<BrowseCategory>, c: BrowseCategory) -> (r: bool)
    ensures
        r == v@.contains(c),
{
    let mut i: usize = 0;
    while i < v.len()
        invariant
            i <= v@.len(),
            forall|k: int| 0 <= k < i ==> v@[k] != c,
        decreases v@.len() - i,
    {
        if v[i] == c {
            proof {
                assert(v@[i as int] == c);
            }
            return true;
        }
        i = i + 1;
    }
    false
}

fn lower_char(c: char) -> (r: u32)
    ensures
        r == lower_ascii(c) as u32,
{
    let u: u32 = c as u32;
    if 'A' <= c && c <= 'Z' {
        proof {
            assert(((u + 32) as char) as u32 == u + 32);
        }
        u + 32
    } else {
        u
    }
}

fn has_char(cs: &Vec<char>, c: char) -> (r: bool)
    ensures
        r == cs@.contains(c),
{
    let mut i: usize = 0;
    while i < cs.len()
        invariant
            i <= cs@.len(),
            forall|k: int| 0 <= k < i ==> cs@[k] != c,
        decreases cs@.len() - i,
    {
        if cs[i] == c {
            proof {
                assert(cs@[i as int] == c);
            }
            return true;
        }
        i = i + 1;
    }
    false
}

/// Whether a playlist title is pinned; see `is_pinned`.
pub fn playlist_is_pinned(title: &str) -> (r: bool)
    ensures
        r == is_pinned(title@),
{
    let cs = chars_of(title);
    let target = chars_of("recently added");
    let mut same = cs.len() == target.len();
    if same {
        let mut i: usize = 0;
        while i < cs.len()
            invariant
                i <= cs@.len(),
                cs@.len() == target@.len(),
                cs@ == title@,
                target@ == "recently added"@,
                same == (forall|k: int| 0 <= k < i ==> lower_ascii(#[trigger] cs@[k]) == lower_ascii(target@[k])),
            decreases cs@.len() - i,
        {
            let a = lower_char(cs[i]);
            let b = lower_char(target[i]);
            proof {
                assert((lower_ascii(cs@[i as int]) == lower_ascii(target@[i as int])) == (a == b));
            }
            if a != b {
                same = false;
            }
            i = i + 1;
        }
    }
    same || has_char(&cs, '\u{2764}') || has_char(&cs, '\u{2661}') || has_char(&cs, '\u{1f90d}') || has_char(
        &cs,
        '\u{2665}',
    )
}

fn first_index_of(v: &Vec<BrowseCategory>, c: BrowseCategory) -> (r: Option<usize>)
    ensures
        match r {
            Some(i) => v@.index_of_first(c) == Some(i as int),
            None => v@.index_of_first(c) is None,
        },
{
    let mut i: usize = 0;
    while i < v.len()
        invariant
            i <= v@.len(),
            forall|k: int| 0 <= k < i ==> v@[k] != c,
        decreases v@.len() - i,
    {
        if v[i] == c {
            proof {
                v@.index_of_first_ensures(c);
            }
            return Some(i);
        }
        i = i + 1;
    }
    proof {
        v@.index_of_first_ensures(c);
    }
    None
}

/// The rows of the category column: the visible categories (all but
/// Playlists and the hidden ones, in `all`'s order), then — unless
/// Playlists is hidden — a divider when both parts have rows, and the
/// playlist rows with a divider after the pinned ones.
pub fn category_column(
    all: &Vec<BrowseCategory>,
    playlists: &Vec<Option<PlaylistEntry>>,
    s: &CategoryColumnState,
) -> (r: Vec<CategoryColumnRow>)
    ensures
        r@ == category_column_spec(all@, playlists@, *s),
{
    let mut vis: Vec<BrowseCategory> = Vec::new();
    let mut i: usize = 0;
    while i < all.len()
        invariant
            i <= all@.len(),
            vis@ == all@.take(i as int).filter(
                |c: BrowseCategory| c != BrowseCategory::Playlists && !s.hidden@.contains(c),
            ),
        decreases all@.len() - i,
    {
        let c = all[i];
        proof {
            assert(all@.take(i as int + 1).drop_last() =~= all@.take(i as int));
            reveal_with_fuel(Seq::filter, 1);
        }
        if c != BrowseCategory::Playlists && !contains_cat(&s.hidden, c) {
            vis.push(c);
        }
        i = i + 1;
    }
    proof {
        assert(all@.take(i as int) =~= all@);
    }
    let ghost vv = vis@;
    let active = first_index_of(&vis, s.browse_category);
    let mut rows: Vec<CategoryColumnRow> = Vec::new();
    let mut k: usize = 0;
    while k < vis.len()
        invariant
            k <= vis@.len(),
            vv == vis@,
            match active {
                Some(a) => vv.index_of_first(s.browse_category) == Some(a as int),
                None => vv.index_of_first(s.browse_category) is None,
            },
            rows@ + category_rows_from(vv, k as int, *s) == category_rows_from(vv, 0, *s),
        decreases vis@.len() - k,
    {
        let cat = vis[k];
        let selected = active == Some(k) && cat == s.browse_category && s.category_column_focused
            && k == s.category_column_index;
        let ghost before = rows@;
        rows.push(CategoryColumnRow::Category { cat, selected, highlighted: cat == s.browse_category });
        proof {
            assert(rows@ + category_rows_from(vv, k as int + 1, *s) =~= before + category_rows_from(vv, k as int, *s));
        }
        k = k + 1;
    }
    proof {
        assert(rows@ + Seq::<CategoryColumnRow>::empty() =~= rows@);
    }
    let ghost cat_part = rows@;
    if !contains_cat(&s.hidden, BrowseCategory::Playlists) {
        if vis.len() > 0 && playlists.len() > 0 {
            rows.push(CategoryColumnRow::Divider);
        }
        let ghost mid = rows@;
        let mut prev: Option<bool> = None;
        let mut j: usize = 0;
        while j < playlists.len()
            invariant
                j <= playlists@.len(),
                rows@ + playlist_rows_from(playlists@, j as int, prev, *s) == mid + playlist_rows_from(
                    playlists@,
                    0,
                    None,
                    *s,
                ),
            decreases playlists@.len() - j,
        {
            match &playlists[j] {
                None => {},
                Some(p) => {
                    let pinned = playlist_is_pinned(p.title.as_str());
                    let active_row = s.browse_category == BrowseCategory::Playlists && match &s.active_playlist_key {
                        Some(k2) => crate::strings::eq_str(k2.as_str(), p.key.as_str()),
                        None => false,
                    };
                    let ghost before = rows@;
                    if prev == Some(true) && !pinned {
                        rows.push(CategoryColumnRow::Divider);
                    }
                    rows.push(CategoryColumnRow::Playlist { index: j, active: active_row });
                    proof {
                        assert(rows@ + playlist_rows_from(playlists@, j as int + 1, Some(pinned), *s) =~= before
                            + playlist_rows_from(playlists@, j as int, prev, *s));
                    }
                    prev = Some(pinned);
                },
            }
            j = j + 1;
        }
        proof {
            assert(rows@ + Seq::<CategoryColumnRow>::empty() =~= rows@);
            assert(rows@ =~= category_column_spec(all@, playlists@, *s));
        }
    } else {
        proof {
            assert(rows@ =~= category_column_spec(all@, playlists@, *s));
        }
    }
    rows
}

} // verus!
