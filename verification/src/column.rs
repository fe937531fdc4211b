//! A Miller column's header — its title and the button beside it — and
//! the rows its body lists under the live filter.

use vstd::prelude::*;
use crate::browse::{BrowseItem, san};
use crate::strings::strip_prefix;
use crate::text::sanitize;

verus! {

/// The button beside a column's title.
#[derive(Clone, Debug)]
pub enum HeaderAction {
    /// Play the column's album (key and title).
    PlayAlbum { key: String, title: String },
    /// Play every track of an all-tracks column, under this label.
    PlayAll { label: String },
    /// The column's Artist Radio row, drawn as a header button; a click
    /// on it activates that row.
    ArtistRadio { row: usize },
}

/// A column's header: its shown title, the button beside it, and whether
/// the column's track rows name each track's artist.
#[derive(Clone, Debug)]
pub struct ColumnHeader {
    pub title: String,
    pub action: Option<HeaderAction>,
    pub show_track_artist: bool,
}

/// The prefix the core puts before an album's title in the title of its
/// tracks column.
pub open spec fn tracks_prefix() -> Seq<char> {
    "tracks \u{2014} "@
}

/// Whether `i` is the first Artist Radio row of `items`.
pub open spec fn first_radio(items: Seq<BrowseItem>, i: int) -> bool {
    &&& 0 <= i < items.len()
    &&& items[i] is ArtistRadio
    &&& forall|j: int| 0 <= j < i ==> !(#[trigger] items[j] is ArtistRadio)
}

/// Whether `items` has an Artist Radio row.
pub open spec fn has_radio(items: Seq<BrowseItem>) -> bool {
    exists|i: int| 0 <= i < items.len() && #[trigger] items[i] is ArtistRadio
}

fn find_radio(items: &Vec<BrowseItem>) -> (r: Option<usize>)
    ensures
        match r {
            Some(i) => first_radio(items@, i as int),
            None => !has_radio(items@),
        },
{
    let mut i: usize = 0;
    while i < items.len()
        invariant
            i <= items@.len(),
            forall|j: int| 0 <= j < i ==> !(#[trigger] items@[j] is ArtistRadio),
        decreases items@.len() - i,
    {
        if let BrowseItem::ArtistRadio { .. } = &items[i] {
            return Some(i);
        }
        i = i + 1;
    }
    None
}

/// The header of a column titled `title`. The title is made display-safe
/// and trimmed; an album's tracks column (`play_album` set) drops the
/// `tracks — ` prefix from it. The button plays the album when the column
/// is an album's tracks, else plays all tracks under `play_all_label`
/// when set, else stands for the column's first Artist Radio row when it
/// has one. Track rows name their artist except in an album's column.
pub fn column_header(
    title: &str,
    play_album: &Option<(String, String)>,
    play_all_label: &Option<String>,
    items: &Vec<BrowseItem>,
) -> (r: ColumnHeader)
    ensures
        r.title@ == (if play_album is Some && tracks_prefix().is_prefix_of(san(title@)) {
            san(title@).skip(tracks_prefix().len() as int)
        } else {
            san(title@)
        }),
        r.show_track_artist == (play_album is None),
        match *play_album {
            Some((k, t)) => r.action matches Some(HeaderAction::PlayAlbum { key, title }) && key == k && title == t,
            None => match *play_all_label {
                Some(l) => r.action matches Some(HeaderAction::PlayAll { label }) && label == l,
                None => match r.action {
                    Some(HeaderAction::ArtistRadio { row }) => first_radio(items@, row as int),
                    None => !has_radio(items@),
                    _ => false,
                },
            },
        },
{
    let raw = sanitize(title);
    let shown = match play_album {
        Some(_) => match strip_prefix(raw.as_str(), "tracks \u{2014} ") {
            Some(t) => t,
            None => raw,
        },
        None => raw,
    };
    proof {
        reveal_strlit("tracks \u{2014} ");
    }
    let action = match play_album {
        Some((k, t)) => Some(HeaderAction::PlayAlbum { key: k.clone(), title: t.clone() }),
        None => match play_all_label {
            Some(l) => Some(HeaderAction::PlayAll { label: l.clone() }),
            None => match find_radio(items) {
                Some(i) => Some(HeaderAction::ArtistRadio { row: i }),
                None => None,
            },
        },
    };
    ColumnHeader { title: shown, action, show_track_artist: play_album.is_none() }
}

/// The rows a column lists, in order: every row without a live filter,
/// else the filter's matches; the Artist Radio row shown in the header
/// (`radio`) is left out.
pub open spec fn column_rows_spec(len: nat, matched: Option<Seq<usize>>, radio: Option<usize>) -> Seq<usize> {
    let all = match matched {
        Some(m) => m,
        None => Seq::new(len, |i: int| i as usize),
    };
    match radio {
        Some(r) => all.filter(|i: usize| i != r),
        None => all,
    }
}

/// The rows a column of `len` rows lists; see `column_rows_spec`. The
/// flag is whether the live filter matched nothing, in which case a "no
/// results" notice heads the column.
pub fn column_rows(len: usize, matched: Option<&Vec<usize>>, radio: Option<usize>) -> (r: (Vec<usize>, bool))
    ensures
        r.0@ == column_rows_spec(
            len as nat,
            match matched {
                Some(v) => Some(v@),
                None => None,
            },
            radio,
        ),
        r.1 == (matched matches Some(v) && v@.len() == 0),
{
    let ghost all = match matched {
        Some(v) => v@,
        None => Seq::new(len as nat, |i: int| i as usize),
    };
    let n = match matched {
        Some(v) => v.len(),
        None => len,
    };
    let mut out: Vec<usize> = Vec::new();
    let mut j: usize = 0;
    while j < n
        invariant
            j <= n,
            n == all.len(),
            matched matches Some(v) ==> all == v@,
            matched is None ==> all == Seq::new(len as nat, |i: int| i as usize),
            out@ == match radio {
                Some(r) => all.take(j as int).filter(|i: usize| i != r),
                None => all.take(j as int),
            },
        decreases n - j,
    {
        let i = match matched {
            Some(v) => v[j],
            None => j,
        };
        proof {
            assert(all.take(j as int + 1) =~= all.take(j as int).push(i));
            reveal(Seq::filter);
        }
        match radio {
            Some(r) => {
                if i != r {
                    out.push(i);
                }
                proof {
                    assert(all.take(j as int + 1).drop_last() =~= all.take(j as int));
                }
            },
            None => {
                out.push(i);
            },
        }
        j = j + 1;
    }
    proof {
        assert(all.take(j as int) =~= all);
    }
    let none_matched = match matched {
        Some(v) => v.len() == 0,
        None => false,
    };
    (out, none_matched)
}

} // verus!
