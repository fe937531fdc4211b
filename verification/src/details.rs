//! Text of the track-details pane and of the Similar popup: the album and
//! year line, the duration line, the media file's name, and the popup's
//! title and rows.

use vstd::prelude::*;
use crate::strings::{push_char, push_str, empty_string, chars_of};
use crate::timefmt::{dec, push_dec, format_track_duration, track_duration_spec};

verus! {

/// "Album  (Year)", or whichever of the two is known.
pub open spec fn album_year_spec(album: Option<Seq<char>>, year: Option<u32>) -> Seq<char> {
    match (album, year) {
        (Some(a), Some(y)) => a + "  ("@ + dec(y as nat) + ")"@,
        (Some(a), None) => a,
        (None, Some(y)) => dec(y as nat),
        (None, None) => Seq::<char>::empty(),
    }
}

/// The album-and-year line of the track pane; see `album_year_spec`.
pub fn album_year_label(album: Option<&str>, year: Option<u32>) -> (r: String)
    ensures
        r@ == album_year_spec(
            match album {
                Some(a) => Some(a@),
                None => None,
            },
            year,
        ),
{
    let mut out = empty_string();
    match album {
        Some(a) => {
            push_str(&mut out, a);
            match year {
                Some(y) => {
                    push_str(&mut out, "  (");
                    push_dec(&mut out, y as u64);
                    push_str(&mut out, ")");
                },
                None => {},
            }
        },
        None => match year {
            Some(y) => push_dec(&mut out, y as u64),
            None => {},
        },
    }
    out
}

/// "Duration: m:ss" for a track length in milliseconds.
pub fn duration_line(ms: u64) -> (r: String)
    ensures
        r@ == "Duration: "@ + track_duration_spec(ms as nat),
{
    let mut out = empty_string();
    push_str(&mut out, "Duration: ");
    push_str(&mut out, format_track_duration(ms).as_str());
    out
}

/// "Track #n".
pub fn track_number_line(n: u32) -> (r: String)
    ensures
        r@ == "Track #"@ + dec(n as nat),
{
    let mut out = empty_string();
    push_str(&mut out, "Track #");
    push_dec(&mut out, n as u64);
    out
}

/// Whether a character separates path components (either slash).
pub open spec fn is_sep(c: char) -> bool {
    c == '/' || c == '\\'
}

/// The last path component of `p` (after the last slash or backslash;
/// all of `p` when it has none).
pub open spec fn basename_spec(p: Seq<char>) -> Seq<char>
    decreases p.len(),
{
    if p.len() == 0 {
        Seq::<char>::empty()
    } else if is_sep(p.last()) {
        Seq::<char>::empty()
    } else {
        basename_spec(p.drop_last()).push(p.last())
    }
}

/// The file's name from its path.
pub fn file_basename(path: &str) -> (r: String)
    ensures
        r@ == basename_spec(path@),
{
    let cs = chars_of(path);
    let n = cs.len();
    let mut start: usize = 0;
    let mut i: usize = 0;
    while i < n
        invariant
            i <= n,
            n == cs@.len(),
            cs@ == path@,
            start <= i,
            basename_spec(cs@.take(i as int)) == cs@.subrange(start as int, i as int),
        decreases n - i,
    {
        proof {
            assert(cs@.take(i as int + 1).drop_last() =~= cs@.take(i as int));
            assert(cs@.take(i as int + 1).last() == cs@[i as int]);
        }
        if cs[i] == '/' || cs[i] == '\\' {
            start = i + 1;
            proof {
                assert(cs@.subrange(start as int, i as int + 1) =~= Seq::<char>::empty());
            }
        } else {
            proof {
                assert(cs@.subrange(start as int, i as int + 1) =~= cs@.subrange(start as int, i as int).push(cs@[i as int]));
            }
        }
        i = i + 1;
    }
    proof {
        assert(cs@.take(n as int) =~= cs@);
    }
    let mut out = empty_string();
    let mut k: usize = start;
    while k < n
        invariant
            start <= k <= n,
            n == cs@.len(),
            out@ == cs@.subrange(start as int, k as int),
        decreases n - k,
    {
        push_char(&mut out, cs[k]);
        proof {
            assert(out@ =~= cs@.subrange(start as int, k as int + 1));
        }
        k = k + 1;
    }
    out
}

/// "File: name" for a media file path.
pub fn file_line(path: &str) -> (r: String)
    ensures
        r@ == "File: "@ + basename_spec(path@),
{
    let mut out = empty_string();
    push_str(&mut out, "File: ");
    push_str(&mut out, file_basename(path).as_str());
    out
}

/// A terminal list row for an album: "Artist - Title (Year)".
pub fn album_display(artist: &str, title: &str, year: Option<u32>) -> (r: String)
    ensures
        r@ == artist@ + " - "@ + title@ + match year {
            Some(y) => " ("@ + dec(y as nat) + ")"@,
            None => Seq::<char>::empty(),
        },
{
    let mut out = empty_string();
    push_str(&mut out, artist);
    push_str(&mut out, " - ");
    push_str(&mut out, title);
    match year {
        Some(y) => {
            push_str(&mut out, " (");
            push_dec(&mut out, y as u64);
            push_str(&mut out, ")");
        },
        None => {},
    }
    out
}

/// A terminal list row for a track: "Artist - Title".
pub fn track_display(artist: &str, title: &str) -> (r: String)
    ensures
        r@ == artist@ + " - "@ + title@,
{
    let mut out = empty_string();
    push_str(&mut out, artist);
    push_str(&mut out, " - ");
    push_str(&mut out, title);
    out
}

/// A terminal list row for a playlist: "Title (n tracks)".
pub fn playlist_display(title: &str, track_count: u32) -> (r: String)
    ensures
        r@ == title@ + " ("@ + dec(track_count as nat) + " tracks)"@,
{
    let mut out = empty_string();
    push_str(&mut out, title);
    push_str(&mut out, " (");
    push_dec(&mut out, track_count as u64);
    push_str(&mut out, " tracks)");
    out
}

/// What the Similar popup lists.
#[derive(PartialEq, Eq, Structural, Clone, Copy, Debug)]
pub enum SimilarMode {
    Albums,
    Tracks,
    Artists,
}

/// The heading of a Similar mode.
pub open spec fn mode_title(m: SimilarMode) -> Seq<char> {
    match m {
        SimilarMode::Albums => "Similar Albums"@,
        SimilarMode::Tracks => "Similar Tracks"@,
        SimilarMode::Artists => "Similar Artists"@,
    }
}

/// The Similar popup's title: the mode, then what it is similar to.
pub open spec fn similar_title_spec(m: SimilarMode, source: Seq<char>) -> Seq<char> {
    mode_title(m) + " \u{2014} "@ + if source.len() == 0 {
        "(no source)"@
    } else {
        source
    }
}

/// The Similar popup's title; see `similar_title_spec`.
pub fn similar_title(m: SimilarMode, source: &str) -> (r: String)
    ensures
        r@ == similar_title_spec(m, source@),
{
    let mut out = empty_string();
    match m {
        SimilarMode::Albums => push_str(&mut out, "Similar Albums"),
        SimilarMode::Tracks => push_str(&mut out, "Similar Tracks"),
        SimilarMode::Artists => push_str(&mut out, "Similar Artists"),
    }
    push_str(&mut out, " \u{2014} ");
    if source.is_empty() {
        push_str(&mut out, "(no source)");
    } else {
        push_str(&mut out, source);
    }
    out
}

/// The message shown when a Similar mode found nothing.
pub open spec fn empty_message_spec(m: SimilarMode) -> Seq<char> {
    match m {
        SimilarMode::Albums => "No similar albums found."@,
        SimilarMode::Tracks => "No similar tracks found."@,
        SimilarMode::Artists => "No similar artists found."@,
    }
}

/// The message shown when a Similar mode found nothing.
pub fn empty_message(m: SimilarMode) -> (r: &'static str)
    ensures
        r@ == empty_message_spec(m),
{
    match m {
        SimilarMode::Albums => "No similar albums found.",
        SimilarMode::Tracks => "No similar tracks found.",
        SimilarMode::Artists => "No similar artists found.",
    }
}

/// A Similar row for an album or a track: "title — by" (the artist, or
/// the album's artist when known, else nothing).
pub fn dash_row(title: &str, by: Option<&str>) -> (r: String)
    ensures
        r@ == title@ + "  \u{2014} "@ + match by {
            Some(b) => b@,
            None => Seq::<char>::empty(),
        },
{
    let mut out = empty_string();
    push_str(&mut out, title);
    push_str(&mut out, "  \u{2014} ");
    match by {
        Some(b) => push_str(&mut out, b),
        None => {},
    }
    out
}

} // verus!
