//! The radio pickers: the Artist Radio picker (the artists chosen so far,
//! then the first sixty available ones) and the Radio launcher's seed
//! results (artists, albums, tracks, numbered in that order).

use vstd::prelude::*;
use crate::popup::find_toggle_index;
use crate::search::strs_view;
use crate::strings::{push_str, empty_string};
use crate::timefmt::{dec, push_dec};
use crate::tools::{PanelRow, PanelView, panel_view};

verus! {

/// An artist offered by the Artist Radio picker.
#[derive(Clone, Debug)]
pub struct PickerArtist {
    pub rating_key: String,
    pub title: String,
}

/// Most available artists the picker lists.
pub const PICKER_LIMIT: usize = 60;

/// Index in `filtered` of the first artist with key `key`, or 0.
pub open spec fn toggle_index_spec(filtered: Seq<PickerArtist>, key: Seq<char>) -> int {
    if exists|i: int| 0 <= i < filtered.len() && (#[trigger] filtered[i]).rating_key@ == key {
        choose|i: int|
            0 <= i < filtered.len() && (#[trigger] filtered[i]).rating_key@ == key && forall|j: int|
                0 <= j < i ==> (#[trigger] filtered[j]).rating_key@ != key
    } else {
        0
    }
}

/// The keys of artists.
pub open spec fn keys_of(v: Seq<PickerArtist>) -> Seq<String> {
    v.map_values(|a: PickerArtist| a.rating_key)
}

/// The rows of the picker while choosing artists: when some are chosen, a
/// header counting them against the limit and one checked row each (a
/// click toggles that artist where it stands in the available list); then
/// the available artists, at most sixty, the cursor's marked.
pub open spec fn picker_rows_spec(
    chosen: Seq<PickerArtist>,
    max_artists: nat,
    filtered: Seq<PickerArtist>,
    item_index: int,
) -> Seq<PanelView> {
    (if chosen.len() > 0 {
        seq![PanelView::Header("\u{2014} Selected ("@ + dec(chosen.len()) + "/"@ + dec(max_artists) + ") \u{2014}"@)]
            + Seq::new(
            chosen.len(),
            |k: int| PanelView::Result("\u{2713} "@ + chosen[k].title@, toggle_index_spec(filtered, chosen[k].rating_key@), false),
        )
    } else {
        Seq::<PanelView>::empty()
    }) + seq![PanelView::Header("\u{2014} Available \u{2014}"@)] + Seq::new(
        (if filtered.len() < PICKER_LIMIT { filtered.len() } else { PICKER_LIMIT as nat }),
        |i: int| PanelView::Result("  "@ + filtered[i].title@, i, i == item_index),
    )
}

fn keys(v: &Vec<PickerArtist>) -> (r: Vec<String>)
    ensures
        strs_view(r@) == strs_view(keys_of(v@)),
        r@.len() == v@.len(),
{
    let mut out: Vec<String> = Vec::new();
    let mut i: usize = 0;
    while i < v.len()
        invariant
            i <= v@.len(),
            out@.len() == i,
            forall|k: int| 0 <= k < i ==> (#[trigger] out@[k])@ == v@[k].rating_key@,
        decreases v@.len() - i,
    {
        let mut s = empty_string();
        push_str(&mut s, v[i].rating_key.as_str());
        out.push(s);
        i = i + 1;
    }
    proof {
        assert(strs_view(out@) =~= strs_view(keys_of(v@)));
    }
    out
}

proof fn lemma_toggle_index(filtered: Seq<PickerArtist>, ks: Seq<String>, key: Seq<char>, r: int)
    requires
        strs_view(ks) == strs_view(keys_of(filtered)),
        ks.len() == filtered.len(),
        (exists|i: int| 0 <= i < ks.len() && (#[trigger] ks[i])@ == key) ==> {
            &&& 0 <= r < ks.len()
            &&& ks[r]@ == key
            &&& forall|j: int| 0 <= j < r ==> (#[trigger] ks[j])@ != key
        },
        !(exists|i: int| 0 <= i < ks.len() && (#[trigger] ks[i])@ == key) ==> r == 0,
    ensures
        r == toggle_index_spec(filtered, key),
{
    assert forall|i: int| 0 <= i < ks.len() implies (#[trigger] ks[i])@ == filtered[i].rating_key@ by {
        assert(strs_view(ks)[i] == strs_view(keys_of(filtered))[i]);
    }
    if exists|i: int| 0 <= i < filtered.len() && (#[trigger] filtered[i]).rating_key@ == key {
        let w = choose|i: int| 0 <= i < filtered.len() && (#[trigger] filtered[i]).rating_key@ == key;
        assert(ks[w]@ == key);
        let c = choose|i: int|
            0 <= i < filtered.len() && (#[trigger] filtered[i]).rating_key@ == key && forall|j: int|
                0 <= j < i ==> (#[trigger] filtered[j]).rating_key@ != key;
        assert(filtered[r].rating_key@ == key);
        assert forall|j: int| 0 <= j < r implies (#[trigger] filtered[j]).rating_key@ != key by {
            assert(ks[j]@ != key);
        }
        if c < r {
            assert(ks[c]@ == key);
        } else if c > r {
            assert(filtered[r].rating_key@ == key);
        }
    } else {
        if exists|i: int| 0 <= i < ks.len() && (#[trigger] ks[i])@ == key {
            let w = choose|i: int| 0 <= i < ks.len() && (#[trigger] ks[i])@ == key;
            assert(filtered[w].rating_key@ == key);
        }
    }
}

/// The rows of the Artist Radio picker while choosing artists; see
/// `picker_rows_spec`.
pub fn picker_rows(chosen: &Vec<PickerArtist>, max_artists: usize, filtered: &Vec<PickerArtist>, item_index: usize) -> (r:
    Vec<PanelRow>)
    ensures
        panel_view(r@) == picker_rows_spec(chosen@, max_artists as nat, filtered@, item_index as int),
{
    let mut out: Vec<PanelRow> = Vec::new();
    let ks = keys(filtered);
    if chosen.len() > 0 {
        let mut h = empty_string();
        push_str(&mut h, "\u{2014} Selected (");
        push_dec(&mut h, chosen.len() as u64);
        push_str(&mut h, "/");
        push_dec(&mut h, max_artists as u64);
        push_str(&mut h, ") \u{2014}");
        out.push(PanelRow::Header(h));
        let mut k: usize = 0;
        while k < chosen.len()
            invariant
                k <= chosen@.len(),
                chosen@.len() > 0,
                strs_view(ks@) == strs_view(keys_of(filtered@)),
                ks@.len() == filtered@.len(),
                panel_view(out@) == seq![
                    PanelView::Header("\u{2014} Selected ("@ + dec(chosen@.len()) + "/"@ + dec(max_artists as nat) + ") \u{2014}"@),
                ] + Seq::new(
                    k as nat,
                    |j: int| PanelView::Result("\u{2713} "@ + chosen@[j].title@, toggle_index_spec(filtered@, chosen@[j].rating_key@), false),
                ),
            decreases chosen@.len() - k,
        {
            let idx = find_toggle_index(&ks, chosen[k].rating_key.as_str());
            proof {
                lemma_toggle_index(filtered@, ks@, chosen@[k as int].rating_key@, idx as int);
            }
            let mut label = empty_string();
            push_str(&mut label, "\u{2713} ");
            push_str(&mut label, chosen[k].title.as_str());
            let ghost before = out@;
            out.push(PanelRow::Result { label, index: idx, selected: false });
            proof {
                assert(out@ == before.push(PanelRow::Result { label, index: idx, selected: false }));
                assert(panel_view(out@) =~= panel_view(before).push(PanelView::Result(label@, idx as int, false)));
            }
            k = k + 1;
        }
    }
    let ghost head = panel_view(out@);
    proof {
        assert(head =~= (if chosen@.len() > 0 {
            seq![PanelView::Header("\u{2014} Selected ("@ + dec(chosen@.len()) + "/"@ + dec(max_artists as nat) + ") \u{2014}"@)]
                + Seq::new(
                chosen@.len(),
                |k: int| PanelView::Result("\u{2713} "@ + chosen@[k].title@, toggle_index_spec(filtered@, chosen@[k].rating_key@), false),
            )
        } else {
            Seq::<PanelView>::empty()
        }));
    }
    let mut h2 = empty_string();
    push_str(&mut h2, "\u{2014} Available \u{2014}");
    out.push(PanelRow::Header(h2));
    let n = if filtered.len() < PICKER_LIMIT { filtered.len() } else { PICKER_LIMIT };
    let mut i: usize = 0;
    while i < n
        invariant
            i <= n,
            n <= filtered@.len(),
            n == (if filtered@.len() < PICKER_LIMIT { filtered@.len() } else { PICKER_LIMIT as nat }),
            panel_view(out@) == head + seq![PanelView::Header("\u{2014} Available \u{2014}"@)] + Seq::new(
                i as nat,
                |j: int| PanelView::Result("  "@ + filtered@[j].title@, j, j == item_index),
            ),
        decreases n - i,
    {
        let mut label = empty_string();
        push_str(&mut label, "  ");
        push_str(&mut label, filtered[i].title.as_str());
        let ghost before = out@;
        out.push(PanelRow::Result { label, index: i, selected: i == item_index });
        proof {
            assert(out@ == before.push(PanelRow::Result { label, index: i, selected: i == item_index }));
            assert(panel_view(out@) =~= panel_view(before).push(PanelView::Result(label@, i as int, i == item_index)));
        }
        i = i + 1;
    }
    out
}

/// The heading of the picker's first step: the count typed so far.
pub fn count_line(count_input: &str) -> (r: String)
    ensures
        r@ == "Count: "@ + count_input@,
{
    let mut out = empty_string();
    push_str(&mut out, "Count: ");
    push_str(&mut out, count_input);
    out
}

/// Seed results of the Radio launcher: artist, album and track (title,
/// artist) candidates.
#[derive(Clone, Debug)]
pub struct SeedResults {
    pub artists: Vec<String>,
    pub albums: Vec<String>,
    pub tracks: Vec<(String, String)>,
}

/// A section of seed results: a header, then its labels numbered on from
/// `base`, the cursor's marked; nothing for an empty section.
pub open spec fn seed_section(header: Seq<char>, labels: Seq<Seq<char>>, base: int, cursor: int) -> Seq<PanelView> {
    if labels.len() == 0 {
        Seq::<PanelView>::empty()
    } else {
        seq![PanelView::Header("\u{2014} "@ + header + " \u{2014}"@)] + Seq::new(
            labels.len(),
            |i: int| PanelView::Result(labels[i], base + i, base + i == cursor),
        )
    }
}

/// Labels with a kind prefix.
pub open spec fn prefixed(p: Seq<char>, v: Seq<String>) -> Seq<Seq<char>> {
    v.map_values(|t: String| p + t@)
}

/// Track labels "track:  title — artist".
pub open spec fn seed_track_labels(v: Seq<(String, String)>) -> Seq<Seq<char>> {
    v.map_values(|p: (String, String)| "track:  "@ + p.0@ + "  \u{2014} "@ + p.1@)
}

/// The Radio launcher's rows: the seed results by kind (artists, albums,
/// tracks, numbered across), or a note while searching or before a search.
pub open spec fn seed_rows_spec(results: Option<SeedResults>, loading: bool, cursor: int) -> Seq<PanelView> {
    match results {
        Some(r) => {
            let la = prefixed("artist: "@, r.artists@);
            let lb = prefixed("album:  "@, r.albums@);
            let lt = seed_track_labels(r.tracks@);
            seed_section("Artists"@, la, 0, cursor) + seed_section("Albums"@, lb, la.len() as int, cursor) + seed_section(
                "Tracks"@,
                lt,
                (la.len() + lb.len()) as int,
                cursor,
            )
        },
        None => if loading {
            seq![PanelView::Note("Searching\u{2026}"@)]
        } else {
            seq![PanelView::Note("Type to search, Enter to seed radio."@)]
        },
    }
}

fn push_seed_section(out: &mut Vec<PanelRow>, header: &str, labels: Vec<String>, base: usize, cursor: usize)
    requires
        base + labels@.len() <= usize::MAX,
    ensures
        panel_view(final(out)@) == panel_view(old(out)@) + seed_section(header@, strs_view(labels@), base as int, cursor as int),
{
    let ghost start = panel_view(out@);
    let ghost lv = strs_view(labels@);
    if labels.len() == 0 {
        proof {
            assert(panel_view(out@) =~= start + seed_section(header@, lv, base as int, cursor as int));
        }
        return;
    }
    let mut h = empty_string();
    push_str(&mut h, "\u{2014} ");
    push_str(&mut h, header);
    push_str(&mut h, " \u{2014}");
    let ghost before0 = out@;
    out.push(PanelRow::Header(h));
    proof {
        assert(out@ == before0.push(PanelRow::Header(h)));
    }
    let ghost head = panel_view(out@);
    let mut i: usize = 0;
    while i < labels.len()
        invariant
            i <= labels@.len(),
            base + labels@.len() <= usize::MAX,
            lv == strs_view(labels@),
            panel_view(out@) == head + Seq::new(i as nat, |k: int| PanelView::Result(lv[k], base + k, base + k == cursor)),
        decreases labels@.len() - i,
    {
        let mut label = empty_string();
        push_str(&mut label, labels[i].as_str());
        let idx = base + i;
        let ghost before = out@;
        out.push(PanelRow::Result { label, index: idx, selected: idx == cursor });
        proof {
            assert(out@ == before.push(PanelRow::Result { label, index: idx, selected: idx == cursor }));
            assert(label@ == lv[i as int]);
            assert(panel_view(out@) =~= panel_view(before).push(PanelView::Result(label@, idx as int, idx == cursor)));
            assert(panel_view(out@) =~= head + Seq::new(
                (i + 1) as nat,
                |k: int| PanelView::Result(lv[k], base + k, base + k == cursor),
            ));
        }
        i = i + 1;
    }
    proof {
        assert(panel_view(out@) =~= start + seed_section(header@, lv, base as int, cursor as int));
    }
}

fn prefixed_strings(p: &str, v: &Vec<String>) -> (r: Vec<String>)
    ensures
        strs_view(r@) == prefixed(p@, v@),
        r@.len() == v@.len(),
{
    let mut out: Vec<String> = Vec::new();
    let mut i: usize = 0;
    while i < v.len()
        invariant
            i <= v@.len(),
            out@.len() == i,
            forall|k: int| 0 <= k < i ==> (#[trigger] out@[k])@ == p@ + v@[k]@,
        decreases v@.len() - i,
    {
        let mut s = empty_string();
        push_str(&mut s, p);
        push_str(&mut s, v[i].as_str());
        out.push(s);
        i = i + 1;
    }
    proof {
        assert(strs_view(out@) =~= prefixed(p@, v@));
    }
    out
}

fn track_strings(v: &Vec<(String, String)>) -> (r: Vec<String>)
    ensures
        strs_view(r@) == seed_track_labels(v@),
        r@.len() == v@.len(),
{
    let mut out: Vec<String> = Vec::new();
    let mut i: usize = 0;
    while i < v.len()
        invariant
            i <= v@.len(),
            out@.len() == i,
            forall|k: int| 0 <= k < i ==> (#[trigger] out@[k])@ == "track:  "@ + v@[k].0@ + "  \u{2014} "@ + v@[k].1@,
        decreases v@.len() - i,
    {
        let mut s = empty_string();
        push_str(&mut s, "track:  ");
        push_str(&mut s, v[i].0.as_str());
        push_str(&mut s, "  \u{2014} ");
        push_str(&mut s, v[i].1.as_str());
        out.push(s);
        i = i + 1;
    }
    proof {
        assert(strs_view(out@) =~= seed_track_labels(v@));
    }
    out
}

/// The Radio launcher's rows with the cursor on result `cursor`; see
/// `seed_rows_spec`.
pub fn seed_rows(results: Option<&SeedResults>, loading: bool, cursor: usize) -> (r: Vec<PanelRow>)
    requires
        results matches Some(res) ==> res.artists@.len() + res.albums@.len() + res.tracks@.len() <= usize::MAX,
    ensures
        panel_view(r@) == seed_rows_spec(
            match results {
                Some(res) => Some(*res),
                None => None,
            },
            loading,
            cursor as int,
        ),
{
    let mut out: Vec<PanelRow> = Vec::new();
    match results {
        Some(res) => {
            let la = prefixed_strings("artist: ", &res.artists);
            let lb = prefixed_strings("album:  ", &res.albums);
            let lt = track_strings(&res.tracks);
            let na = la.len();
            let nb = lb.len();
            push_seed_section(&mut out, "Artists", la, 0, cursor);
            push_seed_section(&mut out, "Albums", lb, na, cursor);
            push_seed_section(&mut out, "Tracks", lt, na + nb, cursor);
        },
        None => {
            if loading {
                out.push(PanelRow::Note("Searching\u{2026}"));
            } else {
                out.push(PanelRow::Note("Type to search, Enter to seed radio."));
            }
        },
    }
    proof {
        assert(panel_view(out@) =~= seed_rows_spec(
            match results {
                Some(res) => Some(*res),
                None => None,
            },
            loading,
            cursor as int,
        ));
    }
    out
}

/// The Radio launcher's title.
pub fn launcher_title(query: &str) -> (r: String)
    ensures
        r@ == "Radio from: "@ + query@,
{
    let mut out = empty_string();
    push_str(&mut out, "Radio from: ");
    push_str(&mut out, query);
    out
}

} // verus!
