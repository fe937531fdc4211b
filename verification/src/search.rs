//! The result lists of the search popup and the command palette: which
//! rows each shows, in which order, and the flat index a click on a result
//! hands back to the core (the order the core resolves it in: artists,
//! albums, playlists, genres, tracks).

use vstd::prelude::*;
use crate::strings::{push_str, empty_string};

verus! {

/// The tabs of the search popup.
#[derive(PartialEq, Eq, Structural, Clone, Copy, Debug)]
pub enum SearchTab {
    Global,
    Artists,
    Albums,
    Tracks,
    Playlists,
    Genres,
}

/// The kinds of search results, in display order.
#[derive(PartialEq, Eq, Structural, Clone, Copy, Debug)]
pub enum SearchSection {
    Artists,
    Albums,
    Playlists,
    Genres,
    Tracks,
}

/// The results of a search, as the popup shows them.
#[derive(Clone, Debug)]
pub struct SearchResults {
    /// Artist titles.
    pub artists: Vec<String>,
    /// Album titles with their artist, when known.
    pub albums: Vec<(String, Option<String>)>,
    /// Playlist titles.
    pub playlists: Vec<String>,
    /// Genre titles.
    pub genres: Vec<String>,
    /// Track titles with their artist.
    pub tracks: Vec<(String, String)>,
}

/// One row of the search popup's result list.
#[derive(Clone, Debug)]
pub enum SearchRow {
    /// A section header (shown on the "All" tab only).
    Header(SearchSection),
    /// A result: its label, its flat index, and whether the cursor is on it.
    Result { label: String, index: usize, selected: bool },
    /// The search ran and the tab has nothing.
    NoResults,
    /// Nothing typed yet.
    TypeToSearch,
    /// A query is pending.
    Searching,
}

/// A row as a value.
pub enum RowView {
    Header(SearchSection),
    Result(Seq<char>, int, bool),
    NoResults,
    TypeToSearch,
    Searching,
}

/// The value of a row.
pub open spec fn row_view(r: SearchRow) -> RowView {
    match r {
        SearchRow::Header(s) => RowView::Header(s),
        SearchRow::Result { label, index, selected } => RowView::Result(label@, index as int, selected),
        SearchRow::NoResults => RowView::NoResults,
        SearchRow::TypeToSearch => RowView::TypeToSearch,
        SearchRow::Searching => RowView::Searching,
    }
}

/// The values of rows.
pub open spec fn rows_view(v: Seq<SearchRow>) -> Seq<RowView> {
    v.map_values(|r: SearchRow| row_view(r))
}

/// The texts of strings.
pub open spec fn strs_view(v: Seq<String>) -> Seq<Seq<char>> {
    v.map_values(|l: String| l@)
}

/// Whether tab `t` lists section `s`: "All" lists every section, each
/// other tab its own.
pub open spec fn shows(t: SearchTab, s: SearchSection) -> bool {
    match t {
        SearchTab::Global => true,
        SearchTab::Artists => s == SearchSection::Artists,
        SearchTab::Albums => s == SearchSection::Albums,
        SearchTab::Tracks => s == SearchSection::Tracks,
        SearchTab::Playlists => s == SearchSection::Playlists,
        SearchTab::Genres => s == SearchSection::Genres,
    }
}

/// How many results section `s` contributes on tab `t` when it has `n`.
pub open spec fn shown_len(t: SearchTab, s: SearchSection, n: nat) -> nat {
    if shows(t, s) {
        n
    } else {
        0
    }
}

/// The rows of section `s` with result labels `labels`, numbered from
/// `base`: nothing when the tab hides it or it is empty; else a header on
/// the "All" tab, then one row per result.
pub open spec fn section_rows(t: SearchTab, s: SearchSection, labels: Seq<Seq<char>>, base: int, selected: int) -> Seq<
    RowView,
> {
    if !shows(t, s) || labels.len() == 0 {
        Seq::<RowView>::empty()
    } else {
        (if t == SearchTab::Global {
            seq![RowView::Header(s)]
        } else {
            Seq::<RowView>::empty()
        }) + Seq::new(labels.len(), |i: int| RowView::Result(labels[i], base + i, base + i == selected))
    }
}

/// Labels of plain results: the title, indented.
pub open spec fn plain_labels(v: Seq<String>) -> Seq<Seq<char>> {
    v.map_values(|t: String| "  "@ + t@)
}

/// Labels of album results: "title — artist" (the artist may be empty).
pub open spec fn album_labels(v: Seq<(String, Option<String>)>) -> Seq<Seq<char>> {
    v.map_values(
        |p: (String, Option<String>)|
            "  "@ + p.0@ + "  \u{2014} "@ + match p.1 {
                Some(a) => a@,
                None => Seq::<char>::empty(),
            },
    )
}

/// Labels of track results: "title — artist".
pub open spec fn track_labels(v: Seq<(String, String)>) -> Seq<Seq<char>> {
    v.map_values(|p: (String, String)| "  "@ + p.0@ + "  \u{2014} "@ + p.1@)
}

/// The result rows of `r` on tab `t`, the results numbered across the
/// shown sections in display order.
pub open spec fn results_rows(t: SearchTab, r: SearchResults, selected: int) -> Seq<RowView> {
    let la = plain_labels(r.artists@);
    let lb = album_labels(r.albums@);
    let lp = plain_labels(r.playlists@);
    let lg = plain_labels(r.genres@);
    let lt = track_labels(r.tracks@);
    let b1 = shown_len(t, SearchSection::Artists, la.len());
    let b2 = b1 + shown_len(t, SearchSection::Albums, lb.len());
    let b3 = b2 + shown_len(t, SearchSection::Playlists, lp.len());
    let b4 = b3 + shown_len(t, SearchSection::Genres, lg.len());
    section_rows(t, SearchSection::Artists, la, 0, selected) + section_rows(t, SearchSection::Albums, lb, b1 as int, selected)
        + section_rows(t, SearchSection::Playlists, lp, b2 as int, selected) + section_rows(
        t,
        SearchSection::Genres,
        lg,
        b3 as int,
        selected,
    ) + section_rows(t, SearchSection::Tracks, lt, b4 as int, selected)
}

/// The rows of the search popup: the result rows, or "no results" when
/// the tab has none; before any results, a prompt to type, or — with a
/// query typed — the searching notice.
pub open spec fn search_rows_spec(t: SearchTab, results: Option<SearchResults>, query_empty: bool, selected: int) -> Seq<
    RowView,
> {
    match results {
        Some(r) => if results_rows(t, r, selected).len() == 0 {
            seq![RowView::NoResults]
        } else {
            results_rows(t, r, selected)
        },
        None => if query_empty {
            seq![RowView::TypeToSearch]
        } else {
            seq![RowView::Searching]
        },
    }
}

/// The flat indices of the result rows among `rows`, in order.
pub open spec fn result_indices(rows: Seq<RowView>) -> Seq<int>
    decreases rows.len(),
{
    if rows.len() == 0 {
        Seq::<int>::empty()
    } else {
        let rest = result_indices(rows.drop_last());
        match rows.last() {
            RowView::Result(_, i, _) => rest.push(i),
            _ => rest,
        }
    }
}

proof fn lemma_result_indices_concat(a: Seq<RowView>, b: Seq<RowView>)
    ensures
        result_indices(a + b) == result_indices(a) + result_indices(b),
    decreases b.len(),
{
    if b.len() == 0 {
        assert(a + b =~= a);
        assert(result_indices(a) + result_indices(b) =~= result_indices(a));
    } else {
        lemma_result_indices_concat(a, b.drop_last());
        assert((a + b).drop_last() =~= a + b.drop_last());
        assert((a + b).last() == b.last());
        match b.last() {
            RowView::Result(_, i, _) => {
                assert(result_indices(a) + result_indices(b) =~= (result_indices(a) + result_indices(b.drop_last())).push(i));
            },
            _ => {},
        }
    }
}

proof fn lemma_result_run(labels: Seq<Seq<char>>, base: int, selected: int, n: int)
    requires
        0 <= n <= labels.len(),
    ensures
        result_indices(Seq::new(n as nat, |i: int| RowView::Result(labels[i], base + i, base + i == selected)))
            == Seq::new(n as nat, |i: int| base + i),
    decreases n,
{
    let rows = Seq::new(n as nat, |i: int| RowView::Result(labels[i], base + i, base + i == selected));
    if n > 0 {
        lemma_result_run(labels, base, selected, n - 1);
        assert(rows.drop_last() =~= Seq::new((n - 1) as nat, |i: int| RowView::Result(labels[i], base + i, base + i == selected)));
        assert(Seq::new((n - 1) as nat, |i: int| base + i).push(base + n - 1) =~= Seq::new(n as nat, |i: int| base + i));
    } else {
        assert(rows =~= Seq::<RowView>::empty());
        assert(Seq::new(0, |i: int| base + i) =~= Seq::<int>::empty());
    }
}

proof fn lemma_section_indices(t: SearchTab, s: SearchSection, labels: Seq<Seq<char>>, base: int, selected: int)
    ensures
        result_indices(section_rows(t, s, labels, base, selected)) == Seq::new(
            (if shows(t, s) { labels.len() } else { 0 }) as nat,
            |i: int| base + i,
        ),
{
    if !shows(t, s) || labels.len() == 0 {
        assert(Seq::new(0, |i: int| base + i) =~= Seq::<int>::empty());
        if shows(t, s) {
            assert(Seq::new(labels.len(), |i: int| base + i) =~= Seq::<int>::empty());
        }
    } else {
        let head = if t == SearchTab::Global {
            seq![RowView::Header(s)]
        } else {
            Seq::<RowView>::empty()
        };
        let run = Seq::new(labels.len(), |i: int| RowView::Result(labels[i], base + i, base + i == selected));
        lemma_result_indices_concat(head, run);
        lemma_result_run(labels, base, selected, labels.len() as int);
        if t == SearchTab::Global {
            assert(head.drop_last() =~= Seq::<RowView>::empty());
            assert(result_indices(head.drop_last()) == Seq::<int>::empty());
            assert(head.last() == RowView::Header(s));
        }
        assert(result_indices(head) =~= Seq::<int>::empty());
        assert(result_indices(head) + result_indices(run) =~= result_indices(run));
    }
}

/// Results are numbered in display order: the result rows of a tab carry
/// the flat indices `0, 1, 2, …` one after another across the shown
/// sections, with no gap and no repeat — the order the core resolves a
/// clicked index in — and a result row is marked selected exactly when
/// its index is the cursor's.
pub proof fn lemma_results_numbered_in_order(t: SearchTab, r: SearchResults, selected: int)
    ensures
        ({
            let rows = results_rows(t, r, selected);
            let total = shown_len(t, SearchSection::Artists, r.artists@.len()) + shown_len(t, SearchSection::Albums, r.albums@.len())
                + shown_len(t, SearchSection::Playlists, r.playlists@.len()) + shown_len(t, SearchSection::Genres, r.genres@.len())
                + shown_len(t, SearchSection::Tracks, r.tracks@.len());
            &&& result_indices(rows) == Seq::new(total as nat, |i: int| i)
            &&& forall|k: int| 0 <= k < rows.len() ==> (#[trigger] rows[k] matches RowView::Result(_, i, sel) ==> sel == (i == selected))
        }),
{
    let la = plain_labels(r.artists@);
    let lb = album_labels(r.albums@);
    let lp = plain_labels(r.playlists@);
    let lg = plain_labels(r.genres@);
    let lt = track_labels(r.tracks@);
    let b1 = shown_len(t, SearchSection::Artists, la.len());
    let b2 = b1 + shown_len(t, SearchSection::Albums, lb.len());
    let b3 = b2 + shown_len(t, SearchSection::Playlists, lp.len());
    let b4 = b3 + shown_len(t, SearchSection::Genres, lg.len());
    let s1 = section_rows(t, SearchSection::Artists, la, 0, selected);
    let s2 = section_rows(t, SearchSection::Albums, lb, b1 as int, selected);
    let s3 = section_rows(t, SearchSection::Playlists, lp, b2 as int, selected);
    let s4 = section_rows(t, SearchSection::Genres, lg, b3 as int, selected);
    let s5 = section_rows(t, SearchSection::Tracks, lt, b4 as int, selected);
    lemma_section_indices(t, SearchSection::Artists, la, 0, selected);
    lemma_section_indices(t, SearchSection::Albums, lb, b1 as int, selected);
    lemma_section_indices(t, SearchSection::Playlists, lp, b2 as int, selected);
    lemma_section_indices(t, SearchSection::Genres, lg, b3 as int, selected);
    lemma_section_indices(t, SearchSection::Tracks, lt, b4 as int, selected);
    lemma_result_indices_concat(s1, s2);
    lemma_result_indices_concat(s1 + s2, s3);
    lemma_result_indices_concat(s1 + s2 + s3, s4);
    lemma_result_indices_concat(s1 + s2 + s3 + s4, s5);
    let total = b4 + shown_len(t, SearchSection::Tracks, lt.len());
    assert(result_indices(results_rows(t, r, selected)) =~= Seq::new(total as nat, |i: int| i));
}

fn tab_shows(t: SearchTab, s: SearchSection) -> (r: bool)
    ensures
        r == shows(t, s),
{
    match t {
        SearchTab::Global => true,
        SearchTab::Artists => s == SearchSection::Artists,
        SearchTab::Albums => s == SearchSection::Albums,
        SearchTab::Tracks => s == SearchSection::Tracks,
        SearchTab::Playlists => s == SearchSection::Playlists,
        SearchTab::Genres => s == SearchSection::Genres,
    }
}

fn push_row(v: &mut Vec<SearchRow>, r: SearchRow)
    ensures
        rows_view(final(v)@) == rows_view(old(v)@).push(row_view(r)),
{
    let ghost before = rows_view(v@);
    v.push(r);
    proof {
        assert(rows_view(v@) =~= before.push(row_view(r)));
    }
}

/// Append the rows of one section; returns how many results it added.
fn push_section(
    out: &mut Vec<SearchRow>,
    t: SearchTab,
    s: SearchSection,
    labels: Vec<String>,
    base: usize,
    selected: usize,
) -> (added: usize)
    requires
        base + labels@.len() <= usize::MAX,
    ensures
        rows_view(final(out)@) == rows_view(old(out)@) + section_rows(t, s, strs_view(labels@), base as int, selected as int),
        added == shown_len(t, s, labels@.len()),
{
    let ghost lv = strs_view(labels@);
    let ghost start = rows_view(out@);
    if !tab_shows(t, s) || labels.len() == 0 {
        proof {
            assert(rows_view(out@) =~= start + section_rows(t, s, lv, base as int, selected as int));
        }
        return 0;
    }
    if t == SearchTab::Global {
        push_row(out, SearchRow::Header(s));
    }
    let ghost head = rows_view(out@);
    proof {
        assert(head =~= start + (if t == SearchTab::Global {
            seq![RowView::Header(s)]
        } else {
            Seq::<RowView>::empty()
        }));
    }
    let n = labels.len();
    let mut i: usize = 0;
    while i < n
        invariant
            i <= n,
            n == labels@.len(),
            lv == strs_view(labels@),
            base + n <= usize::MAX,
            rows_view(out@) == head + Seq::new(i as nat, |k: int| RowView::Result(lv[k], base + k, base + k == selected)),
        decreases n - i,
    {
        let ghost before = rows_view(out@);
        let mut label = empty_string();
        push_str(&mut label, labels[i].as_str());
        let idx = base + i;
        push_row(out, SearchRow::Result { label, index: idx, selected: idx == selected });
        proof {
            assert(rows_view(out@) =~= head + Seq::new((i + 1) as nat, |k: int| RowView::Result(lv[k], base + k, base + k == selected)));
        }
        i = i + 1;
    }
    proof {
        assert(rows_view(out@) =~= start + section_rows(t, s, lv, base as int, selected as int));
    }
    n
}

fn indented(t: &str) -> (r: String)
    ensures
        r@ == "  "@ + t@,
{
    let mut s = empty_string();
    push_str(&mut s, "  ");
    push_str(&mut s, t);
    s
}

fn plain_section(v: &Vec<String>) -> (r: Vec<String>)
    ensures
        strs_view(r@) == plain_labels(v@),
        r@.len() == v@.len(),
{
    let mut out: Vec<String> = Vec::new();
    let mut i: usize = 0;
    while i < v.len()
        invariant
            i <= v@.len(),
            out@.len() == i,
            strs_view(out@) =~= plain_labels(v@).take(i as int),
        decreases v@.len() - i,
    {
        let l = indented(v[i].as_str());
        let ghost before = out@;
        out.push(l);
        proof {
            assert(out@ == before.push(l));
            assert forall|k: int| 0 <= k < i + 1 implies #[trigger] strs_view(out@)[k] == plain_labels(v@).take(i as int + 1)[k] by {
                if k < i {
                    assert(out@[k] == before[k]);
                }
            }
            assert(strs_view(out@) =~= plain_labels(v@).take(i as int + 1));
        }
        i = i + 1;
    }
    proof {
        assert(plain_labels(v@).take(i as int) =~= plain_labels(v@));
    }
    out
}

fn album_section(v: &Vec<(String, Option<String>)>) -> (r: Vec<String>)
    ensures
        strs_view(r@) == album_labels(v@),
        r@.len() == v@.len(),
{
    let mut out: Vec<String> = Vec::new();
    let mut i: usize = 0;
    while i < v.len()
        invariant
            i <= v@.len(),
            out@.len() == i,
            strs_view(out@) =~= album_labels(v@).take(i as int),
        decreases v@.len() - i,
    {
        let mut s = indented(v[i].0.as_str());
        push_str(&mut s, "  \u{2014} ");
        match &v[i].1 {
            Some(a) => push_str(&mut s, a.as_str()),
            None => {},
        }
        let ghost before = out@;
        out.push(s);
        proof {
            assert(out@ == before.push(s));
            assert forall|k: int| 0 <= k < i + 1 implies #[trigger] strs_view(out@)[k] == album_labels(v@).take(i as int + 1)[k] by {
                if k < i {
                    assert(out@[k] == before[k]);
                }
            }
            assert(strs_view(out@) =~= album_labels(v@).take(i as int + 1));
        }
        i = i + 1;
    }
    proof {
        assert(album_labels(v@).take(i as int) =~= album_labels(v@));
    }
    out
}

fn track_section(v: &Vec<(String, String)>) -> (r: Vec<String>)
    ensures
        strs_view(r@) == track_labels(v@),
        r@.len() == v@.len(),
{
    let mut out: Vec<String> = Vec::new();
    let mut i: usize = 0;
    while i < v.len()
        invariant
            i <= v@.len(),
            out@.len() == i,
            strs_view(out@) =~= track_labels(v@).take(i as int),
        decreases v@.len() - i,
    {
        let mut s = indented(v[i].0.as_str());
        push_str(&mut s, "  \u{2014} ");
        push_str(&mut s, v[i].1.as_str());
        let ghost before = out@;
        out.push(s);
        proof {
            assert(out@ == before.push(s));
            assert forall|k: int| 0 <= k < i + 1 implies #[trigger] strs_view(out@)[k] == track_labels(v@).take(i as int + 1)[k] by {
                if k < i {
                    assert(out@[k] == before[k]);
                }
            }
            assert(strs_view(out@) =~= track_labels(v@).take(i as int + 1));
        }
        i = i + 1;
    }
    proof {
        assert(track_labels(v@).take(i as int) =~= track_labels(v@));
    }
    out
}

/// The rows of the search popup for tab `tab`, the results (`None` before
/// the first search), whether the query is empty, and the cursor's flat
/// result index; see `search_rows_spec`.
pub fn search_rows(tab: SearchTab, results: Option<&SearchResults>, query_empty: bool, selected: usize) -> (r: Vec<
    SearchRow,
>)
    requires
        results matches Some(res) ==> res.artists@.len() + res.albums@.len() + res.playlists@.len()
            + res.genres@.len() + res.tracks@.len() <= usize::MAX,
    ensures
        rows_view(r@) == search_rows_spec(
            tab,
            match results {
                Some(res) => Some(*res),
                None => None,
            },
            query_empty,
            selected as int,
        ),
{
    let mut out: Vec<SearchRow> = Vec::new();
    match results {
        Some(res) => {
            let b0: usize = 0;
            let n1 = push_section(&mut out, tab, SearchSection::Artists, plain_section(&res.artists), b0, selected);
            let b1 = b0 + n1;
            let n2 = push_section(&mut out, tab, SearchSection::Albums, album_section(&res.albums), b1, selected);
            let b2 = b1 + n2;
            let n3 = push_section(&mut out, tab, SearchSection::Playlists, plain_section(&res.playlists), b2, selected);
            let b3 = b2 + n3;
            let n4 = push_section(&mut out, tab, SearchSection::Genres, plain_section(&res.genres), b3, selected);
            let b4 = b3 + n4;
            let _n5 = push_section(&mut out, tab, SearchSection::Tracks, track_section(&res.tracks), b4, selected);
            proof {
                assert(rows_view(out@) =~= results_rows(tab, *res, selected as int));
            }
            if out.len() == 0 {
                push_row(&mut out, SearchRow::NoResults);
            }
        },
        None => {
            if query_empty {
                push_row(&mut out, SearchRow::TypeToSearch);
            } else {
                push_row(&mut out, SearchRow::Searching);
            }
        },
    }
    proof {
        assert(rows_view(out@) =~= search_rows_spec(
            tab,
            match results {
                Some(res) => Some(*res),
                None => None,
            },
            query_empty,
            selected as int,
        ));
    }
    out
}

/// The label of a section header: "— Artists —" and so on.
pub open spec fn header_label_spec(s: SearchSection) -> Seq<char> {
    match s {
        SearchSection::Artists => "\u{2014} Artists \u{2014}"@,
        SearchSection::Albums => "\u{2014} Albums \u{2014}"@,
        SearchSection::Playlists => "\u{2014} Playlists \u{2014}"@,
        SearchSection::Genres => "\u{2014} Genres \u{2014}"@,
        SearchSection::Tracks => "\u{2014} Tracks \u{2014}"@,
    }
}

/// The label of a section header.
pub fn header_label(s: SearchSection) -> (r: &'static str)
    ensures
        r@ == header_label_spec(s),
{
    match s {
        SearchSection::Artists => "\u{2014} Artists \u{2014}",
        SearchSection::Albums => "\u{2014} Albums \u{2014}",
        SearchSection::Playlists => "\u{2014} Playlists \u{2014}",
        SearchSection::Genres => "\u{2014} Genres \u{2014}",
        SearchSection::Tracks => "\u{2014} Tracks \u{2014}",
    }
}

/// The rows of the command palette: for each match (an entry index) in
/// order, the entry it names, marked selected when its position among
/// the matches is `selected`; matches naming no entry are skipped (their
/// position still counts).
pub open spec fn palette_rows_spec(matches: Seq<usize>, entry_count: nat, selected: int) -> Seq<(usize, bool)>
    decreases matches.len(),
{
    if matches.len() == 0 {
        Seq::<(usize, bool)>::empty()
    } else {
        let last = matches.len() - 1;
        palette_rows_spec(matches.drop_last(), entry_count, selected) + if (matches[last] as nat) < entry_count {
            seq![(matches[last], last == selected)]
        } else {
            Seq::<(usize, bool)>::empty()
        }
    }
}

/// The command palette's rows; see `palette_rows_spec`.
pub fn palette_rows(matches: &Vec<usize>, entry_count: usize, selected: usize) -> (r: Vec<(usize, bool)>)
    ensures
        r@ == palette_rows_spec(matches@, entry_count as nat, selected as int),
{
    let mut out: Vec<(usize, bool)> = Vec::new();
    let mut i: usize = 0;
    while i < matches.len()
        invariant
            i <= matches@.len(),
            out@ == palette_rows_spec(matches@.take(i as int), entry_count as nat, selected as int),
        decreases matches@.len() - i,
    {
        proof {
            assert(matches@.take(i as int + 1).drop_last() =~= matches@.take(i as int));
        }
        if matches[i] < entry_count {
            out.push((matches[i], i == selected));
        }
        proof {
            assert(out@ =~= palette_rows_spec(matches@.take(i as int + 1), entry_count as nat, selected as int));
        }
        i = i + 1;
    }
    proof {
        assert(matches@.take(i as int) =~= matches@);
    }
    out
}

} // verus!
