//! The Settings cache table: which rows it lists (the library's
//! categories, the folder listings, artwork and waveforms), what each
//! row's count, age and size cells hold, and the total size on disk.
//! Counts and sizes are handed on as numbers, for the caller to format.

use vstd::prelude::*;
use crate::folders::{FolderNav, FolderItemType};
use crate::strings::{push_str, empty_string, eq_str};
use crate::timefmt::{age_spec, dec, format_duration, push_dec};

verus! {

/// The library categories that refresh on their own schedule.
#[derive(PartialEq, Eq, Structural, Clone, Copy, Debug)]
pub enum RefreshCategory {
    Artists,
    Albums,
    AllTracks,
    Playlists,
    Genres,
    Moods,
    Styles,
    Stations,
}

/// How many items of each kind the library cache holds.
#[derive(Clone, Copy, Debug)]
pub struct LibraryCounts {
    pub artists: usize,
    pub albums: usize,
    pub tracks: usize,
    pub playlists: usize,
    pub genres: usize,
    pub moods: usize,
    pub styles: usize,
    pub stations: usize,
    /// Artist aliases, over all artists.
    pub aliases: usize,
}

/// What the cache table reads.
#[derive(Clone, Debug)]
pub struct CacheFacts {
    /// Connected with a library chosen.
    pub signed_in: bool,
    pub counts: LibraryCounts,
    /// When each category was last refreshed (seconds since the epoch),
    /// one entry per category at most.
    pub timestamps: Vec<(RefreshCategory, u64)>,
    /// The categories refreshing in the background now.
    pub refreshing: Vec<RefreshCategory>,
    /// The library cache's total size in bytes and its size by part.
    pub library_stats: Option<(u64, Vec<(String, u64)>)>,
    /// The folder navigation (its root column counts the root folders).
    pub folders: Option<FolderNav>,
    /// How many folder listings are cached.
    pub cached_listings: usize,
    /// Whether the subfolder crawl runs.
    pub crawling: bool,
    /// Artwork files and their bytes.
    pub artwork_stats: Option<(usize, u64)>,
    /// Waveform files and their bytes.
    pub waveform_stats: Option<(usize, u64)>,
}

/// A count cell: still loading, a number (formatted by the caller), or
/// ready text.
#[derive(Clone, Debug)]
pub enum CountCell {
    Loading,
    Number(usize),
    Text(String),
}

/// A size cell: bytes (formatted by the caller) or a dash.
#[derive(PartialEq, Eq, Structural, Clone, Copy, Debug)]
pub enum SizeCell {
    Bytes(u64),
    Dash,
}

/// One row of the cache table.
#[derive(Clone, Debug)]
pub struct CacheRow {
    pub label: &'static str,
    pub count: CountCell,
    pub age: String,
    pub size: SizeCell,
}

/// The cache table: its rows and the total size on disk (library,
/// artwork and waveforms).
#[derive(Clone, Debug)]
pub struct CacheTable {
    pub rows: Vec<CacheRow>,
    pub total_bytes: u64,
}

/// A count cell as a value.
pub enum CountSpec {
    Loading,
    Number(usize),
    Text(Seq<char>),
}

/// A row as a value.
pub struct RowSpec {
    pub label: Seq<char>,
    pub count: CountSpec,
    pub age: Seq<char>,
    pub size: SizeCell,
}

/// The value of a row.
pub open spec fn row_view(r: CacheRow) -> RowSpec {
    RowSpec {
        label: r.label@,
        count: match r.count {
            CountCell::Loading => CountSpec::Loading,
            CountCell::Number(n) => CountSpec::Number(n),
            CountCell::Text(t) => CountSpec::Text(t@),
        },
        age: r.age@,
        size: r.size,
    }
}

/// When category `c` was last refreshed (its first entry).
pub open spec fn stamp_of(ts: Seq<(RefreshCategory, u64)>, c: RefreshCategory) -> Option<u64>
    decreases ts.len(),
{
    if ts.len() == 0 {
        None
    } else if ts[0].0 == c {
        Some(ts[0].1)
    } else {
        stamp_of(ts.drop_first(), c)
    }
}

/// The size of part `name` of the library cache (its first entry).
pub open spec fn part_size(parts: Seq<(String, u64)>, name: Seq<char>) -> Option<u64>
    decreases parts.len(),
{
    if parts.len() == 0 {
        None
    } else if parts[0].0@ == name {
        Some(parts[0].1)
    } else {
        part_size(parts.drop_first(), name)
    }
}

/// The size cell of the library part `field`.
pub open spec fn size_cell(f: CacheFacts, field: Option<Seq<char>>) -> SizeCell {
    match (field, f.library_stats) {
        (Some(name), Some((_, parts))) => match part_size(parts@, name) {
            Some(b) => SizeCell::Bytes(b),
            None => SizeCell::Dash,
        },
        _ => SizeCell::Dash,
    }
}

/// The age cell of category `cat`: the time since its last refresh, with
/// ` (refreshing)` behind while it refreshes.
pub open spec fn age_cell(f: CacheFacts, cat: Option<RefreshCategory>, now: u64) -> Seq<char> {
    let base = match cat {
        Some(c) => match stamp_of(f.timestamps@, c) {
            Some(t) => age_spec(if now >= t { (now - t) as nat } else { 0 }),
            None => Seq::empty(),
        },
        None => Seq::empty(),
    };
    let refreshing = match cat {
        Some(c) => f.refreshing@.contains(c),
        None => false,
    };
    if refreshing {
        base + " (refreshing)"@
    } else {
        base
    }
}

/// A library category's row: its label, count, whether it still loads,
/// its refresh category and the name of its part of the cache.
pub struct LibraryRowDef {
    pub label: Seq<char>,
    pub count: usize,
    pub loading: bool,
    pub cat: Option<RefreshCategory>,
    pub field: Option<Seq<char>>,
}

/// The library categories in table order. Tracks load in the background
/// and read "loading" until the first arrive.
pub open spec fn library_defs(c: LibraryCounts) -> Seq<LibraryRowDef> {
    seq![
        LibraryRowDef { label: "Artists"@, count: c.artists, loading: false, cat: Some(RefreshCategory::Artists), field: Some("artists"@) },
        LibraryRowDef { label: "Albums"@, count: c.albums, loading: false, cat: Some(RefreshCategory::Albums), field: Some("albums"@) },
        LibraryRowDef { label: "Tracks"@, count: c.tracks, loading: c.tracks == 0, cat: Some(RefreshCategory::AllTracks), field: Some("tracks"@) },
        LibraryRowDef { label: "Playlists"@, count: c.playlists, loading: false, cat: Some(RefreshCategory::Playlists), field: Some("playlist tracks"@) },
        LibraryRowDef { label: "Genres"@, count: c.genres, loading: false, cat: Some(RefreshCategory::Genres), field: Some("genres"@) },
        LibraryRowDef { label: "Moods"@, count: c.moods, loading: false, cat: Some(RefreshCategory::Moods), field: None },
        LibraryRowDef { label: "Styles"@, count: c.styles, loading: false, cat: Some(RefreshCategory::Styles), field: None },
        LibraryRowDef { label: "Stations"@, count: c.stations, loading: false, cat: Some(RefreshCategory::Stations), field: Some("stations"@) },
        LibraryRowDef { label: "Aliases"@, count: c.aliases, loading: false, cat: None, field: None },
    ]
}

/// The row of a library category, or nothing when it is empty and not
/// loading.
pub open spec fn library_row(f: CacheFacts, d: LibraryRowDef, now: u64) -> Seq<RowSpec> {
    if d.count == 0 && !d.loading {
        Seq::empty()
    } else {
        seq![RowSpec {
            label: d.label,
            count: if d.loading { CountSpec::Loading } else { CountSpec::Number(d.count) },
            age: age_cell(f, d.cat, now),
            size: size_cell(f, d.field),
        }]
    }
}

/// The rows of the library categories, in order.
pub open spec fn library_rows(f: CacheFacts, now: u64) -> Seq<RowSpec> {
    let d = library_defs(f.counts);
    library_row(f, d[0], now) + library_row(f, d[1], now) + library_row(f, d[2], now) + library_row(f, d[3], now)
        + library_row(f, d[4], now) + library_row(f, d[5], now) + library_row(f, d[6], now) + library_row(f, d[7], now)
        + library_row(f, d[8], now)
}

/// How many of `items` are folders.
pub open spec fn folder_count(items: Seq<crate::folders::FolderItem>) -> nat
    decreases items.len(),
{
    if items.len() == 0 {
        0
    } else {
        folder_count(items.drop_last()) + if items.last().item_type == FolderItemType::Folder {
            1nat
        } else {
            0nat
        }
    }
}

/// How many folders the root folder column lists.
pub open spec fn root_folders(f: CacheFacts) -> nat {
    match f.folders {
        Some(n) => if n.columns@.len() > 0 {
            folder_count(n.columns@[0].items@)
        } else {
            0
        },
        None => 0,
    }
}

/// The folders row: "cached/roots" (or the root count alone before any
/// listing is cached), "crawling" while the crawl runs, and the folders
/// part's size; only when there are root folders or cached listings.
pub open spec fn folders_row(f: CacheFacts) -> Seq<RowSpec> {
    let roots = root_folders(f);
    if roots > 0 || f.cached_listings > 0 {
        seq![RowSpec {
            label: "Folders"@,
            count: CountSpec::Text(if f.cached_listings > 0 {
                dec(f.cached_listings as nat) + "/"@ + dec(roots)
            } else {
                dec(roots)
            }),
            age: if f.crawling { "crawling"@ } else { Seq::empty() },
            size: size_cell(f, Some("folders"@)),
        }]
    } else {
        Seq::empty()
    }
}

/// A files row (artwork, waveforms): count and bytes, when either is set.
pub open spec fn files_row(label: Seq<char>, stats: Option<(usize, u64)>) -> Seq<RowSpec> {
    match stats {
        Some((n, b)) => if n > 0 || b > 0 {
            seq![RowSpec { label, count: CountSpec::Number(n), age: Seq::empty(), size: SizeCell::Bytes(b) }]
        } else {
            Seq::empty()
        },
        None => Seq::empty(),
    }
}

/// The rows of the cache table at time `now`.
pub open spec fn cache_rows_spec(f: CacheFacts, now: u64) -> Seq<RowSpec> {
    library_rows(f, now) + folders_row(f) + files_row("Artwork"@, f.artwork_stats)
        + files_row("Waveforms"@, f.waveform_stats)
}

/// The total size on disk: the library cache, artwork and waveforms.
pub open spec fn total_spec(f: CacheFacts) -> int {
    (match f.artwork_stats {
        Some((_, b)) => b as int,
        None => 0,
    }) + (match f.library_stats {
        Some((b, _)) => b as int,
        None => 0,
    }) + (match f.waveform_stats {
        Some((_, b)) => b as int,
        None => 0,
    })
}

/// The rows `r` stands for: its row, or none.
pub open spec fn opt_rows(r: Option<CacheRow>) -> Seq<RowSpec> {
    match r {
        Some(x) => seq![row_view(x)],
        None => Seq::empty(),
    }
}

fn push_opt(v: &mut Vec<CacheRow>, r: Option<CacheRow>)
    ensures
        final(v)@.map_values(|x: CacheRow| row_view(x)) == old(v)@.map_values(|x: CacheRow| row_view(x)) + opt_rows(r),
{
    let ghost before = v@;
    match r {
        Some(x) => {
            v.push(x);
            proof {
                assert(v@.map_values(|x: CacheRow| row_view(x)) =~= before.map_values(|x: CacheRow| row_view(x))
                    + opt_rows(r));
            }
        },
        None => {
            proof {
                assert(before.map_values(|x: CacheRow| row_view(x)) + opt_rows(r) =~= before.map_values(
                    |x: CacheRow| row_view(x),
                ));
            }
        },
    }
}

fn stamp_lookup(ts: &Vec<(RefreshCategory, u64)>, c: RefreshCategory) -> (r: Option<u64>)
    ensures
        r == stamp_of(ts@, c),
{
    let mut i: usize = 0;
    proof {
        assert(ts@.skip(0) =~= ts@);
    }
    while i < ts.len()
        invariant
            i <= ts@.len(),
            stamp_of(ts@, c) == stamp_of(ts@.skip(i as int), c),
        decreases ts@.len() - i,
    {
        proof {
            assert(ts@.skip(i as int).drop_first() =~= ts@.skip(i as int + 1));
        }
        if ts[i].0 == c {
            return Some(ts[i].1);
        }
        i = i + 1;
    }
    None
}

fn part_lookup(parts: &Vec<(String, u64)>, name: &str) -> (r: Option<u64>)
    ensures
        r == part_size(parts@, name@),
{
    let mut i: usize = 0;
    proof {
        assert(parts@.skip(0) =~= parts@);
    }
    while i < parts.len()
        invariant
            i <= parts@.len(),
            part_size(parts@, name@) == part_size(parts@.skip(i as int), name@),
        decreases parts@.len() - i,
    {
        proof {
            assert(parts@.skip(i as int).drop_first() =~= parts@.skip(i as int + 1));
        }
        if eq_str(parts[i].0.as_str(), name) {
            return Some(parts[i].1);
        }
        i = i + 1;
    }
    None
}

fn refreshing_now(v: &Vec<RefreshCategory>, c: RefreshCategory) -> (r: bool)
    ensures
        r == v@.contains(c),
{
    let mut i: usize = 0;
    while i < v.len()
        invariant
            i <= v@.len(),
            forall|j: int| 0 <= j < i ==> v@[j] != c,
        decreases v@.len() - i,
    {
        if v[i] == c {
            proof {
                assert(v@[i as int] == c);
            }
            return true;
        }
        i = i + 1;
    }
    false
}

fn size_for(f: &CacheFacts, field: Option<&str>) -> (r: SizeCell)
    ensures
        r == size_cell(
            *f,
            match field {
                Some(s) => Some(s@),
                None => None,
            },
        ),
{
    match (field, &f.library_stats) {
        (Some(name), Some((_, parts))) => match part_lookup(parts, name) {
            Some(b) => SizeCell::Bytes(b),
            None => SizeCell::Dash,
        },
        _ => SizeCell::Dash,
    }
}

fn age_for(f: &CacheFacts, cat: Option<RefreshCategory>, now: u64) -> (r: String)
    ensures
        r@ == age_cell(*f, cat, now),
{
    let mut out = match cat {
        Some(c) => match stamp_lookup(&f.timestamps, c) {
            Some(t) => format_duration(if now >= t { now - t } else { 0 }),
            None => empty_string(),
        },
        None => empty_string(),
    };
    let refreshing = match cat {
        Some(c) => refreshing_now(&f.refreshing, c),
        None => false,
    };
    if refreshing {
        push_str(&mut out, " (refreshing)");
    }
    out
}

fn library_row_exec(
    f: &CacheFacts,
    label: &'static str,
    count: usize,
    loading: bool,
    cat: Option<RefreshCategory>,
    field: Option<&'static str>,
    now: u64,
) -> (r: Option<CacheRow>)
    ensures
        opt_rows(r) == library_row(
            *f,
            LibraryRowDef {
                label: label@,
                count,
                loading,
                cat,
                field: match field {
                    Some(s) => Some(s@),
                    None => None,
                },
            },
            now,
        ),
{
    if count == 0 && !loading {
        return None;
    }
    Some(
        CacheRow {
            label,
            count: if loading {
                CountCell::Loading
            } else {
                CountCell::Number(count)
            },
            age: age_for(f, cat, now),
            size: size_for(f, field),
        },
    )
}

fn count_folders(items: &Vec<crate::folders::FolderItem>) -> (r: usize)
    ensures
        r == folder_count(items@),
{
    let mut n: usize = 0;
    let mut i: usize = 0;
    while i < items.len()
        invariant
            i <= items@.len(),
            n == folder_count(items@.take(i as int)),
            n <= i,
        decreases items@.len() - i,
    {
        proof {
            assert(items@.take(i as int + 1).drop_last() =~= items@.take(i as int));
        }
        match items[i].item_type {
            FolderItemType::Folder => {
                n = n + 1;
            },
            FolderItemType::Track => {},
        }
        i = i + 1;
    }
    proof {
        assert(items@.take(i as int) =~= items@);
    }
    n
}

fn files_row_exec(label: &'static str, stats: Option<(usize, u64)>) -> (r: Option<CacheRow>)
    ensures
        opt_rows(r) == files_row(label@, stats),
{
    match stats {
        Some((n, b)) => if n > 0 || b > 0 {
            Some(CacheRow { label, count: CountCell::Number(n), age: empty_string(), size: SizeCell::Bytes(b) })
        } else {
            None
        },
        None => None,
    }
}

/// The cache table at time `now` (seconds since the epoch): `None` while
/// signed out, else the rows of `cache_rows_spec` and the total size.
pub fn cache_table(f: &CacheFacts, now: u64) -> (r: Option<CacheTable>)
    requires
        total_spec(*f) <= u64::MAX,
    ensures
        !f.signed_in ==> r is None,
        f.signed_in ==> (r matches Some(t) && t.rows@.map_values(|x: CacheRow| row_view(x)) == cache_rows_spec(*f, now)
            && t.total_bytes == total_spec(*f)),
{
    if !f.signed_in {
        return None;
    }
    let c = f.counts;
    let mut rows: Vec<CacheRow> = Vec::new();
    push_opt(&mut rows, library_row_exec(f, "Artists", c.artists, false, Some(RefreshCategory::Artists), Some("artists"), now));
    push_opt(&mut rows, library_row_exec(f, "Albums", c.albums, false, Some(RefreshCategory::Albums), Some("albums"), now));
    push_opt(&mut rows, library_row_exec(f, "Tracks", c.tracks, c.tracks == 0, Some(RefreshCategory::AllTracks), Some("tracks"), now));
    push_opt(&mut rows, library_row_exec(f, "Playlists", c.playlists, false, Some(RefreshCategory::Playlists), Some("playlist tracks"), now));
    push_opt(&mut rows, library_row_exec(f, "Genres", c.genres, false, Some(RefreshCategory::Genres), Some("genres"), now));
    push_opt(&mut rows, library_row_exec(f, "Moods", c.moods, false, Some(RefreshCategory::Moods), None, now));
    push_opt(&mut rows, library_row_exec(f, "Styles", c.styles, false, Some(RefreshCategory::Styles), None, now));
    push_opt(&mut rows, library_row_exec(f, "Stations", c.stations, false, Some(RefreshCategory::Stations), Some("stations"), now));
    push_opt(&mut rows, library_row_exec(f, "Aliases", c.aliases, false, None, None, now));
    proof {
        assert(rows@.map_values(|x: CacheRow| row_view(x)) =~= library_rows(*f, now));
    }
    let roots = match &f.folders {
        Some(n) => if n.columns.len() > 0 {
            count_folders(&n.columns[0].items)
        } else {
            0
        },
        None => 0,
    };
    if roots > 0 || f.cached_listings > 0 {
        let mut count = empty_string();
        if f.cached_listings > 0 {
            push_dec(&mut count, f.cached_listings as u64);
            push_str(&mut count, "/");
        }
        push_dec(&mut count, roots as u64);
        let mut age = empty_string();
        if f.crawling {
            push_str(&mut age, "crawling");
        }
        let row = CacheRow { label: "Folders", count: CountCell::Text(count), age, size: size_for(f, Some("folders")) };
        push_opt(&mut rows, Some(row));
    } else {
        push_opt(&mut rows, None);
    }
    proof {
        assert(rows@.map_values(|x: CacheRow| row_view(x)) =~= library_rows(*f, now) + folders_row(*f));
    }
    push_opt(&mut rows, files_row_exec("Artwork", f.artwork_stats));
    push_opt(&mut rows, files_row_exec("Waveforms", f.waveform_stats));
    let mut total: u64 = 0;
    match f.artwork_stats {
        Some((_, b)) => {
            total = total + b;
        },
        None => {},
    }
    match &f.library_stats {
        Some((b, _)) => {
            total = total + *b;
        },
        None => {},
    }
    match f.waveform_stats {
        Some((_, b)) => {
            total = total + b;
        },
        None => {},
    }
    Some(CacheTable { rows, total_bytes: total })
}

} // verus!
