//! Scrolling and virtualization arithmetic for lists and Miller columns:
//! which rows to materialise for a viewport, which columns fit on screen,
//! and where a terminal list scrolls to keep its selection visible.

use vstd::prelude::*;

verus! {

/// Rows rendered beyond each edge of the viewport, to cover one frame of
/// fast-scroll latency between a scroll event and the next render.
pub const BUFFER_ROWS: usize = 6;

/// Top edge (in px) of row `k`: the sum of the heights of rows `0..k`.
pub open spec fn prefix(h: Seq<u32>, k: int) -> int
    decreases k,
{
    if k <= 0 || k > h.len() {
        0
    } else {
        prefix(h, k - 1) + h[k - 1]
    }
}

/// How many of the row edges `0..k` (edge `j` at `prefix(h, j)`) lie at or
/// above `t`.
pub open spec fn edges_at_most(h: Seq<u32>, t: int, k: int) -> int
    decreases k,
{
    if k <= 0 {
        0
    } else {
        edges_at_most(h, t, k - 1) + (if prefix(h, k - 1) <= t { 1int } else { 0int })
    }
}

/// How many of the row edges `0..k` lie strictly above `t`.
pub open spec fn edges_below(h: Seq<u32>, t: int, k: int) -> int
    decreases k,
{
    if k <= 0 {
        0
    } else {
        edges_below(h, t, k - 1) + (if prefix(h, k - 1) < t { 1int } else { 0int })
    }
}

/// The slice of rows a virtualized column materialises, plus the heights
/// of the spacers standing in for the rows above and below it.
#[derive(Debug, Clone, Copy, PartialEq, Eq)]
pub struct RowWindow {
    /// First materialised row.
    pub first: usize,
    /// One past the last materialised row.
    pub last: usize,
    /// Height of the spacer above `first` (the top edge of row `first`).
    pub top_spacer: u64,
    /// Height of the spacer below `last`.
    pub bottom_spacer: u64,
}

/// The window the virtualized Miller column renders, given each row's
/// height and the viewport `[view_top, view_bot)` in whole pixels.
pub open spec fn row_window_spec(h: Seq<u32>, view_top: int, view_bot: int) -> RowWindow {
    let n = h.len() as int;
    let first_exact = edges_at_most(h, view_top, n + 1) - 1;
    let last_exact = edges_below(h, view_bot, n + 1);
    let first = if first_exact >= BUFFER_ROWS as int { first_exact - BUFFER_ROWS as int } else { 0 };
    let last = if last_exact + BUFFER_ROWS as int <= n { last_exact + BUFFER_ROWS as int } else { n };
    RowWindow {
        first: first as usize,
        last: last as usize,
        top_spacer: prefix(h, first) as u64,
        bottom_spacer: (prefix(h, n) - prefix(h, last)) as u64,
    }
}

proof fn lemma_prefix_monotone(h: Seq<u32>, a: int, b: int)
    requires
        0 <= a <= b <= h.len(),
    ensures
        prefix(h, a) <= prefix(h, b),
    decreases b - a,
{
    if a < b {
        lemma_prefix_monotone(h, a, b - 1);
    }
}

proof fn lemma_edges_bounds(h: Seq<u32>, t: int, k: int)
    requires
        0 <= k,
    ensures
        0 <= edges_at_most(h, t, k) <= k,
        0 <= edges_below(h, t, k) <= k,
    decreases k,
{
    if k > 0 {
        lemma_edges_bounds(h, t, k - 1);
    }
}

/// With monotone edges, the edges at or above `t` form a prefix: edge `j`
/// is counted exactly when `j` is below the count.
proof fn lemma_edges_at_most_prefix(h: Seq<u32>, t: int, k: int, j: int)
    requires
        0 <= j < k <= h.len() as int + 1,
    ensures
        (prefix(h, j) <= t) <==> (j < edges_at_most(h, t, k)),
    decreases k,
{
    lemma_edges_bounds(h, t, k - 1);
    if j < k - 1 {
        lemma_edges_at_most_prefix(h, t, k - 1, j);
        if prefix(h, k - 1) <= t {
            // every earlier edge is also at or above t
            if !(prefix(h, j) <= t) {
                lemma_prefix_monotone(h, j, k - 1);
            }
        }
    } else {
        // j == k - 1
        if prefix(h, j) <= t {
            assert forall|i: int| 0 <= i < j implies prefix(h, i) <= t by {
                lemma_prefix_monotone(h, i, j);
            }
            lemma_all_counted_at_most(h, t, j);
        } else {
            lemma_edges_bounds(h, t, j);
        }
    }
}

proof fn lemma_all_counted_at_most(h: Seq<u32>, t: int, k: int)
    requires
        0 <= k <= h.len() as int + 1,
        forall|i: int| 0 <= i < k ==> prefix(h, i) <= t,
    ensures
        edges_at_most(h, t, k) == k,
    decreases k,
{
    if k > 0 {
        lemma_all_counted_at_most(h, t, k - 1);
    }
}

proof fn lemma_all_counted_below(h: Seq<u32>, t: int, k: int)
    requires
        0 <= k <= h.len() as int + 1,
        forall|i: int| 0 <= i < k ==> prefix(h, i) < t,
    ensures
        edges_below(h, t, k) == k,
    decreases k,
{
    if k > 0 {
        lemma_all_counted_below(h, t, k - 1);
    }
}

proof fn lemma_edges_below_mono(h: Seq<u32>, t: int, a: int, b: int)
    requires
        0 <= a <= b,
    ensures
        edges_below(h, t, a) <= edges_below(h, t, b),
    decreases b - a,
{
    if a < b {
        lemma_edges_below_mono(h, t, a, b - 1);
    }
}

/// Compute the materialised row window of a virtualized column.
///
/// `heights[k]` is row `k`'s pixel height; the viewport spans
/// `[view_top, view_bot)`. The window starts `BUFFER_ROWS` before the row
/// containing `view_top`, ends `BUFFER_ROWS` after the last row starting
/// above `view_bot` (both clamped to the list), and the spacers make up the
/// remaining height above and below.
pub fn row_window(heights: &Vec<u32>, view_top: u64, view_bot: u64) -> (r: RowWindow)
    requires
        heights@.len() < usize::MAX,
        prefix(heights@, heights@.len() as int) <= u64::MAX,
    ensures
        r == row_window_spec(heights@, view_top as int, view_bot as int),
        r.first <= heights@.len(),
        r.last <= heights@.len(),
{
    let ghost h = heights@;
    let n = heights.len();
    // Cumulative top edges: cum[k] is the top of row k; cum[n] is the total height.
    let mut cum: Vec<u64> = Vec::new();
    cum.push(0);
    let mut at_most: usize = 0;
    let mut below: usize = 0;
    if 0 <= view_top { at_most = 1; }
    if 0 < view_bot { below = 1; }
    let mut k: usize = 0;
    assert(edges_at_most(h, view_top as int, 0) == 0);
    assert(edges_below(h, view_bot as int, 0) == 0);
    assert(prefix(h, 0) == 0);
    while k < n
        invariant
            n == h.len(),
            n < usize::MAX,
            h == heights@,
            k <= n,
            at_most >= 1,
            cum@.len() == k + 1,
            forall|j: int| 0 <= j <= k ==> cum@[j] == prefix(h, j),
            prefix(h, n as int) <= u64::MAX,
            at_most == edges_at_most(h, view_top as int, k + 1),
            below == edges_below(h, view_bot as int, k + 1),
            at_most <= k + 1,
            below <= k + 1,
        decreases n - k,
    {
        proof {
            lemma_prefix_monotone(h, k + 1, n as int);
        }
        let next = cum[k] + heights[k] as u64;
        cum.push(next);
        if next <= view_top { at_most = at_most + 1; }
        if next < view_bot { below = below + 1; }
        k = k + 1;
    }
    let first_exact = at_most - 1;
    let first = if first_exact >= BUFFER_ROWS { first_exact - BUFFER_ROWS } else { 0 };
    let last = if n >= BUFFER_ROWS && below <= n - BUFFER_ROWS { below + BUFFER_ROWS } else { n };
    proof {
        lemma_prefix_monotone(h, first as int, n as int);
        lemma_prefix_monotone(h, last as int, n as int);
    }
    let r = RowWindow {
        first,
        last,
        top_spacer: cum[first],
        bottom_spacer: cum[n] - cum[last],
    };
    proof {
        // first <= last: the first edge strictly below view_top... holds whenever
        // some row start lies at or above view_top, which edge 0 always does.
        lemma_edges_bounds(h, view_top as int, n + 1);
        lemma_edges_bounds(h, view_bot as int, n + 1);
    }
    r
}

proof fn lemma_first_exact_le(h: Seq<u32>, t: int, k: int)
    requires
        0 <= k < h.len(),
        prefix(h, k + 1) > t,
    ensures
        edges_at_most(h, t, h.len() as int + 1) - 1 <= k,
{
    lemma_edges_at_most_prefix(h, t, h.len() as int + 1, k + 1);
}

proof fn lemma_below_last_exact(h: Seq<u32>, b: int, k: int)
    requires
        0 <= k < h.len(),
        prefix(h, k) < b,
    ensures
        k < edges_below(h, b, h.len() as int + 1),
{
    assert forall|i: int| 0 <= i < k + 1 implies prefix(h, i) < b by {
        lemma_prefix_monotone(h, i, k);
    }
    lemma_all_counted_below(h, b, k + 1);
    lemma_edges_below_mono(h, b, k + 1, h.len() as int + 1);
}

proof fn lemma_first_before_last(h: Seq<u32>, view_top: int, view_bot: int)
    requires
        0 <= view_top < view_bot,
    ensures
        0 <= edges_at_most(h, view_top, h.len() as int + 1) - 1 < edges_below(h, view_bot, h.len() as int + 1),
        edges_below(h, view_bot, h.len() as int + 1) <= h.len() as int + 1,
{
    let n = h.len() as int;
    let fe = edges_at_most(h, view_top, n + 1) - 1;
    lemma_edges_bounds(h, view_top, n + 1);
    lemma_edges_bounds(h, view_bot, n + 1);
    lemma_edges_at_most_prefix(h, view_top, n + 1, 0);
    assert forall|i: int| 0 <= i < fe + 1 implies prefix(h, i) < view_bot by {
        lemma_edges_at_most_prefix(h, view_top, n + 1, i);
    }
    lemma_all_counted_below(h, view_bot, fe + 1);
    lemma_edges_below_mono(h, view_bot, fe + 1, n + 1);
}

/// Every row that overlaps a non-empty viewport is materialised, the
/// window stays inside the list, and the two spacers plus the rendered
/// rows add up to the column's full height (so the scrollable's content
/// bounds never drift, however stale the scroll offset is).
pub proof fn lemma_row_window_covers_viewport(h: Seq<u32>, view_top: int, view_bot: int)
    requires
        0 <= view_top < view_bot,
        h.len() < usize::MAX,
        prefix(h, h.len() as int) <= u64::MAX,
    ensures
        ({
            let w = row_window_spec(h, view_top, view_bot);
            &&& w.first <= w.last <= h.len()
            &&& forall|k: int|
                0 <= k < h.len() && #[trigger] prefix(h, k) < view_bot && prefix(h, k + 1) > view_top
                    ==> w.first <= k < w.last
            &&& w.top_spacer + (prefix(h, w.last as int) - prefix(h, w.first as int)) + w.bottom_spacer
                == prefix(h, h.len() as int)
        }),
{
    let n = h.len() as int;
    lemma_first_before_last(h, view_top, view_bot);
    let w = row_window_spec(h, view_top, view_bot);
    let fe = edges_at_most(h, view_top, n + 1) - 1;
    let le = edges_below(h, view_bot, n + 1);
    let first = if fe >= BUFFER_ROWS as int { fe - BUFFER_ROWS as int } else { 0 };
    let last = if le + BUFFER_ROWS as int <= n { le + BUFFER_ROWS as int } else { n };
    assert(w.first as int == first);
    assert(w.last as int == last);
    assert forall|k: int|
        0 <= k < h.len() && #[trigger] prefix(h, k) < view_bot && prefix(h, k + 1) > view_top
            implies w.first <= k < w.last by {
        lemma_first_exact_le(h, view_top, k);
        lemma_below_last_exact(h, view_bot, k);
    }
    lemma_prefix_monotone(h, 0, first);
    lemma_prefix_monotone(h, first, n);
    lemma_prefix_monotone(h, last, n);
    lemma_prefix_monotone(h, first, last);
    assert(w.top_spacer as int == prefix(h, first));
    assert(w.bottom_spacer as int == prefix(h, n) - prefix(h, last));
}

/// Scroll offset that keeps `selected` visible in a terminal list of
/// `total_items` rows shown `viewport_height` rows at a time: pinned to the
/// top near the start, to the bottom near the end, and centred otherwise.
pub open spec fn scroll_offset_spec(selected: int, viewport_height: int, total_items: int) -> int {
    let half = viewport_height / 2;
    if total_items == 0 || viewport_height == 0 {
        0
    } else if selected < half {
        0
    } else if selected + half >= total_items {
        if total_items >= viewport_height { total_items - viewport_height } else { 0 }
    } else {
        selected - half
    }
}

/// Calculate scroll offset to keep selected item visible in the viewport.
pub fn calculate_scroll_offset(selected: usize, viewport_height: usize, total_items: usize) -> (r: usize)
    requires
        selected + viewport_height / 2 <= usize::MAX,
    ensures
        r == scroll_offset_spec(selected as int, viewport_height as int, total_items as int),
{
    if total_items == 0 || viewport_height == 0 {
        return 0;
    }
    let half_height = viewport_height / 2;
    if selected < half_height {
        0
    } else if selected + half_height >= total_items {
        total_items.saturating_sub(viewport_height)
    } else {
        selected.saturating_sub(half_height)
    }
}

/// The rows `[start, end)` a terminal list of `total_items` rows shows in
/// `viewport_height` rows with row `selected` under the cursor.
pub open spec fn selectable_window_spec(selected: int, viewport_height: int, total_items: int) -> (int, int) {
    let off = scroll_offset_spec(selected, viewport_height, total_items);
    (off, if off + viewport_height <= total_items { off + viewport_height } else { total_items })
}

/// The rows a terminal list shows; see `selectable_window_spec`.
pub fn selectable_window(selected: usize, viewport_height: usize, total_items: usize) -> (r: (usize, usize))
    requires
        selected + viewport_height <= usize::MAX,
    ensures
        r.0 as int == selectable_window_spec(selected as int, viewport_height as int, total_items as int).0,
        r.1 as int == selectable_window_spec(selected as int, viewport_height as int, total_items as int).1,
{
    let off = calculate_scroll_offset(selected, viewport_height, total_items);
    let end = if off <= total_items && viewport_height <= total_items - off { off + viewport_height } else { total_items };
    (off, end)
}

/// The selected row of a non-empty list is always inside the visible
/// slice, and the slice never runs past the end of the list.
pub proof fn lemma_scroll_offset_keeps_selection_visible(selected: int, viewport_height: int, total_items: int)
    requires
        0 <= selected < total_items,
        viewport_height > 0,
    ensures
        ({
            let off = scroll_offset_spec(selected, viewport_height, total_items);
            &&& 0 <= off <= selected < off + viewport_height
            &&& off + (if viewport_height < total_items { viewport_height } else { total_items }) <= total_items
        }),
{
}

/// Which Miller columns `[start, end)` fit on screen: at most `max_visible`
/// of them, sliding right to reveal the deepest column while keeping the
/// focused one in view.
pub open spec fn visible_window_spec(total: int, focused: int, max_visible: int) -> (int, int) {
    if total == 0 {
        (0, 0)
    } else {
        let rightmost = if total - 1 >= focused { total - 1 } else { focused };
        let start = if rightmost + 1 > max_visible {
            let s = rightmost + 1 - max_visible;
            if s <= focused { s } else { focused }
        } else {
            0
        };
        let end = if start + max_visible <= total { start + max_visible } else { total };
        (start, end)
    }
}

/// Pick the range of Miller columns to show, given how many exist, which
/// one has focus, and how many fit side by side (at least one).
pub fn visible_window(total: usize, focused: usize, max_visible: usize) -> (r: (usize, usize))
    requires
        max_visible >= 1,
    ensures
        r.0 as int == visible_window_spec(total as int, focused as int, max_visible as int).0,
        r.1 as int == visible_window_spec(total as int, focused as int, max_visible as int).1,
{
    if total == 0 {
        return (0, 0);
    }
    let last_idx = total - 1;
    let rightmost = if last_idx >= focused { last_idx } else { focused };
    let start = if rightmost >= max_visible {
        let s = rightmost - (max_visible - 1);
        if s <= focused { s } else { focused }
    } else {
        0
    };
    let end = if start >= total {
        total
    } else if max_visible <= total - start {
        start + max_visible
    } else {
        total
    };
    (start, end)
}

/// With a column in focus, the window shows it, holds exactly as many
/// columns as fit (or all of them), and reaches the deepest column
/// whenever the focused one is close enough to it.
pub proof fn lemma_visible_window_shows_focus(total: int, focused: int, max_visible: int)
    requires
        0 <= focused < total,
        max_visible >= 1,
    ensures
        ({
            let (start, end) = visible_window_spec(total, focused, max_visible);
            &&& 0 <= start <= focused < end <= total
            &&& end - start == (if max_visible < total { max_visible } else { total })
            &&& focused + max_visible >= total ==> end == total
        }),
{
}

/// Sum of the heights of rows `0..k`.
fn prefix_sum(heights: &Vec<u32>, k: usize) -> (r: u64)
    requires
        k <= heights@.len(),
        prefix(heights@, heights@.len() as int) <= u64::MAX,
    ensures
        r == prefix(heights@, k as int),
{
    let mut sum: u64 = 0;
    let mut i: usize = 0;
    while i < k
        invariant
            i <= k <= heights@.len(),
            prefix(heights@, heights@.len() as int) <= u64::MAX,
            sum == prefix(heights@, i as int),
        decreases k - i,
    {
        proof {
            lemma_prefix_monotone(heights@, i as int + 1, heights@.len() as int);
        }
        sum = sum + heights[i] as u64;
        i = i + 1;
    }
    sum
}

/// Top edge of the selected row (the whole list's height when the
/// selection lies past the end).
pub open spec fn sel_top(h: Seq<u32>, selected: int) -> int {
    prefix(h, if selected < h.len() { selected } else { h.len() as int })
}

/// Height of the selected row (0 past the end).
pub open spec fn sel_height(h: Seq<u32>, selected: int) -> int {
    if 0 <= selected < h.len() { h[selected] as int } else { 0 }
}

/// `v` clamped into `[0, hi]` (with `hi >= 0`).
pub open spec fn clamp0(v: int, hi: int) -> int {
    if v < 0 { 0 } else if v > hi { hi } else { v }
}

/// Where a Miller column scrolls so its selected row comes into view,
/// with the largest offset its content allows: nothing when the row
/// already lies inside `[view_top, view_top + bounds)` (or the column is
/// empty or has no height); else the row's top when it lies above, or the
/// offset putting its bottom at the viewport's bottom when it lies below,
/// clamped to the scrollable range. The content height is `content` when
/// known (positive), else the sum of the row heights.
pub open spec fn reveal_spec(h: Seq<u32>, selected: int, view_top: int, bounds: int, content: int) -> Option<(int, int)> {
    let top = sel_top(h, selected);
    let bot = top + sel_height(h, selected);
    let total = if content > 0 { content } else { prefix(h, h.len() as int) };
    let max_off = if total > bounds { total - bounds } else { 0 };
    if h.len() == 0 || bounds <= 0 {
        None
    } else if top < view_top {
        Some((clamp0(top, max_off), max_off))
    } else if bot > view_top + bounds {
        Some((clamp0(bot - bounds, max_off), max_off))
    } else {
        None
    }
}

/// Scroll a Miller column just enough to show its selected row; see
/// `reveal_spec`. Returns the new offset and the largest offset, in px.
pub fn reveal_offset(heights: &Vec<u32>, selected: usize, view_top: u64, bounds: u64, content: u64) -> (r: Option<(u64, u64)>)
    requires
        prefix(heights@, heights@.len() as int) <= u64::MAX,
    ensures
        match r {
            Some((off, max_off)) => reveal_spec(heights@, selected as int, view_top as int, bounds as int, content as int)
                == Some((off as int, max_off as int)),
            None => reveal_spec(heights@, selected as int, view_top as int, bounds as int, content as int) is None,
        },
{
    let n = heights.len();
    if n == 0 || bounds == 0 {
        return None;
    }
    let k = if selected < n { selected } else { n };
    proof {
        lemma_prefix_monotone(heights@, k as int, n as int);
        if selected < n {
            lemma_prefix_monotone(heights@, selected as int + 1, n as int);
        }
    }
    let top = prefix_sum(heights, k);
    let sel_h: u64 = if selected < n { heights[selected] as u64 } else { 0 };
    let bot = top + sel_h;
    let total = if content > 0 { content } else { prefix_sum(heights, n) };
    let max_off = if total > bounds { total - bounds } else { 0 };
    if top < view_top {
        let off = if top > max_off { max_off } else { top };
        Some((off, max_off))
    } else if bot > view_top && bot - view_top > bounds {
        let raw = bot - bounds;
        let off = if raw > max_off { max_off } else { raw };
        Some((off, max_off))
    } else {
        None
    }
}

/// Where a Miller column scrolls to centre its selected row, in half
/// pixels (the row's middle may fall between two pixels): the row's
/// middle at the viewport's middle, clamped to the scrollable range of a
/// column whose content is all its rows. `None` for an empty column or
/// one without height.
pub open spec fn center_spec(h: Seq<u32>, selected: int, bounds: int) -> Option<(int, int)> {
    let total = prefix(h, h.len() as int);
    let max2 = if total > bounds { 2 * (total - bounds) } else { 0 };
    if h.len() == 0 || bounds <= 0 {
        None
    } else {
        Some((clamp0(2 * sel_top(h, selected) + sel_height(h, selected) - bounds, max2), max2))
    }
}

/// Centre a Miller column on its selected row; see `center_spec`. Returns
/// the doubled offset and the doubled largest offset.
pub fn center_offset(heights: &Vec<u32>, selected: usize, bounds: u64) -> (r: Option<(u64, u64)>)
    requires
        2 * prefix(heights@, heights@.len() as int) <= u64::MAX,
    ensures
        match r {
            Some((off2, max2)) => center_spec(heights@, selected as int, bounds as int) == Some((off2 as int, max2 as int)),
            None => center_spec(heights@, selected as int, bounds as int) is None,
        },
{
    let n = heights.len();
    if n == 0 || bounds == 0 {
        return None;
    }
    let k = if selected < n { selected } else { n };
    proof {
        lemma_prefix_monotone(heights@, k as int, n as int);
        if selected < n {
            lemma_prefix_monotone(heights@, selected as int + 1, n as int);
        }
    }
    let top = prefix_sum(heights, k);
    let sel_h: u64 = if selected < n { heights[selected] as u64 } else { 0 };
    let total = prefix_sum(heights, n);
    let max2: u64 = if total > bounds { 2 * (total - bounds) } else { 0 };
    let mid2 = 2 * top + sel_h;
    let off2 = if mid2 <= bounds {
        0
    } else {
        let raw = mid2 - bounds;
        if raw > max2 { max2 } else { raw }
    };
    Some((off2, max2))
}

/// A revealed row is on screen: with a column at least one row tall and
/// content no shorter than its rows, after scrolling to the returned
/// offset the selected row lies inside the viewport, and the offset never
/// leaves the scrollable range.
pub proof fn lemma_reveal_shows_row(h: Seq<u32>, selected: int, view_top: int, bounds: int)
    requires
        0 <= selected < h.len(),
        bounds >= h[selected],
        view_top >= 0,
        bounds > 0,
    ensures
        ({
            let r = reveal_spec(h, selected, view_top, bounds, 0);
            let top = prefix(h, selected);
            let bot = top + h[selected];
            match r {
                Some((off, max_off)) => 0 <= off <= max_off && off <= top && bot <= off + bounds,
                None => view_top <= top && bot <= view_top + bounds,
            }
        }),
{
    lemma_prefix_monotone(h, 0, selected);
    lemma_prefix_monotone(h, selected + 1, h.len() as int);
}

/// What the Miller area of the browse view shows.
#[derive(PartialEq, Eq, Structural, Clone, Copy, Debug)]
pub enum ColumnsPlan {
    /// The navigation is not there yet.
    Loading,
    /// Playlists: nothing opened beyond the playlist list.
    PickPlaylist,
    /// Columns `offset + start .. offset + end` (the Playlists category
    /// keeps its playlist list in the category column, so its first Miller
    /// column is skipped), with the focused one among them, if the focus
    /// is in the columns at all.
    Show { offset: usize, start: usize, end: usize, focused: Option<usize> },
}

/// The plan for a navigation of `len` columns (`None`: none yet) whose
/// focused column is `focused_column`, `max_visible` of which fit.
pub open spec fn columns_plan_spec(
    len: Option<usize>,
    loading: bool,
    playlists: bool,
    focused_column: usize,
    focus_elsewhere: bool,
    max_visible: usize,
) -> ColumnsPlan {
    let offset: int = if playlists { 1 } else { 0 };
    match len {
        None => ColumnsPlan::Loading,
        Some(n) => if n == 0 {
            ColumnsPlan::Loading
        } else if n <= offset {
            if loading { ColumnsPlan::Loading } else { ColumnsPlan::PickPlaylist }
        } else {
            let logical: int = if focused_column >= offset { focused_column - offset } else { 0 };
            let w = visible_window_spec(n - offset, logical, max_visible as int);
            ColumnsPlan::Show {
                offset: offset as usize,
                start: w.0 as usize,
                end: w.1 as usize,
                focused: if focus_elsewhere { None } else { Some(logical as usize) },
            }
        },
    }
}

/// Plan the Miller area; see `columns_plan_spec`. `focus_elsewhere` is
/// set while the category column or the track pane holds the focus.
pub fn columns_plan(
    len: Option<usize>,
    loading: bool,
    playlists: bool,
    focused_column: usize,
    focus_elsewhere: bool,
    max_visible: usize,
) -> (r: ColumnsPlan)
    requires
        max_visible >= 1,
    ensures
        r == columns_plan_spec(len, loading, playlists, focused_column, focus_elsewhere, max_visible),
{
    let offset: usize = if playlists { 1 } else { 0 };
    let n = match len {
        None => {
            return ColumnsPlan::Loading;
        },
        Some(n) => n,
    };
    if n == 0 {
        return ColumnsPlan::Loading;
    }
    if n <= offset {
        return if loading { ColumnsPlan::Loading } else { ColumnsPlan::PickPlaylist };
    }
    let logical = focused_column.saturating_sub(offset);
    let w = visible_window(n - offset, logical, max_visible);
    ColumnsPlan::Show {
        offset,
        start: w.0,
        end: w.1,
        focused: if focus_elsewhere { None } else { Some(logical) },
    }
}

} // verus!
