//! Multi-selection of list rows, shared by the queue and the Miller
//! columns: a shift-press selects the range from the anchor to the row,
//! a toggle-press flips one row. A selection is a list of row indices
//! holding each row once.

use vstd::prelude::*;

verus! {

/// The rows `lo..=hi`.
pub open spec fn range_set(lo: usize, hi: usize) -> Set<usize> {
    Set::new(|i: usize| lo <= i && i <= hi)
}

/// The rows a shift-press on `row` selects: the range between the anchor
/// (or the cursor when there is none) and `row`.
pub open spec fn shift_range(anchor: Option<usize>, cursor: usize, row: usize) -> Set<usize> {
    let a = match anchor {
        Some(a) => a,
        None => cursor,
    };
    if a <= row {
        range_set(a, row)
    } else {
        range_set(row, a)
    }
}

/// The selection after a toggle-press on `row`.
pub open spec fn toggled(sel: Set<usize>, row: usize) -> Set<usize> {
    if sel.contains(row) {
        sel.remove(row)
    } else {
        sel.insert(row)
    }
}

/// The rows `lo..=hi`, in order, each once.
pub fn range_rows(lo: usize, hi: usize) -> (v: Vec<usize>)
    requires
        lo <= hi,
    ensures
        v@.no_duplicates(),
        v@.to_set() == range_set(lo, hi),
{
    let mut v: Vec<usize> = Vec::new();
    let mut i: usize = lo;
    while i < hi
        invariant
            lo <= i <= hi,
            v@.len() == i - lo,
            forall|k: int| 0 <= k < v@.len() ==> v@[k] == lo + k,
        decreases hi - i,
    {
        v.push(i);
        i = i + 1;
    }
    v.push(hi);
    proof {
        assert forall|a: int, b: int| 0 <= a < v@.len() && 0 <= b < v@.len() && a != b implies v@[a] != v@[b] by {}
        assert forall|x: usize| v@.to_set().contains(x) <==> range_set(lo, hi).contains(x) by {
            if lo <= x && x <= hi {
                assert(v@[x - lo] == x);
            }
            if v@.to_set().contains(x) {
                let k = v@.index_of(x);
                assert(v@[k] == x);
            }
        }
        assert(v@.to_set() =~= range_set(lo, hi));
    }
    v
}

/// Flip `row` in the selection `sel`: removed when present, else appended.
pub fn toggle_in(sel: &mut Vec<usize>, row: usize)
    requires
        old(sel)@.no_duplicates(),
    ensures
        final(sel)@.no_duplicates(),
        final(sel)@.to_set() == toggled(old(sel)@.to_set(), row),
{
    let ghost s0 = sel@;
    let mut i: usize = 0;
    while i < sel.len()
        invariant
            i <= sel@.len(),
            sel@ == s0,
            s0.no_duplicates(),
            s0 == old(sel)@,
            forall|k: int| 0 <= k < i ==> sel@[k] != row,
        decreases sel@.len() - i,
    {
        if sel[i] == row {
            sel.remove(i);
            proof {
                assert(sel@ =~= s0.remove(i as int));
                assert(s0[i as int] == row);
                assert(s0.to_set().contains(row));
                assert forall|k: int| 0 <= k < sel@.len() implies sel@[k] != row by {
                    if k < i {
                        assert(sel@[k] == s0[k]);
                    } else {
                        assert(sel@[k] == s0[k + 1]);
                        assert(k + 1 != i);
                    }
                }
                assert forall|x: usize| sel@.to_set().contains(x) <==> s0.to_set().remove(row).contains(x) by {
                    if sel@.to_set().contains(x) {
                        let k = sel@.index_of(x);
                        if k < i {
                            assert(sel@[k] == s0[k]);
                        } else {
                            assert(sel@[k] == s0[k + 1]);
                        }
                    }
                    if s0.to_set().remove(row).contains(x) {
                        let k = s0.index_of(x);
                        assert(k != i);
                        if k < i {
                            assert(sel@[k] == x);
                        } else {
                            assert(sel@[k - 1] == x);
                        }
                    }
                }
                assert(sel@.to_set() =~= s0.to_set().remove(row));
                assert forall|a: int, b: int|
                    0 <= a < sel@.len() && 0 <= b < sel@.len() && a != b implies sel@[a] != sel@[b] by {
                    let a0 = if a < i { a } else { a + 1 };
                    let b0 = if b < i { b } else { b + 1 };
                    assert(sel@[a] == s0[a0]);
                    assert(sel@[b] == s0[b0]);
                }
            }
            return;
        }
        i = i + 1;
    }
    sel.push(row);
    proof {
        assert(!s0.to_set().contains(row)) by {
            if s0.to_set().contains(row) {
                let k = s0.index_of(row);
                assert(s0[k] == row);
            }
        }
        assert(sel@.to_set() =~= s0.to_set().insert(row)) by {
            assert forall|x: usize| sel@.to_set().contains(x) <==> s0.to_set().insert(row).contains(x) by {
                if sel@.to_set().contains(x) {
                    let k = sel@.index_of(x);
                    if k < s0.len() {
                        assert(s0[k] == x);
                    }
                }
                if s0.to_set().contains(x) {
                    let k = s0.index_of(x);
                    assert(sel@[k] == x);
                }
                if x == row {
                    assert(sel@[s0.len() as int] == row);
                }
            }
        }
    }
}

} // verus!
