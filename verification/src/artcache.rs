//! Memo of decoded album-art handles. A handle is reused for as long as
//! the cached bytes behind its key stay the same slice (same address and
//! length); when the bytes are replaced the stale handle is replaced too.
//! Also the lazy-art gate, which pauses artwork loads while the user
//! moves through the lists faster than artwork can load.

use vstd::prelude::*;
use crate::strings::{push_str, empty_string};
use crate::timefmt::{dec, push_dec};

verus! {

/// Identity of a cached byte slice: its address and its length.
#[derive(PartialEq, Eq, Structural, Clone, Copy, Debug)]
pub struct SliceId {
    pub ptr: usize,
    pub len: usize,
}

/// A handle together with the identity of the bytes it was made from.
pub struct CachedHandle<H> {
    pub id: SliceId,
    pub handle: H,
}

/// Handles keyed by artwork key.
pub struct HandleCache<H> {
    entries: Vec<(String, CachedHandle<H>)>,
}

/// The entry under `key` in `entries` (the first one, scanning from the front).
pub open spec fn find<H>(entries: Seq<(String, CachedHandle<H>)>, key: Seq<char>) -> Option<
    CachedHandle<H>,
>
    decreases entries.len(),
{
    if entries.len() == 0 {
        None
    } else if entries[0].0@ == key {
        Some(entries[0].1)
    } else {
        find(entries.drop_first(), key)
    }
}

impl<H> HandleCache<H> {
    /// The entries, in storage order.
    pub closed spec fn entries(&self) -> Seq<(String, CachedHandle<H>)> {
        self.entries@
    }

    /// The entry cached under `key`.
    pub open spec fn lookup(&self, key: Seq<char>) -> Option<CachedHandle<H>> {
        find(self.entries(), key)
    }

    /// An empty cache.
    pub fn new() -> (r: Self)
        ensures
            forall|k: Seq<char>| (#[trigger] r.lookup(k)) is None,
    {
        HandleCache { entries: Vec::new() }
    }

    /// The handle cached under `key` when it was made from the slice `id`.
    pub fn get(&self, key: &str, id: SliceId) -> (r: Option<&H>)
        ensures
            match r {
                Some(h) => self.lookup(key@) == Some(CachedHandle { id, handle: *h }),
                None => !(self.lookup(key@) matches Some(e) && e.id == id),
            },
    {
        let mut i: usize = 0;
        proof {
            assert(self.entries@.skip(0) =~= self.entries@);
        }
        while i < self.entries.len()
            invariant
                i <= self.entries@.len(),
                find(self.entries@, key@) == find(self.entries@.skip(i as int), key@),
            decreases self.entries@.len() - i,
        {
            proof {
                assert(self.entries@.skip(i as int).drop_first() =~= self.entries@.skip(i as int + 1));
                assert(self.entries@.skip(i as int)[0] == self.entries@[i as int]);
            }
            if crate::strings::eq_str(self.entries[i].0.as_str(), key) {
                if self.entries[i].1.id == id {
                    return Some(&self.entries[i].1.handle);
                }
                return None;
            }
            i = i + 1;
        }
        None
    }

    /// Cache `handle` under `key` as made from the slice `id`, replacing
    /// what was cached there.
    pub fn insert(&mut self, key: &str, id: SliceId, handle: H)
        ensures
            final(self).lookup(key@) == Some(CachedHandle { id, handle }),
            forall|k: Seq<char>| k != key@ ==> #[trigger] final(self).lookup(k) == old(self).lookup(k),
    {
        let ghost old_entries = self.entries@;
        let mut i: usize = 0;
        proof {
            assert(self.entries@.skip(0) =~= self.entries@);
        }
        while i < self.entries.len() && !crate::strings::eq_str(self.entries[i].0.as_str(), key)
            invariant
                i <= self.entries@.len(),
                self.entries@ == old_entries,
                forall|j: int| 0 <= j < i ==> (#[trigger] self.entries@[j]).0@ != key@,
            decreases self.entries@.len() - i,
        {
            i = i + 1;
        }
        let mut k = empty_string();
        push_str(&mut k, key);
        proof {
            assert(k@ =~= key@);
        }
        let entry = (k, CachedHandle { id, handle });
        if i < self.entries.len() {
            self.entries.set(i, entry);
            proof {
                lemma_find_update(old_entries, i as int, entry, key@);
            }
        } else {
            self.entries.push(entry);
            proof {
                lemma_find_push(old_entries, entry, key@);
            }
        }
    }

    /// Forget every cached handle.
    pub fn clear(&mut self)
        ensures
            forall|k: Seq<char>| (#[trigger] final(self).lookup(k)) is None,
    {
        self.entries.clear();
    }
}

proof fn lemma_find_update<H>(
    s: Seq<(String, CachedHandle<H>)>,
    i: int,
    e: (String, CachedHandle<H>),
    key: Seq<char>,
)
    requires
        0 <= i < s.len(),
        s[i].0@ == key,
        e.0@ == key,
        forall|j: int| 0 <= j < i ==> (#[trigger] s[j]).0@ != key,
    ensures
        find(s.update(i, e), key) == Some(e.1),
        forall|k: Seq<char>| k != key ==> #[trigger] find(s.update(i, e), k) == find(s, k),
    decreases i,
{
    let t = s.update(i, e);
    if i == 0 {
        assert(t[0] == e);
        assert(t.drop_first() =~= s.drop_first());
        assert forall|k: Seq<char>| k != key implies #[trigger] find(t, k) == find(s, k) by {
            assert(find(t, k) == find(t.drop_first(), k));
            assert(find(s, k) == find(s.drop_first(), k));
        }
    } else {
        assert(t[0] == s[0]);
        assert(t.drop_first() =~= s.drop_first().update(i - 1, e));
        assert forall|j: int| 0 <= j < i - 1 implies (#[trigger] s.drop_first()[j]).0@ != key by {
            assert(s.drop_first()[j] == s[j + 1]);
        }
        lemma_find_update(s.drop_first(), i - 1, e, key);
        assert(s[0].0@ != key);
        assert forall|k: Seq<char>| k != key implies #[trigger] find(t, k) == find(s, k) by {
            if s[0].0@ != k {
                assert(find(t, k) == find(t.drop_first(), k));
                assert(find(s, k) == find(s.drop_first(), k));
            }
        }
    }
}

proof fn lemma_find_push<H>(s: Seq<(String, CachedHandle<H>)>, e: (String, CachedHandle<H>), key: Seq<char>)
    requires
        e.0@ == key,
        forall|j: int| 0 <= j < s.len() ==> (#[trigger] s[j]).0@ != key,
    ensures
        find(s.push(e), key) == Some(e.1),
        forall|k: Seq<char>| k != key ==> #[trigger] find(s.push(e), k) == find(s, k),
    decreases s.len(),
{
    let t = s.push(e);
    if s.len() == 0 {
        assert(t.drop_first() =~= Seq::<(String, CachedHandle<H>)>::empty());
        assert(t[0] == e);
        assert forall|k: Seq<char>| k != key implies #[trigger] find(t, k) == find(s, k) by {
            assert(find(t, k) == find(t.drop_first(), k));
        }
    } else {
        assert(t[0] == s[0]);
        assert(t.drop_first() =~= s.drop_first().push(e));
        assert forall|j: int| 0 <= j < s.drop_first().len() implies (#[trigger] s.drop_first()[j]).0@ != key by {
            assert(s.drop_first()[j] == s[j + 1]);
        }
        lemma_find_push(s.drop_first(), e, key);
        assert(s[0].0@ != key);
        assert forall|k: Seq<char>| k != key implies #[trigger] find(t, k) == find(s, k) by {
            if s[0].0@ != k {
                assert(find(t, k) == find(t.drop_first(), k));
                assert(find(s, k) == find(s.drop_first(), k));
            }
        }
    }
}

/// A cache read after a write gives back what was written, and a write
/// leaves every other key as it was.
pub proof fn lemma_insert_then_get<H>(before: HandleCache<H>, after: HandleCache<H>, key: Seq<char>, id: SliceId, handle: H, other: Seq<char>)
    requires
        after.lookup(key) == Some(CachedHandle { id, handle }),
        forall|k: Seq<char>| k != key ==> #[trigger] after.lookup(k) == before.lookup(k),
        other != key,
    ensures
        after.lookup(key) matches Some(e) && e.id == id && e.handle == handle,
        after.lookup(other) == before.lookup(other),
{
}

/// Drop every cached handle, e.g. when the artwork byte cache is cleared,
/// so no stale decoded image lingers.
pub fn clear_handle_cache<H>(cache: &mut HandleCache<H>)
    ensures
        forall|k: Seq<char>| (#[trigger] final(cache).lookup(k)) is None,
{
    cache.clear();
}

/// The synthetic cache key of a raw slice: `__raw_{ptr}_{len}`.
pub open spec fn raw_key_spec(id: SliceId) -> Seq<char> {
    "__raw_"@ + dec(id.ptr as nat) + "_"@ + dec(id.len as nat)
}

/// The synthetic cache key of a raw slice, unique per slice identity.
pub fn raw_key(id: SliceId) -> (r: String)
    ensures
        r@ == raw_key_spec(id),
{
    let mut out = empty_string();
    push_str(&mut out, "__raw_");
    push_dec(&mut out, id.ptr as u64);
    push_str(&mut out, "_");
    push_dec(&mut out, id.len as u64);
    out
}

#[verifier::external_type_specification]
#[verifier::external_body]
pub struct ExImageHandle(iced::advanced::image::Handle);

/// iced's `image::Handle::from_bytes` on a copy of `bytes`. Nothing is
/// stated of the result: each call mints a fresh handle id.
#[verifier::external_body]
fn new_image_handle(bytes: &[u8]) -> iced::advanced::image::Handle {
    iced::advanced::image::Handle::from_bytes(bytes.to_vec())
}

/// iced's derived `Clone` for `image::Handle`: the copy has the same id
/// and shares the same bytes, so it equals the handle it was cloned from.
#[verifier::external_body]
fn clone_image_handle(h: &iced::advanced::image::Handle) -> (r: iced::advanced::image::Handle)
    ensures
        r == *h,
{
    h.clone()
}

/// The image handle for the artwork bytes cached under `key`, whose
/// slice identity is `id`: the memoised handle when it was made from the
/// same slice, else a new handle from `bytes`, memoised under `key`.
pub fn lookup_grid(
    handles: &mut HandleCache<iced::advanced::image::Handle>,
    key: &str,
    id: SliceId,
    bytes: &[u8],
) -> (r: iced::advanced::image::Handle)
    ensures
        final(handles).lookup(key@) == Some(CachedHandle { id, handle: r }),
        (old(handles).lookup(key@) matches Some(e) && e.id == id) ==> r == old(handles).lookup(
            key@,
        )->0.handle,
        forall|k: Seq<char>| k != key@ ==> #[trigger] final(handles).lookup(k) == old(handles).lookup(k),
{
    match handles.get(key, id) {
        Some(h) => {
            return clone_image_handle(h);
        },
        None => {},
    }
    let handle = new_image_handle(bytes);
    let out = clone_image_handle(&handle);
    handles.insert(key, id, handle);
    out
}

/// An image handle for a raw byte slice, memoised under the slice's
/// synthetic key (`raw_key`) so re-rendering the same bytes reuses it.
pub fn handle_from_bytes(
    handles: &mut HandleCache<iced::advanced::image::Handle>,
    id: SliceId,
    bytes: &[u8],
) -> (r: iced::advanced::image::Handle)
    ensures
        final(handles).lookup(raw_key_spec(id)) == Some(CachedHandle { id, handle: r }),
        forall|k: Seq<char>| k != raw_key_spec(id) ==> #[trigger] final(handles).lookup(k) == old(
            handles,
        ).lookup(k),
{
    let key = raw_key(id);
    lookup_grid(handles, key.as_str(), id, bytes)
}

/// How long, in milliseconds, the cursor must rest before paused artwork
/// loads resume.
pub const ART_LOAD_PAUSE_MS: u64 = 1000;

/// The inputs the lazy-art gate tells apart: rapid navigation (keys,
/// wheel scrolling, letter-strip jumps), a deliberate click on a row or a
/// column, and anything else.
#[derive(PartialEq, Eq, Structural, Clone, Copy, Debug)]
pub enum MotionKind {
    RapidNavigation,
    DeliberateClick,
    Other,
}

/// Whether artwork loads are paused after an input: rapid navigation
/// pauses them, a deliberate click resumes them at once, and any other
/// input keeps the current setting.
pub fn gate_after_input(suppressed: bool, kind: MotionKind) -> (r: bool)
    ensures
        r == match kind {
            MotionKind::RapidNavigation => true,
            MotionKind::DeliberateClick => false,
            MotionKind::Other => suppressed,
        },
{
    match kind {
        MotionKind::RapidNavigation => true,
        MotionKind::DeliberateClick => false,
        MotionKind::Other => suppressed,
    }
}

/// Whether paused artwork loads resume on a tick: they are paused and the
/// cursor has rested (`still_ms` since the last rapid input) for at
/// least `ART_LOAD_PAUSE_MS`; the visible artwork is then loaded in one
/// batch.
pub fn gate_reopens(suppressed: bool, still_ms: u64) -> (r: bool)
    ensures
        r == (suppressed && still_ms >= ART_LOAD_PAUSE_MS),
{
    suppressed && still_ms >= ART_LOAD_PAUSE_MS
}

} // verus!
