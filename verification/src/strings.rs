//! Small string-building primitives shared by the formatting modules.

use vstd::prelude::*;

verus! {

/// Append one character to a `String` (std's `String::push`).
///
/// Trusted: claims that the new contents are the old contents with `c`
/// appended, as std documents for `String::push`.
#[verifier::external_body]
pub(crate) fn push_char(s: &mut String, c: char)
    ensures
        final(s)@ == old(s)@.push(c),
{
    s.push(c);
}

/// Append the characters of `t` to `s`.
pub fn push_str(s: &mut String, t: &str)
    ensures
        final(s)@ == old(s)@ + t@,
{
    s.append(t);
}

/// A fresh, empty `String`.
pub fn empty_string() -> (s: String)
    ensures
        s@ == Seq::<char>::empty(),
{
    String::new()
}

/// The characters of `s`, in order.
pub fn chars_of(s: &str) -> (r: Vec<char>)
    ensures
        r@ == s@,
{
    broadcast use vstd::string::axiom_spec_iter;
    let mut r: Vec<char> = Vec::new();
    for c in it: s.chars()
        invariant
            r@ == it.seq().take(it.index() as int),
            it.seq() == s@,
    {
        r.push(c);
    }
    r
}

/// A `String` holding exactly the characters `cs`.
pub fn string_of(cs: &Vec<char>) -> (r: String)
    ensures
        r@ == cs@,
{
    let mut r = empty_string();
    let mut i: usize = 0;
    while i < cs.len()
        invariant
            i <= cs@.len(),
            r@ == cs@.subrange(0, i as int),
        decreases cs@.len() - i,
    {
        push_char(&mut r, cs[i]);
        i = i + 1;
        assert(r@ =~= cs@.subrange(0, i as int));
    }
    assert(cs@.subrange(0, i as int) =~= cs@);
    r
}

/// Whether `p` is a prefix of `s`, compared character by character.
pub fn starts_with(s: &str, p: &str) -> (r: bool)
    ensures
        r == p@.is_prefix_of(s@),
{
    let a = chars_of(s);
    let b = chars_of(p);
    if b.len() > a.len() {
        return false;
    }
    let mut i: usize = 0;
    while i < b.len()
        invariant
            i <= b@.len() <= a@.len(),
            a@ == s@,
            b@ == p@,
            forall|k: int| 0 <= k < i ==> a@[k] == b@[k],
        decreases b@.len() - i,
    {
        if a[i] != b[i] {
            proof {
                if p@.is_prefix_of(s@) {
                    assert(s@.subrange(0, p@.len() as int)[i as int] == s@[i as int]);
                }
            }
            return false;
        }
        i = i + 1;
    }
    proof {
        assert(p@ =~= s@.subrange(0, p@.len() as int));
    }
    true
}

/// Whether `a` and `b` hold the same characters.
pub fn eq_str(a: &str, b: &str) -> (r: bool)
    ensures
        r == (a@ == b@),
{
    let x = chars_of(a);
    let y = chars_of(b);
    if x.len() != y.len() {
        return false;
    }
    let mut i: usize = 0;
    while i < x.len()
        invariant
            i <= x@.len(),
            x@.len() == y@.len(),
            x@ == a@,
            y@ == b@,
            forall|k: int| 0 <= k < i ==> x@[k] == y@[k],
        decreases x@.len() - i,
    {
        if x[i] != y[i] {
            return false;
        }
        i = i + 1;
    }
    proof {
        assert(x@ =~= y@);
    }
    true
}

/// `s` with the prefix `p` removed, or `None` when `s` does not start with `p`.
pub fn strip_prefix(s: &str, p: &str) -> (r: Option<String>)
    ensures
        match r {
            Some(t) => p@.is_prefix_of(s@) && t@ == s@.skip(p@.len() as int),
            None => !p@.is_prefix_of(s@),
        },
{
    if !starts_with(s, p) {
        return None;
    }
    let a = chars_of(s);
    let n = chars_of(p).len();
    let mut out = empty_string();
    let mut i: usize = n;
    while i < a.len()
        invariant
            n <= i <= a@.len(),
            a@ == s@,
            n == p@.len(),
            out@ == s@.subrange(n as int, i as int),
        decreases a@.len() - i,
    {
        push_char(&mut out, a[i]);
        i = i + 1;
        proof {
            assert(out@ =~= s@.subrange(n as int, i as int));
        }
    }
    proof {
        assert(out@ =~= s@.skip(n as int));
    }
    Some(out)
}

/// The views of a list of strings.
pub open spec fn views(v: Seq<String>) -> Seq<Seq<char>> {
    v.map_values(|s: String| s@)
}

/// `str::split(sep)` of `s`, with `cur` the piece read so far: every
/// separator ends a piece, and the text after the last one is a piece too
/// (so `""` gives one empty piece).
pub open spec fn split_acc(s: Seq<char>, sep: char, cur: Seq<char>) -> Seq<Seq<char>>
    decreases s.len(),
{
    if s.len() == 0 {
        seq![cur]
    } else if s[0] == sep {
        seq![cur] + split_acc(s.drop_first(), sep, Seq::<char>::empty())
    } else {
        split_acc(s.drop_first(), sep, cur.push(s[0]))
    }
}

/// A line without the `\r` of a `\r\n` ending.
pub open spec fn strip_cr(line: Seq<char>) -> Seq<char> {
    if line.len() > 0 && line.last() == '\r' {
        line.drop_last()
    } else {
        line
    }
}

/// `str::lines` of `s`, with `cur` the line read so far: lines end at
/// `\n` (dropping a `\r` just before it); a final line ending is
/// optional and adds no empty line.
pub open spec fn lines_acc(s: Seq<char>, cur: Seq<char>) -> Seq<Seq<char>>
    decreases s.len(),
{
    if s.len() == 0 {
        if cur.len() == 0 {
            Seq::<Seq<char>>::empty()
        } else {
            seq![cur]
        }
    } else if s[0] == '\n' {
        seq![strip_cr(cur)] + lines_acc(s.drop_first(), Seq::<char>::empty())
    } else {
        lines_acc(s.drop_first(), cur.push(s[0]))
    }
}

/// The pieces of `s` between occurrences of `sep` (`str::split`).
pub fn split_on(s: &str, sep: char) -> (r: Vec<String>)
    ensures
        views(r@) == split_acc(s@, sep, Seq::<char>::empty()),
{
    let cs = chars_of(s);
    let n = cs.len();
    let ghost total = split_acc(s@, sep, Seq::<char>::empty());
    let mut out: Vec<String> = Vec::new();
    let mut cur = empty_string();
    let mut i: usize = 0;
    proof {
        assert(cs@.skip(0) =~= cs@);
        assert(views(out@) =~= Seq::<Seq<char>>::empty());
    }
    while i < n
        invariant
            i <= n,
            n == cs@.len(),
            cs@ == s@,
            total == split_acc(s@, sep, Seq::<char>::empty()),
            views(out@) + split_acc(cs@.skip(i as int), sep, cur@) == total,
        decreases n - i,
    {
        let ghost rest = cs@.skip(i as int);
        proof {
            assert(rest[0] == cs@[i as int]);
            assert(rest.drop_first() =~= cs@.skip(i as int + 1));
        }
        if cs[i] == sep {
            let ghost before = views(out@);
            let ghost cv = cur@;
            out.push(cur);
            cur = empty_string();
            proof {
                assert(views(out@) =~= before.push(cv));
                assert(views(out@) + split_acc(cs@.skip(i as int + 1), sep, cur@) =~= before + (seq![cv] + split_acc(rest.drop_first(), sep, Seq::<char>::empty())));
            }
        } else {
            push_char(&mut cur, cs[i]);
        }
        i = i + 1;
    }
    let ghost before = views(out@);
    let ghost cv = cur@;
    out.push(cur);
    proof {
        assert(cs@.skip(i as int) =~= Seq::<char>::empty());
        assert(views(out@) =~= before + seq![cv]);
    }
    out
}

fn drop_trailing_cr(line: String) -> (r: String)
    ensures
        r@ == strip_cr(line@),
{
    let cs = chars_of(line.as_str());
    if cs.len() > 0 && cs[cs.len() - 1] == '\r' {
        let mut out = empty_string();
        let mut i: usize = 0;
        let last: usize = cs.len() - 1;
        while i < last
            invariant
                i <= last,
                last + 1 == cs@.len(),
                out@ == cs@.take(i as int),
            decreases cs@.len() - i,
        {
            push_char(&mut out, cs[i]);
            i = i + 1;
            proof {
                assert(out@ =~= cs@.take(i as int));
            }
        }
        proof {
            assert(cs@.take(i as int) =~= line@.drop_last());
        }
        out
    } else {
        line
    }
}

/// The lines of `s` (`str::lines`).
pub fn split_lines(s: &str) -> (r: Vec<String>)
    ensures
        views(r@) == lines_acc(s@, Seq::<char>::empty()),
{
    let cs = chars_of(s);
    let n = cs.len();
    let ghost total = lines_acc(s@, Seq::<char>::empty());
    let mut out: Vec<String> = Vec::new();
    let mut cur = empty_string();
    let mut i: usize = 0;
    proof {
        assert(cs@.skip(0) =~= cs@);
        assert(views(out@) =~= Seq::<Seq<char>>::empty());
    }
    while i < n
        invariant
            i <= n,
            n == cs@.len(),
            cs@ == s@,
            total == lines_acc(s@, Seq::<char>::empty()),
            views(out@) + lines_acc(cs@.skip(i as int), cur@) == total,
        decreases n - i,
    {
        let ghost rest = cs@.skip(i as int);
        proof {
            assert(rest[0] == cs@[i as int]);
            assert(rest.drop_first() =~= cs@.skip(i as int + 1));
        }
        if cs[i] == '\n' {
            let ghost before = views(out@);
            let line = drop_trailing_cr(cur);
            let ghost lv = line@;
            out.push(line);
            cur = empty_string();
            proof {
                assert(views(out@) =~= before.push(lv));
                assert(views(out@) + lines_acc(cs@.skip(i as int + 1), cur@) =~= before + (seq![lv] + lines_acc(rest.drop_first(), Seq::<char>::empty())));
            }
        } else {
            push_char(&mut cur, cs[i]);
        }
        i = i + 1;
    }
    proof {
        assert(cs@.skip(i as int) =~= Seq::<char>::empty());
    }
    if !cur.as_str().is_empty() {
        let ghost before = views(out@);
        let ghost cv = cur@;
        out.push(cur);
        proof {
            assert(views(out@) =~= before + seq![cv]);
        }
    } else {
        proof {
            assert(views(out@) =~= views(out@) + Seq::<Seq<char>>::empty());
        }
    }
    out
}

} // verus!
