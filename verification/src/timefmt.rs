//! Clock-style duration formatting (`m:ss`, `h:mm:ss`, `MM:SS`) and the
//! coarse age labels of the Settings cache table (`42s`, `3m`, `5h`, `2d`).

use vstd::prelude::*;
use crate::strings::{push_char, empty_string};
use crate::ansi::{digits_value, all_digits};

verus! {

/// The ASCII digit for `d` (`0 <= d < 10`).
pub open spec fn digit_char(d: nat) -> char {
    (('0' as nat) + d) as char
}

/// Decimal rendering of `n` without leading zeros (`0` renders as "0").
pub open spec fn dec(n: nat) -> Seq<char>
    decreases n,
{
    if n < 10 {
        seq![digit_char(n)]
    } else {
        dec(n / 10).push(digit_char(n % 10))
    }
}

/// Decimal rendering of `n` padded with a leading zero to at least two digits.
pub open spec fn dec2(n: nat) -> Seq<char> {
    if n < 10 {
        seq!['0', digit_char(n)]
    } else {
        dec(n)
    }
}

fn digit(d: u64) -> (c: char)
    requires
        d < 10,
    ensures
        c == digit_char(d as nat),
{
    match d {
        0 => '0',
        1 => '1',
        2 => '2',
        3 => '3',
        4 => '4',
        5 => '5',
        6 => '6',
        7 => '7',
        8 => '8',
        _ => '9',
    }
}

/// Append the decimal rendering of `n`.
pub fn push_dec(out: &mut String, n: u64)
    ensures
        final(out)@ == old(out)@ + dec(n as nat),
    decreases n,
{
    if n >= 10 {
        push_dec(out, n / 10);
        push_char(out, digit(n % 10));
    } else {
        push_char(out, digit(n));
    }
}

/// Append the decimal rendering of `n`, zero-padded to two digits.
pub fn push_dec2(out: &mut String, n: u64)
    ensures
        final(out)@ == old(out)@ + dec2(n as nat),
{
    if n < 10 {
        push_char(out, '0');
        push_char(out, digit(n));
    } else {
        push_dec(out, n);
    }
}

/// `m:ss`, or `h:mm:ss` once the duration reaches an hour.
pub open spec fn fmt_ms_spec(ms: nat) -> Seq<char> {
    let total = ms / 1000;
    let h = total / 3600;
    let m = (total % 3600) / 60;
    let s = total % 60;
    if h > 0 {
        dec(h) + seq![':'] + dec2(m) + seq![':'] + dec2(s)
    } else {
        dec(m) + seq![':'] + dec2(s)
    }
}

/// Format milliseconds as `m:ss` (or `h:mm:ss` past an hour).
pub fn fmt_ms(ms: u64) -> (r: String)
    ensures
        r@ == fmt_ms_spec(ms as nat),
{
    let total_s = ms / 1000;
    let h = total_s / 3600;
    let m = (total_s % 3600) / 60;
    let s = total_s % 60;
    let mut out = empty_string();
    if h > 0 {
        push_dec(&mut out, h);
        push_char(&mut out, ':');
        push_dec2(&mut out, m);
        push_char(&mut out, ':');
        push_dec2(&mut out, s);
    } else {
        push_dec(&mut out, m);
        push_char(&mut out, ':');
        push_dec2(&mut out, s);
    }
    out
}

/// Decimal rendering of `n` right-aligned in a field of two (`{:>2}`).
pub open spec fn pad2(n: nat) -> Seq<char> {
    if n < 10 {
        seq![' ', digit_char(n)]
    } else {
        dec(n)
    }
}

/// Append the decimal rendering of `n`, right-aligned in two columns.
pub fn push_pad2(out: &mut String, n: u64)
    ensures
        final(out)@ == old(out)@ + pad2(n as nat),
{
    if n < 10 {
        push_char(out, ' ');
        push_char(out, digit(n));
    } else {
        push_dec(out, n);
    }
}

/// `m:ss` from milliseconds, minutes unpadded (track-list duration column).
pub open spec fn track_duration_spec(ms: nat) -> Seq<char> {
    let secs = ms / 1000;
    dec(secs / 60) + seq![':'] + dec2(secs % 60)
}

/// Format a track length in milliseconds as `m:ss`.
pub fn format_track_duration(ms: u64) -> (r: String)
    ensures
        r@ == track_duration_spec(ms as nat),
{
    let secs = ms / 1000;
    let mut out = empty_string();
    push_dec(&mut out, secs / 60);
    push_char(&mut out, ':');
    push_dec2(&mut out, secs % 60);
    out
}

/// `MM:SS` from milliseconds, both fields zero-padded to two digits.
pub open spec fn clock_spec(ms: nat) -> Seq<char> {
    let secs = ms / 1000;
    dec2(secs / 60) + seq![':'] + dec2(secs % 60)
}

/// Format a playback position in milliseconds as `MM:SS` (transport and
/// now-playing bars).
pub fn format_time(ms: u64) -> (r: String)
    ensures
        r@ == clock_spec(ms as nat),
{
    let secs = ms / 1000;
    let mut out = empty_string();
    push_dec2(&mut out, secs / 60);
    push_char(&mut out, ':');
    push_dec2(&mut out, secs % 60);
    out
}

/// Coarse age label: whole seconds, minutes, hours or days with a unit letter.
pub open spec fn age_spec(secs: nat) -> Seq<char> {
    if secs < 60 {
        dec(secs) + seq!['s']
    } else if secs < 3600 {
        dec(secs / 60) + seq!['m']
    } else if secs < 86400 {
        dec(secs / 3600) + seq!['h']
    } else {
        dec(secs / 86400) + seq!['d']
    }
}

/// Format an age in seconds as `42s`, `3m`, `5h` or `2d` (cache table).
pub fn format_duration(secs: u64) -> (r: String)
    ensures
        r@ == age_spec(secs as nat),
{
    let mut out = empty_string();
    if secs < 60 {
        push_dec(&mut out, secs);
        push_char(&mut out, 's');
    } else if secs < 3600 {
        push_dec(&mut out, secs / 60);
        push_char(&mut out, 'm');
    } else if secs < 86400 {
        push_dec(&mut out, secs / 3600);
        push_char(&mut out, 'h');
    } else {
        push_dec(&mut out, secs / 86400);
        push_char(&mut out, 'd');
    }
    out
}

/// Reading `dec(n)` back as decimal digits gives `n`.
pub proof fn lemma_dec_reads_back(n: nat)
    ensures
        dec(n).len() > 0,
        all_digits(dec(n)),
        digits_value(dec(n)) == n,
    decreases n,
{
    if n < 10 {
        assert(digit_char(n) as nat == ('0' as nat) + n);
        assert(dec(n).drop_last() =~= Seq::<char>::empty());
        assert(digits_value(dec(n)) == digits_value(dec(n).drop_last()) * 10 + ((dec(n).last() as nat) - ('0' as nat)) as nat);
    } else {
        lemma_dec_reads_back(n / 10);
        let d = n % 10;
        assert(digit_char(d) as nat == ('0' as nat) + d);
        assert(dec(n).drop_last() =~= dec(n / 10));
        assert(dec(n).last() == digit_char(d));
        assert(digits_value(dec(n)) == digits_value(dec(n).drop_last()) * 10 + ((dec(n).last() as nat) - ('0' as nat)) as nat);
        assert(digits_value(dec(n)) == (n / 10) * 10 + d);
        assert forall|k: int| 0 <= k < dec(n).len() implies crate::ansi::is_ascii_digit(#[trigger] dec(n)[k]) by {
            if k < dec(n / 10).len() {
                assert(dec(n)[k] == dec(n / 10)[k]);
            }
        }
    }
}

/// Reading `dec2(n)` back, for `n < 100`, gives two digits worth `n`.
pub proof fn lemma_dec2_reads_back(n: nat)
    requires
        n < 100,
    ensures
        dec2(n).len() == 2,
        all_digits(dec2(n)),
        digits_value(dec2(n)) == n,
{
    if n < 10 {
        assert(digit_char(n) as nat == ('0' as nat) + n);
        assert(dec2(n).drop_last() =~= seq!['0']);
        assert(seq!['0'].drop_last() =~= Seq::<char>::empty());
        assert(digits_value(seq!['0']) == digits_value(seq!['0'].drop_last()) * 10 + ((seq!['0'].last() as nat) - ('0' as nat)) as nat);
        assert(digits_value(dec2(n)) == digits_value(dec2(n).drop_last()) * 10 + ((dec2(n).last() as nat) - ('0' as nat)) as nat);
    } else {
        lemma_dec_reads_back(n);
        assert(dec(n / 10).len() == 1);
    }
}

/// A clock reads back as the time it shows: the last two characters are
/// the seconds within the minute, preceded by `:`; below an hour, the
/// digits before that colon are the full count of minutes, and from an
/// hour on they end in the two-digit minutes within the hour.
pub proof fn lemma_fmt_ms_reads_back(ms: nat)
    ensures
        ({
            let r = fmt_ms_spec(ms);
            let n = r.len() as int;
            &&& n >= 4
            &&& r[n - 3] == ':'
            &&& all_digits(r.skip(n - 2))
            &&& digits_value(r.skip(n - 2)) == (ms / 1000) % 60
            &&& ms < 3_600_000 ==> all_digits(r.take(n - 3)) && digits_value(r.take(n - 3)) == ms / 60000
            &&& ms >= 3_600_000 ==> r[n - 6] == ':' && digits_value(r.subrange(n - 5, n - 3)) == (ms / 60000) % 60
        }),
{
    let total = ms / 1000;
    let h = total / 3600;
    let m = (total % 3600) / 60;
    let sec = total % 60;
    lemma_dec2_reads_back(sec);
    let r = fmt_ms_spec(ms);
    if h > 0 {
        lemma_dec_reads_back(h);
        lemma_dec2_reads_back(m);
        let a = dec(h) + seq![':'] + dec2(m) + seq![':'];
        assert(r =~= a + dec2(sec));
        assert(r.skip(r.len() - 2) =~= dec2(sec));
        assert(r.subrange(r.len() - 5, r.len() - 3) =~= dec2(m));
        assert(ms / 60000 == total / 60);
        assert((total / 60) % 60 == m) by (nonlinear_arith)
            requires m == (total % 3600) / 60;
    } else {
        lemma_dec_reads_back(m);
        assert(r =~= dec(m) + seq![':'] + dec2(sec));
        assert(r.skip(r.len() - 2) =~= dec2(sec));
        assert(r.take(r.len() - 3) =~= dec(m));
        assert(ms / 60000 == total / 60);
        assert(total / 60 == m) by (nonlinear_arith)
            requires total < 3600, m == (total % 3600) / 60;
    }
}

/// Reading `dec2(n)` back gives `n`, in at least two digits.
pub proof fn lemma_dec2_any_reads_back(n: nat)
    ensures
        dec2(n).len() >= 2,
        all_digits(dec2(n)),
        digits_value(dec2(n)) == n,
{
    if n < 100 {
        lemma_dec2_reads_back(n);
    } else {
        lemma_dec_reads_back(n);
        lemma_dec_reads_back(n / 10);
        assert(dec(n / 10).len() > 0);
    }
}

/// A track length reads back as the time it shows: whole minutes (any
/// number of digits), a colon, and the two-digit seconds within the minute.
pub proof fn lemma_track_duration_reads_back(ms: nat)
    ensures
        ({
            let r = track_duration_spec(ms);
            let n = r.len() as int;
            &&& n >= 4
            &&& r[n - 3] == ':'
            &&& all_digits(r.take(n - 3)) && digits_value(r.take(n - 3)) == ms / 60000
            &&& all_digits(r.skip(n - 2)) && digits_value(r.skip(n - 2)) == (ms / 1000) % 60
        }),
{
    let secs = ms / 1000;
    lemma_dec_reads_back(secs / 60);
    lemma_dec2_reads_back(secs % 60);
    let r = track_duration_spec(ms);
    assert(r.take(r.len() - 3) =~= dec(secs / 60));
    assert(r.skip(r.len() - 2) =~= dec2(secs % 60));
    assert(ms / 60000 == secs / 60);
}

/// A transport clock reads back as the time it shows: at least two digits
/// of whole minutes, a colon, and the two-digit seconds.
pub proof fn lemma_clock_reads_back(ms: nat)
    ensures
        ({
            let r = clock_spec(ms);
            let n = r.len() as int;
            &&& n >= 5
            &&& r[n - 3] == ':'
            &&& all_digits(r.take(n - 3)) && digits_value(r.take(n - 3)) == ms / 60000
            &&& all_digits(r.skip(n - 2)) && digits_value(r.skip(n - 2)) == (ms / 1000) % 60
        }),
{
    let secs = ms / 1000;
    lemma_dec2_any_reads_back(secs / 60);
    lemma_dec2_reads_back(secs % 60);
    let r = clock_spec(ms);
    assert(r.take(r.len() - 3) =~= dec2(secs / 60));
    assert(r.skip(r.len() - 2) =~= dec2(secs % 60));
    assert(ms / 60000 == secs / 60);
}

/// An age label reads back as the age in its largest whole unit: the
/// digits count whole days from a day on, whole hours from an hour on,
/// whole minutes from a minute on, else seconds, and the unit letter
/// follows them.
pub proof fn lemma_age_reads_back(secs: nat)
    ensures
        ({
            let r = age_spec(secs);
            let d = r.drop_last();
            &&& r.len() >= 2
            &&& all_digits(d)
            &&& secs < 60 ==> r.last() == 's' && digits_value(d) == secs
            &&& 60 <= secs < 3600 ==> r.last() == 'm' && digits_value(d) == secs / 60
            &&& 3600 <= secs < 86400 ==> r.last() == 'h' && digits_value(d) == secs / 3600
            &&& secs >= 86400 ==> r.last() == 'd' && digits_value(d) == secs / 86400
        }),
{
    let v = if secs < 60 {
        secs
    } else if secs < 3600 {
        secs / 60
    } else if secs < 86400 {
        secs / 3600
    } else {
        secs / 86400
    };
    lemma_dec_reads_back(v);
    assert(age_spec(secs).drop_last() =~= dec(v));
}

} // verus!
