//! Character-level text utilities: ASCII lower-casing, whitespace
//! trimming, whitespace tokenization, and decimal rendering of integers.
//!
//! Statements are modelled as sequences of characters (`Seq<char>`); the
//! executable functions work on `&str`, `String` and `Vec<char>` and are
//! proved against the sequence-level spec functions.

use vstd::prelude::*;
use vstd::string::StrSliceExecFns;

verus! {

/// The whitespace characters recognized when trimming and tokenizing:
/// the ASCII whitespace set.
pub open spec fn is_space_char(c: char) -> bool {
    c == ' ' || c == '\t' || c == '\n' || c == '\r' || c == '\u{b}' || c == '\u{c}'
}

/// ASCII lower-casing of a single character; characters outside 'A'..='Z'
/// are kept unchanged.
pub open spec fn lower_char(c: char) -> char {
    if 'A' <= c && c <= 'Z' {
        ((c as u8) + 32) as char
    } else {
        c
    }
}

/// ASCII lower-casing of a character sequence.
pub open spec fn lower(s: Seq<char>) -> Seq<char> {
    s.map_values(|c: char| lower_char(c))
}

/// Drops leading whitespace.
pub open spec fn trim_start(s: Seq<char>) -> Seq<char>
    decreases s.len(),
{
    if s.len() > 0 && is_space_char(s[0]) {
        trim_start(s.drop_first())
    } else {
        s
    }
}

/// Drops trailing whitespace.
pub open spec fn trim_end(s: Seq<char>) -> Seq<char>
    decreases s.len(),
{
    if s.len() > 0 && is_space_char(s.last()) {
        trim_end(s.drop_last())
    } else {
        s
    }
}

/// Drops surrounding whitespace.
pub open spec fn trim(s: Seq<char>) -> Seq<char> {
    trim_end(trim_start(s))
}

/// Surrounding whitespace dropped, then every character lower-cased.
pub open spec fn normalized(s: Seq<char>) -> Seq<char> {
    lower(trim(s))
}

/// The whitespace-separated tokens of a character sequence, defined one
/// character at a time: a whitespace character separates, a non-whitespace
/// character either opens a fresh token or extends the token that the next
/// character belongs to.
pub open spec fn tokens(s: Seq<char>) -> Seq<Seq<char>>
    decreases s.len(),
{
    if s.len() == 0 {
        Seq::empty()
    } else if is_space_char(s[0]) {
        tokens(s.drop_first())
    } else if s.len() == 1 || is_space_char(s[1]) {
        seq![seq![s[0]]] + tokens(s.drop_first())
    } else {
        let rest = tokens(s.drop_first());
        seq![seq![s[0]] + rest[0]] + rest.drop_first()
    }
}

/// The decimal digit character for a value below ten.
pub open spec fn digit_char(d: int) -> char {
    ((d + 48) as u8) as char
}

/// The decimal rendering of a non-negative integer, most significant
/// digit first, with no sign and no leading zeros (zero itself is "0").
pub open spec fn dec_digits(n: int) -> Seq<char>
    decreases n,
{
    if n < 10 {
        seq![digit_char(n)]
    } else {
        dec_digits(n / 10).push(digit_char(n % 10))
    }
}

/// Tests whether a character is in the recognized whitespace set.
pub fn is_space(c: char) -> (r: bool)
    ensures
        r == is_space_char(c),
{
    c == ' ' || c == '\t' || c == '\n' || c == '\r' || c == '\u{b}' || c == '\u{c}'
}

/// Lower-cases one character, ASCII-only.
pub fn to_lower(c: char) -> (r: char)
    ensures
        r == lower_char(c),
{
    let u = c as u32;
    if 65 <= u && u <= 90 {
        ((u + 32) as u8) as char
    } else {
        c
    }
}

/// The characters of a string slice, in order.
pub fn str_chars(s: &str) -> (v: Vec<char>)
    ensures
        v@ == s@,
{
    let n = s.unicode_len();
    let mut v: Vec<char> = Vec::new();
    let mut i: usize = 0;
    while i < n
        invariant
            n == s@.len(),
            i <= n,
            v@ == s@.take(i as int),
        decreases n - i,
    {
        v.push(s.get_char(i));
        i = i + 1;
        assert(v@ =~= s@.take(i as int));
    }
    assert(v@ =~= s@);
    v
}

/// Relies on String::push: appends exactly the given character.
#[verifier::external_body]
fn push_char(s: &mut String, c: char)
    ensures
        final(s)@ == old(s)@.push(c),
{
    s.push(c);
}

/// The string made of the given characters, in order.
pub fn chars_string(v: &Vec<char>) -> (s: String)
    ensures
        s@ == v@,
{
    let mut s = String::new();
    let mut i: usize = 0;
    while i < v.len()
        invariant
            i <= v.len(),
            s@ == v@.take(i as int),
        decreases v.len() - i,
    {
        push_char(&mut s, v[i]);
        i = i + 1;
        assert(s@ =~= v@.take(i as int));
    }
    assert(s@ =~= v@);
    s
}

/// If the first `i` characters of `s` are whitespace and `s[i]` (when it
/// exists) is not, then trimming from the start drops exactly those `i`.
proof fn lemma_trim_start_at(s: Seq<char>, i: int)
    requires
        0 <= i <= s.len(),
        forall|j: int| 0 <= j < i ==> is_space_char(s[j]),
        i == s.len() || !is_space_char(s[i]),
    ensures
        trim_start(s) == s.subrange(i, s.len() as int),
    decreases i,
{
    if i == 0 {
        assert(s.subrange(0, s.len() as int) =~= s);
    } else {
        let t = s.drop_first();
        assert(is_space_char(s[0]));
        assert forall|j: int| 0 <= j < i - 1 implies is_space_char(t[j]) by {
            assert(t[j] == s[j + 1]);
        }
        assert(i - 1 == t.len() || !is_space_char(t[i - 1]));
        lemma_trim_start_at(t, i - 1);
        assert(t.subrange(i - 1, t.len() as int) =~= s.subrange(i, s.len() as int));
    }
}

/// If everything from position `i` on is whitespace and `s[i - 1]` (when it
/// exists) is not, then trimming from the end keeps exactly the first `i`.
proof fn lemma_trim_end_at(s: Seq<char>, i: int)
    requires
        0 <= i <= s.len(),
        forall|j: int| i <= j < s.len() ==> is_space_char(s[j]),
        i == 0 || !is_space_char(s[i - 1]),
    ensures
        trim_end(s) == s.subrange(0, i),
    decreases s.len() - i,
{
    if i == s.len() {
        assert(s.subrange(0, i) =~= s);
    } else {
        let t = s.drop_last();
        assert(is_space_char(s.last()));
        assert forall|j: int| i <= j < t.len() implies is_space_char(t[j]) by {
            assert(t[j] == s[j]);
        }
        lemma_trim_end_at(t, i);
        assert(t.subrange(0, i) =~= s.subrange(0, i));
    }
}

/// Trims surrounding whitespace and lower-cases what remains.
pub fn normalize_chars(v: &Vec<char>) -> (r: Vec<char>)
    ensures
        r@ == normalized(v@),
{
    let n = v.len();
    let mut lo: usize = 0;
    while lo < n && is_space(v[lo])
        invariant
            n == v.len(),
            lo <= n,
            forall|j: int| 0 <= j < lo ==> is_space_char(v@[j]),
        decreases n - lo,
    {
        lo = lo + 1;
    }
    let mut hi: usize = n;
    while hi > lo && is_space(v[hi - 1])
        invariant
            n == v.len(),
            lo <= hi <= n,
            forall|j: int| hi <= j < n ==> is_space_char(v@[j]),
        decreases hi,
    {
        hi = hi - 1;
    }
    proof {
        lemma_trim_start_at(v@, lo as int);
        let ts = v@.subrange(lo as int, n as int);
        assert forall|j: int| hi - lo <= j < ts.len() implies is_space_char(ts[j]) by {
            assert(ts[j] == v@[lo + j]);
        }
        assert(hi - lo == 0 || !is_space_char(ts[hi - lo - 1]));
        lemma_trim_end_at(ts, hi - lo);
        assert(ts.subrange(0, hi - lo) =~= v@.subrange(lo as int, hi as int));
        assert(trim(v@) == v@.subrange(lo as int, hi as int));
    }
    let mut r: Vec<char> = Vec::new();
    let mut i: usize = lo;
    while i < hi
        invariant
            n == v.len(),
            lo <= i <= hi <= n,
            trim(v@) == v@.subrange(lo as int, hi as int),
            r@ == lower(trim(v@)).take(i - lo),
        decreases hi - i,
    {
        r.push(to_lower(v[i]));
        i = i + 1;
        assert(r@ =~= lower(trim(v@)).take(i - lo));
    }
    assert(r@ =~= lower(trim(v@)));
    r
}

/// A sequence that opens with a non-whitespace character has a first token,
/// and that token opens with the same character.
proof fn lemma_tokens_nonempty(s: Seq<char>)
    requires
        s.len() > 0,
        !is_space_char(s[0]),
    ensures
        tokens(s).len() >= 1,
        tokens(s)[0].len() >= 1,
        tokens(s)[0][0] == s[0],
    decreases s.len(),
{
    if s.len() == 1 || is_space_char(s[1]) {
    } else {
        lemma_tokens_nonempty(s.drop_first());
    }
}

/// Splits on whitespace: the result holds the tokens of `v`, in order.
pub fn split_tokens(v: &Vec<char>) -> (r: Vec<Vec<char>>)
    ensures
        r@.len() == tokens(v@).len(),
        forall|k: int| 0 <= k < r@.len() ==> r@[k]@ == tokens(v@)[k],
{
    let n = v.len();
    let mut r: Vec<Vec<char>> = Vec::new();
    let mut i: usize = n;
    while i > 0
        invariant
            n == v.len(),
            i <= n,
            r@.len() == tokens(v@.skip(i as int)).len(),
            forall|k: int| 0 <= k < r@.len() ==> r@[k]@ == tokens(v@.skip(i as int))[k],
        decreases i,
    {
        let ghost s = v@.skip(i - 1);
        let ghost rest = tokens(v@.skip(i as int));
        proof {
            assert(s.drop_first() =~= v@.skip(i as int));
            assert(s[0] == v@[i - 1]);
        }
        let c = v[i - 1];
        if is_space(c) {
            assert(tokens(s) == rest);
        } else if i == n || is_space(v[i]) {
            assert(s.len() == 1 || is_space_char(s[1]));
            assert(tokens(s) == seq![seq![s[0]]] + rest);
            let mut t: Vec<char> = Vec::new();
            t.push(c);
            assert(t@ =~= seq![s[0]]);
            let ghost r_old = r@;
            r.insert(0, t);
            assert forall|k: int| 0 <= k < r@.len() implies r@[k]@ == tokens(s)[k] by {
                if k == 0 {
                    assert(r@[0]@ == seq![s[0]]);
                    assert(tokens(s)[0] == seq![s[0]]);
                } else {
                    assert(r@[k] == r_old[k - 1]);
                    assert(tokens(s)[k] == rest[k - 1]);
                }
            }
        } else {
            assert(s.len() > 1 && !is_space_char(s[1]));
            assert(tokens(s) == seq![seq![s[0]] + rest[0]] + rest.drop_first());
            proof {
                lemma_tokens_nonempty(v@.skip(i as int));
            }
            let ghost r_old = r@;
            let mut t = r.remove(0);
            t.insert(0, c);
            assert(t@ =~= seq![s[0]] + rest[0]);
            let ghost r_mid = r@;
            r.insert(0, t);
            assert forall|k: int| 0 <= k < r@.len() implies r@[k]@ == tokens(s)[k] by {
                if k == 0 {
                    assert(tokens(s)[0] == seq![s[0]] + rest[0]);
                } else {
                    assert(r@[k] == r_mid[k - 1]);
                    assert(r_mid[k - 1] == r_old[k]);
                    assert(tokens(s)[k] == rest.drop_first()[k - 1]);
                    assert(rest.drop_first()[k - 1] == rest[k]);
                }
            }
        }
        i = i - 1;
    }
    proof {
        assert(v@.skip(0) =~= v@);
    }
    r
}

/// The decimal digit character for a value below ten.
fn digit(d: u64) -> (c: char)
    requires
        d < 10,
    ensures
        c == digit_char(d as int),
{
    ((d as u8) + 48) as char
}

/// Appends the decimal rendering of `n`.
fn push_dec(n: u64, out: &mut String)
    ensures
        final(out)@ == old(out)@ + dec_digits(n as int),
    decreases n,
{
    if n < 10 {
        push_char(out, digit(n));
        assert(out@ =~= old(out)@ + dec_digits(n as int));
    } else {
        push_dec(n / 10, out);
        push_char(out, digit(n % 10));
        assert(out@ =~= old(out)@ + dec_digits(n as int));
    }
}

/// The decimal rendering of an unsigned integer, no sign, no leading zeros.
pub fn u64_string(n: u64) -> (s: String)
    ensures
        s@ == dec_digits(n as int),
{
    let mut s = String::new();
    push_dec(n, &mut s);
    assert(s@ =~= dec_digits(n as int));
    s
}

} // verus!
