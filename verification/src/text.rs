//! Character-level helpers shared by the attribute parsers: ASCII whitespace
//! trimming, decimal parsing of unsigned 8-bit integers, and case folding.

use vstd::prelude::*;
use vstd::string::{StrSliceExecFns, StringExecFns};

verus! {

/// ASCII whitespace: the characters trimmed from the ends of attribute fields.
pub open spec fn is_space(c: char) -> bool {
    c == ' ' || c == '\t' || c == '\n' || c == '\r' || c == '\u{b}' || c == '\u{c}'
}

/// ASCII decimal digit: a code point between `'0'` and `'9'`.
pub open spec fn is_digit(c: char) -> bool {
    48 <= c as u32 && c as u32 <= 57
}

/// Numeric value of a decimal digit.
pub open spec fn digit_val(c: char) -> nat
    recommends
        is_digit(c),
{
    (c as u32 - 48) as nat
}

pub open spec fn all_digits(s: Seq<char>) -> bool {
    forall|i: int| 0 <= i < s.len() ==> is_digit(#[trigger] s[i])
}

/// Value of a decimal digit string, most significant digit first.
pub open spec fn dec_val(s: Seq<char>) -> nat
    decreases s.len(),
{
    if s.len() == 0 {
        0
    } else {
        dec_val(s.drop_last()) * 10 + digit_val(s.last())
    }
}

/// Decimal parse of an unsigned 8-bit integer: one or more digits, nothing
/// else, and a value of at most 255.
pub open spec fn parse_u8_spec(s: Seq<char>) -> Option<u8> {
    if s.len() > 0 && all_digits(s) && dec_val(s) <= 255 {
        Some(dec_val(s) as u8)
    } else {
        None
    }
}

pub open spec fn trim_front(s: Seq<char>) -> Seq<char>
    decreases s.len(),
{
    if s.len() > 0 && is_space(s[0]) {
        trim_front(s.drop_first())
    } else {
        s
    }
}

pub open spec fn trim_back(s: Seq<char>) -> Seq<char>
    decreases s.len(),
{
    if s.len() > 0 && is_space(s.last()) {
        trim_back(s.drop_last())
    } else {
        s
    }
}

/// Both ends trimmed of ASCII whitespace.
pub open spec fn trim_spec(s: Seq<char>) -> Seq<char> {
    trim_back(trim_front(s))
}

/// ASCII upper-case folding: code points between `'a'` and `'z'` move up by
/// the case distance, all else is kept.
pub open spec fn to_upper(c: char) -> char {
    if 97 <= c as u32 && c as u32 <= 122 {
        ((c as u32) - 32) as char
    } else {
        c
    }
}

/// The decimal digit character for a value below ten.
pub open spec fn dec_digit_seq(d: u8) -> Seq<char>
    recommends
        d < 10,
{
    if d == 0 {
        "0"@
    } else if d == 1 {
        "1"@
    } else if d == 2 {
        "2"@
    } else if d == 3 {
        "3"@
    } else if d == 4 {
        "4"@
    } else if d == 5 {
        "5"@
    } else if d == 6 {
        "6"@
    } else if d == 7 {
        "7"@
    } else if d == 8 {
        "8"@
    } else {
        "9"@
    }
}

/// The decimal rendering of a byte, most significant digit first, without
/// leading zeros.
pub open spec fn dec_of(n: u8) -> Seq<char> {
    if n < 10 {
        dec_digit_seq(n)
    } else if n < 100 {
        dec_digit_seq(n / 10) + dec_digit_seq(n % 10)
    } else {
        dec_digit_seq(n / 100) + dec_digit_seq((n / 10) % 10) + dec_digit_seq(n % 10)
    }
}

proof fn lemma_dec_digit(d: u8)
    requires
        d < 10,
    ensures
        dec_digit_seq(d).len() == 1,
        is_digit(dec_digit_seq(d)[0]),
        digit_val(dec_digit_seq(d)[0]) == d as nat,
        !is_space(dec_digit_seq(d)[0]),
        dec_digit_seq(d)[0] != '-',
        dec_digit_seq(d)[0] != 'p',
{
    reveal_strlit("0");
    reveal_strlit("1");
    reveal_strlit("2");
    reveal_strlit("3");
    reveal_strlit("4");
    reveal_strlit("5");
    reveal_strlit("6");
    reveal_strlit("7");
    reveal_strlit("8");
    reveal_strlit("9");
}

proof fn lemma_dec_val_single(s: Seq<char>)
    requires
        s.len() == 1,
    ensures
        dec_val(s) == digit_val(s[0]),
{
    assert(s.drop_last() =~= Seq::<char>::empty());
    assert(dec_val(Seq::<char>::empty()) == 0);
    assert(s.last() == s[0]);
    assert(dec_val(s) == dec_val(s.drop_last()) * 10 + digit_val(s.last()));
}

/// A rendered byte is one to three decimal digits that parse back to
/// exactly that byte.
pub proof fn lemma_parse_dec_of(n: u8)
    ensures
        0 < dec_of(n).len() <= 3,
        all_digits(dec_of(n)),
        trim_spec(dec_of(n)) == dec_of(n),
        parse_u8_spec(dec_of(n)) == Some(n),
{
    let s = dec_of(n);
    if n < 10 {
        lemma_dec_digit(n);
        lemma_dec_val_single(s);
        assert(dec_val(s) == n);
    } else if n < 100 {
        lemma_dec_digit(n / 10);
        lemma_dec_digit(n % 10);
        let a = dec_digit_seq(n / 10);
        let b = dec_digit_seq(n % 10);
        assert(s.len() == 2);
        assert(s[0] == a[0]);
        assert(s[1] == b[0]);
        assert(s.drop_last() =~= a);
        assert(s.last() == b[0]);
        lemma_dec_val_single(a);
        assert(dec_val(s) == dec_val(s.drop_last()) * 10 + digit_val(s.last()));
        assert(dec_val(s) == (n / 10) * 10 + n % 10);
        assert((n / 10) * 10 + n % 10 == n);
    } else {
        lemma_dec_digit(n / 100);
        lemma_dec_digit((n / 10) % 10);
        lemma_dec_digit(n % 10);
        let a = dec_digit_seq(n / 100);
        let b = dec_digit_seq((n / 10) % 10);
        let c = dec_digit_seq(n % 10);
        assert(s.len() == 3);
        assert(s[0] == a[0]);
        assert(s[1] == b[0]);
        assert(s[2] == c[0]);
        assert(s.drop_last() =~= a + b);
        assert(s.last() == c[0]);
        assert((a + b).drop_last() =~= a);
        assert((a + b).last() == b[0]);
        lemma_dec_val_single(a);
        assert(dec_val(a) == n / 100);
        assert(dec_val(a + b) == dec_val((a + b).drop_last()) * 10 + digit_val((a + b).last()));
        assert(dec_val(a + b) == (n / 100) * 10 + (n / 10) % 10);
        assert(dec_val(s) == dec_val(s.drop_last()) * 10 + digit_val(s.last()));
        assert(dec_val(s) == ((n / 100) * 10 + (n / 10) % 10) * 10 + n % 10);
        assert(n / 10 / 10 == n / 100) by (nonlinear_arith);
        assert(n / 10 == (n / 10 / 10) * 10 + (n / 10) % 10);
        assert(n == (n / 10) * 10 + n % 10);
        assert(((n / 100) * 10 + (n / 10) % 10) * 10 + n % 10 == n) by (nonlinear_arith)
            requires
                n / 10 / 10 == n / 100,
                n / 10 == (n / 10 / 10) * 10 + (n / 10) % 10,
                n == (n / 10) * 10 + n % 10,
        ;
    }
    assert(!is_space(s[0]) && !is_space(s[s.len() - 1]));
    assert(trim_front(s) == s);
    assert(trim_back(s) == s);
}

/// The characters of a string, as a vector.
pub fn chars_of(s: &str) -> (v: Vec<char>)
    ensures
        v@ == s@,
{
    let n = s.unicode_len();
    let mut v: Vec<char> = Vec::new();
    let mut i: usize = 0;
    while i < n
        invariant
            n == s@.len(),
            i <= n,
            v@ == s@.take(i as int),
        decreases n - i,
    {
        let c = s.get_char(i);
        v.push(c);
        i = i + 1;
        proof {
            assert(v@ =~= s@.take(i as int));
        }
    }
    proof {
        assert(v@ =~= s@);
    }
    v
}

fn is_space_exec(c: char) -> (b: bool)
    ensures
        b == is_space(c),
{
    c == ' ' || c == '\t' || c == '\n' || c == '\r' || c == '\u{b}' || c == '\u{c}'
}

proof fn lemma_trim_front_is_skip(s: Seq<char>, k: int)
    requires
        0 <= k <= s.len(),
        forall|j: int| 0 <= j < k ==> is_space(#[trigger] s[j]),
        k < s.len() ==> !is_space(s[k]),
    ensures
        trim_front(s) == s.skip(k),
    decreases k,
{
    if k == 0 {
        assert(s.skip(0) =~= s);
    } else {
        assert(is_space(s[0]));
        lemma_trim_front_is_skip(s.drop_first(), k - 1);
        assert(s.drop_first().skip(k - 1) =~= s.skip(k));
    }
}

proof fn lemma_trim_back_is_take(s: Seq<char>, k: int)
    requires
        0 <= k <= s.len(),
        forall|j: int| k <= j < s.len() ==> is_space(#[trigger] s[j]),
        k > 0 ==> !is_space(s[k - 1]),
    ensures
        trim_back(s) == s.take(k),
    decreases s.len() - k,
{
    if k == s.len() {
        if s.len() == 0 {
            assert(s.take(0) =~= s);
        } else {
            assert(s.take(k) =~= s);
        }
    } else {
        assert(is_space(s.last()));
        lemma_trim_back_is_take(s.drop_last(), k);
        assert(s.drop_last().take(k) =~= s.take(k));
    }
}

/// Copy of `v` with ASCII whitespace removed from both ends.
pub fn trim(v: &Vec<char>) -> (t: Vec<char>)
    ensures
        t@ == trim_spec(v@),
{
    let n = v.len();
    let mut lo: usize = 0;
    while lo < n && is_space_exec(v[lo])
        invariant
            n == v@.len(),
            lo <= n,
            forall|j: int| 0 <= j < lo ==> is_space(#[trigger] v@[j]),
        decreases n - lo,
    {
        lo = lo + 1;
    }
    proof {
        lemma_trim_front_is_skip(v@, lo as int);
    }
    let mut hi: usize = n;
    while hi > lo && is_space_exec(v[hi - 1])
        invariant
            n == v@.len(),
            lo <= hi <= n,
            forall|j: int| hi <= j < n ==> is_space(#[trigger] v@[j]),
        decreases hi,
    {
        hi = hi - 1;
    }
    proof {
        lemma_trim_back_is_take(v@.skip(lo as int), hi - lo);
        assert(v@.skip(lo as int).take(hi - lo) =~= v@.subrange(lo as int, hi as int));
    }
    sub_chars(v, lo, hi)
}

fn dec_digit_str(d: u8) -> (r: &'static str)
    requires
        d < 10,
    ensures
        r@ == dec_digit_seq(d),
{
    if d == 0 {
        "0"
    } else if d == 1 {
        "1"
    } else if d == 2 {
        "2"
    } else if d == 3 {
        "3"
    } else if d == 4 {
        "4"
    } else if d == 5 {
        "5"
    } else if d == 6 {
        "6"
    } else if d == 7 {
        "7"
    } else if d == 8 {
        "8"
    } else {
        "9"
    }
}

/// Render a byte in decimal, without leading zeros.
pub fn u8_to_dec(n: u8) -> (s: String)
    ensures
        s@ == dec_of(n),
{
    let mut s = String::new();
    if n >= 100 {
        s.append(dec_digit_str(n / 100));
    }
    if n >= 10 {
        s.append(dec_digit_str((n / 10) % 10));
    }
    s.append(dec_digit_str(n % 10));
    proof {
        assert(s@ =~= dec_of(n));
    }
    s
}

/// The characters of `v` between `lo` (inclusive) and `hi` (exclusive).
pub fn sub_chars(v: &Vec<char>, lo: usize, hi: usize) -> (t: Vec<char>)
    requires
        lo <= hi <= v@.len(),
    ensures
        t@ == v@.subrange(lo as int, hi as int),
{
    let mut t: Vec<char> = Vec::new();
    let mut i: usize = lo;
    while i < hi
        invariant
            lo <= i <= hi <= v@.len(),
            t@ == v@.subrange(lo as int, i as int),
        decreases hi - i,
    {
        t.push(v[i]);
        i = i + 1;
        proof {
            assert(t@ =~= v@.subrange(lo as int, i as int));
        }
    }
    t
}

proof fn lemma_dec_val_prefix_le(s: Seq<char>, k: int)
    requires
        0 <= k <= s.len(),
    ensures
        dec_val(s.take(k)) <= dec_val(s),
    decreases s.len() - k,
{
    if k == s.len() {
        assert(s.take(k) =~= s);
    } else {
        lemma_dec_val_prefix_le(s.drop_last(), k);
        assert(s.drop_last().take(k) =~= s.take(k));
    }
}

/// Decimal parse of an unsigned 8-bit integer.
pub fn parse_u8(v: &Vec<char>) -> (r: Option<u8>)
    ensures
        r == parse_u8_spec(v@),
{
    let n = v.len();
    if n == 0 {
        return None;
    }
    let mut acc: u32 = 0;
    let mut i: usize = 0;
    while i < n
        invariant
            n == v@.len(),
            0 < n,
            i <= n,
            forall|j: int| 0 <= j < i ==> is_digit(#[trigger] v@[j]),
            acc == dec_val(v@.take(i as int)),
            acc <= 255,
        decreases n - i,
    {
        let u = v[i] as u32;
        if u < 48 || u > 57 {
            proof {
                assert(!is_digit(v@[i as int]));
                assert(!all_digits(v@));
            }
            return None;
        }
        acc = acc * 10 + (u - 48);
        i = i + 1;
        proof {
            assert(v@.take(i as int).drop_last() =~= v@.take(i as int - 1));
            assert(v@.take(i as int).last() == v@[i as int - 1]);
        }
        if acc > 255 {
            proof {
                lemma_dec_val_prefix_le(v@, i as int);
            }
            return None;
        }
    }
    proof {
        assert(v@.take(n as int) =~= v@);
        assert(all_digits(v@));
    }
    Some(acc as u8)
}

} // verus!
