//! Text helpers: exact string comparison, decimal rendering of integers,
//! and the two std string transformations the plugin relies on.

use vstd::prelude::*;
use vstd::string::*;

verus! {

/// The character of a decimal digit `d` (`0 <= d < 10`).
pub open spec fn digit_char(d: nat) -> char {
    if d == 0 { '0' }
    else if d == 1 { '1' }
    else if d == 2 { '2' }
    else if d == 3 { '3' }
    else if d == 4 { '4' }
    else if d == 5 { '5' }
    else if d == 6 { '6' }
    else if d == 7 { '7' }
    else if d == 8 { '8' }
    else { '9' }
}

/// The decimal representation of `n`, most significant digit first,
/// without leading zeros.
pub open spec fn decimal_digits(n: nat) -> Seq<char>
    decreases n,
{
    if n < 10 {
        seq![digit_char(n)]
    } else {
        decimal_digits(n / 10).push(digit_char(n % 10))
    }
}

/// The number that a string of decimal digits denotes, each character read
/// by its code as `c - '0'`, most significant first.
pub open spec fn decimal_value(s: Seq<char>) -> int
    decreases s.len(),
{
    if s.len() == 0 {
        0
    } else {
        decimal_value(s.drop_last()) * 10 + (s.last() as int - '0' as int)
    }
}

proof fn lemma_digit_char(d: nat)
    requires
        d < 10,
    ensures
        digit_char(d) as int == '0' as int + d,
        '0' <= digit_char(d) <= '9',
{
    assert('1' as int == '0' as int + 1);
    assert('2' as int == '0' as int + 2);
    assert('3' as int == '0' as int + 3);
    assert('4' as int == '0' as int + 4);
    assert('5' as int == '0' as int + 5);
    assert('6' as int == '0' as int + 6);
    assert('7' as int == '0' as int + 7);
    assert('8' as int == '0' as int + 8);
    assert('9' as int == '0' as int + 9);
}

/// The decimal rendering of `n` is a non-empty string of the characters
/// `'0'` to `'9'` that reads back as `n`, with no leading zero unless `n` is 0.
pub proof fn lemma_decimal_digits(n: nat)
    ensures
        decimal_digits(n).len() >= 1,
        forall|i: int|
            0 <= i < decimal_digits(n).len() ==> '0' <= #[trigger] decimal_digits(n)[i] <= '9',
        decimal_value(decimal_digits(n)) == n,
        decimal_digits(n)[0] == '0' ==> n == 0,
    decreases n,
{
    lemma_digit_char(n % 10);
    if n < 10 {
        assert(decimal_digits(n).drop_last() =~= Seq::<char>::empty());
        assert(n % 10 == n);
        let d = decimal_digits(n);
        assert(decimal_value(d.drop_last()) == 0);
        assert(d.last() == digit_char(n));
        assert(decimal_value(d) == decimal_value(d.drop_last()) * 10 + (d.last() as int - '0' as int));
    } else {
        lemma_decimal_digits(n / 10);
        let p = decimal_digits(n / 10);
        let d = decimal_digits(n);
        assert(d.drop_last() =~= p);
        assert(d[0] == p[0]);
        assert(d.last() == digit_char(n % 10));
        assert(decimal_value(d) == decimal_value(p) * 10 + (n % 10) as int);
        assert((n / 10) * 10 + n % 10 == n) by (nonlinear_arith);
    }
}

fn digit_text(d: u64) -> (s: &'static str)
    requires
        d < 10,
    ensures
        s@ == seq![digit_char(d as nat)],
{
    if d == 0 {
        proof { reveal_strlit("0"); }
        "0"
    } else if d == 1 {
        proof { reveal_strlit("1"); }
        "1"
    } else if d == 2 {
        proof { reveal_strlit("2"); }
        "2"
    } else if d == 3 {
        proof { reveal_strlit("3"); }
        "3"
    } else if d == 4 {
        proof { reveal_strlit("4"); }
        "4"
    } else if d == 5 {
        proof { reveal_strlit("5"); }
        "5"
    } else if d == 6 {
        proof { reveal_strlit("6"); }
        "6"
    } else if d == 7 {
        proof { reveal_strlit("7"); }
        "7"
    } else if d == 8 {
        proof { reveal_strlit("8"); }
        "8"
    } else {
        proof { reveal_strlit("9"); }
        "9"
    }
}

/// Renders `n` in decimal, as `u64`'s `Display` does.
pub fn decimal_string(n: u64) -> (s: String)
    ensures
        s@ == decimal_digits(n as nat),
    decreases n,
{
    if n < 10 {
        String::from_str(digit_text(n))
    } else {
        let mut s = decimal_string(n / 10);
        s.append(digit_text(n % 10));
        s
    }
}

/// Compares two strings character by character.
pub fn str_equals(a: &str, b: &str) -> (r: bool)
    ensures
        r == (a@ == b@),
{
    let n = a.unicode_len();
    let m = b.unicode_len();
    if n != m {
        return false;
    }
    let mut i: usize = 0;
    while i < n
        invariant
            n == a@.len(),
            m == b@.len(),
            n == m,
            i <= n,
            forall|j: int| 0 <= j < i ==> a@[j] == b@[j],
        decreases n - i,
    {
        if a.get_char(i) != b.get_char(i) {
            return false;
        }
        i = i + 1;
    }
    assert(a@ =~= b@);
    true
}

/// What `str::to_lowercase` returns for a string with characters `s`.
pub uninterp spec fn lowercase_of(s: Seq<char>) -> Seq<char>;

/// Calls `str::to_lowercase`, which maps every character to its Unicode
/// lowercase form (with the context-dependent rule for final sigma). The
/// contract only names the result as `lowercase_of` of the input; which
/// characters change is not stated.
#[verifier::external_body]
pub(crate) fn to_lowercase(s: &str) -> (r: String)
    ensures
        r@ == lowercase_of(s@),
{
    s.to_lowercase()
}

/// Whether `c` has the Unicode `White_Space` property, the whitespace that
/// `char::is_whitespace` and `str::trim` go by: U+0009 to U+000D, space,
/// U+0085, U+00A0, U+1680, U+2000 to U+200A, U+2028, U+2029, U+202F,
/// U+205F and U+3000.
pub open spec fn white_space(c: char) -> bool {
    ||| ('\u{9}' <= c && c <= '\u{d}')
    ||| c == ' '
    ||| c == '\u{85}'
    ||| c == '\u{a0}'
    ||| c == '\u{1680}'
    ||| ('\u{2000}' <= c && c <= '\u{200a}')
    ||| c == '\u{2028}'
    ||| c == '\u{2029}'
    ||| c == '\u{202f}'
    ||| c == '\u{205f}'
    ||| c == '\u{3000}'
}

/// The code points of the Unicode `White_Space` characters.
pub open spec fn white_space_code_points() -> Seq<u32> {
    seq![
        0x9, 0xA, 0xB, 0xC, 0xD, 0x20, 0x85, 0xA0, 0x1680, 0x2000, 0x2001, 0x2002, 0x2003, 0x2004,
        0x2005, 0x2006, 0x2007, 0x2008, 0x2009, 0x200A, 0x2028, 0x2029, 0x202F, 0x205F, 0x3000,
    ]
}

/// A character is white space exactly when its code point is one of the 25
/// Unicode `White_Space` code points; in particular no letter, digit or
/// ideograph is white space.
pub proof fn lemma_white_space_code_points(c: char)
    ensures
        white_space(c) <==> white_space_code_points().contains(c as u32),
{
    let w = white_space_code_points();
    if white_space(c) {
        let k = c as u32;
        if 0x9 <= k <= 0xD {
            assert(w[(k - 0x9) as int] == k);
        } else if 0x2000 <= k <= 0x200A {
            assert(w[(k - 0x2000 + 9) as int] == k);
        } else if k == 0x20 {
            assert(w[5] == k);
        } else if k == 0x85 {
            assert(w[6] == k);
        } else if k == 0xA0 {
            assert(w[7] == k);
        } else if k == 0x1680 {
            assert(w[8] == k);
        } else if k == 0x2028 {
            assert(w[20] == k);
        } else if k == 0x2029 {
            assert(w[21] == k);
        } else if k == 0x202F {
            assert(w[22] == k);
        } else if k == 0x205F {
            assert(w[23] == k);
        } else {
            assert(w[24] == k);
        }
    }
}

/// The first position at or after `i` that does not hold white space, or
/// the length of `s` when there is none.
pub open spec fn skip_white_from(s: Seq<char>, i: int) -> int
    decreases s.len() - i,
{
    if i >= s.len() || i < 0 {
        s.len() as int
    } else if white_space(s[i]) {
        skip_white_from(s, i + 1)
    } else {
        i
    }
}

/// The position just after the last character before `j` that is not white
/// space, or 0 when there is none.
pub open spec fn end_white_before(s: Seq<char>, j: int) -> int
    decreases j,
{
    if j <= 0 || j > s.len() {
        0
    } else if white_space(s[j - 1]) {
        end_white_before(s, j - 1)
    } else {
        j
    }
}

/// `s` without its leading and trailing white space, as `str::trim` gives it.
pub open spec fn trimmed(s: Seq<char>) -> Seq<char> {
    let a = skip_white_from(s, 0);
    let b = end_white_before(s, s.len() as int);
    if a < b {
        s.subrange(a, b)
    } else {
        Seq::empty()
    }
}

proof fn lemma_skip_white_from(s: Seq<char>, i: int)
    requires
        0 <= i <= s.len(),
    ensures
        i <= skip_white_from(s, i) <= s.len(),
        forall|k: int| i <= k < skip_white_from(s, i) ==> white_space(#[trigger] s[k]),
        skip_white_from(s, i) < s.len() ==> !white_space(s[skip_white_from(s, i)]),
    decreases s.len() - i,
{
    if i < s.len() && white_space(s[i]) {
        lemma_skip_white_from(s, i + 1);
    }
}

proof fn lemma_end_white_before(s: Seq<char>, j: int)
    requires
        0 <= j <= s.len(),
    ensures
        0 <= end_white_before(s, j) <= j,
        forall|k: int| end_white_before(s, j) <= k < j ==> white_space(#[trigger] s[k]),
        end_white_before(s, j) > 0 ==> !white_space(s[end_white_before(s, j) - 1]),
    decreases j,
{
    if j > 0 && white_space(s[j - 1]) {
        lemma_end_white_before(s, j - 1);
    }
}

/// Trimming removes exactly the white space at both ends: the result is a
/// contiguous part of `s`, everything outside it is white space, and it
/// neither starts nor ends with white space. In particular the result is
/// empty exactly when every character of `s` is white space.
pub proof fn lemma_trimmed(s: Seq<char>)
    ensures
        exists|a: int, b: int|
            {
                &&& 0 <= a <= b <= s.len()
                &&& trimmed(s) == s.subrange(a, b)
                &&& forall|k: int| 0 <= k < a ==> white_space(#[trigger] s[k])
                &&& forall|k: int| b <= k < s.len() ==> white_space(#[trigger] s[k])
                &&& a < b ==> !white_space(s[a]) && !white_space(s[b - 1])
            },
        trimmed(s).len() == 0 <==> (forall|k: int| 0 <= k < s.len() ==> white_space(#[trigger] s[k])),
{
    lemma_skip_white_from(s, 0);
    lemma_end_white_before(s, s.len() as int);
    let a = skip_white_from(s, 0);
    let b = end_white_before(s, s.len() as int);
    if a < b {
        assert(trimmed(s) == s.subrange(a, b));
        assert(!white_space(s[a]));
        assert(trimmed(s).len() > 0);
    } else {
        // Every character is white space: those before `a` by the forward
        // scan, those from `b` on by the backward one, and `b <= a`.
        assert forall|k: int| 0 <= k < s.len() implies white_space(#[trigger] s[k]) by {
            if k >= a {
                assert(b <= k);
            }
        }
        assert(trimmed(s) =~= s.subrange(a, a));
    }
    if forall|k: int| 0 <= k < s.len() ==> white_space(#[trigger] s[k]) {
        if a < b {
            assert(white_space(s[a]));
        }
    }
}

fn is_white_space(c: char) -> (r: bool)
    ensures
        r == white_space(c),
{
    ('\u{9}' <= c && c <= '\u{d}') || c == ' ' || c == '\u{85}' || c == '\u{a0}' || c
        == '\u{1680}' || ('\u{2000}' <= c && c <= '\u{200a}') || c == '\u{2028}' || c
        == '\u{2029}' || c == '\u{202f}' || c == '\u{205f}' || c == '\u{3000}'
}

/// Returns `s` without its leading and trailing white space, as `str::trim`
/// does.
pub(crate) fn trim(s: &str) -> (r: &str)
    ensures
        r@ == trimmed(s@),
{
    let n = s.unicode_len();
    let mut a: usize = 0;
    while a < n && is_white_space(s.get_char(a))
        invariant
            n == s@.len(),
            a <= n,
            skip_white_from(s@, a as int) == skip_white_from(s@, 0),
            forall|k: int| 0 <= k < a ==> white_space(#[trigger] s@[k]),
        decreases n - a,
    {
        a = a + 1;
    }
    let mut b: usize = n;
    while b > a && is_white_space(s.get_char(b - 1))
        invariant
            n == s@.len(),
            a <= b <= n,
            end_white_before(s@, b as int) == end_white_before(s@, n as int),
            a == skip_white_from(s@, 0),
            a < n ==> !white_space(s@[a as int]),
            a < n ==> b > a,
        decreases b,
    {
        b = b - 1;
    }
    proof {
        lemma_end_white_before(s@, b as int);
        if a < n {
            assert(b > a);
            assert(end_white_before(s@, b as int) == b);
        }
    }
    s.substring_char(a, b)
}

} // verus!
