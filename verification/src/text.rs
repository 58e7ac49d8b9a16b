//! Text helpers: decimal rendering of integers and fixed-point values, and
//! joining of string pieces, each with its specification.

use vstd::prelude::*;
use vstd::string::*;
use vstd::utf8::encode_utf8;

verus! {

/// The character of a decimal digit.
pub open spec fn digit_char(d: int) -> char {
    if d == 0 {
        '0'
    } else if d == 1 {
        '1'
    } else if d == 2 {
        '2'
    } else if d == 3 {
        '3'
    } else if d == 4 {
        '4'
    } else if d == 5 {
        '5'
    } else if d == 6 {
        '6'
    } else if d == 7 {
        '7'
    } else if d == 8 {
        '8'
    } else {
        '9'
    }
}

/// Decimal digits of a natural number, most significant first, without
/// leading zeros ("0" for zero).
pub open spec fn spec_decimal(n: nat) -> Seq<char>
    decreases n,
{
    if n < 10 {
        seq![digit_char(n as int)]
    } else {
        spec_decimal(n / 10).push(digit_char((n % 10) as int))
    }
}

/// `n` written with at least `width` digits, padded with leading zeros.
pub open spec fn spec_decimal_padded(n: nat, width: nat) -> Seq<char> {
    let d = spec_decimal(n);
    if d.len() >= width {
        d
    } else {
        Seq::new((width - d.len()) as nat, |i: int| '0') + d
    }
}

/// The one-character string of a decimal digit.
pub fn digit_str(d: u128) -> (s: &'static str)
    requires
        d < 10,
    ensures
        s@ == seq![digit_char(d as int)],
{
    proof {
        reveal_strlit("0");
        reveal_strlit("1");
        reveal_strlit("2");
        reveal_strlit("3");
        reveal_strlit("4");
        reveal_strlit("5");
        reveal_strlit("6");
        reveal_strlit("7");
        reveal_strlit("8");
        reveal_strlit("9");
    }
    if d == 0 {
        "0"
    } else if d == 1 {
        "1"
    } else if d == 2 {
        "2"
    } else if d == 3 {
        "3"
    } else if d == 4 {
        "4"
    } else if d == 5 {
        "5"
    } else if d == 6 {
        "6"
    } else if d == 7 {
        "7"
    } else if d == 8 {
        "8"
    } else {
        "9"
    }
}

/// Decimal rendering of an unsigned integer.
pub fn decimal(n: u128) -> (s: String)
    ensures
        s@ == spec_decimal(n as nat),
    decreases n,
{
    if n < 10 {
        String::from_str(digit_str(n))
    } else {
        let mut s = decimal(n / 10);
        s.append(digit_str(n % 10));
        s
    }
}

/// Decimal rendering of a `usize`.
pub fn decimal_usize(n: usize) -> (s: String)
    ensures
        s@ == spec_decimal(n as nat),
{
    decimal(n as u128)
}

/// Decimal rendering with at least `width` digits (leading zeros added).
pub fn decimal_padded(n: u128, width: usize) -> (s: String)
    ensures
        s@ == spec_decimal_padded(n as nat, width as nat),
{
    let d = decimal(n);
    let len = d.as_str().unicode_len();
    if len >= width {
        d
    } else {
        let mut s = String::new();
        let mut i: usize = 0;
        proof {
            reveal_strlit("0");
        }
        while i < width - len
            invariant
                i <= width - len,
                len == d@.len(),
                len < width,
                s@ == Seq::new(i as nat, |k: int| '0'),
            decreases width - len - i,
        {
            proof {
                reveal_strlit("0");
            }
            s.append("0");
            i = i + 1;
            assert(s@ =~= Seq::new(i as nat, |k: int| '0'));
        }
        s.append(d.as_str());
        s
    }
}

/// `10` to the power `d`.
pub open spec fn pow10(d: nat) -> nat
    decreases d,
{
    if d == 0 {
        1
    } else {
        10 * pow10((d - 1) as nat)
    }
}

/// `v / 10^d` written with exactly `d` decimals, e.g. `spec_fixed(650, 3)`
/// is "0.650".
pub open spec fn spec_fixed(v: nat, d: nat) -> Seq<char> {
    if d == 0 {
        spec_decimal(v)
    } else {
        spec_decimal(v / pow10(d)) + "."@ + spec_decimal_padded(v % pow10(d), d)
    }
}

/// `a / b` rounded to the nearest natural number, halves rounded up.
pub open spec fn round_half_up(a: nat, b: nat) -> nat
    recommends
        b > 0,
{
    ((2 * a + b) / (2 * b)) as nat
}

/// `a / b` rounded to the nearest natural number, halves rounded up.
pub fn div_round_half_up(a: u128, b: u128) -> (q: u128)
    requires
        0 < b <= u128::MAX / 4,
        a <= u128::MAX / 4,
    ensures
        q == round_half_up(a as nat, b as nat),
{
    (2 * a + b) / (2 * b)
}

proof fn lemma_pow10_monotone(d1: nat, d2: nat)
    requires
        d1 <= d2,
    ensures
        1 <= pow10(d1) <= pow10(d2),
    decreases d2,
{
    if d2 > d1 {
        lemma_pow10_monotone(d1, (d2 - 1) as nat);
    } else if d1 > 0 {
        lemma_pow10_monotone(0, (d1 - 1) as nat);
    }
}

proof fn lemma_pow10_bounds(d: nat)
    ensures
        pow10(d) >= 1,
        d <= 9 ==> pow10(d) <= 1_000_000_000,
{
    lemma_pow10_monotone(0, d);
    if d <= 9 {
        lemma_pow10_monotone(d, 9);
        reveal_with_fuel(pow10, 10);
        assert(pow10(9) == 1_000_000_000);
    }
}

/// `10^d` as an integer.
pub fn power_of_ten(d: u32) -> (p: u128)
    requires
        d <= 9,
    ensures
        p == pow10(d as nat),
    decreases d,
{
    proof {
        lemma_pow10_bounds(d as nat);
    }
    if d == 0 {
        1
    } else {
        proof {
            lemma_pow10_bounds((d - 1) as nat);
        }
        10 * power_of_ten(d - 1)
    }
}

/// `v / 10^d` written with exactly `d` decimals.
pub fn fixed(v: u128, d: u32) -> (s: String)
    requires
        d <= 9,
    ensures
        s@ == spec_fixed(v as nat, d as nat),
{
    if d == 0 {
        return decimal(v);
    }
    let p = power_of_ten(d);
    proof {
        lemma_pow10_bounds(d as nat);
    }
    let mut s = decimal(v / p);
    s.append(".");
    let frac = decimal_padded(v % p, d as usize);
    s.append(frac.as_str());
    s
}

/// An integer written as a fixed-point number: `v / 10^d` with `d` decimals
/// and a leading "-" for negative values.
pub open spec fn spec_signed_fixed(v: int, d: nat) -> Seq<char> {
    if v < 0 {
        "-"@ + spec_fixed((-v) as nat, d)
    } else {
        spec_fixed(v as nat, d)
    }
}

/// Signed fixed-point rendering of `v / 10^d`.
pub fn signed_fixed(v: i128, d: u32) -> (s: String)
    requires
        d <= 9,
        v > i128::MIN,
    ensures
        s@ == spec_signed_fixed(v as int, d as nat),
{
    if v < 0 {
        let mut s = String::from_str("-");
        let f = fixed((-v) as u128, d);
        s.append(f.as_str());
        s
    } else {
        fixed(v as u128, d)
    }
}

/// `needle` occurs somewhere in `hay`.
pub open spec fn occurs_in(hay: Seq<char>, needle: Seq<char>) -> bool {
    exists|i: int|
        0 <= i <= hay.len() - needle.len() && #[trigger] hay.subrange(i, i + needle.len())
            == needle
}

/// The characters of a string.
pub fn chars_of(s: &str) -> (v: Vec<char>)
    ensures
        v@ == s@,
{
    let n = s.unicode_len();
    let mut v: Vec<char> = Vec::new();
    for i in 0..n
        invariant
            n == s@.len(),
            v@ == s@.take(i as int),
    {
        v.push(s.get_char(i));
        assert(v@ =~= s@.take(i + 1));
    }
    assert(s@.take(n as int) =~= s@);
    v
}

/// Whether `needle` occurs in `hay`.
pub fn contains_str(hay: &str, needle: &str) -> (b: bool)
    ensures
        b == occurs_in(hay@, needle@),
{
    let h = chars_of(hay);
    let nd = chars_of(needle);
    let hl = h.len();
    let nl = nd.len();
    if nl > hl {
        return false;
    }
    let mut i: usize = 0;
    while i <= hl - nl
        invariant
            h@ == hay@,
            nd@ == needle@,
            hl == h@.len(),
            nl == nd@.len(),
            nl <= hl,
            i <= hl - nl + 1,
            forall|k: int| 0 <= k < i ==> #[trigger] hay@.subrange(k, k + nl) != needle@,
        decreases hl - nl + 1 - i,
    {
        let mut j: usize = 0;
        let mut same = true;
        while j < nl
            invariant
                h@ == hay@,
                nd@ == needle@,
                hl == h@.len(),
                nl == nd@.len(),
                i + nl <= hl,
                j <= nl,
                same == (forall|m: int| 0 <= m < j ==> h@[i + m] == nd@[m]),
            decreases nl - j,
        {
            if h[i + j] != nd[j] {
                same = false;
            }
            j = j + 1;
        }
        if same {
            assert(hay@.subrange(i as int, i + nl) =~= needle@);
            return true;
        }
        assert(hay@.subrange(i as int, i + nl) != needle@) by {
            let m = choose|m: int| 0 <= m < nl && h@[i + m] != nd@[m];
            assert(hay@.subrange(i as int, i + nl)[m] != needle@[m]);
        }
        i = i + 1;
    }
    false
}

/// Whether two strings hold the same characters.
pub fn same_text(a: &str, b: &str) -> (r: bool)
    ensures
        r == (a@ == b@),
{
    let x = chars_of(a);
    let y = chars_of(b);
    if x.len() != y.len() {
        return false;
    }
    let n = x.len();
    for i in 0..n
        invariant
            x@ == a@,
            y@ == b@,
            n == x@.len(),
            n == y@.len(),
            forall|k: int| 0 <= k < i ==> x@[k] == y@[k],
    {
        if x[i] != y[i] {
            return false;
        }
    }
    assert(x@ =~= y@);
    true
}

/// The lowercase form that `str::to_lowercase` gives a text (full Unicode
/// case mapping).
pub uninterp spec fn unicode_lowercase(s: Seq<char>) -> Seq<char>;

/// ASCII lowercase of a character: `A`-`Z` become `a`-`z`, others stay.
pub open spec fn ascii_lower(c: char) -> char {
    if 'A' <= c <= 'Z' {
        ((c as u32) + 32) as char
    } else {
        c
    }
}

/// std's `str::to_lowercase`. Its result is named `unicode_lowercase` of
/// the text; for ASCII text the documented mapping is stated as well
/// (letters `A`-`Z` become `a`-`z`, every other character stays).
#[verifier::external_body]
pub(crate) fn to_lowercase(s: &str) -> (r: String)
    ensures
        r@ == unicode_lowercase(s@),
        vstd::string::is_ascii(s) ==> r@ == s@.map_values(|c: char| ascii_lower(c)),
{
    s.to_lowercase()
}

/// Concatenation of `parts` with `sep` between consecutive parts.
pub open spec fn spec_join(parts: Seq<Seq<char>>, sep: Seq<char>) -> Seq<char>
    decreases parts.len(),
{
    if parts.len() == 0 {
        Seq::empty()
    } else if parts.len() == 1 {
        parts[0]
    } else {
        spec_join(parts.drop_last(), sep) + sep + parts.last()
    }
}

/// Join string pieces with a separator.
pub fn join(parts: &Vec<&str>, sep: &str) -> (s: String)
    ensures
        s@ == spec_join(parts@.map_values(|p: &str| p@), sep@),
{
    let ghost views = parts@.map_values(|p: &str| p@);
    let mut s = String::new();
    let n = parts.len();
    for i in 0..n
        invariant
            n == parts@.len(),
            views == parts@.map_values(|p: &str| p@),
            s@ == spec_join(views.take(i as int), sep@),
    {
        assert(views.take(i + 1).drop_last() =~= views.take(i as int));
        if i != 0 {
            s.append(sep);
        }
        s.append(parts[i]);
        assert(views.take(i + 1).last() == parts@[i as int]@);
    }
    assert(views.take(n as int) =~= views);
    s
}

/// A basis-point value written as a fraction of one with two decimals,
/// rounded half away from zero: `6500` is "0.65", `-40` is "-0.00".
pub open spec fn spec_bp_two_decimals(bp: int) -> Seq<char> {
    if bp < 0 {
        "-"@ + spec_fixed(round_half_up((-bp) as nat, 100), 2)
    } else {
        spec_fixed(round_half_up(bp as nat, 100), 2)
    }
}

/// Render a basis-point value as a fraction of one with two decimals.
pub fn bp_two_decimals(bp: i64) -> (s: String)
    ensures
        s@ == spec_bp_two_decimals(bp as int),
{
    let wide = bp as i128;
    if wide < 0 {
        let mut s = String::from_str("-");
        let hundredths = div_round_half_up((-wide) as u128, 100);
        let f = fixed(hundredths, 2);
        s.append(f.as_str());
        s
    } else {
        let hundredths = div_round_half_up(wide as u128, 100);
        fixed(hundredths, 2)
    }
}

/// Size of the UTF-8 encoding of a text, in bytes.
pub open spec fn utf8_size(text: Seq<char>) -> nat {
    encode_utf8(text).len()
}

/// std's `str::len`: the size of the UTF-8 encoding in bytes, which for any
/// value in memory is at most `isize::MAX`.
#[verifier::external_body]
pub(crate) fn byte_len(text: &str) -> (n: usize)
    ensures
        n == utf8_size(text@),
        n <= isize::MAX,
{
    text.len()
}

/// A basis-point value written as a percentage with one decimal, rounded
/// half away from zero: `3544` is "35.4", `-4` is "-0.0".
pub open spec fn spec_bp_percent(bp: int) -> Seq<char> {
    if bp < 0 {
        "-"@ + spec_fixed(round_half_up((-bp) as nat, 10), 1)
    } else {
        spec_fixed(round_half_up(bp as nat, 10), 1)
    }
}

/// Render a basis-point value as a percentage with one decimal.
pub fn bp_percent(bp: i64) -> (s: String)
    ensures
        s@ == spec_bp_percent(bp as int),
{
    let wide = bp as i128;
    if wide < 0 {
        let mut s = String::from_str("-");
        let f = fixed(div_round_half_up((-wide) as u128, 10), 1);
        s.append(f.as_str());
        s
    } else {
        fixed(div_round_half_up(wide as u128, 10), 1)
    }
}

} // verus!
