//! Decimal and hexadecimal rendering of integers into `String`s, used to build
//! the diagnostic messages carried by platform errors.

use vstd::prelude::*;
use vstd::string::StrSliceExecFns;

verus! {

/// The ASCII digit for `d` (0..=15), lowercase for values above 9.
pub open spec fn digit_char(d: nat) -> char {
    if d == 0 { '0' }
    else if d == 1 { '1' }
    else if d == 2 { '2' }
    else if d == 3 { '3' }
    else if d == 4 { '4' }
    else if d == 5 { '5' }
    else if d == 6 { '6' }
    else if d == 7 { '7' }
    else if d == 8 { '8' }
    else if d == 9 { '9' }
    else if d == 10 { 'a' }
    else if d == 11 { 'b' }
    else if d == 12 { 'c' }
    else if d == 13 { 'd' }
    else if d == 14 { 'e' }
    else { 'f' }
}

/// Digits of `n` in base `radix` (2..=16), most significant first, no leading zeros.
pub open spec fn radix_digits(n: nat, radix: nat) -> Seq<char>
    decreases n,
{
    if radix < 2 || n < radix {
        seq![digit_char(n)]
    } else {
        proof {
            assert(n / radix < n) by (nonlinear_arith)
                requires
                    radix >= 2,
                    n >= radix,
            ;
        }
        radix_digits(n / radix, radix) + seq![digit_char(n % radix)]
    }
}

/// Decimal rendering of a natural number, as `format!("{}", n)` gives it.
pub open spec fn dec_nat(n: nat) -> Seq<char> {
    radix_digits(n, 10)
}

/// Decimal rendering of an integer, with a leading `-` for negatives.
pub open spec fn dec_int(v: int) -> Seq<char> {
    if v < 0 { seq!['-'] + dec_nat((-v) as nat) } else { dec_nat(v as nat) }
}

/// Alternate hexadecimal rendering `format!("{:#x}", n)`: `0x` then lowercase digits.
pub open spec fn hex_alt(n: nat) -> Seq<char> {
    seq!['0', 'x'] + radix_digits(n, 16)
}

fn digit_str(d: u64) -> (s: &'static str)
    requires
        d < 16,
    ensures
        s@ == seq![digit_char(d as nat)],
{
    if d == 0 { proof { reveal_strlit("0"); } "0" }
    else if d == 1 { proof { reveal_strlit("1"); } "1" }
    else if d == 2 { proof { reveal_strlit("2"); } "2" }
    else if d == 3 { proof { reveal_strlit("3"); } "3" }
    else if d == 4 { proof { reveal_strlit("4"); } "4" }
    else if d == 5 { proof { reveal_strlit("5"); } "5" }
    else if d == 6 { proof { reveal_strlit("6"); } "6" }
    else if d == 7 { proof { reveal_strlit("7"); } "7" }
    else if d == 8 { proof { reveal_strlit("8"); } "8" }
    else if d == 9 { proof { reveal_strlit("9"); } "9" }
    else if d == 10 { proof { reveal_strlit("a"); } "a" }
    else if d == 11 { proof { reveal_strlit("b"); } "b" }
    else if d == 12 { proof { reveal_strlit("c"); } "c" }
    else if d == 13 { proof { reveal_strlit("d"); } "d" }
    else if d == 14 { proof { reveal_strlit("e"); } "e" }
    else { proof { reveal_strlit("f"); } "f" }
}

fn radix_string(v: u64, radix: u64) -> (s: String)
    requires
        2 <= radix <= 16,
    ensures
        s@ == radix_digits(v as nat, radix as nat),
    decreases v,
{
    if v < radix {
        String::from_str(digit_str(v))
    } else {
        assert(v / radix < v) by (nonlinear_arith)
            requires
                radix >= 2,
                v >= radix,
        ;
        let mut s = radix_string(v / radix, radix);
        s.append(digit_str(v % radix));
        s
    }
}

/// Renders `v` in decimal.
pub fn fmt_u64(v: u64) -> (s: String)
    ensures
        s@ == dec_nat(v as nat),
{
    radix_string(v, 10)
}

/// Renders `v` in decimal, with a `-` sign when negative.
pub fn fmt_i64(v: i64) -> (s: String)
    ensures
        s@ == dec_int(v as int),
{
    if v < 0 {
        let m: u64 = ((-(v + 1)) as u64) + 1;
        let mut s = String::from_str("-");
        proof { reveal_strlit("-"); }
        let d = fmt_u64(m);
        s.append(d.as_str());
        s
    } else {
        fmt_u64(v as u64)
    }
}

/// Renders `v` as `0x` followed by lowercase hexadecimal digits.
pub fn fmt_hex_u32(v: u32) -> (s: String)
    ensures
        s@ == hex_alt(v as nat),
{
    let mut s = String::from_str("0x");
    proof { reveal_strlit("0x"); }
    let d = radix_string(v as u64, 16);
    s.append(d.as_str());
    s
}

/// Concatenation of three pieces, the shape of most diagnostic messages.
pub fn join3(a: &str, b: &str, c: &str) -> (s: String)
    ensures
        s@ == a@ + b@ + c@,
{
    let mut s = String::from_str(a);
    s.append(b);
    s.append(c);
    s
}

/// `"true"` or `"false"`, as `format!("{}", b)` gives it.
pub open spec fn bool_text(b: bool) -> Seq<char> {
    if b { "true"@ } else { "false"@ }
}

/// Renders a `bool` as `true` or `false`.
pub fn fmt_bool(b: bool) -> (s: &'static str)
    ensures
        s@ == bool_text(b),
{
    if b { "true" } else { "false" }
}

/// Whether `needle` occurs in `hay` as a contiguous run.
pub open spec fn seq_contains(hay: Seq<char>, needle: Seq<char>) -> bool {
    exists|i: int|
        0 <= i && i + needle.len() <= hay.len() && #[trigger] hay.subrange(i, i + needle.len())
            == needle
}

/// Whether `needle` occurs in `hay`.
pub fn str_contains(hay: &str, needle: &str) -> (b: bool)
    ensures
        b == seq_contains(hay@, needle@),
{
    let n = hay.unicode_len();
    let m = needle.unicode_len();
    if m > n {
        return false;
    }
    let mut i: usize = 0;
    while i <= n - m
        invariant
            n == hay@.len(),
            m == needle@.len(),
            m <= n,
            i <= n - m + 1,
            forall|k: int| 0 <= k < i ==> #[trigger] hay@.subrange(k, k + m) != needle@,
        decreases n - m + 1 - i,
    {
        let mut j: usize = 0;
        let mut eq = true;
        while j < m && eq
            invariant
                n == hay@.len(),
                m == needle@.len(),
                i + m <= n,
                j <= m,
                eq <==> forall|t: int| 0 <= t < j ==> hay@[i + t] == needle@[t],
            decreases m - j,
        {
            if hay.get_char(i + j) != needle.get_char(j) {
                eq = false;
            }
            j = j + 1;
        }
        if eq {
            assert(hay@.subrange(i as int, i + m) =~= needle@);
            return true;
        }
        assert(hay@.subrange(i as int, i + m) != needle@) by {
            let t = choose|t: int| 0 <= t < j && hay@[i + t] != needle@[t];
            assert(hay@.subrange(i as int, i + m)[t] != needle@[t]);
        }
        i = i + 1;
    }
    proof {
        assert forall|k: int| 0 <= k && k + m <= n implies #[trigger] hay@.subrange(k, k + m)
            != needle@ by {}
    }
    false
}

} // verus!
