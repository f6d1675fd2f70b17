//! Text helpers: ASCII case-insensitive comparison and decimal rendering.

use vstd::prelude::*;
use vstd::string::*;

verus! {

/// ASCII lowercase of one character; other characters are unchanged.
pub open spec fn ascii_lower(c: char) -> char {
    if 'A' <= c && c <= 'Z' {
        ((c as u32) + 32) as char
    } else {
        c
    }
}

/// `s` equals the lowercase literal `lit` once its ASCII letters are lowercased.
///
/// For literals made of ASCII lowercase letters other than `k`, digits and `_`
/// this is exactly `s.to_lowercase() == lit`: no other character lowercases
/// into such a literal.
pub open spec fn lower_eq(s: Seq<char>, lit: Seq<char>) -> bool {
    &&& s.len() == lit.len()
    &&& forall|i: int| 0 <= i < s.len() ==> ascii_lower(#[trigger] s[i]) == lit[i]
}

/// Exec counterpart of `ascii_lower`.
pub fn lower_char(c: char) -> (r: char)
    ensures
        r == ascii_lower(c),
{
    if 'A' <= c && c <= 'Z' {
        let b: u8 = (c as u8) + 32;
        b as char
    } else {
        c
    }
}

/// Case-insensitive (ASCII) comparison of `s` against the lowercase literal `lit`.
pub fn matches_lower(s: &str, lit: &str) -> (r: bool)
    ensures
        r == lower_eq(s@, lit@),
{
    let n = s.unicode_len();
    let m = lit.unicode_len();
    if n != m {
        return false;
    }
    let mut i: usize = 0;
    while i < n
        invariant
            n == s@.len(),
            m == lit@.len(),
            n == m,
            i <= n,
            forall|j: int| 0 <= j < i ==> ascii_lower(#[trigger] s@[j]) == lit@[j],
        decreases n - i,
    {
        let a = lower_char(s.get_char(i));
        let b = lit.get_char(i);
        if a != b {
            return false;
        }
        i = i + 1;
    }
    true
}

/// The character of a decimal digit.
pub open spec fn digit_char(d: nat) -> char {
    if d == 0 { '0' }
    else if d == 1 { '1' }
    else if d == 2 { '2' }
    else if d == 3 { '3' }
    else if d == 4 { '4' }
    else if d == 5 { '5' }
    else if d == 6 { '6' }
    else if d == 7 { '7' }
    else if d == 8 { '8' }
    else { '9' }
}

/// The decimal rendering of a natural number, without leading zeros.
pub open spec fn decimal(n: nat) -> Seq<char>
    decreases n,
{
    if n < 10 {
        seq![digit_char(n)]
    } else {
        decimal(n / 10).push(digit_char(n % 10))
    }
}

fn digit_str(d: u64) -> (s: &'static str)
    requires
        d < 10,
    ensures
        s@ == seq![digit_char(d as nat)],
{
    proof {
        reveal_strlit("0");
        reveal_strlit("1");
        reveal_strlit("2");
        reveal_strlit("3");
        reveal_strlit("4");
        reveal_strlit("5");
        reveal_strlit("6");
        reveal_strlit("7");
        reveal_strlit("8");
        reveal_strlit("9");
    }
    if d == 0 { "0" }
    else if d == 1 { "1" }
    else if d == 2 { "2" }
    else if d == 3 { "3" }
    else if d == 4 { "4" }
    else if d == 5 { "5" }
    else if d == 6 { "6" }
    else if d == 7 { "7" }
    else if d == 8 { "8" }
    else { "9" }
}

/// Renders `n` in decimal, as `n.to_string()` does.
pub fn decimal_string(n: u64) -> (s: String)
    ensures
        s@ == decimal(n as nat),
    decreases n,
{
    if n < 10 {
        <String as StringExecFns>::from_str(digit_str(n))
    } else {
        let head = decimal_string(n / 10);
        let r = head.concat(digit_str(n % 10));
        assert(r@ == decimal(n as nat));
        r
    }
}

} // verus!

verus! {

/// The text `str::to_lowercase` gives (Unicode lowercase).
pub uninterp spec fn lowercase_of(s: Seq<char>) -> Seq<char>;

/// Calls `str::to_lowercase`.
#[verifier::external_body]
pub(crate) fn to_lowercase(s: &str) -> (r: String)
    ensures
        r@ == lowercase_of(s@),
{
    s.to_lowercase()
}

/// `s` with every `/` replaced by `-`.
pub open spec fn slashes_to_dashes(s: Seq<char>) -> Seq<char> {
    s.map_values(|c: char| if c == '/' { '-' } else { c })
}

/// `s` with every `/` replaced by `-` (what `s.replace('/', "-")` gives).
pub fn replace_slashes(s: &str) -> (r: String)
    ensures
        r@ == slashes_to_dashes(s@),
{
    let n = s.unicode_len();
    let mut out = String::new();
    let mut i: usize = 0;
    while i < n
        invariant
            n == s@.len(),
            i <= n,
            out@ == slashes_to_dashes(s@.subrange(0, i as int)),
        decreases n - i,
    {
        let c = s.get_char(i);
        proof {
            reveal_strlit("-");
        }
        if c == '/' {
            out.append("-");
        } else {
            out.append(s.substring_char(i, i + 1));
        }
        assert(s@.subrange(0, i + 1) =~= s@.subrange(0, i as int).push(c));
        assert(slashes_to_dashes(s@.subrange(0, i + 1)) =~= slashes_to_dashes(s@.subrange(0, i as int)).push(
            if c == '/' { '-' } else { c },
        ));
        i = i + 1;
    }
    assert(s@.subrange(0, n as int) =~= s@);
    out
}

} // verus!
