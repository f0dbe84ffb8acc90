//! Number formatting for header values, stated over digit sequences.

use vstd::prelude::*;
use vstd::string::*;

verus! {

/// The lowercase hexadecimal digit for `d` (`d < 16`).
pub open spec fn hex_digit(d: nat) -> char {
    seq!['0', '1', '2', '3', '4', '5', '6', '7', '8', '9', 'a', 'b', 'c', 'd', 'e', 'f'][d as int]
}

/// `n` in base 16 over exactly `width` digits: zero-padded, high digits past the width dropped.
pub open spec fn hex_fixed(n: nat, width: nat) -> Seq<char>
    decreases width,
{
    if width == 0 {
        seq![]
    } else {
        hex_fixed(n / 16, (width - 1) as nat).push(hex_digit(n % 16))
    }
}

/// `n` in base 16 without leading zeros (`0` is one digit).
pub open spec fn hex_text(n: nat) -> Seq<char>
    decreases n,
{
    if n < 16 {
        seq![hex_digit(n)]
    } else {
        hex_text(n / 16).push(hex_digit(n % 16))
    }
}

/// `n` in base 10 without leading zeros (`0` is one digit).
pub open spec fn decimal_text(n: nat) -> Seq<char>
    decreases n,
{
    if n < 10 {
        seq![hex_digit(n)]
    } else {
        decimal_text(n / 10).push(hex_digit(n % 10))
    }
}

/// `n` in base 10 over exactly `width` digits, zero-padded.
pub open spec fn decimal_fixed(n: nat, width: nat) -> Seq<char>
    decreases width,
{
    if width == 0 {
        seq![]
    } else {
        decimal_fixed(n / 10, (width - 1) as nat).push(hex_digit(n % 10))
    }
}

pub(crate) fn push_digit(s: &mut String, d: u128)
    requires
        d < 16,
    ensures
        final(s)@ == old(s)@.push(hex_digit(d as nat)),
{
    let digits = "0123456789abcdef";
    proof {
        reveal_strlit("0123456789abcdef");
    }
    let piece = digits.substring_char(d as usize, d as usize + 1);
    assert(piece@ =~= seq![hex_digit(d as nat)]);
    s.append(piece);
}

/// Writes `n` in base 16 over exactly `width` digits.
pub fn hex_fixed_string(n: u128, width: usize) -> (r: String)
    ensures
        r@ == hex_fixed(n as nat, width as nat),
    decreases width,
{
    if width == 0 {
        String::new()
    } else {
        let mut s = hex_fixed_string(n / 16, width - 1);
        push_digit(&mut s, n % 16);
        s
    }
}

/// Writes `n` in base 16 without leading zeros.
pub fn hex_string(n: u128) -> (r: String)
    ensures
        r@ == hex_text(n as nat),
    decreases n,
{
    if n < 16 {
        let mut s = String::new();
        push_digit(&mut s, n);
        s
    } else {
        let mut s = hex_string(n / 16);
        push_digit(&mut s, n % 16);
        s
    }
}

/// Writes `n` in base 10 without leading zeros.
pub fn decimal_string(n: u128) -> (r: String)
    ensures
        r@ == decimal_text(n as nat),
    decreases n,
{
    if n < 10 {
        let mut s = String::new();
        push_digit(&mut s, n);
        s
    } else {
        let mut s = decimal_string(n / 10);
        push_digit(&mut s, n % 10);
        s
    }
}

/// Writes `n` in base 10 over exactly `width` digits.
pub fn decimal_fixed_string(n: u128, width: usize) -> (r: String)
    ensures
        r@ == decimal_fixed(n as nat, width as nat),
    decreases width,
{
    if width == 0 {
        String::new()
    } else {
        let mut s = decimal_fixed_string(n / 10, width - 1);
        push_digit(&mut s, n % 10);
        s
    }
}

} // verus!

verus! {

/// `p` is a prefix of `s`.
pub open spec fn starts_with(s: Seq<char>, p: Seq<char>) -> bool {
    p.len() <= s.len() && s.take(p.len() as int) == p
}

/// `p` is a suffix of `s`.
pub open spec fn ends_with(s: Seq<char>, p: Seq<char>) -> bool {
    p.len() <= s.len() && s.skip(s.len() - p.len()) == p
}

/// Whether `s` starts with `p`.
pub fn has_prefix(s: &str, p: &str) -> (r: bool)
    ensures
        r == starts_with(s@, p@),
{
    let n = s.unicode_len();
    let m = p.unicode_len();
    if m > n {
        return false;
    }
    let mut i: usize = 0;
    while i < m
        invariant
            m <= n,
            n == s@.len(),
            m == p@.len(),
            i <= m,
            forall|j: int| 0 <= j < i ==> s@[j] == p@[j],
        decreases m - i,
    {
        if s.get_char(i) != p.get_char(i) {
            assert(s@.take(m as int)[i as int] != p@[i as int]);
            return false;
        }
        i += 1;
    }
    assert(s@.take(m as int) =~= p@);
    true
}

/// Whether `s` ends with `p`.
pub fn has_suffix(s: &str, p: &str) -> (r: bool)
    ensures
        r == ends_with(s@, p@),
{
    let n = s.unicode_len();
    let m = p.unicode_len();
    if m > n {
        return false;
    }
    let off = n - m;
    let mut i: usize = 0;
    while i < m
        invariant
            m <= n,
            off == n - m,
            n == s@.len(),
            m == p@.len(),
            i <= m,
            forall|j: int| 0 <= j < i ==> s@[off + j] == p@[j],
        decreases m - i,
    {
        if s.get_char(off + i) != p.get_char(i) {
            assert(s@.skip(off as int)[i as int] != p@[i as int]);
            return false;
        }
        i += 1;
    }
    assert(s@.skip(off as int) =~= p@);
    true
}

/// The index of the first `c` in `s` at or after `i`, or the length of `s`.
pub open spec fn index_from(s: Seq<char>, c: char, i: int) -> int
    decreases s.len() - i,
{
    if i >= s.len() || (0 <= i && s[i] == c) {
        i
    } else {
        index_from(s, c, i + 1)
    }
}

/// The part of `s` before its first `c` (all of `s` if it has none).
pub open spec fn before_char(s: Seq<char>, c: char) -> Seq<char> {
    s.take(index_from(s, c, 0))
}

/// The part of `s` before its first `c`.
pub fn take_before<'a>(s: &'a str, c: char) -> (r: &'a str)
    ensures
        r@ == before_char(s@, c),
{
    let n = s.unicode_len();
    let mut i: usize = 0;
    while i < n && s.get_char(i) != c
        invariant
            n == s@.len(),
            i <= n,
            index_from(s@, c, 0) == index_from(s@, c, i as int),
        decreases n - i,
    {
        i += 1;
    }
    s.substring_char(0, i)
}

} // verus!

verus! {

/// `items` joined by `sep`.
pub open spec fn join(items: Seq<Seq<char>>, sep: Seq<char>) -> Seq<char>
    decreases items.len(),
{
    if items.len() == 0 {
        seq![]
    } else if items.len() == 1 {
        items[0]
    } else {
        join(items.drop_last(), sep) + sep + items.last()
    }
}

/// The views of a list of strings.
pub open spec fn strings_view(v: Seq<String>) -> Seq<Seq<char>> {
    v.map_values(|c: String| c@)
}

/// Joins `items` with `sep` between each two.
pub fn join_strings(items: &Vec<String>, sep: &str) -> (r: String)
    ensures
        r@ == join(strings_view(items@), sep@),
{
    let ghost all = strings_view(items@);
    let mut s = String::new();
    let mut i: usize = 0;
    while i < items.len()
        invariant
            i <= items@.len(),
            all == strings_view(items@),
            s@ == join(all.take(i as int), sep@),
        decreases items@.len() - i,
    {
        if i > 0 {
            s.append(sep);
        }
        s.append(items[i].as_str());
        assert(all.take(i + 1).drop_last() =~= all.take(i as int));
        assert(all.take(i + 1).last() == all[i as int]);
        if i == 0 {
            assert(all.take(1).len() == 1);
        }
        assert(s@ =~= join(all.take(i + 1), sep@));
        i += 1;
    }
    assert(all.take(i as int) =~= all);
    s
}

/// The hyphenated lowercase form of a 128-bit identifier: 8-4-4-4-12 hex digits.
pub open spec fn uuid_text(n: nat) -> Seq<char> {
    hex_fixed(n / 0x1_0000_0000_0000_0000_0000_0000, 8) + seq!['-']
        + hex_fixed(n / 0x1_0000_0000_0000_0000_0000, 4) + seq!['-']
        + hex_fixed(n / 0x1_0000_0000_0000_0000, 4) + seq!['-']
        + hex_fixed(n / 0x1_0000_0000_0000, 4) + seq!['-'] + hex_fixed(n, 12)
}

/// Writes an identifier in its hyphenated form.
pub fn uuid_string(n: u128) -> (r: String)
    ensures
        r@ == uuid_text(n as nat),
{
    proof {
        reveal_strlit("-");
    }
    let mut s = hex_fixed_string(n / 0x1_0000_0000_0000_0000_0000_0000, 8);
    s.append("-");
    s.append(hex_fixed_string(n / 0x1_0000_0000_0000_0000_0000, 4).as_str());
    s.append("-");
    s.append(hex_fixed_string(n / 0x1_0000_0000_0000_0000, 4).as_str());
    s.append("-");
    s.append(hex_fixed_string(n / 0x1_0000_0000_0000, 4).as_str());
    s.append("-");
    s.append(hex_fixed_string(n, 12).as_str());
    assert(s@ =~= uuid_text(n as nat));
    s
}

} // verus!
