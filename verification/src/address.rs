//! IP addresses as plain values, and the text they are shown as.

use crate::text::{decimal_string, decimal_text};
use vstd::prelude::*;

verus! {

/// An IPv4 or IPv6 address. Every value of this type is a valid address.
#[derive(Clone, Copy, Debug, PartialEq, Eq)]
pub enum IpAddress {
    /// The four octets of an IPv4 address, first octet first.
    V4([u8; 4]),
    /// The eight 16-bit groups of an IPv6 address, first group first.
    V6([u16; 8]),
}

/// The character that stands for the hexadecimal digit `d`, for `0 <= d < 16`.
pub open spec fn hex_digit_char(d: int) -> char {
    seq!['0', '1', '2', '3', '4', '5', '6', '7', '8', '9', 'a', 'b', 'c', 'd', 'e', 'f'][d]
}

/// The lower-case hexadecimal numeral of `n`, without leading zeros.
pub open spec fn hex_text(n: nat) -> Seq<char>
    decreases n,
{
    if n < 16 {
        seq![hex_digit_char(n as int)]
    } else {
        hex_text(n / 16).push(hex_digit_char((n % 16) as int))
    }
}

/// Four octets in dotted decimal notation.
pub open spec fn ipv4_text(a: nat, b: nat, c: nat, d: nat) -> Seq<char> {
    decimal_text(a) + seq!['.'] + decimal_text(b) + seq!['.'] + decimal_text(c) + seq!['.']
        + decimal_text(d)
}

/// The hexadecimal numerals of `groups`, with a colon between neighbours.
pub open spec fn groups_text(groups: Seq<u16>) -> Seq<char>
    decreases groups.len(),
{
    if groups.len() == 0 {
        Seq::empty()
    } else if groups.len() == 1 {
        hex_text(groups[0] as nat)
    } else {
        groups_text(groups.drop_last()) + seq![':'] + hex_text(groups.last() as nat)
    }
}

/// How many groups in a row are zero, counted from position `i` on.
pub open spec fn zero_run(groups: Seq<u16>, i: int) -> nat
    decreases groups.len() - i,
{
    if 0 <= i < groups.len() && groups[i] == 0 {
        1 + zero_run(groups, i + 1)
    } else {
        0
    }
}

/// Where the longest run of zero groups that begins at position `i` or later
/// starts, and how long it is. Of several runs of that length it is the first.
/// The length is 0 where no group from `i` on is zero.
pub open spec fn longest_zero_run(groups: Seq<u16>, i: int) -> (int, nat)
    decreases groups.len() - i,
{
    if 0 <= i < groups.len() {
        let later = longest_zero_run(groups, i + 1);
        let here = zero_run(groups, i);
        if here > 0 && here >= later.1 {
            (i, here)
        } else {
            later
        }
    } else {
        (i, 0)
    }
}

/// Whether the eight groups hold an IPv4 address mapped into IPv6: five zero
/// groups, then `ffff`.
pub open spec fn is_ipv4_mapped(groups: Seq<u16>) -> bool {
    &&& groups[0] == 0
    &&& groups[1] == 0
    &&& groups[2] == 0
    &&& groups[3] == 0
    &&& groups[4] == 0
    &&& groups[5] == 0xffff
}

/// Eight groups in the usual short notation of IPv6. A mapped IPv4 address is
/// written as `::ffff:` and the dotted address. Otherwise the longest run of
/// two or more zero groups, the first of them if there are several, is
/// written as `::`.
pub open spec fn ipv6_text(groups: Seq<u16>) -> Seq<char> {
    if is_ipv4_mapped(groups) {
        seq![':', ':', 'f', 'f', 'f', 'f', ':'] + ipv4_text(
            (groups[6] / 256) as nat,
            (groups[6] % 256) as nat,
            (groups[7] / 256) as nat,
            (groups[7] % 256) as nat,
        )
    } else {
        let run = longest_zero_run(groups, 0);
        if run.1 > 1 {
            groups_text(groups.take(run.0)) + seq![':', ':'] + groups_text(
                groups.skip(run.0 + run.1),
            )
        } else {
            groups_text(groups)
        }
    }
}

impl IpAddress {
    /// The address as text.
    pub open spec fn text(self) -> Seq<char> {
        match self {
            IpAddress::V4(octets) => ipv4_text(
                octets[0] as nat,
                octets[1] as nat,
                octets[2] as nat,
                octets[3] as nat,
            ),
            IpAddress::V6(groups) => ipv6_text(groups@),
        }
    }

    /// Writes the address as text.
    pub fn to_text(&self) -> (s: String)
        ensures
            s@ == self.text(),
    {
        match self {
            IpAddress::V4(octets) => ipv4_string(octets[0], octets[1], octets[2], octets[3]),
            IpAddress::V6(groups) => ipv6_string(groups),
        }
    }
}

/// The one-character string of a hexadecimal digit.
fn hex_digit_str(d: u16) -> (s: &'static str)
    requires
        d < 16,
    ensures
        s@ == seq![hex_digit_char(d as int)],
{
    proof {
        reveal_strlit("0");
        reveal_strlit("1");
        reveal_strlit("2");
        reveal_strlit("3");
        reveal_strlit("4");
        reveal_strlit("5");
        reveal_strlit("6");
        reveal_strlit("7");
        reveal_strlit("8");
        reveal_strlit("9");
        reveal_strlit("a");
        reveal_strlit("b");
        reveal_strlit("c");
        reveal_strlit("d");
        reveal_strlit("e");
        reveal_strlit("f");
    }
    let s = if d == 0 {
        "0"
    } else if d == 1 {
        "1"
    } else if d == 2 {
        "2"
    } else if d == 3 {
        "3"
    } else if d == 4 {
        "4"
    } else if d == 5 {
        "5"
    } else if d == 6 {
        "6"
    } else if d == 7 {
        "7"
    } else if d == 8 {
        "8"
    } else if d == 9 {
        "9"
    } else if d == 10 {
        "a"
    } else if d == 11 {
        "b"
    } else if d == 12 {
        "c"
    } else if d == 13 {
        "d"
    } else if d == 14 {
        "e"
    } else {
        "f"
    };
    assert(s@ =~= seq![hex_digit_char(d as int)]);
    s
}

/// Writes `n` as a lower-case hexadecimal numeral.
fn hex_string(n: u16) -> (s: String)
    ensures
        s@ == hex_text(n as nat),
    decreases n,
{
    if n < 16 {
        String::from_str(hex_digit_str(n))
    } else {
        let mut s = hex_string(n / 16);
        s.append(hex_digit_str(n % 16));
        s
    }
}

/// Writes four octets in dotted decimal notation.
fn ipv4_string(a: u8, b: u8, c: u8, d: u8) -> (s: String)
    ensures
        s@ == ipv4_text(a as nat, b as nat, c as nat, d as nat),
{
    proof {
        reveal_strlit(".");
    }
    let mut s = decimal_string(a as u64);
    s.append(".");
    s.append(decimal_string(b as u64).as_str());
    s.append(".");
    s.append(decimal_string(c as u64).as_str());
    s.append(".");
    s.append(decimal_string(d as u64).as_str());
    assert("."@ =~= seq!['.']);
    s
}

/// Writes the groups from position `from` up to, not including, position `to`.
fn groups_string(groups: &[u16; 8], from: usize, to: usize) -> (s: String)
    requires
        from <= to <= 8,
    ensures
        s@ == groups_text(groups@.subrange(from as int, to as int)),
{
    proof {
        reveal_strlit(":");
    }
    let mut s = String::new();
    let mut i: usize = from;
    while i < to
        invariant
            from <= i <= to <= 8,
            s@ == groups_text(groups@.subrange(from as int, i as int)),
            ":"@ == seq![':'],
        decreases to - i,
    {
        let ghost before = groups@.subrange(from as int, i as int);
        let ghost after = groups@.subrange(from as int, i + 1);
        proof {
            assert(after.drop_last() =~= before);
            assert(after.last() == groups@[i as int]);
        }
        if i > from {
            s.append(":");
        }
        s.append(hex_string(groups[i]).as_str());
        i = i + 1;
        assert(s@ =~= groups_text(after));
    }
    s
}

/// Counts the zero groups in a row from position `i` on.
fn zero_run_from(groups: &[u16; 8], i: usize) -> (n: usize)
    requires
        i <= 8,
    ensures
        n == zero_run(groups@, i as int),
        i + n <= 8,
{
    let mut j: usize = i;
    while j < 8 && groups[j] == 0
        invariant
            i <= j <= 8,
            zero_run(groups@, i as int) == (j - i) + zero_run(groups@, j as int),
        decreases 8 - j,
    {
        j = j + 1;
    }
    j - i
}

/// Finds the first of the longest runs of zero groups.
fn find_longest_zero_run(groups: &[u16; 8]) -> (run: (usize, usize))
    ensures
        run.0 == longest_zero_run(groups@, 0).0,
        run.1 == longest_zero_run(groups@, 0).1,
        run.0 + run.1 <= 8,
{
    let mut start: usize = 8;
    let mut len: usize = 0;
    let mut i: usize = 8;
    while i > 0
        invariant
            i <= 8,
            start == longest_zero_run(groups@, i as int).0,
            len == longest_zero_run(groups@, i as int).1,
            start + len <= 8,
        decreases i,
    {
        i = i - 1;
        let here = zero_run_from(groups, i);
        if here > 0 && here >= len {
            start = i;
            len = here;
        }
    }
    (start, len)
}

/// Writes eight groups in the short notation of IPv6.
fn ipv6_string(groups: &[u16; 8]) -> (s: String)
    ensures
        s@ == ipv6_text(groups@),
{
    if groups[0] == 0 && groups[1] == 0 && groups[2] == 0 && groups[3] == 0 && groups[4] == 0
        && groups[5] == 0xffff {
        proof {
            reveal_strlit("::ffff:");
        }
        let mut s = String::from_str("::ffff:");
        let dotted = ipv4_string(
            (groups[6] / 256) as u8,
            (groups[6] % 256) as u8,
            (groups[7] / 256) as u8,
            (groups[7] % 256) as u8,
        );
        s.append(dotted.as_str());
        assert("::ffff:"@ =~= seq![':', ':', 'f', 'f', 'f', 'f', ':']);
        s
    } else {
        let run = find_longest_zero_run(groups);
        if run.1 > 1 {
            proof {
                reveal_strlit("::");
            }
            let mut s = groups_string(groups, 0, run.0);
            s.append("::");
            s.append(groups_string(groups, run.0 + run.1, 8).as_str());
            assert("::"@ =~= seq![':', ':']);
            assert(groups@.take(run.0 as int) =~= groups@.subrange(0, run.0 as int));
            assert(groups@.skip(run.0 + run.1) =~= groups@.subrange(run.0 + run.1, 8));
            s
        } else {
            assert(groups@ =~= groups@.subrange(0, 8));
            groups_string(groups, 0, 8)
        }
    }
}

} // verus!
