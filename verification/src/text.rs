//! Numbers and addresses as text.

use crate::as_hex::hex_digits;
use crate::wire::IpAddress;
use vstd::prelude::*;
use vstd::string::*;

verus! {

broadcast use vstd::array::group_array_axioms;

/// The decimal digits of `n`, without leading zeros.
pub open spec fn decimal_text(n: nat) -> Seq<char>
    decreases n,
{
    if n < 10 {
        seq![hex_digits()[n as int]]
    } else {
        decimal_text(n / 10).push(hex_digits()[(n % 10) as int])
    }
}

/// The hexadecimal digits of `n`, in lower case and without leading zeros.
pub open spec fn short_hex_text(n: nat) -> Seq<char>
    decreases n,
{
    if n < 16 {
        seq![hex_digits()[n as int]]
    } else {
        short_hex_text(n / 16).push(hex_digits()[(n % 16) as int])
    }
}

/// The four octets in decimal, with dots between them.
pub open spec fn ipv4_text(octets: Seq<u8>) -> Seq<char> {
    decimal_text(octets[0] as nat) + seq!['.'] + decimal_text(octets[1] as nat) + seq!['.']
        + decimal_text(octets[2] as nat) + seq!['.'] + decimal_text(octets[3] as nat)
}

/// The text of one digit.
fn digit_str(d: u16) -> (s: &'static str)
    requires
        d < 16,
    ensures
        s@ == seq![hex_digits()[d as int]],
{
    proof {
        reveal_strlit("0");
        reveal_strlit("1");
        reveal_strlit("2");
        reveal_strlit("3");
        reveal_strlit("4");
        reveal_strlit("5");
        reveal_strlit("6");
        reveal_strlit("7");
        reveal_strlit("8");
        reveal_strlit("9");
        reveal_strlit("a");
        reveal_strlit("b");
        reveal_strlit("c");
        reveal_strlit("d");
        reveal_strlit("e");
        reveal_strlit("f");
    }
    let s = if d == 0 {
        "0"
    } else if d == 1 {
        "1"
    } else if d == 2 {
        "2"
    } else if d == 3 {
        "3"
    } else if d == 4 {
        "4"
    } else if d == 5 {
        "5"
    } else if d == 6 {
        "6"
    } else if d == 7 {
        "7"
    } else if d == 8 {
        "8"
    } else if d == 9 {
        "9"
    } else if d == 10 {
        "a"
    } else if d == 11 {
        "b"
    } else if d == 12 {
        "c"
    } else if d == 13 {
        "d"
    } else if d == 14 {
        "e"
    } else {
        "f"
    };
    assert(s@ =~= seq![hex_digits()[d as int]]);
    s
}

/// Appends the decimal digits of `n`.
pub(crate) fn push_decimal(text: &mut String, n: u16)
    ensures
        final(text)@ == old(text)@ + decimal_text(n as nat),
    decreases n,
{
    if n >= 10 {
        push_decimal(text, n / 10);
    }
    text.append(digit_str(n % 10));
    assert(text@ =~= old(text)@ + decimal_text(n as nat));
}

/// Appends the hexadecimal digits of `n`.
pub(crate) fn push_short_hex(text: &mut String, n: u16)
    ensures
        final(text)@ == old(text)@ + short_hex_text(n as nat),
    decreases n,
{
    if n >= 16 {
        push_short_hex(text, n / 16);
    }
    text.append(digit_str(n % 16));
    assert(text@ =~= old(text)@ + short_hex_text(n as nat));
}

/// Appends the dotted form of four octets.
pub(crate) fn push_ipv4(text: &mut String, a: u8, b: u8, c: u8, d: u8)
    ensures
        final(text)@ == old(text)@ + ipv4_text(seq![a, b, c, d]),
{
    proof {
        reveal_strlit(".");
        assert("."@ =~= seq!['.']);
    }
    push_decimal(text, a.into());
    text.append(".");
    push_decimal(text, b.into());
    text.append(".");
    push_decimal(text, c.into());
    text.append(".");
    push_decimal(text, d.into());
    assert(text@ =~= old(text)@ + ipv4_text(seq![a, b, c, d]));
}

/// The eight groups of an IPv6 address, each from two octets.
pub open spec fn ipv6_groups(octets: Seq<u8>) -> Seq<u16> {
    Seq::new(8, |i: int| (octets[2 * i] * 256 + octets[2 * i + 1]) as u16)
}

/// The number of zero groups in a row from position `at` on.
pub open spec fn zero_run(groups: Seq<u16>, at: int) -> nat
    decreases groups.len() - at,
{
    if 0 <= at < groups.len() && groups[at] == 0 {
        1 + zero_run(groups, at + 1)
    } else {
        0
    }
}

/// Among the positions below `n`, the first where the longest run of zero
/// groups starts.
pub open spec fn longest_zero_run(groups: Seq<u16>, n: int) -> int
    decreases n,
{
    if n <= 1 {
        0
    } else {
        let best = longest_zero_run(groups, n - 1);
        if zero_run(groups, n - 1) > zero_run(groups, best) {
            n - 1
        } else {
            best
        }
    }
}

/// Groups in hexadecimal without leading zeros, with colons between them.
pub open spec fn groups_text(groups: Seq<u16>) -> Seq<char>
    decreases groups.len(),
{
    if groups.len() == 0 {
        Seq::empty()
    } else if groups.len() == 1 {
        short_hex_text(groups[0] as nat)
    } else {
        groups_text(groups.drop_last()) + seq![':'] + short_hex_text(groups.last() as nat)
    }
}

/// Whether the groups are those of an IPv4 address mapped into IPv6.
pub open spec fn is_v4_mapped(groups: Seq<u16>) -> bool {
    &&& groups[0] == 0
    &&& groups[1] == 0
    &&& groups[2] == 0
    &&& groups[3] == 0
    &&& groups[4] == 0
    &&& groups[5] == 0xffff
}

/// The text of an IPv6 address. A mapped IPv4 address is written in dotted
/// form after `::ffff:`. Otherwise the groups are written in hexadecimal, and
/// the longest run of two or more zero groups, the first of them where several
/// are as long, is shortened to `::`.
pub open spec fn ipv6_text(octets: Seq<u8>) -> Seq<char> {
    let groups = ipv6_groups(octets);
    let start = longest_zero_run(groups, 8);
    let len = zero_run(groups, start);
    if is_v4_mapped(groups) {
        seq![':', ':', 'f', 'f', 'f', 'f', ':'] + ipv4_text(octets.skip(12))
    } else if len > 1 {
        groups_text(groups.take(start)) + seq![':', ':'] + groups_text(groups.skip(start + len))
    } else {
        groups_text(groups)
    }
}

/// The text of an address.
pub open spec fn address_text(address: IpAddress) -> Seq<char> {
    match address {
        IpAddress::V4(octets) => ipv4_text(octets@),
        IpAddress::V6(octets) => ipv6_text(octets@),
    }
}

/// Counts the zero groups in a row from position `at` on.
fn count_zero_run(groups: &Vec<u16>, at: usize) -> (n: usize)
    requires
        at <= groups.len(),
    ensures
        n == zero_run(groups@, at as int),
        at + n <= groups.len(),
    decreases groups.len() - at,
{
    if at < groups.len() && groups[at] == 0 {
        1 + count_zero_run(groups, at + 1)
    } else {
        0
    }
}

/// Appends the groups from `from` up to `to`, with colons between them.
fn push_groups(text: &mut String, groups: &Vec<u16>, from: usize, to: usize)
    requires
        from <= to <= groups.len(),
    ensures
        final(text)@ == old(text)@ + groups_text(groups@.subrange(from as int, to as int)),
{
    proof {
        reveal_strlit(":");
        assert(":"@ =~= seq![':']);
    }
    let mut at: usize = from;
    assert(text@ =~= old(text)@ + groups_text(groups@.subrange(from as int, at as int)));
    while at < to
        invariant
            from <= at <= to <= groups.len(),
            ":"@ == seq![':'],
            text@ == old(text)@ + groups_text(groups@.subrange(from as int, at as int)),
        decreases to - at,
    {
        let ghost before = groups@.subrange(from as int, at as int);
        let ghost after = groups@.subrange(from as int, at + 1);
        assert(after.drop_last() =~= before);
        assert(after.last() == groups@[at as int]);
        if at > from {
            text.append(":");
        }
        push_short_hex(text, groups[at]);
        assert(text@ =~= old(text)@ + groups_text(after));
        at = at + 1;
    }
}

/// Appends the text of an IPv6 address.
pub(crate) fn push_ipv6(text: &mut String, octets: &[u8; 16])
    ensures
        final(text)@ == old(text)@ + ipv6_text(octets@),
{
    let mut groups: Vec<u16> = Vec::new();
    let mut i: usize = 0;
    while i < 8
        invariant
            i <= 8,
            groups@ == ipv6_groups(octets@).take(i as int),
        decreases 8 - i,
    {
        let high: u16 = octets[2 * i].into();
        let low: u16 = octets[2 * i + 1].into();
        groups.push(high * 256 + low);
        assert(groups@ =~= ipv6_groups(octets@).take(i + 1));
        i = i + 1;
    }
    assert(groups@ =~= ipv6_groups(octets@));
    if groups[0] == 0 && groups[1] == 0 && groups[2] == 0 && groups[3] == 0 && groups[4] == 0
        && groups[5] == 0xffff {
        proof {
            reveal_strlit("::ffff:");
            assert("::ffff:"@ =~= seq![':', ':', 'f', 'f', 'f', 'f', ':']);
            assert(octets@.skip(12) =~= seq![octets@[12], octets@[13], octets@[14], octets@[15]]);
        }
        text.append("::ffff:");
        push_ipv4(text, octets[12], octets[13], octets[14], octets[15]);
        assert(text@ =~= old(text)@ + ipv6_text(octets@));
        return ;
    }
    let mut best: usize = 0;
    let mut best_len: usize = count_zero_run(&groups, 0);
    let mut k: usize = 1;
    while k < 8
        invariant
            1 <= k <= 8,
            groups@.len() == 8,
            best < k,
            best == longest_zero_run(groups@, k as int),
            best_len == zero_run(groups@, best as int),
            best + best_len <= 8,
        decreases 8 - k,
    {
        let len: usize = count_zero_run(&groups, k);
        if len > best_len {
            best = k;
            best_len = len;
        }
        k = k + 1;
    }
    if best_len > 1 {
        proof {
            reveal_strlit("::");
            assert("::"@ =~= seq![':', ':']);
            assert(groups@.take(best as int) =~= groups@.subrange(0, best as int));
            assert(groups@.skip(best + best_len) =~= groups@.subrange(best + best_len, 8));
        }
        push_groups(text, &groups, 0, best);
        text.append("::");
        push_groups(text, &groups, best + best_len, 8);
        assert(text@ =~= old(text)@ + ipv6_text(octets@));
    } else {
        assert(groups@.subrange(0, 8) =~= groups@);
        push_groups(text, &groups, 0, 8);
    }
}

/// The text of an address: dotted decimal for IPv4, colon-separated
/// hexadecimal for IPv6.
pub fn address_string(address: &IpAddress) -> (text: String)
    ensures
        text@ == address_text(*address),
{
    let mut text = String::new();
    match address {
        IpAddress::V4(octets) => {
            assert(octets@ =~= seq![octets@[0], octets@[1], octets@[2], octets@[3]]);
            push_ipv4(&mut text, octets[0], octets[1], octets[2], octets[3]);
        },
        IpAddress::V6(octets) => {
            push_ipv6(&mut text, octets);
        },
    }
    assert(text@ =~= address_text(*address));
    text
}

} // verus!
