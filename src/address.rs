//! Host addresses and their textual form.

use vstd::prelude::*;

verus! {

/// An IPv4 or IPv6 address, held as its network-order bytes.
#[derive(Clone, Copy, Debug, PartialEq, Eq)]
pub enum IpAddress {
    V4([u8; 4]),
    V6([u8; 16]),
}

/// The character of a digit below sixteen (lower-case for ten and above).
pub open spec fn digit_char(d: int) -> char {
    seq!['0', '1', '2', '3', '4', '5', '6', '7', '8', '9', 'a', 'b', 'c', 'd', 'e', 'f'][d]
}

/// Decimal notation of `n`, without leading zeros.
pub open spec fn decimal(n: nat) -> Seq<char>
    decreases n,
{
    if n < 10 {
        seq![digit_char(n as int)]
    } else {
        decimal(n / 10).push(digit_char((n % 10) as int))
    }
}

/// Lower-case hexadecimal notation of `n`, without leading zeros.
pub open spec fn hexadecimal(n: nat) -> Seq<char>
    decreases n,
{
    if n < 16 {
        seq![digit_char(n as int)]
    } else {
        hexadecimal(n / 16).push(digit_char((n % 16) as int))
    }
}

/// Dotted-decimal notation of four octets.
pub open spec fn dotted_text(o: Seq<u8>) -> Seq<char> {
    decimal(o[0] as nat) + seq!['.'] + decimal(o[1] as nat) + seq!['.'] + decimal(o[2] as nat)
        + seq!['.'] + decimal(o[3] as nat)
}

/// The `i`-th 16-bit group of an IPv6 address, from its bytes.
pub open spec fn group(b: Seq<u8>, i: int) -> nat {
    (b[2 * i] as nat) * 256 + (b[2 * i + 1] as nat)
}

/// Groups `from..to` of an IPv6 address in hexadecimal, separated by colons.
pub open spec fn groups_text(b: Seq<u8>, from: int, to: int) -> Seq<char>
    decreases to - from,
{
    if to <= from {
        seq![]
    } else if to == from + 1 {
        hexadecimal(group(b, from))
    } else {
        groups_text(b, from, to - 1) + seq![':'] + hexadecimal(group(b, to - 1))
    }
}

/// Groups `s..s + l` of an IPv6 address are all zero.
pub open spec fn is_zero_run(b: Seq<u8>, s: int, l: int) -> bool {
    &&& 0 <= s
    &&& 0 <= l
    &&& s + l <= 8
    &&& forall|j: int| s <= j < s + l ==> group(b, j) == 0
}

/// `s..s + l` is the first of the longest runs of zero groups (`0, 0` where no
/// group is zero).
pub open spec fn is_first_longest_zero_run(b: Seq<u8>, s: int, l: int) -> bool {
    &&& is_zero_run(b, s, l)
    &&& forall|s2: int, l2: int| #[trigger] is_zero_run(b, s2, l2) ==> l2 <= l
    &&& forall|s2: int| #[trigger] is_zero_run(b, s2, l) ==> s <= s2
}

/// The bytes are an IPv4 address mapped into IPv6 (`::ffff:a.b.c.d`).
pub open spec fn is_ipv4_mapped(b: Seq<u8>) -> bool {
    &&& forall|j: int| 0 <= j < 10 ==> b[j] == 0
    &&& b[10] == 0xff
    &&& b[11] == 0xff
}

/// Text of an IPv6 address whose first longest zero run is `s..s + l`: that run
/// written as `::` where it spans two groups or more.
pub open spec fn compressed_text(b: Seq<u8>, s: int, l: int) -> Seq<char> {
    if l > 1 {
        groups_text(b, 0, s) + seq![':', ':'] + groups_text(b, s + l, 8)
    } else {
        groups_text(b, 0, 8)
    }
}

/// The textual form of an IPv6 address: `::ffff:` and dotted decimal for a mapped
/// IPv4 address, else the eight groups in hexadecimal with the first longest run
/// of two or more zero groups written as `::`.
pub open spec fn ipv6_text(b: Seq<u8>) -> Seq<char> {
    if is_ipv4_mapped(b) {
        seq![':', ':', 'f', 'f', 'f', 'f', ':'] + dotted_text(b.subrange(12, 16))
    } else {
        let (s, l) = choose|s: int, l: int| is_first_longest_zero_run(b, s, l);
        compressed_text(b, s, l)
    }
}

/// The textual form of an address: dotted decimal for IPv4, the standard
/// (compressed) notation for IPv6.
pub open spec fn address_text(a: IpAddress) -> Seq<char> {
    match a {
        IpAddress::V4(o) => dotted_text(o@),
        IpAddress::V6(b) => ipv6_text(b@),
    }
}

/// The first longest zero run is unique.
proof fn lemma_first_longest_unique(b: Seq<u8>, s: int, l: int, s2: int, l2: int)
    requires
        is_first_longest_zero_run(b, s, l),
        is_first_longest_zero_run(b, s2, l2),
    ensures
        s == s2 && l == l2,
{
    assert(is_zero_run(b, s2, l2));
    assert(is_zero_run(b, s, l));
    assert(l == l2);
    assert(is_zero_run(b, s2, l));
    assert(is_zero_run(b, s, l2));
}

/// The one-character string of a digit below sixteen.
fn digit_str(d: u8) -> (r: &'static str)
    requires
        d < 16,
    ensures
        r@ == seq![digit_char(d as int)],
{
    proof {
        reveal_strlit("0");
        reveal_strlit("1");
        reveal_strlit("2");
        reveal_strlit("3");
        reveal_strlit("4");
        reveal_strlit("5");
        reveal_strlit("6");
        reveal_strlit("7");
        reveal_strlit("8");
        reveal_strlit("9");
        reveal_strlit("a");
        reveal_strlit("b");
        reveal_strlit("c");
        reveal_strlit("d");
        reveal_strlit("e");
        reveal_strlit("f");
    }
    match d {
        0 => "0",
        1 => "1",
        2 => "2",
        3 => "3",
        4 => "4",
        5 => "5",
        6 => "6",
        7 => "7",
        8 => "8",
        9 => "9",
        10 => "a",
        11 => "b",
        12 => "c",
        13 => "d",
        14 => "e",
        _ => "f",
    }
}

/// Appends the decimal notation of `n` to `s`.
pub fn append_decimal(s: &mut String, n: u8)
    ensures
        final(s)@ == old(s)@ + decimal(n as nat),
    decreases n,
{
    if n >= 10 {
        append_decimal(s, n / 10);
    }
    s.append(digit_str(n % 10));
    assert(final(s)@ =~= old(s)@ + decimal(n as nat));
}

/// Appends the hexadecimal notation of `n` to `s`.
pub fn append_hex(s: &mut String, n: u16)
    ensures
        final(s)@ == old(s)@ + hexadecimal(n as nat),
    decreases n,
{
    if n >= 16 {
        append_hex(s, n / 16);
    }
    s.append(digit_str((n % 16) as u8));
    assert(final(s)@ =~= old(s)@ + hexadecimal(n as nat));
}

/// The 16-bit group `i` of an IPv6 address.
fn group_at(b: &[u8; 16], i: usize) -> (r: u16)
    requires
        i < 8,
    ensures
        r as nat == group(b@, i as int),
{
    (b[2 * i] as u16) * 256 + (b[2 * i + 1] as u16)
}

/// Appends groups `from..to` of an IPv6 address in hexadecimal, separated by colons.
fn append_groups(s: &mut String, b: &[u8; 16], from: usize, to: usize)
    requires
        from <= to <= 8,
    ensures
        final(s)@ == old(s)@ + groups_text(b@, from as int, to as int),
{
    let mut i: usize = from;
    while i < to
        invariant
            from <= i <= to <= 8,
            s@ == old(s)@ + groups_text(b@, from as int, i as int),
        decreases to - i,
    {
        let ghost before = s@;
        proof {
            reveal_strlit(":");
        }
        if i > from {
            s.append(":");
        }
        append_hex(s, group_at(b, i));
        if i > from {
            assert(s@ =~= before + seq![':'] + hexadecimal(group(b@, i as int)));
        } else {
            assert(s@ =~= before + hexadecimal(group(b@, i as int)));
        }
        assert(s@ =~= old(s)@ + groups_text(b@, from as int, (i + 1) as int));
        i = i + 1;
    }
}

/// Whether the bytes are an IPv4 address mapped into IPv6.
fn is_mapped(b: &[u8; 16]) -> (r: bool)
    ensures
        r == is_ipv4_mapped(b@),
{
    let mut i: usize = 0;
    while i < 10
        invariant
            i <= 10,
            forall|j: int| 0 <= j < i ==> b@[j] == 0,
        decreases 10 - i,
    {
        if b[i] != 0 {
            return false;
        }
        i = i + 1;
    }
    b[10] == 0xff && b[11] == 0xff
}

/// The first of the longest runs of zero groups of an IPv6 address.
fn first_longest_zero_run(b: &[u8; 16]) -> (r: (usize, usize))
    ensures
        is_first_longest_zero_run(b@, r.0 as int, r.1 as int),
{
    let mut best_start: usize = 0;
    let mut best_len: usize = 0;
    let mut cur_start: usize = 0;
    let mut cur_len: usize = 0;
    let mut i: usize = 0;
    while i < 8
        invariant
            i <= 8,
            cur_start + cur_len == i,
            best_start + best_len <= i,
            is_zero_run(b@, best_start as int, best_len as int),
            is_zero_run(b@, cur_start as int, cur_len as int),
            cur_start == 0 || group(b@, cur_start - 1) != 0,
            forall|s2: int, l2: int| #[trigger] is_zero_run(b@, s2, l2) && s2 + l2 <= i ==> l2 <= best_len,
            forall|s2: int| #[trigger] is_zero_run(b@, s2, best_len as int) && s2 + best_len <= i ==> best_start <= s2,
        decreases 8 - i,
    {
        let g = group_at(b, i);
        if g == 0 {
            cur_len = cur_len + 1;
            if cur_len > best_len {
                best_start = cur_start;
                best_len = cur_len;
            }
        } else {
            cur_start = i + 1;
            cur_len = 0;
        }
        assert forall|s2: int, l2: int| #[trigger] is_zero_run(b@, s2, l2) && s2 + l2 <= i + 1 implies l2 <= best_len by {
            if s2 + l2 == i + 1 && l2 > 0 {
                assert(group(b@, i as int) == 0);
                if s2 < cur_start {
                    assert(group(b@, cur_start - 1) == 0);
                }
            }
        }
        i = i + 1;
    }
    (best_start, best_len)
}

impl IpAddress {
    /// Appends the textual form of this address to `s`.
    pub fn append_text(&self, s: &mut String)
        ensures
            final(s)@ == old(s)@ + address_text(*self),
    {
        proof {
            reveal_strlit(".");
        }
        match self {
            IpAddress::V4(o) => {
                append_decimal(s, o[0]);
                s.append(".");
                append_decimal(s, o[1]);
                s.append(".");
                append_decimal(s, o[2]);
                s.append(".");
                append_decimal(s, o[3]);
                assert(final(s)@ =~= old(s)@ + address_text(*self));
            },
            IpAddress::V6(b) => {
                if is_mapped(b) {
                    proof {
                        reveal_strlit("::ffff:");
                    }
                    s.append("::ffff:");
                    append_decimal(s, b[12]);
                    s.append(".");
                    append_decimal(s, b[13]);
                    s.append(".");
                    append_decimal(s, b[14]);
                    s.append(".");
                    append_decimal(s, b[15]);
                    assert(final(s)@ =~= old(s)@ + address_text(*self));
                } else {
                    let (start, len) = first_longest_zero_run(b);
                    let ghost chosen = choose|s: int, l: int| is_first_longest_zero_run(b@, s, l);
                    proof {
                        lemma_first_longest_unique(b@, start as int, len as int, chosen.0, chosen.1);
                        reveal_strlit("::");
                    }
                    if len > 1 {
                        append_groups(s, b, 0, start);
                        s.append("::");
                        append_groups(s, b, start + len, 8);
                    } else {
                        append_groups(s, b, 0, 8);
                    }
                    assert(final(s)@ =~= old(s)@ + address_text(*self));
                }
            },
        }
    }

    /// Whether two addresses are the same (same family and bytes).
    pub fn same_as(&self, other: &IpAddress) -> (r: bool)
        ensures
            r == (*self == *other),
    {
        match self {
            IpAddress::V4(a) => match other {
                IpAddress::V4(b) => {
                    let r = a[0] == b[0] && a[1] == b[1] && a[2] == b[2] && a[3] == b[3];
                    if r {
                        assert(*a =~= *b);
                    }
                    r
                },
                IpAddress::V6(_) => false,
            },
            IpAddress::V6(a) => match other {
                IpAddress::V4(_) => false,
                IpAddress::V6(b) => {
                    let mut i: usize = 0;
                    while i < 16
                        invariant
                            i <= 16,
                            *self == IpAddress::V6(*a),
                            *other == IpAddress::V6(*b),
                            forall|j: int| 0 <= j < i ==> a[j] == b[j],
                        decreases 16 - i,
                    {
                        if a[i] != b[i] {
                            assert(a[i as int] != b[i as int]);
                            return false;
                        }
                        i = i + 1;
                    }
                    assert(*a =~= *b);
                    true
                },
            },
        }
    }

    /// The textual form of this address.
    pub fn to_text(&self) -> (r: String)
        ensures
            r@ == address_text(*self),
    {
        let mut s = String::new();
        self.append_text(&mut s);
        assert(s@ =~= address_text(*self));
        s
    }
}

} // verus!
