//! Capture filters: which frames one capture session is to see.

use vstd::prelude::*;

use crate::address::{address_text, IpAddress};
use crate::packet::{packet_destination, packet_protocol, packet_source, Packet, Protocol};

verus! {

/// The keyword by which a capture filter restricts frames to a protocol.
pub open spec fn filter_keyword(p: Protocol) -> Seq<char> {
    match p {
        Protocol::Tcp => seq!['t', 'c', 'p'],
        Protocol::Udp => seq!['u', 'd', 'p'],
        Protocol::IcmpV4 => seq!['i', 'c', 'm', 'p'],
        Protocol::IcmpV6 => seq!['i', 'c', 'm', 'p', '6'],
    }
}

/// `! src host `
pub open spec fn not_source_prefix() -> Seq<char> {
    seq!['!', ' ', 's', 'r', 'c', ' ', 'h', 'o', 's', 't', ' ']
}

/// `dst host `
pub open spec fn destination_prefix() -> Seq<char> {
    seq!['d', 's', 't', ' ', 'h', 'o', 's', 't', ' ']
}

/// ` && `
pub open spec fn and_text() -> Seq<char> {
    seq![' ', '&', '&', ' ']
}

/// ` || `
pub open spec fn or_text() -> Seq<char> {
    seq![' ', '|', '|', ' ']
}

/// One term per address, `prefix` followed by the address, the terms separated
/// by `sep`.
pub open spec fn joined_terms(addrs: Seq<IpAddress>, prefix: Seq<char>, sep: Seq<char>) -> Seq<char>
    decreases addrs.len(),
{
    if addrs.len() == 0 {
        seq![]
    } else if addrs.len() == 1 {
        prefix + address_text(addrs[0])
    } else {
        joined_terms(addrs.drop_last(), prefix, sep) + sep + prefix + address_text(addrs.last())
    }
}

/// The filter expression for a set of local addresses and a protocol:
/// `(! src host a1 && ! src host a2 ...) && (dst host a1 || dst host a2 ...) && <proto>`.
pub open spec fn filter_text(addrs: Seq<IpAddress>, p: Protocol) -> Seq<char> {
    seq!['('] + joined_terms(addrs, not_source_prefix(), and_text()) + seq![')'] + and_text()
        + seq!['('] + joined_terms(addrs, destination_prefix(), or_text()) + seq![')']
        + and_text() + filter_keyword(p)
}

/// The intended meaning of the filter for `addrs` and `p`: it admits a packet of
/// protocol `p` whose source is no local address and whose destination is one.
pub open spec fn filter_admits(addrs: Seq<IpAddress>, p: Protocol, packet: Packet) -> bool {
    &&& !addrs.contains(packet_source(packet))
    &&& addrs.contains(packet_destination(packet))
    &&& packet_protocol(packet) == p
}

/// `piece` occurs in `text` at some position.
pub open spec fn occurs_in(piece: Seq<char>, text: Seq<char>) -> bool {
    exists|k: int| 0 <= k <= text.len() - piece.len() && #[trigger] text.subrange(k, k + piece.len()) == piece
}

impl Protocol {
    /// The keyword by which a capture filter restricts frames to this protocol.
    pub fn filter_keyword(&self) -> (r: &'static str)
        ensures
            r@ == filter_keyword(*self),
    {
        proof {
            reveal_strlit("tcp");
            reveal_strlit("udp");
            reveal_strlit("icmp");
            reveal_strlit("icmp6");
        }
        match self {
            Protocol::Tcp => "tcp",
            Protocol::Udp => "udp",
            Protocol::IcmpV4 => "icmp",
            Protocol::IcmpV6 => "icmp6",
        }
    }
}

/// Appends one term per address to `s`, each `prefix` followed by the address,
/// separated by `sep`.
fn append_terms(s: &mut String, addresses: &[IpAddress], prefix: &str, sep: &str)
    ensures
        final(s)@ == old(s)@ + joined_terms(addresses@, prefix@, sep@),
{
    let mut i: usize = 0;
    while i < addresses.len()
        invariant
            i <= addresses@.len(),
            s@ == old(s)@ + joined_terms(addresses@.subrange(0, i as int), prefix@, sep@),
        decreases addresses@.len() - i,
    {
        let ghost before = s@;
        if i > 0 {
            s.append(sep);
        }
        s.append(prefix);
        addresses[i].append_text(s);
        let ghost next = addresses@.subrange(0, i + 1);
        assert(next.drop_last() =~= addresses@.subrange(0, i as int));
        assert(next.last() == addresses@[i as int]);
        if i > 0 {
            assert(s@ =~= before + sep@ + prefix@ + address_text(addresses@[i as int]));
        } else {
            assert(s@ =~= before + prefix@ + address_text(addresses@[i as int]));
        }
        i = i + 1;
    }
    assert(addresses@.subrange(0, addresses@.len() as int) =~= addresses@);
}

/// Builds the capture-filter expression that admits only frames of `protocol`
/// sent to one of the local `addresses` from none of them.
pub fn build_filter(addresses: &[IpAddress], protocol: Protocol) -> (r: String)
    requires
        addresses@.len() > 0,
    ensures
        r@ == filter_text(addresses@, protocol),
{
    proof {
        reveal_strlit("(");
        reveal_strlit(")");
        reveal_strlit(" && ");
        reveal_strlit(" || ");
        reveal_strlit("! src host ");
        reveal_strlit("dst host ");
        assert("! src host "@ =~= not_source_prefix());
        assert("dst host "@ =~= destination_prefix());
        assert(" && "@ =~= and_text());
        assert(" || "@ =~= or_text());
    }
    let mut s = String::from_str("(");
    append_terms(&mut s, addresses, "! src host ", " && ");
    s.append(")");
    s.append(" && ");
    s.append("(");
    append_terms(&mut s, addresses, "dst host ", " || ");
    s.append(")");
    s.append(" && ");
    s.append(protocol.filter_keyword());
    assert(s@ =~= filter_text(addresses@, protocol));
    s
}

/// Whether one of `addresses` is `a`.
fn is_local(addresses: &[IpAddress], a: &IpAddress) -> (r: bool)
    ensures
        r == addresses@.contains(*a),
{
    let mut i: usize = 0;
    while i < addresses.len()
        invariant
            i <= addresses@.len(),
            forall|j: int| 0 <= j < i ==> addresses@[j] != *a,
        decreases addresses@.len() - i,
    {
        if addresses[i].same_as(a) {
            return true;
        }
        i = i + 1;
    }
    false
}

/// Whether the filter built from `addresses` and `protocol` admits `packet`.
pub fn filter_admits_packet(addresses: &[IpAddress], protocol: Protocol, packet: &Packet) -> (r: bool)
    ensures
        r == filter_admits(addresses@, protocol, *packet),
{
    let same_protocol = packet.protocol().same_as(&protocol);
    let (source, destination) = match packet {
        Packet::Tcp { source_address, destination_address, .. } => (source_address, destination_address),
        Packet::Udp { source_address, destination_address, .. } => (source_address, destination_address),
        Packet::IcmpV4 { source_address, destination_address } => (source_address, destination_address),
        Packet::IcmpV6 { source_address, destination_address } => (source_address, destination_address),
    };
    same_protocol && !is_local(addresses, source) && is_local(addresses, destination)
}

/// An occurrence of `piece` in `t` is one in `a + t + b` too.
proof fn lemma_occurs_in_context(piece: Seq<char>, a: Seq<char>, t: Seq<char>, b: Seq<char>)
    requires
        occurs_in(piece, t),
    ensures
        occurs_in(piece, a + t + b),
{
    let k = choose|k: int| 0 <= k <= t.len() - piece.len() && #[trigger] t.subrange(k, k + piece.len()) == piece;
    let whole = a + t + b;
    let at = a.len() + k;
    assert(whole.subrange(at, at + piece.len()) =~= t.subrange(k, k + piece.len()));
}

/// Each address's term occurs in the joined terms.
proof fn lemma_term_occurs(addrs: Seq<IpAddress>, prefix: Seq<char>, sep: Seq<char>, i: int)
    requires
        0 <= i < addrs.len(),
    ensures
        occurs_in(prefix + address_text(addrs[i]), joined_terms(addrs, prefix, sep)),
    decreases addrs.len(),
{
    let piece = prefix + address_text(addrs[i]);
    let t = joined_terms(addrs, prefix, sep);
    if addrs.len() == 1 {
        let k: int = 0;
        assert(t.subrange(k, k + piece.len()) =~= piece);
        assert(occurs_in(piece, t));
    } else if i == addrs.len() - 1 {
        let front = joined_terms(addrs.drop_last(), prefix, sep) + sep;
        assert(t =~= front + piece);
        assert(t.subrange(front.len() as int, (front.len() + piece.len()) as int) =~= piece);
        assert(occurs_in(piece, t));
    } else {
        let rest = addrs.drop_last();
        lemma_term_occurs(rest, prefix, sep, i);
        assert(rest[i] == addrs[i]);
        lemma_occurs_in_context(piece, seq![], joined_terms(rest, prefix, sep), sep + prefix + address_text(addrs.last()));
        assert(seq![] + joined_terms(rest, prefix, sep) + (sep + prefix + address_text(addrs.last())) =~= t);
        assert(occurs_in(piece, t));
    }
}

/// For every non-empty set of local addresses and every protocol, the filter
/// expression excludes each local address as a source (`! src host <a>`, the terms
/// joined by `&&`), admits each as a destination (`dst host <a>`, the terms joined
/// by `||`), and conjoins both with the protocol's keyword.
pub proof fn lemma_filter_names_every_address(addrs: Seq<IpAddress>, p: Protocol)
    requires
        addrs.len() > 0,
    ensures
        forall|i: int| 0 <= i < addrs.len() ==> occurs_in(
            not_source_prefix() + address_text(#[trigger] addrs[i]),
            joined_terms(addrs, not_source_prefix(), and_text()),
        ),
        forall|i: int| 0 <= i < addrs.len() ==> occurs_in(
            destination_prefix() + address_text(#[trigger] addrs[i]),
            joined_terms(addrs, destination_prefix(), or_text()),
        ),
        forall|i: int| 0 <= i < addrs.len() ==> occurs_in(
            not_source_prefix() + address_text(#[trigger] addrs[i]),
            filter_text(addrs, p),
        ),
        forall|i: int| 0 <= i < addrs.len() ==> occurs_in(
            destination_prefix() + address_text(#[trigger] addrs[i]),
            filter_text(addrs, p),
        ),
        ({
            let text = filter_text(addrs, p);
            let tail = and_text() + filter_keyword(p);
            text.len() >= tail.len() && text.subrange(text.len() - tail.len(), text.len() as int) == tail
        }),
{
    let excluded = joined_terms(addrs, not_source_prefix(), and_text());
    let admitted = joined_terms(addrs, destination_prefix(), or_text());
    let text = filter_text(addrs, p);
    let tail = and_text() + filter_keyword(p);
    let head = seq!['('] + excluded + seq![')'] + and_text() + seq!['('] + admitted + seq![')'];
    assert(text =~= head + tail);
    assert(text.subrange(text.len() - tail.len(), text.len() as int) =~= tail);
    assert forall|i: int| 0 <= i < addrs.len() implies occurs_in(
        not_source_prefix() + address_text(#[trigger] addrs[i]),
        text,
    ) && occurs_in(not_source_prefix() + address_text(addrs[i]), excluded) by {
        lemma_term_occurs(addrs, not_source_prefix(), and_text(), i);
        let after = seq![')'] + and_text() + seq!['('] + admitted + seq![')'] + and_text()
            + filter_keyword(p);
        lemma_occurs_in_context(not_source_prefix() + address_text(addrs[i]), seq!['('], excluded, after);
        assert(seq!['('] + excluded + after =~= text);
    }
    assert forall|i: int| 0 <= i < addrs.len() implies occurs_in(
        destination_prefix() + address_text(#[trigger] addrs[i]),
        text,
    ) && occurs_in(destination_prefix() + address_text(addrs[i]), admitted) by {
        lemma_term_occurs(addrs, destination_prefix(), or_text(), i);
        let before = seq!['('] + excluded + seq![')'] + and_text() + seq!['('];
        let after = seq![')'] + and_text() + filter_keyword(p);
        lemma_occurs_in_context(destination_prefix() + address_text(addrs[i]), before, admitted, after);
        assert(before + admitted + after =~= text);
    }
}

} // verus!
