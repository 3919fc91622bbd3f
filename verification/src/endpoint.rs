//! Decisions about addresses and interfaces: which resolved address a sender
//! uses, where it binds, how it pins a socket to an interface, and how
//! interface and route notifications are named.
use vstd::prelude::*;

verus! {

/// The IP version of an address.
#[derive(Debug, Clone, Copy, PartialEq, Eq, Structural)]
pub enum Family {
    V4,
    V6,
}

/// Whether an address of `family` is wanted when IPv4 and/or IPv6 is asked for.
pub open spec fn wanted(family: Family, use_ipv4: bool, use_ipv6: bool) -> bool {
    (family == Family::V4 && use_ipv4) || (family == Family::V6 && use_ipv6)
}

/// The first of the resolved addresses (given by their families) whose IP
/// version was asked for.
pub fn select_address(families: &Vec<Family>, use_ipv4: bool, use_ipv6: bool) -> (r: Option<usize>)
    ensures
        r matches Some(i) ==> i < families@.len() && wanted(families@[i as int], use_ipv4, use_ipv6)
            && forall|j: int| 0 <= j < i ==> !wanted(#[trigger] families@[j], use_ipv4, use_ipv6),
        r is None ==> forall|j: int|
            0 <= j < families@.len() ==> !wanted(#[trigger] families@[j], use_ipv4, use_ipv6),
{
    let mut i: usize = 0;
    while i < families.len()
        invariant
            i <= families@.len(),
            forall|j: int| 0 <= j < i ==> !wanted(#[trigger] families@[j], use_ipv4, use_ipv6),
        decreases families@.len() - i,
    {
        let f = families[i];
        if (f == Family::V4 && use_ipv4) || (f == Family::V6 && use_ipv6) {
            return Some(i);
        }
        i += 1;
    }
    None
}

/// The wildcard address a sender binds to before sending to an address of
/// `family`.
pub fn bind_address(family: Family) -> (s: &'static str)
    ensures
        family == Family::V4 ==> s@ == "0.0.0.0:0"@,
        family == Family::V6 ==> s@ == "[::]:0"@,
{
    match family {
        Family::V4 => "0.0.0.0:0",
        Family::V6 => "[::]:0",
    }
}

/// The bytes of `x` in network (big-endian) order.
pub open spec fn be_bytes(x: u32) -> Seq<u8> {
    seq![
        (x / 0x1000000) as u8,
        ((x / 0x10000) % 0x100) as u8,
        ((x / 0x100) % 0x100) as u8,
        (x % 0x100) as u8,
    ]
}

/// The socket option that pins a socket's outgoing traffic to an interface.
#[derive(Debug, Clone, Copy)]
pub enum UnicastIf {
    /// IPv4: the interface index, stored in network byte order.
    V4 { index_be: [u8; 4] },
    /// IPv6: the interface index as it is.
    V6 { index: u32 },
}

/// The unicast-interface option for a socket of `family` and the interface
/// `if_index`.
pub fn unicast_if(family: Family, if_index: u32) -> (opt: UnicastIf)
    ensures
        family == Family::V4 ==> (opt matches UnicastIf::V4 { index_be } && index_be@ == be_bytes(if_index)),
        family == Family::V6 ==> opt == (UnicastIf::V6 { index: if_index }),
{
    match family {
        Family::V4 => {
            let index_be: [u8; 4] = [
                (if_index / 0x1000000) as u8,
                ((if_index / 0x10000) % 0x100) as u8,
                ((if_index / 0x100) % 0x100) as u8,
                (if_index % 0x100) as u8,
            ];
            assert(index_be@ =~= be_bytes(if_index));
            UnicastIf::V4 { index_be }
        },
        Family::V6 => UnicastIf::V6 { index: if_index },
    }
}

proof fn lemma_push_contains(s: Seq<u32>, x: u32, y: u32)
    ensures
        s.push(x).contains(y) <==> (s.contains(y) || y == x),
{
    if s.push(x).contains(y) {
        let i = choose|i: int| 0 <= i < s.push(x).len() && s.push(x)[i] == y;
        if i < s.len() {
            assert(s[i] == y);
        }
    }
    if s.contains(y) {
        let i = choose|i: int| 0 <= i < s.len() && s[i] == y;
        assert(s.push(x)[i] == y);
    }
    if y == x {
        assert(s.push(x)[s.len() as int] == y);
    }
}

/// Whether `v` holds `x`.
fn contains_u32(v: &Vec<u32>, x: u32) -> (b: bool)
    ensures
        b == v@.contains(x),
{
    let mut i: usize = 0;
    while i < v.len()
        invariant
            i <= v@.len(),
            forall|j: int| 0 <= j < i ==> v@[j] != x,
        decreases v@.len() - i,
    {
        if v[i] == x {
            return true;
        }
        i += 1;
    }
    false
}

/// The interfaces to send through: the one named explicitly, or else every
/// interface that appears in the address table, each once.
pub fn collect_interfaces(explicit: Option<u32>, table: &Vec<u32>) -> (r: Vec<u32>)
    ensures
        r@.no_duplicates(),
        explicit matches Some(i) ==> r@ == seq![i],
        explicit is None ==> forall|x: u32| r@.contains(x) <==> table@.contains(x),
{
    let mut r: Vec<u32> = Vec::new();
    if let Some(i) = explicit {
        r.push(i);
        return r;
    }
    let mut k: usize = 0;
    while k < table.len()
        invariant
            k <= table@.len(),
            r@.no_duplicates(),
            forall|x: u32| r@.contains(x) <==> table@.take(k as int).contains(x),
        decreases table@.len() - k,
    {
        let x = table[k];
        let ghost before = r@;
        if !contains_u32(&r, x) {
            r.push(x);
            assert forall|a: int, b: int| 0 <= a < b < r@.len() implies r@[a] != r@[b] by {
                if b == r@.len() - 1 {
                    assert(before.contains(before[a]));
                }
            }
        }
        assert(table@.take(k + 1) =~= table@.take(k as int).push(x));
        assert forall|y: u32| r@.contains(y) <==> table@.take(k + 1).contains(y) by {
            lemma_push_contains(table@.take(k as int), x, y);
            lemma_push_contains(before, x, y);
        }
        k += 1;
    }
    assert(table@.take(table@.len() as int) =~= table@);
    r
}

/// The label of a route or address change notification: 0 is a change, 1 an
/// addition, 2 a deletion; other kinds have no label and are not reported.
pub fn notification_label(kind: i32) -> (label: Option<&'static str>)
    ensures
        kind == 0 ==> (label matches Some(s) && s@ == "CHANGE"@),
        kind == 1 ==> (label matches Some(s) && s@ == "ADD"@),
        kind == 2 ==> (label matches Some(s) && s@ == "DELETE"@),
        (kind < 0 || kind > 2) ==> label is None,
{
    match kind {
        0 => Some("CHANGE"),
        1 => Some("ADD"),
        2 => Some("DELETE"),
        _ => None,
    }
}

/// The first connection profile (given by the ids of their network
/// adapters) that belongs to the adapter `target`.
pub fn find_profile(adapter_ids: &Vec<u128>, target: u128) -> (r: Option<usize>)
    ensures
        r matches Some(i) ==> i < adapter_ids@.len() && adapter_ids@[i as int] == target
            && forall|j: int| 0 <= j < i ==> adapter_ids@[j] != target,
        r is None ==> !adapter_ids@.contains(target),
{
    let mut i: usize = 0;
    while i < adapter_ids.len()
        invariant
            i <= adapter_ids@.len(),
            forall|j: int| 0 <= j < i ==> adapter_ids@[j] != target,
        decreases adapter_ids@.len() - i,
    {
        if adapter_ids[i] == target {
            return Some(i);
        }
        i += 1;
    }
    None
}

} // verus!
