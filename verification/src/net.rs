//! Network addresses as plain values.

use std::collections::HashSet;
use vstd::prelude::*;
use vstd::std_specs::hash::group_hash_axioms;
use vstd::std_specs::iter::IteratorSpec;

verus! {

/// An IP address, held as the number that its bytes spell in network order.
#[derive(Clone, Copy, Debug, PartialEq, Eq, Structural)]
pub enum IpAddr {
    V4(u32),
    V6(u128),
}

/// An IP address with a port. For IPv6 the flow label and the scope come along.
#[derive(Clone, Copy, Debug, PartialEq, Eq, Structural)]
pub enum SocketAddr {
    V4 { ipv4: u32, port: u16 },
    V6 { ipv6: u128, port: u16, flowinfo: u32, scope_id: u32 },
}

impl SocketAddr {
    /// The IP part of the address.
    pub open spec fn spec_ip(self) -> IpAddr {
        match self {
            SocketAddr::V4 { ipv4, .. } => IpAddr::V4(ipv4),
            SocketAddr::V6 { ipv6, .. } => IpAddr::V6(ipv6),
        }
    }

    /// The port of the address.
    pub open spec fn spec_port(self) -> u16 {
        match self {
            SocketAddr::V4 { port, .. } => port,
            SocketAddr::V6 { port, .. } => port,
        }
    }

    /// The address made of `ip` and `port` alone: an IPv6 address gets neither a
    /// flow label nor a scope.
    pub open spec fn spec_new(ip: IpAddr, port: u16) -> SocketAddr {
        match ip {
            IpAddr::V4(ipv4) => SocketAddr::V4 { ipv4, port },
            IpAddr::V6(ipv6) => SocketAddr::V6 { ipv6, port, flowinfo: 0, scope_id: 0 },
        }
    }

    /// Puts an IP address and a port together.
    pub fn new(ip: IpAddr, port: u16) -> (addr: SocketAddr)
        ensures
            addr == SocketAddr::spec_new(ip, port),
    {
        match ip {
            IpAddr::V4(ipv4) => SocketAddr::V4 { ipv4, port },
            IpAddr::V6(ipv6) => SocketAddr::V6 { ipv6, port, flowinfo: 0, scope_id: 0 },
        }
    }

    /// The IP part of the address.
    pub fn ip(&self) -> (ip: IpAddr)
        ensures
            ip == self.spec_ip(),
    {
        match *self {
            SocketAddr::V4 { ipv4, .. } => IpAddr::V4(ipv4),
            SocketAddr::V6 { ipv6, .. } => IpAddr::V6(ipv6),
        }
    }

    /// The port of the address.
    pub fn port(&self) -> (port: u16)
        ensures
            port == self.spec_port(),
    {
        match *self {
            SocketAddr::V4 { port, .. } => port,
            SocketAddr::V6 { port, .. } => port,
        }
    }
}

/// A copy of a list of addresses.
pub fn copy_addrs(addrs: &Vec<IpAddr>) -> (copy: Vec<IpAddr>)
    ensures
        copy@ == addrs@,
{
    let mut copy: Vec<IpAddr> = Vec::new();
    for i in 0..addrs.len()
        invariant
            copy@ == addrs@.take(i as int),
    {
        copy.push(addrs[i]);
        assert(addrs@.take(i + 1) == addrs@.take(i as int).push(addrs@[i as int]));
    }
    assert(addrs@.take(addrs@.len() as int) == addrs@);
    copy
}

/// A set of IP addresses. The addresses of each family are kept under their numbers.
#[derive(Debug)]
pub struct IpSet {
    v4: HashSet<u32>,
    v6: HashSet<u128>,
}

impl View for IpSet {
    type V = Set<IpAddr>;

    closed spec fn view(&self) -> Set<IpAddr> {
        Set::new(
            |a: IpAddr|
                match a {
                    IpAddr::V4(ip) => self.v4@.contains(ip),
                    IpAddr::V6(ip) => self.v6@.contains(ip),
                },
        )
    }
}

impl IpSet {
    /// The empty set.
    pub fn new() -> (set: IpSet)
        ensures
            set@ == Set::<IpAddr>::empty(),
    {
        let set = IpSet { v4: HashSet::new(), v6: HashSet::new() };
        assert(set@ =~= Set::<IpAddr>::empty());
        set
    }

    /// The addresses that stand in either of two lists.
    pub fn from_lists(first: &Vec<IpAddr>, second: &Vec<IpAddr>) -> (set: IpSet)
        ensures
            set@ == first@.to_set().union(second@.to_set()),
    {
        let mut set = IpSet::new();
        for i in 0..first.len()
            invariant
                set@ == first@.take(i as int).to_set(),
        {
            set.insert(first[i]);
            proof {
                lemma_take_to_set(first@, i as int);
            }
        }
        assert(first@.take(first@.len() as int) == first@);
        for i in 0..second.len()
            invariant
                set@ == first@.to_set().union(second@.take(i as int).to_set()),
        {
            set.insert(second[i]);
            proof {
                lemma_take_to_set(second@, i as int);
            }
            assert(set@ =~= first@.to_set().union(second@.take(i + 1).to_set()));
        }
        assert(second@.take(second@.len() as int) == second@);
        set
    }

    /// Adds an address. An address that is in the set already changes nothing.
    pub fn insert(&mut self, addr: IpAddr)
        ensures
            final(self)@ == old(self)@.insert(addr),
    {
        broadcast use group_hash_axioms;

        match addr {
            IpAddr::V4(ip) => {
                self.v4.insert(ip);
            },
            IpAddr::V6(ip) => {
                self.v6.insert(ip);
            },
        }
        assert(self@ =~= old(self)@.insert(addr));
    }

    /// Whether an address is in the set.
    pub fn contains(&self, addr: IpAddr) -> (found: bool)
        ensures
            found == self@.contains(addr),
    {
        broadcast use group_hash_axioms;

        match addr {
            IpAddr::V4(ip) => self.v4.contains(&ip),
            IpAddr::V6(ip) => self.v6.contains(&ip),
        }
    }

    /// The addresses of the set, each once. Their order means nothing.
    pub fn to_vec(&self) -> (addrs: Vec<IpAddr>)
        ensures
            addrs@.no_duplicates(),
            addrs@.to_set() == self@,
    {
        broadcast use group_hash_axioms;

        let mut addrs: Vec<IpAddr> = Vec::new();
        for ip in it: self.v4.iter()
            invariant
                addrs@ == it.seq().take(it.index()).map_values(|ip: &u32| IpAddr::V4(*ip)),
        {
            addrs.push(IpAddr::V4(*ip));
        }
        let ghost first = addrs@;
        for ip in it: self.v6.iter()
            invariant
                addrs@ == first + it.seq().take(it.index()).map_values(
                    |ip: &u128| IpAddr::V6(*ip),
                ),
        {
            addrs.push(IpAddr::V6(*ip));
        }
        proof {
            let v4s = self.v4.iter().remaining();
            let v6s = self.v6.iter().remaining();
            assert(first == v4s.map_values(|ip: &u32| IpAddr::V4(*ip)));
            assert(addrs@ == first + v6s.map_values(|ip: &u128| IpAddr::V6(*ip)));
            assert forall|a: IpAddr| addrs@.contains(a) == self@.contains(a) by {
                match a {
                    IpAddr::V4(ip) => {
                        assert(self.v4@.contains(ip) == v4s.unref().contains(ip));
                        if v4s.unref().contains(ip) {
                            let i = v4s.unref().index_of(ip);
                            assert(addrs@[i] == a);
                        }
                        if addrs@.contains(a) {
                            let i = addrs@.index_of(a);
                            assert(v4s.unref()[i] == ip);
                        }
                    },
                    IpAddr::V6(ip) => {
                        assert(self.v6@.contains(ip) == v6s.unref().contains(ip));
                        if v6s.unref().contains(ip) {
                            let i = v6s.unref().index_of(ip);
                            assert(addrs@[first.len() + i] == a);
                        }
                        if addrs@.contains(a) {
                            let i = addrs@.index_of(a);
                            assert(v6s.unref()[i - first.len()] == ip);
                        }
                    },
                }
            }
            assert(addrs@.to_set() =~= self@);
        }
        addrs
    }
}

impl Clone for IpSet {
    fn clone(&self) -> (copy: IpSet)
        ensures
            copy@ == self@,
    {
        let copy = IpSet::from_lists(&self.to_vec(), &Vec::new());
        assert(copy@ =~= self@);
        copy
    }
}

/// One more element of a list is one more element of its set.
proof fn lemma_take_to_set(s: Seq<IpAddr>, i: int)
    requires
        0 <= i < s.len(),
    ensures
        s.take(i + 1).to_set() == s.take(i).to_set().insert(s[i]),
{
    let shorter = s.take(i);
    let longer = s.take(i + 1);
    assert(longer == shorter.push(s[i]));
    assert(longer[i] == s[i]);
    assert forall|a: IpAddr| shorter.contains(a) implies longer.contains(a) by {
        let j = choose|j: int| 0 <= j < shorter.len() && shorter[j] == a;
        assert(longer[j] == a);
    }
    assert(longer.to_set() =~= shorter.to_set().insert(s[i]));
}

} // verus!
