//! The static topology: which radios exist and which can hear which.
//!
//! Radios are identified by their position in the configuration order; a
//! link lets traffic flow from its source to its destination, and back too
//! when it is mutual. [`Topology::new`] precomputes, per radio, the ordered
//! list of peers its transmissions reach, each annotated with the peer's
//! hardware address; [`Topology::resolve`] is the routing decision: a
//! broadcast or all-zero destination reaches every peer, any other address
//! reaches the single peer wearing it, or none — a miss is a normal
//! outcome, not an error.

use crate::frame::mac_eq;
use crate::MACAddress;
use vstd::prelude::*;

verus! {

broadcast use vstd::array::group_array_axioms;

/// A radio in the registry: its address and its hardware address (the
/// topology key).
#[derive(Clone, Copy, Debug, PartialEq, Eq)]
pub struct HwsimRadio {
    pub addr: MACAddress,
    pub hw_addr: MACAddress,
}

/// The radio registry, in configuration order.
#[derive(Clone, Debug, PartialEq, Eq, Default)]
pub struct HwsimRadios {
    pub radios: Vec<HwsimRadio>,
}

/// A configured link: traffic flows source to destination, and back when
/// mutual.
#[derive(Clone, Copy, Debug, PartialEq, Eq, Structural)]
pub struct Link {
    pub source: u32,
    pub destination: u32,
    pub mutual: bool,
}

/// A reachable peer: its radio id and its hardware address.
#[derive(Clone, Copy, Debug, PartialEq, Eq)]
pub struct Peer {
    pub id: u32,
    pub hw_addr: MACAddress,
}

/// No two radios wear the same hardware address.
pub open spec fn unique_addrs(radios: Seq<HwsimRadio>) -> bool {
    forall|i: int, j: int|
        0 <= i < j < radios.len() ==> radios[i].hw_addr@ != radios[j].hw_addr@
}

/// Every link names defined radios.
pub open spec fn links_valid(links: Seq<Link>, n: int) -> bool {
    forall|k: int|
        0 <= k < links.len() ==> (#[trigger] links[k]).source < n && links[k].destination < n
}

/// Whether one link lets traffic flow from `src` to `dst`.
pub open spec fn link_connects(l: Link, src: int, dst: int) -> bool {
    (l.source == src && l.destination == dst) || (l.mutual && l.destination == src && l.source
        == dst)
}

/// Whether any configured link lets traffic flow from `src` to `dst`.
pub open spec fn linked(links: Seq<Link>, src: int, dst: int) -> bool {
    exists|k: int| 0 <= k < links.len() && link_connects(#[trigger] links[k], src, dst)
}

/// The all-ones broadcast address.
pub open spec fn is_broadcast_addr(a: Seq<u8>) -> bool {
    a.len() == 6 && forall|i: int| 0 <= i < 6 ==> a[i] == 0xffu8
}

/// The all-zero address, treated like broadcast by routing.
pub open spec fn is_zero_addr(a: Seq<u8>) -> bool {
    a.len() == 6 && forall|i: int| 0 <= i < 6 ==> a[i] == 0u8
}

/// One more link seen: traffic flows under the longer prefix exactly when
/// it already flowed, or the new link carries it.
proof fn lemma_linked_extend(links: Seq<Link>, k: int, src: int, dst: int)
    requires
        0 <= k < links.len(),
    ensures
        linked(links.subrange(0, k + 1), src, dst) <==> (linked(links.subrange(0, k), src, dst)
            || link_connects(links[k], src, dst)),
{
    let s1 = links.subrange(0, k);
    let s2 = links.subrange(0, k + 1);
    if linked(s2, src, dst) {
        let j = choose|j: int| 0 <= j < s2.len() && link_connects(#[trigger] s2[j], src, dst);
        if j < k {
            assert(s1[j] == s2[j]);
            assert(linked(s1, src, dst));
        } else {
            assert(s2[j] == links[k]);
        }
    }
    if linked(s1, src, dst) {
        let j = choose|j: int| 0 <= j < s1.len() && link_connects(#[trigger] s1[j], src, dst);
        assert(s2[j] == s1[j]);
        assert(linked(s2, src, dst));
    }
    if link_connects(links[k], src, dst) {
        assert(s2[k] == links[k]);
        assert(linked(s2, src, dst));
    }
}

/// The precomputed routing registry.
#[derive(Debug, PartialEq, Eq)]
pub struct Topology {
    radios: Vec<HwsimRadio>,
    peers: Vec<Vec<Peer>>,
}

impl Topology {
    /// How many radios are configured.
    pub closed spec fn radio_count(self) -> int {
        self.radios@.len() as int
    }

    /// The hardware address of radio `i`.
    pub closed spec fn radio_addr(self, i: int) -> Seq<u8> {
        self.radios@[i].hw_addr@
    }

    /// The precomputed peer list of radio `i`.
    pub closed spec fn peers_of(self, i: int) -> Seq<Peer> {
        self.peers@[i]@
    }

    /// The registry's invariant: one peer list per radio; addresses unique;
    /// every peer entry names a defined radio other than its owner, wears
    /// that radio's address, and appears once.
    pub closed spec fn wf(self) -> bool {
        &&& self.peers@.len() == self.radios@.len()
        &&& unique_addrs(self.radios@)
        &&& forall|i: int, j: int|
            0 <= i < self.radios@.len() && 0 <= j < self.peers_of(i).len() ==> {
                let p = #[trigger] self.peers_of(i)[j];
                &&& p.id < self.radios@.len()
                &&& p.id != i
                &&& p.hw_addr@ == self.radios@[p.id as int].hw_addr@
            }
        &&& forall|i: int, j1: int, j2: int|
            0 <= i < self.radios@.len() && 0 <= j1 < j2 < self.peers_of(i).len() ==> (
            #[trigger] self.peers_of(i)[j1]).id != (#[trigger] self.peers_of(i)[j2]).id
    }

    /// Whether radio `i` has a peer with id `d`.
    pub open spec fn has_peer(self, i: int, d: int) -> bool {
        exists|j: int| 0 <= j < self.peers_of(i).len() && (#[trigger] self.peers_of(i)[j]).id == d
    }

    /// Builds the registry once from the configured radios and links.
    /// Refused when two radios share a hardware address or a link names an
    /// undefined radio. Each radio's peers are exactly the radios its
    /// outgoing or mutual links reach, itself excluded, in link order.
    pub fn new(radios: &Vec<HwsimRadio>, links: &Vec<Link>) -> (r: Option<Topology>)
        ensures
            match r {
                Option::Some(t) => {
                    &&& unique_addrs(radios@)
                    &&& links_valid(links@, radios@.len() as int)
                    &&& t.wf()
                    &&& t.radio_count() == radios@.len()
                    &&& forall|i: int|
                        0 <= i < radios@.len() ==> t.radio_addr(i) == radios@[i].hw_addr@
                    &&& forall|i: int, d: int|
                        0 <= i < radios@.len() && 0 <= d < radios@.len() ==> (#[trigger] t.has_peer(
                            i,
                            d,
                        ) <==> (linked(links@, i, d) && d != i))
                },
                Option::None => !(unique_addrs(radios@) && links_valid(
                    links@,
                    radios@.len() as int,
                )),
            },
    {
        let n: usize = radios.len();
        let nl: usize = links.len();
        let mut i: usize = 0;
        while i < n
            invariant
                i <= n,
                n == radios@.len(),
                forall|a: int, b: int|
                    0 <= a < b < radios@.len() && a < i ==> radios@[a].hw_addr@
                        != radios@[b].hw_addr@,
            decreases n - i,
        {
            let mut j: usize = i + 1;
            while j < n
                invariant
                    i < j <= n,
                    n == radios@.len(),
                    forall|b: int| i < b < j ==> radios@[i as int].hw_addr@ != radios@[b].hw_addr@,
                decreases n - j,
            {
                if mac_eq(&radios[i].hw_addr, &radios[j].hw_addr) {
                    return Option::None;
                }
                j = j + 1;
            }
            i = i + 1;
        }
        let mut k: usize = 0;
        while k < nl
            invariant
                k <= nl,
                nl == links@.len(),
                n == radios@.len(),
                forall|c: int|
                    0 <= c < k ==> (#[trigger] links@[c]).source < n && links@[c].destination < n,
            decreases nl - k,
        {
            if links[k].source as usize >= n || links[k].destination as usize >= n {
                return Option::None;
            }
            k = k + 1;
        }
        let mut peers: Vec<Vec<Peer>> = Vec::new();
        let mut i: usize = 0;
        while i < n
            invariant
                i <= n,
                n == radios@.len(),
                nl == links@.len(),
                unique_addrs(radios@),
                links_valid(links@, n as int),
                peers@.len() == i,
                forall|a: int, j: int|
                    0 <= a < i && 0 <= j < peers@[a]@.len() ==> {
                        let p = #[trigger] peers@[a]@[j];
                        &&& p.id < n
                        &&& p.id != a
                        &&& p.hw_addr@ == radios@[p.id as int].hw_addr@
                    },
                forall|a: int, j1: int, j2: int|
                    0 <= a < i && 0 <= j1 < j2 < peers@[a]@.len() ==> (#[trigger] peers@[a]@[j1]).id
                        != (#[trigger] peers@[a]@[j2]).id,
                forall|a: int, d: int|
                    #![trigger linked(links@, a, d)]
                    0 <= a < i && 0 <= d < n ==> ((exists|j: int|
                        0 <= j < peers@[a]@.len() && (#[trigger] peers@[a]@[j]).id == d) <==> (
                    linked(links@, a, d) && d != a)),
            decreases n - i,
        {
            let plist = build_peer_list(radios, links, i);
            let ghost prior = peers@;
            peers.push(plist);
            proof {
                assert(peers@.len() == i + 1);
                assert(peers@[i as int] == plist);
                assert(forall|a: int| 0 <= a < i ==> peers@[a] == prior[a]);
            }
            i = i + 1;
        }
        let ghost pview = peers@;
        let t = Topology { radios: clone_radios(radios), peers };
        proof {
            assert(t.radios@ =~= radios@);
            assert(t.peers@ == pview);
            assert forall|a: int, d: int|
                0 <= a < radios@.len() && 0 <= d < radios@.len() implies (#[trigger] t.has_peer(
                a,
                d,
            ) <==> (linked(links@, a, d) && d != a)) by {
                if linked(links@, a, d) && d != a {
                    let j = choose|j: int|
                        0 <= j < pview[a]@.len() && (#[trigger] pview[a]@[j]).id == d;
                    assert(t.peers_of(a)[j].id == d);
                }
                if t.has_peer(a, d) {
                    let j = choose|j: int|
                        0 <= j < t.peers_of(a).len() && (#[trigger] t.peers_of(a)[j]).id == d;
                    assert(pview[a]@[j].id == d);
                }
            }
        }
        Option::Some(t)
    }

    /// The routing decision for a frame transmitted by `src` with the given
    /// destination address: broadcast and all-zero reach every peer; any
    /// other address reaches exactly the peer wearing it, or none. An
    /// unknown source reaches nobody. The source itself is never among the
    /// results.
    pub fn resolve(&self, src: u32, dest: &MACAddress) -> (r: Vec<Peer>)
        requires
            self.wf(),
        ensures
            src >= self.radio_count() ==> r@ == Seq::<Peer>::empty(),
            src < self.radio_count() && (is_broadcast_addr(dest@) || is_zero_addr(dest@)) ==> r@
                == self.peers_of(src as int),
            src < self.radio_count() && !(is_broadcast_addr(dest@) || is_zero_addr(dest@)) ==> {
                &&& r@.len() <= 1
                &&& (forall|k: int| 0 <= k < r@.len() ==> (#[trigger] r@[k]).hw_addr@ == dest@)
                &&& ((exists|j: int|
                    0 <= j < self.peers_of(src as int).len() && (#[trigger] self.peers_of(
                        src as int,
                    )[j]).hw_addr@ == dest@) <==> r@.len() == 1)
            },
            forall|k: int|
                0 <= k < r@.len() ==> {
                    let p = #[trigger] r@[k];
                    &&& p.id != src
                    &&& p.id < self.radio_count()
                    &&& exists|j: int|
                        0 <= j < self.peers_of(src as int).len() && self.peers_of(src as int)[j]
                            == p
                },
    {
        let n: usize = self.radios.len();
        if src as usize >= n {
            return Vec::new();
        }
        let srcu = src as usize;
        let plist = &self.peers[srcu];
        let plen: usize = plist.len();
        let bcast: MACAddress = [0xff, 0xff, 0xff, 0xff, 0xff, 0xff];
        let zero: MACAddress = [0, 0, 0, 0, 0, 0];
        let is_bcast = mac_eq(dest, &bcast) || mac_eq(dest, &zero);
        proof {
            assert(bcast@ =~= Seq::new(6, |i: int| 0xffu8));
            assert(zero@ =~= Seq::new(6, |i: int| 0u8));
            if dest@ == bcast@ {
                assert(is_broadcast_addr(dest@));
            }
            if dest@ == zero@ {
                assert(is_zero_addr(dest@));
            }
            if is_broadcast_addr(dest@) {
                assert(dest@ =~= bcast@);
            }
            if is_zero_addr(dest@) {
                assert(dest@ =~= zero@);
            }
        }
        let mut out: Vec<Peer> = Vec::new();
        let mut j: usize = 0;
        if is_bcast {
            while j < plen
                invariant
                    j <= plen,
                    plen == plist@.len(),
                    out@ =~= plist@.subrange(0, j as int),
                decreases plen - j,
            {
                out.push(plist[j]);
                proof {
                    assert(out@ =~= plist@.subrange(0, j + 1));
                }
                j = j + 1;
            }
            proof {
                assert(plist@.subrange(0, plen as int) =~= plist@);
                assert(plist@ == self.peers_of(src as int));
            }
        } else {
            while j < plen
                invariant
                    j <= plen,
                    plen == plist@.len(),
                    plist@ == self.peers_of(src as int),
                    out@.len() <= 1,
                    forall|k: int| 0 <= k < out@.len() ==> (#[trigger] out@[k]).hw_addr@ == dest@,
                    (exists|j2: int|
                        0 <= j2 < j && (#[trigger] plist@[j2]).hw_addr@ == dest@) <==> out@.len()
                        == 1,
                    forall|k: int|
                        0 <= k < out@.len() ==> exists|j2: int|
                            0 <= j2 < plist@.len() && plist@[j2] == #[trigger] out@[k],
                decreases plen - j,
            {
                if mac_eq(&plist[j].hw_addr, dest) && out.len() == 0 {
                    out.push(plist[j]);
                    proof {
                        assert(plist@[j as int].hw_addr@ == dest@);
                        assert(exists|j2: int|
                            0 <= j2 < plist@.len() && plist@[j2] == out@[0]) by {
                            assert(plist@[j as int] == out@[0]);
                        }
                    }
                }
                j = j + 1;
            }
        }
        proof {
            let s = src as int;
            assert forall|k: int| 0 <= k < out@.len() implies {
                let p = #[trigger] out@[k];
                &&& p.id != src
                &&& p.id < self.radio_count()
                &&& exists|j2: int|
                    0 <= j2 < self.peers_of(s).len() && self.peers_of(s)[j2] == p
            } by {
                if is_bcast {
                    assert(self.peers_of(s)[k] == out@[k]);
                } else {
                    let j2 = choose|j2: int|
                        0 <= j2 < self.peers_of(s).len() && self.peers_of(s)[j2] == out@[k];
                    assert(self.peers_of(s)[j2] == out@[k]);
                }
            }
        }
        out
    }
}

/// Copies the radio registry.
fn clone_radios(radios: &Vec<HwsimRadio>) -> (r: Vec<HwsimRadio>)
    ensures
        r@ == radios@,
{
    let n: usize = radios.len();
    let mut out: Vec<HwsimRadio> = Vec::new();
    let mut i: usize = 0;
    while i < n
        invariant
            i <= n,
            n == radios@.len(),
            out@ =~= radios@.subrange(0, i as int),
        decreases n - i,
    {
        out.push(radios[i]);
        proof {
            assert(out@ =~= radios@.subrange(0, i + 1));
        }
        i = i + 1;
    }
    proof {
        assert(radios@.subrange(0, n as int) =~= radios@);
    }
    out
}

/// Whether the list already holds a peer with this id.
fn contains_peer_id(list: &Vec<Peer>, d: u32) -> (r: bool)
    ensures
        r == exists|j: int| 0 <= j < list@.len() && (#[trigger] list@[j]).id == d,
{
    let n: usize = list.len();
    let mut j: usize = 0;
    while j < n
        invariant
            j <= n,
            n == list@.len(),
            forall|k: int| 0 <= k < j ==> (#[trigger] list@[k]).id != d,
        decreases n - j,
    {
        if list[j].id == d {
            return true;
        }
        j = j + 1;
    }
    false
}

/// Builds radio `i`'s peer list: one entry per radio reachable over an
/// outgoing or mutual link, in link order, without repeats, never itself.
fn build_peer_list(radios: &Vec<HwsimRadio>, links: &Vec<Link>, i: usize) -> (r: Vec<Peer>)
    requires
        i < radios@.len(),
        links_valid(links@, radios@.len() as int),
    ensures
        forall|j: int|
            0 <= j < r@.len() ==> {
                let p = #[trigger] r@[j];
                &&& p.id < radios@.len()
                &&& p.id != i
                &&& p.hw_addr@ == radios@[p.id as int].hw_addr@
            },
        forall|j1: int, j2: int|
            0 <= j1 < j2 < r@.len() ==> (#[trigger] r@[j1]).id != (#[trigger] r@[j2]).id,
        forall|d: int|
            0 <= d < radios@.len() ==> ((exists|j: int|
                0 <= j < r@.len() && (#[trigger] r@[j]).id == d) <==> (linked(links@, i as int, d)
                && d != i)),
{
    let nl: usize = links.len();
    let mut out: Vec<Peer> = Vec::new();
    let mut k: usize = 0;
    while k < nl
        invariant
            k <= nl,
            nl == links@.len(),
            i < radios@.len(),
            links_valid(links@, radios@.len() as int),
            forall|j: int|
                0 <= j < out@.len() ==> {
                    let p = #[trigger] out@[j];
                    &&& p.id < radios@.len()
                    &&& p.id != i
                    &&& p.hw_addr@ == radios@[p.id as int].hw_addr@
                },
            forall|j1: int, j2: int|
                0 <= j1 < j2 < out@.len() ==> (#[trigger] out@[j1]).id != (#[trigger] out@[j2]).id,
            forall|d: int|
                0 <= d < radios@.len() ==> ((exists|j: int|
                    0 <= j < out@.len() && (#[trigger] out@[j]).id == d) <==> (linked(
                    links@.subrange(0, k as int),
                    i as int,
                    d,
                ) && d != i)),
        decreases nl - k,
    {
        let l = links[k];
        let ghost prior = out@;
        if l.source as usize == i && l.destination as usize != i {
            if !contains_peer_id(&out, l.destination) {
                out.push(
                    Peer {
                        id: l.destination,
                        hw_addr: radios[l.destination as usize].hw_addr,
                    },
                );
            }
        } else if l.mutual && l.destination as usize == i && l.source as usize != i {
            if !contains_peer_id(&out, l.source) {
                out.push(Peer { id: l.source, hw_addr: radios[l.source as usize].hw_addr });
            }
        }
        proof {
            assert forall|d: int|
                #![trigger linked(links@.subrange(0, k + 1), i as int, d)]
                0 <= d < radios@.len() implies ((exists|j: int|
                0 <= j < out@.len() && (#[trigger] out@[j]).id == d) <==> (linked(
                links@.subrange(0, k + 1),
                i as int,
                d,
            ) && d != i)) by {
                lemma_linked_extend(links@, k as int, i as int, d);
                if exists|j: int| 0 <= j < prior.len() && (#[trigger] prior[j]).id == d {
                    let j = choose|j: int|
                        0 <= j < prior.len() && (#[trigger] prior[j]).id == d;
                    assert(out@[j].id == d);
                }
                if out@.len() > prior.len() && out@[out@.len() - 1].id == d {
                    assert(link_connects(links@[k as int], i as int, d));
                }
                if linked(links@.subrange(0, k as int), i as int, d) && d != i {
                    let j = choose|j: int|
                        0 <= j < prior.len() && (#[trigger] prior[j]).id == d;
                    assert(out@[j].id == d);
                }
            }
        }
        k = k + 1;
    }
    proof {
        assert(links@.subrange(0, nl as int) =~= links@);
    }
    out
}

} // verus!
