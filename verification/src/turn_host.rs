//! Choosing the turn server a class's clients connect through.
use rand::seq::SliceRandom;
use vstd::prelude::*;
use crate::classes::{Class, TurnHost};
use crate::postprocessing::ClassType;

verus! {

/// The hosts a ring holds, as it keeps them: ordered by their hashes (hosts
/// with equal hashes in the order they were added).
pub uninterp spec fn ring_nodes(ring: hashring::HashRing<String>) -> Seq<Seq<char>>;

/// The hosts a ring keeps after `HashRing::add` adds a host to those it kept:
/// a function of these alone, since the ring hashes with a fixed-key hasher
/// and sorts stably.
pub uninterp spec fn ring_insert(nodes: Seq<Seq<char>>, host: Seq<char>) -> Seq<Seq<char>>;

/// The host that `HashRing::get` picks for a key among the hosts a ring
/// keeps: a function of these and the key.
pub uninterp spec fn ring_pick(nodes: Seq<Seq<char>>, key: Seq<char>) -> Seq<char>;

/// The hosts a ring keeps after the given hosts were added in order.
pub open spec fn ring_of(hosts: Seq<Seq<char>>) -> Seq<Seq<char>>
    decreases hosts.len(),
{
    if hosts.len() == 0 {
        Seq::empty()
    } else {
        ring_insert(ring_of(hosts.drop_last()), hosts.last())
    }
}

/// An empty ring, made by `HashRing::new`.
#[verifier::external_body]
fn ring_new() -> (r: hashring::HashRing<String>)
    ensures
        ring_nodes(r) == Seq::<Seq<char>>::empty(),
{
    hashring::HashRing::new()
}

/// Adds a host to the ring with `HashRing::add`, which pushes it and sorts
/// the ring by hash: the ring then keeps the hosts it kept and this one.
#[verifier::external_body]
fn ring_add(ring: &mut hashring::HashRing<String>, host: String)
    ensures
        ring_nodes(*final(ring)) == ring_insert(ring_nodes(*old(ring)), host@),
        ring_nodes(*final(ring)).to_multiset() == ring_nodes(*old(ring)).to_multiset().insert(host@),
{
    ring.add(host)
}

/// The host the ring picks for a key, with `HashRing::get`: none for an
/// empty ring, else one of its hosts, the one `ring_pick` names.
#[verifier::external_body]
fn ring_get(ring: &hashring::HashRing<String>, key: &str) -> (r: Option<String>)
    ensures
        r is None <==> ring_nodes(*ring).len() == 0,
        r matches Some(h) ==> h@ == ring_pick(ring_nodes(*ring), key@) && ring_nodes(
            *ring,
        ).contains(h@),
{
    ring.get(&key).cloned()
}

/// The host names a non-empty vector of turn hosts holds, in order.
pub uninterp spec fn vec1_hosts(hosts: vec1::Vec1<TurnHost>) -> Seq<Seq<char>>;

/// The hosts of a `vec1::Vec1`, with `Vec1::as_vec`: the vector it wraps,
/// which holds at least one item.
#[verifier::external_body]
fn hosts_of(hosts: &vec1::Vec1<TurnHost>) -> (r: &Vec<TurnHost>)
    ensures
        r@.map_values(|h: TurnHost| h.0@) == vec1_hosts(*hosts),
        r@.len() > 0,
{
    hosts.as_vec()
}

/// Picks a host at random with `SliceRandom::choose` of the `rand` crate.
/// Of the result, only that it is one of the hosts is claimed.
#[verifier::external_body]
fn random_host(hosts: &Vec<String>) -> (r: String)
    requires
        hosts@.len() > 0,
    ensures
        hosts@.map_values(|h: String| h@).contains(r@),
{
    hosts.choose(&mut rand::thread_rng()).cloned().unwrap()
}

/// Chooses turn servers: at random for webinars and minigroups, by the
/// scope on a hash ring for p2p classes, so that both peers of a p2p class
/// get the same server.
pub struct TurnHostSelector {
    hosts: Vec<String>,
    ring: hashring::HashRing<String>,
}

impl TurnHostSelector {
    /// The hosts to choose from, in the order given.
    pub closed spec fn hosts(&self) -> Seq<Seq<char>> {
        self.hosts@.map_values(|h: String| h@)
    }

    pub closed spec fn well_formed(&self) -> bool {
        &&& self.hosts@.len() > 0
        &&& ring_nodes(self.ring) == ring_of(self.hosts())
        &&& ring_nodes(self.ring).to_multiset() == self.hosts().to_multiset()
    }

    /// A selector over a non-empty list of hosts.
    pub fn new(hosts: &vec1::Vec1<TurnHost>) -> (r: TurnHostSelector)
        ensures
            r.well_formed(),
            r.hosts() == vec1_hosts(*hosts),
    {
        Self::from_hosts(hosts_of(hosts))
    }

    fn from_hosts(hosts: &Vec<TurnHost>) -> (r: TurnHostSelector)
        requires
            hosts@.len() > 0,
        ensures
            r.well_formed(),
            r.hosts() == hosts@.map_values(|h: TurnHost| h.0@),
    {
        let mut names: Vec<String> = Vec::new();
        let mut ring = ring_new();
        proof {
            assert(names@.map_values(|h: String| h@) =~= Seq::<Seq<char>>::empty());
        }
        for k in 0..hosts.len()
            invariant
                names@.map_values(|h: String| h@) == hosts@.map_values(|h: TurnHost| h.0@).take(
                    k as int,
                ),
                ring_nodes(ring) == ring_of(names@.map_values(|h: String| h@)),
                ring_nodes(ring).to_multiset() == names@.map_values(|h: String| h@).to_multiset(),
        {
            let name = hosts[k].0.clone();
            let ghost before = names@;
            names.push(name.clone());
            ring_add(&mut ring, name);
            proof {
                assert(names@.map_values(|h: String| h@) =~= before.map_values(|h: String| h@).push(
                    name@,
                ));
                assert(names@.map_values(|h: String| h@).drop_last() =~= before.map_values(
                    |h: String| h@,
                ));
                broadcast use vstd::seq_lib::group_to_multiset_ensures;
                assert(hosts@.map_values(|h: TurnHost| h.0@).take(k + 1) =~= hosts@.map_values(
                    |h: TurnHost| h.0@,
                ).take(k as int).push(hosts@[k as int].0@));
            }
        }
        proof {
            assert(hosts@.map_values(|h: TurnHost| h.0@).take(hosts@.len() as int) =~= hosts@.map_values(
                |h: TurnHost| h.0@,
            ));
        }
        TurnHostSelector { hosts: names, ring }
    }

    /// The turn server for a class.
    pub fn get(&self, class: &Class) -> (r: TurnHost)
        requires
            self.well_formed(),
        ensures
            self.hosts().contains(r.0@),
            class.kind == ClassType::P2P ==> r.0@ == ring_pick(ring_of(self.hosts()), class.scope@),
    {
        proof {
            ring_nodes(self.ring).to_multiset_ensures();
            self.hosts().to_multiset_ensures();
        }
        match class.kind {
            ClassType::Webinar | ClassType::Minigroup => TurnHost(random_host(&self.hosts)),
            ClassType::P2P => match ring_get(&self.ring, class.scope.as_str()) {
                Some(h) => {
                    proof {
                        assert(ring_nodes(self.ring).to_multiset().count(h@) > 0);
                        assert(self.hosts().to_multiset().count(h@) > 0);
                    }
                    TurnHost(h)
                },
                None => TurnHost(String::new()),
            },
        }
    }
}

/// Both peers of a p2p class get the same turn server: selectors over the
/// same hosts, given in the same order, pick the same one for the same scope.
pub proof fn lemma_p2p_same_host(a: TurnHostSelector, b: TurnHostSelector, scope: Seq<char>)
    requires
        a.hosts() == b.hosts(),
    ensures
        ring_pick(ring_of(a.hosts()), scope) == ring_pick(ring_of(b.hosts()), scope),
{
}

} // verus!
