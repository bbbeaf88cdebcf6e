//! The trusted peers of a network: the keys each validator is known by, and the
//! validator set and verifier assembled from them, in a canonical order.

use crate::keyed::{keys_distinct, lemma_pairs_map, pairs_map};
use std::collections::HashMap;
use vstd::prelude::*;

verus! {

/// The account address of a peer, as the big-endian number of its 16 bytes: the
/// order of the numbers is that of the bytes.
#[derive(Clone, Copy, Debug, PartialEq, Eq, Structural, Hash)]
pub struct PeerId(pub u128);

/// Peers keyed by their address, held in a hash map by the number of the address.
#[derive(Debug)]
pub struct PeerMap<V> {
    entries: HashMap<u128, V>,
}

impl<V> View for PeerMap<V> {
    type V = Map<PeerId, V>;

    closed spec fn view(&self) -> Map<PeerId, V> {
        Map::new(|p: PeerId| self.entries@.contains_key(p.0), |p: PeerId| self.entries@[p.0])
    }
}

impl<V> PeerMap<V> {
    /// No peers.
    pub fn new() -> (res: Self)
        ensures
            res@ == Map::<PeerId, V>::empty(),
    {
        let res = PeerMap { entries: HashMap::new() };
        assert(res@ =~= Map::<PeerId, V>::empty());
        res
    }

    /// The map has as many peers as the hash map has addresses.
    proof fn lemma_view_len(&self)
        ensures
            self@.dom().finite(),
            self@.len() == self.entries@.len(),
    {
        broadcast use vstd::std_specs::hash::group_hash_axioms;

        let keys = self.entries@.dom();
        let f = |k: u128| PeerId(k);
        assert(keys.map(f) =~= self@.dom()) by {
            assert forall|p: PeerId| #[trigger] self@.dom().contains(p) implies keys.map(f).contains(p) by {
                assert(f(p.0) == p);
            }
        }
        assert(vstd::relations::injective_on(f, keys));
        vstd::set_lib::lemma_map_size(keys, self@.dom(), f);
    }

    /// The number of peers.
    pub fn len(&self) -> (res: usize)
        ensures
            res == self@.len(),
            self@.dom().finite(),
    {
        broadcast use vstd::std_specs::hash::group_hash_axioms;

        proof {
            self.lemma_view_len();
        }
        self.entries.len()
    }

    /// The peers with their values, in the order in which the hash map holds them.
    fn pairs(&self) -> (res: Vec<(PeerId, &V)>)
        ensures
            keys_distinct(res@),
            res@.len() == self@.len(),
            forall|i: int|
                0 <= i < res@.len() ==> #[trigger] self@.contains_key(res@[i].0) && self@[res@[i].0] == *res@[i].1,
            forall|p: PeerId|
                #[trigger] self@.contains_key(p) ==> exists|i: int| 0 <= i < res@.len() && res@[i].0 == p,
    {
        broadcast use vstd::std_specs::hash::group_hash_axioms;

        proof {
            self.lemma_view_len();
        }
        let ghost m = self.entries@;
        let mut out: Vec<(PeerId, &V)> = Vec::new();
        for e in it: self.entries.iter()
            invariant
                m == self.entries@,
                it.seq().len() == m.len(),
                it.seq().no_duplicates(),
                forall|i: int|
                    0 <= i < it.seq().len() ==> #[trigger] m.contains_key(*it.seq()[i].0) && m[*it.seq()[i].0]
                        == *it.seq()[i].1,
                out@.len() == it.index(),
                keys_distinct(out@),
                forall|i: int| 0 <= i < it.index() ==> (#[trigger] out@[i]).0.0 == *it.seq()[i].0,
                forall|i: int|
                    0 <= i < out@.len() ==> #[trigger] self@.contains_key(out@[i].0) && self@[out@[i].0]
                        == *out@[i].1,
        {
            proof {
                let n = it.index();
                let s = it.seq();
                assert(m.contains_key(*s[n].0));
                assert forall|a: int| 0 <= a < n implies out@[a].0.0 != *s[n].0 by {
                    assert(m.contains_key(*s[a].0));
                    if out@[a].0.0 == *s[n].0 {
                        assert(s[a] == s[n]);
                    }
                }
            }
            out.push((PeerId(*e.0), e.1));
        }
        proof {
            let kv = Seq::new(out@.len(), |i: int| (out@[i].0, *out@[i].1));
            assert(keys_distinct(kv));
            lemma_pairs_map(kv);
            let got = pairs_map(kv).dom();
            assert(got.subset_of(self@.dom())) by {
                assert forall|p: PeerId| #[trigger] got.contains(p) implies self@.dom().contains(p) by {
                    let i = choose|i: int| 0 <= i < kv.len() && kv[i].0 == p;
                    assert(self@.contains_key(out@[i].0));
                }
            }
            vstd::set_lib::lemma_subset_equality(got, self@.dom());
            assert forall|p: PeerId| #[trigger] self@.contains_key(p) implies exists|i: int|
                0 <= i < out@.len() && out@[i].0 == p by {
                assert(got.contains(p));
                let i = choose|i: int| 0 <= i < kv.len() && kv[i].0 == p;
                assert(out@[i].0 == p);
            }
        }
        out
    }

    /// The value of `peer`.
    pub fn get(&self, peer: &PeerId) -> (res: Option<&V>)
        ensures
            match res {
                Some(v) => self@.contains_key(*peer) && *v == self@[*peer],
                None => !self@.contains_key(*peer),
            },
    {
        broadcast use vstd::std_specs::hash::group_hash_axioms;

        self.entries.get(&peer.0)
    }

    /// Sets the value of `peer`, and gives back its value before, if any.
    pub fn insert(&mut self, peer: PeerId, value: V) -> (res: Option<V>)
        ensures
            final(self)@ == old(self)@.insert(peer, value),
            match res {
                Some(v) => old(self)@.contains_key(peer) && v == old(self)@[peer],
                None => !old(self)@.contains_key(peer),
            },
    {
        broadcast use vstd::std_specs::hash::group_hash_axioms;

        let ghost before = self@;
        let res = self.entries.insert(peer.0, value);
        assert(self@ =~= before.insert(peer, value));
        res
    }
}

/// The keys by which a peer is known on the network.
#[derive(Clone, Debug, PartialEq)]
pub struct NetworkPeerInfo<S, I> {
    pub network_signing_pubkey: S,
    pub network_identity_pubkey: I,
}

/// The private keys of a peer on the network.
pub struct NetworkPrivateKeys<SK, IK> {
    pub network_signing_private_key: SK,
    pub network_identity_private_key: IK,
}

/// The network keys of every peer.  Its debugging text is `debug_text`, which
/// shows no key.
pub struct NetworkPeersConfig<S, I> {
    pub peers: PeerMap<NetworkPeerInfo<S, I>>,
}

impl<S, I> NetworkPeersConfig<S, I> {
    /// The debugging text of the configuration: the number of peers only, as
    /// "<n keys>".
    pub fn debug_text(&self) -> (res: String)
        ensures
            res@ == "<"@ + crate::text::decimal(self.peers@.len()) + " keys>"@,
    {
        let n = self.peers.len();
        let mut text = String::from_str("<");
        crate::text::push_decimal(&mut text, n as u64);
        text.append(" keys>");
        text
    }
}

/// The key by which a peer votes in consensus.
#[derive(Clone, Debug, PartialEq)]
pub struct ConsensusPeerInfo<C> {
    pub consensus_pubkey: C,
}

/// The private consensus key of a peer.
pub struct ConsensusPrivateKey<K> {
    pub consensus_private_key: K,
}

/// The consensus keys of every validator.
#[derive(Debug)]
pub struct ConsensusPeersConfig<C> {
    pub peers: PeerMap<ConsensusPeerInfo<C>>,
}

/// The peers that a node syncs from.
#[derive(Clone, Debug, PartialEq, Eq)]
pub struct UpstreamPeersConfig {
    pub upstream_peers: Vec<PeerId>,
}

/// The public keys of a validator, with its voting power.
#[derive(Debug)]
pub struct ValidatorPublicKeys<C, S, I> {
    pub account_address: PeerId,
    pub consensus_public_key: C,
    pub consensus_voting_power: u64,
    pub network_signing_public_key: S,
    pub network_identity_public_key: I,
}

/// The validators, ordered by account address.
#[derive(Debug)]
pub struct ValidatorSet<C, S, I> {
    pub validators: Vec<ValidatorPublicKeys<C, S, I>>,
}

/// A validator's consensus key and voting power.
#[derive(Debug)]
pub struct ValidatorInfo<C> {
    pub public_key: C,
    pub voting_power: u64,
}

/// The consensus keys and voting powers of the validators, ordered by account
/// address; what a validator verifier checks signatures against.
#[derive(Debug)]
pub struct ValidatorVerifier<C> {
    pub address_to_validator_info: Vec<(PeerId, ValidatorInfo<C>)>,
    /// The least voting power that makes a quorum.
    pub quorum_voting_power: u64,
    /// The voting power of all validators together.
    pub total_voting_power: u64,
}

/// The voting power of all validators of a list together.
pub open spec fn voting_power_sum<C>(s: Seq<(PeerId, ValidatorInfo<C>)>) -> int
    decreases s.len(),
{
    if s.len() == 0 {
        0
    } else {
        voting_power_sum(s.drop_last()) + s.last().1.voting_power
    }
}

/// The quorum of a total voting power: more than two thirds of it (`2f + 1`), or
/// nothing where there are no validators.
pub open spec fn quorum_for(total: int, no_validators: bool) -> int {
    if no_validators {
        0
    } else {
        total * 2 / 3 + 1
    }
}

/// The quorum of validators with some voting power is the least power that is
/// more than two thirds of their total; with no validators it is nothing.
pub proof fn law_quorum_is_least_power_above_two_thirds(total: nat)
    ensures
        3 * quorum_for(total as int, false) > 2 * total,
        3 * (quorum_for(total as int, false) - 1) <= 2 * total,
        quorum_for(total as int, true) == 0,
{
}

/// A prefix of a list has at most the voting power of the whole list.
proof fn lemma_voting_power_prefix<C>(s: Seq<(PeerId, ValidatorInfo<C>)>, n: int)
    requires
        0 <= n <= s.len(),
    ensures
        voting_power_sum(s.take(n)) <= voting_power_sum(s),
    decreases s.len() - n,
{
    if n < s.len() {
        lemma_voting_power_prefix(s, n + 1);
        assert(s.take(n + 1).drop_last() =~= s.take(n));
    } else {
        assert(s.take(n) =~= s);
    }
}

/// A list in which every validator has a voting power of 1 has as much voting
/// power as it has validators.
proof fn lemma_unit_voting_power<C>(s: Seq<(PeerId, ValidatorInfo<C>)>)
    requires
        forall|i: int| 0 <= i < s.len() ==> (#[trigger] s[i]).1.voting_power == 1,
    ensures
        voting_power_sum(s) == s.len(),
    decreases s.len(),
{
    if s.len() > 0 {
        lemma_unit_voting_power(s.drop_last());
    }
}

impl<C> ValidatorVerifier<C> {
    /// The verifier of these validators, with their total voting power and its
    /// quorum.  The total must fit in a `u64`.
    pub fn new(address_to_validator_info: Vec<(PeerId, ValidatorInfo<C>)>) -> (res: Self)
        requires
            voting_power_sum(address_to_validator_info@) <= u64::MAX,
        ensures
            res.address_to_validator_info@ == address_to_validator_info@,
            res.total_voting_power == voting_power_sum(address_to_validator_info@),
            res.quorum_voting_power == quorum_for(
                voting_power_sum(address_to_validator_info@),
                address_to_validator_info@.len() == 0,
            ),
    {
        let ghost s = address_to_validator_info@;
        let mut total: u64 = 0;
        let mut i: usize = 0;
        while i < address_to_validator_info.len()
            invariant
                s == address_to_validator_info@,
                voting_power_sum(s) <= u64::MAX,
                i <= s.len(),
                total == voting_power_sum(s.take(i as int)),
            decreases s.len() - i,
        {
            proof {
                assert(s.take(i + 1).drop_last() =~= s.take(i as int));
                lemma_voting_power_prefix(s, i + 1);
            }
            total = total + address_to_validator_info[i].1.voting_power;
            i = i + 1;
        }
        proof {
            assert(s.take(s.len() as int) =~= s);
        }
        let quorum_voting_power = if address_to_validator_info.len() == 0 {
            0
        } else {
            let q = total / 3 * 2 + total % 3 * 2 / 3;
            assert(q == total * 2 / 3) by (nonlinear_arith)
                requires
                    q == total / 3 * 2 + total % 3 * 2 / 3,
            ;
            assert(q < u64::MAX) by (nonlinear_arith)
                requires
                    q == total * 2 / 3,
                    total <= u64::MAX,
            ;
            q + 1
        };
        ValidatorVerifier { address_to_validator_info, quorum_voting_power, total_voting_power: total }
    }

    /// The least voting power that makes a quorum.
    pub fn quorum_voting_power(&self) -> (res: u64)
        ensures
            res == self.quorum_voting_power,
    {
        self.quorum_voting_power
    }

    /// The voting power of all validators together.
    pub fn total_voting_power(&self) -> (res: u64)
        ensures
            res == self.total_voting_power,
    {
        self.total_voting_power
    }
}

/// Something that belongs to an account address.
pub trait Addressed {
    spec fn address_of(&self) -> PeerId;

    fn address(&self) -> (r: PeerId)
        ensures
            r == self.address_of(),
    ;
}

impl<C, S, I> Addressed for ValidatorPublicKeys<C, S, I> {
    open spec fn address_of(&self) -> PeerId {
        self.account_address
    }

    fn address(&self) -> (r: PeerId) {
        self.account_address
    }
}

impl<'a, V> Addressed for (PeerId, &'a V) {
    open spec fn address_of(&self) -> PeerId {
        self.0
    }

    fn address(&self) -> (r: PeerId) {
        self.0
    }
}

impl<C> Addressed for (PeerId, ValidatorInfo<C>) {
    open spec fn address_of(&self) -> PeerId {
        self.0
    }

    fn address(&self) -> (r: PeerId) {
        self.0
    }
}

/// Whether the addresses strictly increase along the list.
pub open spec fn addresses_increasing<T: Addressed>(v: Seq<T>) -> bool {
    forall|i: int, j: int|
        0 <= i < j < v.len() ==> #[trigger] v[i].address_of().0 < #[trigger] v[j].address_of().0
}

/// Whether `v` holds the keys of `peer`, copied from its consensus and network
/// configuration, with a voting power of 1.
pub open spec fn validator_keys_from<C: Clone, S: Clone, I: Clone>(
    v: ValidatorPublicKeys<C, S, I>,
    peer: PeerId,
    consensus: ConsensusPeerInfo<C>,
    network: NetworkPeerInfo<S, I>,
) -> bool {
    &&& v.account_address == peer
    &&& v.consensus_voting_power == 1
    &&& cloned(consensus.consensus_pubkey, v.consensus_public_key)
    &&& cloned(network.network_signing_pubkey, v.network_signing_public_key)
    &&& cloned(network.network_identity_pubkey, v.network_identity_public_key)
}

/// Whether `info` holds a copy of `consensus`'s key with a voting power of 1.
pub open spec fn validator_info_from<C: Clone>(info: ValidatorInfo<C>, consensus: ConsensusPeerInfo<C>) -> bool {
    &&& info.voting_power == 1
    &&& cloned(consensus.consensus_pubkey, info.public_key)
}

/// Whether `v` was made, as `made` says, from one of the first `n` entries, and
/// has that entry's address.
pub open spec fn from_first_entries<T: Addressed, X>(
    v: T,
    cs: Seq<(PeerId, X)>,
    n: int,
    made: spec_fn(T, int) -> bool,
) -> bool {
    exists|j: int| 0 <= j < n && #[trigger] cs[j].0 == v.address_of() && made(v, j)
}

/// Whether each of the first `n` entries has its item in `items`.
pub open spec fn covers_first_entries<T: Addressed, X>(items: Seq<T>, cs: Seq<(PeerId, X)>, n: int) -> bool {
    forall|j: int|
        #![trigger cs[j].0]
        0 <= j < n ==> exists|k: int| #![trigger items[k]] 0 <= k < items.len() && items[k].address_of() == cs[j].0
}

/// Inserts `v` at the place that keeps the addresses increasing.
fn insert_by_address<T: Addressed>(items: &mut Vec<T>, v: T) -> (pos: usize)
    requires
        addresses_increasing(old(items)@),
        forall|k: int| 0 <= k < old(items)@.len() ==> #[trigger] old(items)@[k].address_of() != v.address_of(),
    ensures
        pos <= old(items)@.len(),
        final(items)@ == old(items)@.insert(pos as int, v),
        addresses_increasing(final(items)@),
{
    let key = v.address();
    let mut pos: usize = 0;
    while pos < items.len() && items[pos].address().0 < key.0
        invariant
            pos <= items@.len(),
            key == v.address_of(),
            forall|q: int| 0 <= q < pos ==> (#[trigger] items@[q]).address_of().0 < key.0,
        decreases items@.len() - pos,
    {
        pos = pos + 1;
    }
    let ghost before = items@;
    proof {
        if pos < before.len() {
            assert(before[pos as int].address_of() != v.address_of());
        }
    }
    items.insert(pos, v);
    proof {
        let after = items@;
        assert forall|a: int, b: int| 0 <= a < b < after.len() implies #[trigger] after[a].address_of().0
            < #[trigger] after[b].address_of().0 by {
            let oa = if a < pos { a } else { a - 1 };
            let ob = if b < pos { b } else { b - 1 };
            if a == pos {
                assert(after[b] == before[ob]);
                assert(before[ob].address_of() != v.address_of());
                if ob > pos {
                    assert(before[pos as int].address_of().0 < before[ob].address_of().0);
                }
            } else if b == pos {
                assert(after[a] == before[oa]);
            } else {
                assert(after[a] == before[oa]);
                assert(after[b] == before[ob]);
            }
        }
    }
    pos
}

/// Inserting the item of entry `i` keeps the invariant of the assembly.
proof fn lemma_assembly_step<T: Addressed, X>(
    old_items: Seq<T>,
    pos: int,
    v: T,
    cs: Seq<(PeerId, X)>,
    i: int,
    made: spec_fn(T, int) -> bool,
)
    requires
        0 <= i < cs.len(),
        0 <= pos <= old_items.len(),
        v.address_of() == cs[i].0,
        made(v, i),
        forall|k: int| 0 <= k < old_items.len() ==> from_first_entries(#[trigger] old_items[k], cs, i, made),
        covers_first_entries(old_items, cs, i),
    ensures
        ({
            let items = old_items.insert(pos, v);
            &&& forall|k: int| 0 <= k < items.len() ==> from_first_entries(#[trigger] items[k], cs, i + 1, made)
            &&& covers_first_entries(items, cs, i + 1)
        }),
{
    let items = old_items.insert(pos, v);
    assert forall|k: int| 0 <= k < items.len() implies from_first_entries(#[trigger] items[k], cs, i + 1, made) by {
        if k == pos {
            assert(cs[i].0 == items[k].address_of());
        } else {
            let ok = if k < pos { k } else { k - 1 };
            assert(items[k] == old_items[ok]);
            assert(from_first_entries(old_items[ok], cs, i, made));
            let j = choose|j: int| 0 <= j < i && #[trigger] cs[j].0 == old_items[ok].address_of() && made(old_items[ok], j);
            assert(cs[j].0 == items[k].address_of());
        }
    }
    assert forall|j: int| #![trigger cs[j].0] 0 <= j < i + 1 implies exists|k: int|
        #![trigger items[k]]
        0 <= k < items.len() && items[k].address_of() == cs[j].0 by {
        if j == i {
            assert(items[pos].address_of() == cs[j].0);
        } else {
            let k = choose|k: int| #![trigger old_items[k]] 0 <= k < old_items.len() && old_items[k].address_of() == cs[j].0;
            if k < pos {
                assert(items[k] == old_items[k]);
            } else {
                assert(items[k + 1] == old_items[k]);
            }
        }
    }
}

/// The address of entry `i` has no item yet when the items come from earlier
/// entries and no address occurs twice among the entries.
proof fn lemma_entry_is_new<T: Addressed, X>(items: Seq<T>, cs: Seq<(PeerId, X)>, i: int, made: spec_fn(T, int) -> bool)
    requires
        keys_distinct(cs),
        0 <= i < cs.len(),
        forall|k: int| 0 <= k < items.len() ==> from_first_entries(#[trigger] items[k], cs, i, made),
    ensures
        forall|k: int| 0 <= k < items.len() ==> #[trigger] items[k].address_of() != cs[i].0,
{
    assert forall|k: int| 0 <= k < items.len() implies #[trigger] items[k].address_of() != cs[i].0 by {
        assert(from_first_entries(items[k], cs, i, made));
        let j = choose|j: int| 0 <= j < i && #[trigger] cs[j].0 == items[k].address_of() && made(items[k], j);
        assert(cs[j].0 != cs[i].0);
    }
}

/// Whether `v` is the validator set of these consensus and network keys: one
/// validator per consensus peer, in increasing address order, each with copies of
/// its keys and a voting power of 1.
pub open spec fn is_validator_set_for<C: Clone, S: Clone, I: Clone>(
    consensus: Map<PeerId, ConsensusPeerInfo<C>>,
    network: Map<PeerId, NetworkPeerInfo<S, I>>,
    v: Seq<ValidatorPublicKeys<C, S, I>>,
) -> bool {
    &&& v.len() == consensus.len()
    &&& addresses_increasing(v)
    &&& forall|i: int|
        0 <= i < v.len() ==> {
            let e = #[trigger] v[i];
            &&& consensus.contains_key(e.account_address)
            &&& validator_keys_from(e, e.account_address, consensus[e.account_address], network[e.account_address])
        }
    &&& forall|p: PeerId|
        #[trigger] consensus.contains_key(p) ==> exists|i: int| 0 <= i < v.len() && v[i].account_address == p
}

/// Whether `v` is the validator verifier's list for these consensus keys: one
/// entry per consensus peer, in increasing address order, each with a copy of its
/// key and a voting power of 1.
pub open spec fn is_validator_verifier_for<C: Clone>(
    consensus: Map<PeerId, ConsensusPeerInfo<C>>,
    v: Seq<(PeerId, ValidatorInfo<C>)>,
) -> bool {
    &&& v.len() == consensus.len()
    &&& addresses_increasing(v)
    &&& forall|i: int|
        0 <= i < v.len() ==> {
            let e = #[trigger] v[i];
            &&& consensus.contains_key(e.0)
            &&& validator_info_from(e.1, consensus[e.0])
        }
    &&& forall|p: PeerId| #[trigger] consensus.contains_key(p) ==> exists|i: int| 0 <= i < v.len() && v[i].0 == p
}

impl<C: Clone> ConsensusPeersConfig<C> {
    /// The validator set: each consensus peer with its consensus key, its network
    /// keys and a voting power of 1, ordered by account address.  Every consensus
    /// peer must have network keys.
    #[verifier::rlimit(40)]
    pub fn get_validator_set<S: Clone, I: Clone>(
        &self,
        network_peers_config: &NetworkPeersConfig<S, I>,
    ) -> (res: ValidatorSet<C, S, I>)
        requires
            forall|p: PeerId|
                #[trigger] self.peers@.contains_key(p) ==> network_peers_config.peers@.contains_key(p),
        ensures
            is_validator_set_for(self.peers@, network_peers_config.peers@, res.validators@),
    {
        let pairs = self.peers.pairs();
        let ghost cs = pairs@;
        let ghost net = network_peers_config.peers@;
        let ghost made = |v: ValidatorPublicKeys<C, S, I>, j: int| validator_keys_from(v, cs[j].0, *cs[j].1, net[cs[j].0]);
        proof {
            assert forall|j: int| 0 <= j < cs.len() implies #[trigger] net.contains_key(cs[j].0) by {
                assert(self.peers@.contains_key(cs[j].0));
            }
        }
        let mut keys: Vec<ValidatorPublicKeys<C, S, I>> = Vec::new();
        let mut i: usize = 0;
        while i < pairs.len()
            invariant
                cs == pairs@,
                net == network_peers_config.peers@,
                made == (|v: ValidatorPublicKeys<C, S, I>, j: int| validator_keys_from(v, cs[j].0, *cs[j].1, net[cs[j].0])),
                keys_distinct(cs),
                i <= cs.len(),
                forall|j: int| 0 <= j < cs.len() ==> #[trigger] net.contains_key(cs[j].0),
                keys@.len() == i,
                addresses_increasing(keys@),
                forall|k: int| 0 <= k < keys@.len() ==> from_first_entries(#[trigger] keys@[k], cs, i as int, made),
                covers_first_entries(keys@, cs, i as int),
            decreases cs.len() - i,
        {
            let entry = pairs[i];
            let peer = entry.0;
            proof {
                assert(net.contains_key(cs[i as int].0));
            }
            let network_info = network_peers_config.peers.get(&peer).unwrap();
            let validator = ValidatorPublicKeys {
                account_address: peer,
                consensus_public_key: entry.1.consensus_pubkey.clone(),
                consensus_voting_power: 1,
                network_signing_public_key: network_info.network_signing_pubkey.clone(),
                network_identity_public_key: network_info.network_identity_pubkey.clone(),
            };
            let ghost old_keys = keys@;
            proof {
                lemma_entry_is_new(old_keys, cs, i as int, made);
            }
            let pos = insert_by_address(&mut keys, validator);
            proof {
                assert(made(validator, i as int));
                lemma_assembly_step(old_keys, pos as int, validator, cs, i as int, made);
            }
            i = i + 1;
        }
        proof {
            assert forall|k: int| 0 <= k < keys@.len() implies {
                let v = #[trigger] keys@[k];
                &&& self.peers@.contains_key(v.account_address)
                &&& validator_keys_from(
                    v,
                    v.account_address,
                    self.peers@[v.account_address],
                    network_peers_config.peers@[v.account_address],
                )
            } by {
                assert(from_first_entries(keys@[k], cs, cs.len() as int, made));
                let j = choose|j: int| 0 <= j < cs.len() && #[trigger] cs[j].0 == keys@[k].address_of() && made(keys@[k], j);
                assert(self.peers@.contains_key(cs[j].0));
            }
            assert forall|p: PeerId| #[trigger] self.peers@.contains_key(p) implies exists|k: int|
                0 <= k < keys@.len() && keys@[k].account_address == p by {
                let j = choose|j: int| 0 <= j < cs.len() && cs[j].0 == p;
                let k = choose|k: int| #![trigger keys@[k]] 0 <= k < keys@.len() && keys@[k].address_of() == cs[j].0;
                assert(keys@[k].account_address == p);
            }
        }
        ValidatorSet { validators: keys }
    }

    /// The validator verifier: each consensus peer's key with a voting power of 1,
    /// ordered by account address.
    pub fn get_validator_verifier(&self) -> (res: ValidatorVerifier<C>)
        ensures
            is_validator_verifier_for(self.peers@, res.address_to_validator_info@),
            res.total_voting_power == self.peers@.len(),
            res.quorum_voting_power == quorum_for(self.peers@.len() as int, self.peers@.len() == 0),
    {
        let pairs = self.peers.pairs();
        let ghost cs = pairs@;
        let ghost made = |e: (PeerId, ValidatorInfo<C>), j: int| validator_info_from(e.1, *cs[j].1);
        let mut infos: Vec<(PeerId, ValidatorInfo<C>)> = Vec::new();
        let mut i: usize = 0;
        while i < pairs.len()
            invariant
                cs == pairs@,
                made == (|e: (PeerId, ValidatorInfo<C>), j: int| validator_info_from(e.1, *cs[j].1)),
                keys_distinct(cs),
                i <= cs.len(),
                infos@.len() == i,
                addresses_increasing(infos@),
                forall|k: int| 0 <= k < infos@.len() ==> from_first_entries(#[trigger] infos@[k], cs, i as int, made),
                covers_first_entries(infos@, cs, i as int),
            decreases cs.len() - i,
        {
            let entry = pairs[i];
            let info = (entry.0, ValidatorInfo { public_key: entry.1.consensus_pubkey.clone(), voting_power: 1 });
            let ghost old_infos = infos@;
            proof {
                lemma_entry_is_new(old_infos, cs, i as int, made);
            }
            let pos = insert_by_address(&mut infos, info);
            proof {
                assert(made(info, i as int));
                lemma_assembly_step(old_infos, pos as int, info, cs, i as int, made);
            }
            i = i + 1;
        }
        proof {
            assert forall|k: int| 0 <= k < infos@.len() implies {
                let e = #[trigger] infos@[k];
                &&& self.peers@.contains_key(e.0)
                &&& validator_info_from(e.1, self.peers@[e.0])
            } by {
                assert(from_first_entries(infos@[k], cs, cs.len() as int, made));
                let j = choose|j: int| 0 <= j < cs.len() && #[trigger] cs[j].0 == infos@[k].address_of() && made(infos@[k], j);
                assert(self.peers@.contains_key(cs[j].0));
            }
            assert forall|p: PeerId| #[trigger] self.peers@.contains_key(p) implies exists|k: int|
                0 <= k < infos@.len() && infos@[k].0 == p by {
                let j = choose|j: int| 0 <= j < cs.len() && cs[j].0 == p;
                let k = choose|k: int| #![trigger infos@[k]] 0 <= k < infos@.len() && infos@[k].address_of() == cs[j].0;
                assert(infos@[k].0 == p);
            }
        }
        proof {
            lemma_unit_voting_power(infos@);
        }
        ValidatorVerifier::new(infos)
    }
}

/// The addresses that occur in a list.
pub open spec fn addresses_of<T: Addressed>(v: Seq<T>) -> Set<PeerId> {
    Set::new(|p: PeerId| exists|i: int| 0 <= i < v.len() && #[trigger] v[i].address_of() == p)
}

/// The canonical order: two lists along which the addresses strictly increase,
/// and which hold the same addresses, hold them in the same order.  So the
/// validator set and the validator verifier do not depend on the order in which
/// the peers were configured.
pub proof fn law_increasing_addresses_are_canonical<T: Addressed>(a: Seq<T>, b: Seq<T>)
    requires
        addresses_increasing(a),
        addresses_increasing(b),
        addresses_of(a) == addresses_of(b),
    ensures
        a.len() == b.len(),
        forall|i: int| 0 <= i < a.len() ==> #[trigger] a[i].address_of() == b[i].address_of(),
    decreases a.len(),
{
    if a.len() == 0 {
        if b.len() > 0 {
            assert(addresses_of(b).contains(b[0].address_of()));
        }
    } else if b.len() == 0 {
        assert(addresses_of(a).contains(a[0].address_of()));
    } else {
        assert(addresses_of(a).contains(a[0].address_of()));
        assert(addresses_of(b).contains(b[0].address_of()));
        let j = choose|j: int| 0 <= j < b.len() && #[trigger] b[j].address_of() == a[0].address_of();
        let i = choose|i: int| 0 <= i < a.len() && #[trigger] a[i].address_of() == b[0].address_of();
        if j > 0 {
            assert(b[0].address_of().0 < b[j].address_of().0);
            if i > 0 {
                assert(a[0].address_of().0 < a[i].address_of().0);
            }
        }
        if i > 0 {
            assert(a[0].address_of().0 < a[i].address_of().0);
        }
        assert(a[0].address_of() == b[0].address_of());
        let a1 = a.drop_first();
        let b1 = b.drop_first();
        assert forall|p: PeerId| addresses_of(a1).contains(p) == addresses_of(b1).contains(p) by {
            if addresses_of(a1).contains(p) {
                let k = choose|k: int| 0 <= k < a1.len() && #[trigger] a1[k].address_of() == p;
                assert(a[k + 1] == a1[k]);
                assert(addresses_of(a).contains(p));
                let m = choose|m: int| 0 <= m < b.len() && #[trigger] b[m].address_of() == p;
                assert(a[0].address_of().0 < a[k + 1].address_of().0);
                if m == 0 {
                    assert(false);
                }
                assert(b1[m - 1] == b[m]);
            }
            if addresses_of(b1).contains(p) {
                let k = choose|k: int| 0 <= k < b1.len() && #[trigger] b1[k].address_of() == p;
                assert(b[k + 1] == b1[k]);
                assert(addresses_of(b).contains(p));
                let m = choose|m: int| 0 <= m < a.len() && #[trigger] a[m].address_of() == p;
                assert(b[0].address_of().0 < b[k + 1].address_of().0);
                if m == 0 {
                    assert(false);
                }
                assert(a1[m - 1] == a[m]);
            }
        }
        assert(addresses_of(a1) =~= addresses_of(b1));
        assert(addresses_increasing(a1)) by {
            assert forall|x: int, y: int| 0 <= x < y < a1.len() implies #[trigger] a1[x].address_of().0
                < #[trigger] a1[y].address_of().0 by {
                assert(a1[x] == a[x + 1] && a1[y] == a[y + 1]);
            }
        }
        assert(addresses_increasing(b1)) by {
            assert forall|x: int, y: int| 0 <= x < y < b1.len() implies #[trigger] b1[x].address_of().0
                < #[trigger] b1[y].address_of().0 by {
                assert(b1[x] == b[x + 1] && b1[y] == b[y + 1]);
            }
        }
        law_increasing_addresses_are_canonical(a1, b1);
        assert forall|i: int| 0 <= i < a.len() implies #[trigger] a[i].address_of() == b[i].address_of() by {
            if i > 0 {
                assert(a1[i - 1] == a[i] && b1[i - 1] == b[i]);
            }
        }
    }
}

} // verus!

verus! {

/// A value set for a peer is what `get` then finds for it; every other peer finds
/// what it found before.
pub proof fn law_peer_read_back<V>(before: Map<PeerId, V>, peer: PeerId, value: V, other: PeerId)
    requires
        other != peer,
    ensures
        before.insert(peer, value).contains_key(peer),
        before.insert(peer, value)[peer] == value,
        before.insert(peer, value).contains_key(other) == before.contains_key(other),
        before.contains_key(other) ==> before.insert(peer, value)[other] == before[other],
{
}

} // verus!

verus! {

impl<V> PeerMap<V> {
    /// The peers with their values in address order, as they are serialized.
    pub fn ordered_entries(&self) -> (res: Vec<(PeerId, &V)>)
        ensures
            res@.len() == self@.len(),
            addresses_increasing(res@),
            forall|i: int|
                0 <= i < res@.len() ==> {
                    let e = #[trigger] res@[i];
                    self@.contains_key(e.0) && *e.1 == self@[e.0]
                },
            forall|p: PeerId|
                #[trigger] self@.contains_key(p) ==> exists|i: int| 0 <= i < res@.len() && res@[i].0 == p,
    {
        let pairs = self.pairs();
        let ghost cs = pairs@;
        let ghost made = |e: (PeerId, &V), j: int| *e.1 == *cs[j].1;
        let mut ordered: Vec<(PeerId, &V)> = Vec::new();
        let mut i: usize = 0;
        while i < pairs.len()
            invariant
                cs == pairs@,
                made == (|e: (PeerId, &V), j: int| *e.1 == *cs[j].1),
                keys_distinct(cs),
                i <= cs.len(),
                ordered@.len() == i,
                addresses_increasing(ordered@),
                forall|k: int| 0 <= k < ordered@.len() ==> from_first_entries(#[trigger] ordered@[k], cs, i as int, made),
                covers_first_entries(ordered@, cs, i as int),
            decreases cs.len() - i,
        {
            let item = pairs[i];
            let ghost old_ordered = ordered@;
            proof {
                lemma_entry_is_new(old_ordered, cs, i as int, made);
            }
            let pos = insert_by_address(&mut ordered, item);
            proof {
                assert(made(item, i as int));
                lemma_assembly_step(old_ordered, pos as int, item, cs, i as int, made);
            }
            i = i + 1;
        }
        proof {
            assert forall|k: int| 0 <= k < ordered@.len() implies {
                let e = #[trigger] ordered@[k];
                self@.contains_key(e.0) && *e.1 == self@[e.0]
            } by {
                assert(from_first_entries(ordered@[k], cs, cs.len() as int, made));
                let j = choose|j: int| 0 <= j < cs.len() && #[trigger] cs[j].0 == ordered@[k].address_of() && made(ordered@[k], j);
                assert(self@.contains_key(cs[j].0));
            }
            assert forall|p: PeerId| #[trigger] self@.contains_key(p) implies exists|k: int|
                0 <= k < ordered@.len() && ordered@[k].0 == p by {
                let j = choose|j: int| 0 <= j < cs.len() && cs[j].0 == p;
                let k = choose|k: int| #![trigger ordered@[k]] 0 <= k < ordered@.len() && ordered@[k].address_of() == cs[j].0;
                assert(ordered@[k].0 == p);
            }
        }
        ordered
    }
}

} // verus!

verus! {

/// The validator set does not depend on the order in which the peers were
/// configured: two validator sets of the same consensus and network keys hold the
/// validators at the same addresses in the same order, each with copies of the
/// same keys and a voting power of 1; where copying a key gives back an equal key,
/// the two sets are equal.
pub proof fn law_validator_set_is_canonical<C: Clone, S: Clone, I: Clone>(
    consensus: Map<PeerId, ConsensusPeerInfo<C>>,
    network: Map<PeerId, NetworkPeerInfo<S, I>>,
    a: Seq<ValidatorPublicKeys<C, S, I>>,
    b: Seq<ValidatorPublicKeys<C, S, I>>,
)
    requires
        is_validator_set_for(consensus, network, a),
        is_validator_set_for(consensus, network, b),
    ensures
        a.len() == b.len(),
        forall|i: int|
            0 <= i < a.len() ==> {
                let p = (#[trigger] a[i]).account_address;
                &&& b[i].account_address == p
                &&& validator_keys_from(a[i], p, consensus[p], network[p])
                &&& validator_keys_from(b[i], p, consensus[p], network[p])
            },
        (forall|x: C, y: C| #[trigger] cloned(x, y) ==> x == y) && (forall|x: S, y: S| #[trigger] cloned(x, y)
            ==> x == y) && (forall|x: I, y: I| #[trigger] cloned(x, y) ==> x == y) ==> a == b,
{
    assert forall|p: PeerId| addresses_of(a).contains(p) == addresses_of(b).contains(p) by {
        if addresses_of(a).contains(p) {
            let k = choose|k: int| 0 <= k < a.len() && #[trigger] a[k].address_of() == p;
            assert(consensus.contains_key(a[k].account_address));
            let m = choose|m: int| 0 <= m < b.len() && b[m].account_address == p;
            assert(b[m].address_of() == p);
        }
        if addresses_of(b).contains(p) {
            let k = choose|k: int| 0 <= k < b.len() && #[trigger] b[k].address_of() == p;
            assert(consensus.contains_key(b[k].account_address));
            let m = choose|m: int| 0 <= m < a.len() && a[m].account_address == p;
            assert(a[m].address_of() == p);
        }
    }
    assert(addresses_of(a) =~= addresses_of(b));
    law_increasing_addresses_are_canonical(a, b);
    assert forall|i: int| 0 <= i < a.len() implies {
        let p = (#[trigger] a[i]).account_address;
        &&& b[i].account_address == p
        &&& validator_keys_from(a[i], p, consensus[p], network[p])
        &&& validator_keys_from(b[i], p, consensus[p], network[p])
    } by {
        assert(a[i].address_of() == b[i].address_of());
        assert(validator_keys_from(b[i], b[i].account_address, consensus[b[i].account_address], network[b[i].account_address]));
    }
    if (forall|x: C, y: C| #[trigger] cloned(x, y) ==> x == y) && (forall|x: S, y: S| #[trigger] cloned(x, y)
        ==> x == y) && (forall|x: I, y: I| #[trigger] cloned(x, y) ==> x == y) {
        assert forall|i: int| 0 <= i < a.len() implies #[trigger] a[i] == b[i] by {
            let p = a[i].account_address;
            assert(validator_keys_from(a[i], p, consensus[p], network[p]));
            assert(validator_keys_from(b[i], p, consensus[p], network[p]));
        }
        assert(a =~= b);
    }
}

/// Likewise for the validator verifier: two verifiers' lists of the same
/// consensus keys hold the same addresses in the same order, each with a copy of
/// the same key and a voting power of 1; where copying a key gives back an equal
/// key, the two lists are equal.
pub proof fn law_validator_verifier_is_canonical<C: Clone>(
    consensus: Map<PeerId, ConsensusPeerInfo<C>>,
    a: Seq<(PeerId, ValidatorInfo<C>)>,
    b: Seq<(PeerId, ValidatorInfo<C>)>,
)
    requires
        is_validator_verifier_for(consensus, a),
        is_validator_verifier_for(consensus, b),
    ensures
        a.len() == b.len(),
        forall|i: int|
            0 <= i < a.len() ==> {
                let p = (#[trigger] a[i]).0;
                &&& b[i].0 == p
                &&& validator_info_from(a[i].1, consensus[p])
                &&& validator_info_from(b[i].1, consensus[p])
            },
        (forall|x: C, y: C| #[trigger] cloned(x, y) ==> x == y) ==> a == b,
{
    assert forall|p: PeerId| addresses_of(a).contains(p) == addresses_of(b).contains(p) by {
        if addresses_of(a).contains(p) {
            let k = choose|k: int| 0 <= k < a.len() && #[trigger] a[k].address_of() == p;
            assert(consensus.contains_key(a[k].0));
            let m = choose|m: int| 0 <= m < b.len() && b[m].0 == p;
            assert(b[m].address_of() == p);
        }
        if addresses_of(b).contains(p) {
            let k = choose|k: int| 0 <= k < b.len() && #[trigger] b[k].address_of() == p;
            assert(consensus.contains_key(b[k].0));
            let m = choose|m: int| 0 <= m < a.len() && a[m].0 == p;
            assert(a[m].address_of() == p);
        }
    }
    assert(addresses_of(a) =~= addresses_of(b));
    law_increasing_addresses_are_canonical(a, b);
    assert forall|i: int| 0 <= i < a.len() implies {
        let p = (#[trigger] a[i]).0;
        &&& b[i].0 == p
        &&& validator_info_from(a[i].1, consensus[p])
        &&& validator_info_from(b[i].1, consensus[p])
    } by {
        assert(a[i].address_of() == b[i].address_of());
        assert(validator_info_from(b[i].1, consensus[b[i].0]));
    }
    if forall|x: C, y: C| #[trigger] cloned(x, y) ==> x == y {
        assert forall|i: int| 0 <= i < a.len() implies #[trigger] a[i] == b[i] by {
            let p = a[i].0;
            assert(validator_info_from(a[i].1, consensus[p]));
            assert(validator_info_from(b[i].1, consensus[p]));
        }
        assert(a =~= b);
    }
}

} // verus!
