//! Network identifiers: the one-to-one correspondence between the snowflake
//! that names an object across the network and the local entity that holds it.

use vstd::prelude::*;
use bimap::BiHashMap;

verus! {

/// The identifier of a game object that is shared across the network and save
/// files.
#[derive(Debug, Clone, Copy, PartialEq, Eq, Structural, Hash)]
pub struct Snowflake(pub u64);

/// The bits of a local entity.
pub type EntityId = u64;

#[verifier::external_type_specification]
#[verifier::external_body]
#[verifier::reject_recursive_types(L)]
#[verifier::reject_recursive_types(R)]
#[verifier::reject_recursive_types(LS)]
#[verifier::reject_recursive_types(RS)]
pub struct ExBiHashMap<L, R, LS, RS>(BiHashMap<L, R, LS, RS>);

/// The left-to-right pairs that a bimap of snowflake bits and entity bits holds.
pub uninterp spec fn bimap_pairs(m: BiHashMap<u64, u64>) -> Map<u64, u64>;

/// No two keys of `m` map to the same value.
pub open spec fn injective(m: Map<u64, u64>) -> bool {
    forall|a: u64, b: u64| m.contains_key(a) && m.contains_key(b) && #[trigger] m[a] == #[trigger] m[b] ==> a == b
}

/// `m` without any pair whose value is `v`.
pub open spec fn without_value(m: Map<u64, u64>, v: u64) -> Map<u64, u64> {
    Map::new(|k: u64| m.contains_key(k) && m[k] != v, |k: u64| m[k])
}

/// `m` after a bimap insertion of `(l, r)`: every pair with left `l` or right
/// `r` is removed, then the pair is added.
pub open spec fn insert_pair(m: Map<u64, u64>, l: u64, r: u64) -> Map<u64, u64> {
    without_value(m.remove(l), r).insert(l, r)
}

/// `bimap::BiHashMap::new`: the bimap it returns is empty.
#[verifier::external_body]
fn bimap_new() -> (r: BiHashMap<u64, u64>)
    ensures
        bimap_pairs(r).dom() == Set::<u64>::empty(),
{
    BiHashMap::new()
}

/// `bimap::BiHashMap::insert`: it removes the pairs whose left value is `left`
/// and the pairs whose right value is `right` (`remove_by_left`, then
/// `remove_by_right`), then adds the pair; the bimap stays one-to-one.
#[verifier::external_body]
fn bimap_insert(m: &mut BiHashMap<u64, u64>, left: u64, right: u64)
    requires
        injective(bimap_pairs(*old(m))),
    ensures
        bimap_pairs(*final(m)) == insert_pair(bimap_pairs(*old(m)), left, right),
        injective(bimap_pairs(*final(m))),
{
    m.insert(left, right);
}

/// `bimap::BiHashMap::remove_by_left`: it removes the pair whose left value is
/// `left`, if there is one.
#[verifier::external_body]
fn bimap_remove_by_left(m: &mut BiHashMap<u64, u64>, left: u64)
    requires
        injective(bimap_pairs(*old(m))),
    ensures
        bimap_pairs(*final(m)) == bimap_pairs(*old(m)).remove(left),
        injective(bimap_pairs(*final(m))),
{
    m.remove_by_left(&left);
}

/// `bimap::BiHashMap::remove_by_right`: it removes the pair whose right value
/// is `right`, if there is one.
#[verifier::external_body]
fn bimap_remove_by_right(m: &mut BiHashMap<u64, u64>, right: u64)
    requires
        injective(bimap_pairs(*old(m))),
    ensures
        bimap_pairs(*final(m)) == without_value(bimap_pairs(*old(m)), right),
        injective(bimap_pairs(*final(m))),
{
    m.remove_by_right(&right);
}

/// `bimap::BiHashMap::get_by_left`: the right value paired with `left`.
#[verifier::external_body]
fn bimap_get_by_left(m: &BiHashMap<u64, u64>, left: u64) -> (r: Option<u64>)
    ensures
        r == (if bimap_pairs(*m).contains_key(left) { Some(bimap_pairs(*m)[left]) } else { None::<u64> }),
{
    m.get_by_left(&left).cloned()
}

/// `bimap::BiHashMap::get_by_right`: the left value paired with `right`.
#[verifier::external_body]
fn bimap_get_by_right(m: &BiHashMap<u64, u64>, right: u64) -> (r: Option<u64>)
    requires
        injective(bimap_pairs(*m)),
    ensures
        r matches Some(l) ==> bimap_pairs(*m).contains_key(l) && bimap_pairs(*m)[l] == right,
        r is None ==> forall|l: u64| bimap_pairs(*m).contains_key(l) ==> bimap_pairs(*m)[l] != right,
{
    m.get_by_right(&right).cloned()
}

/// The entity that the snowflake bits `s` name in `m`, if any.
pub open spec fn entity_of(m: Map<u64, u64>, s: u64) -> Option<u64> {
    if m.contains_key(s) { Some(m[s]) } else { None }
}

/// The snowflake bits that name the entity `e` in `m`, if any.
pub open spec fn uuid_of(m: Map<u64, u64>, e: u64) -> Option<u64> {
    if exists|s: u64| m.contains_key(s) && m[s] == e {
        Some(choose|s: u64| m.contains_key(s) && m[s] == e)
    } else {
        None
    }
}

/// The snowflakes of the objects that are known locally, each with its entity.
#[derive(Debug)]
pub struct Identifiers {
    identifiers: BiHashMap<u64, u64>,
}

impl View for Identifiers {
    type V = Map<u64, u64>;

    closed spec fn view(&self) -> Map<u64, u64> {
        bimap_pairs(self.identifiers)
    }
}

impl Default for Identifiers {
    /// An empty correspondence.
    fn default() -> (r: Self)
        ensures
            r@ == Map::<u64, u64>::empty(),
    {
        Identifiers::new()
    }
}

impl Identifiers {
    #[verifier::type_invariant]
    closed spec fn one_to_one(self) -> bool {
        injective(bimap_pairs(self.identifiers))
    }

    /// An empty correspondence.
    pub fn new() -> (r: Self)
        ensures
            r@ == Map::<u64, u64>::empty(),
            injective(r@),
    {
        let r = Self { identifiers: bimap_new() };
        assert(r@ =~= Map::<u64, u64>::empty());
        r
    }

    /// Pairs `uuid` with `entity`, dropping any pair that held either of them.
    pub fn insert(&mut self, uuid: Snowflake, entity: EntityId)
        ensures
            final(self)@ == insert_pair(old(self)@, uuid.0, entity),
            injective(final(self)@),
    {
        proof { use_type_invariant(&*self); }
        let mut pairs = bimap_new();
        std::mem::swap(&mut pairs, &mut self.identifiers);
        bimap_insert(&mut pairs, uuid.0, entity);
        self.identifiers = pairs;
    }

    /// Drops the pair that holds `uuid`, if any.
    pub fn remove_by_uuid(&mut self, uuid: Snowflake)
        ensures
            final(self)@ == old(self)@.remove(uuid.0),
            injective(final(self)@),
    {
        proof { use_type_invariant(&*self); }
        let mut pairs = bimap_new();
        std::mem::swap(&mut pairs, &mut self.identifiers);
        bimap_remove_by_left(&mut pairs, uuid.0);
        self.identifiers = pairs;
    }

    /// Drops the pair that holds `entity`, if any.
    pub fn remove_by_entity(&mut self, entity: EntityId)
        ensures
            final(self)@ == without_value(old(self)@, entity),
            injective(final(self)@),
    {
        proof { use_type_invariant(&*self); }
        let mut pairs = bimap_new();
        std::mem::swap(&mut pairs, &mut self.identifiers);
        bimap_remove_by_right(&mut pairs, entity);
        self.identifiers = pairs;
    }

    /// The entity that `uuid` names, if any.
    pub fn get_entity(&self, uuid: Snowflake) -> (r: Option<EntityId>)
        ensures
            r == entity_of(self@, uuid.0),
            injective(self@),
    {
        proof { use_type_invariant(self); }
        bimap_get_by_left(&self.identifiers, uuid.0)
    }

    /// The snowflake that names `entity`, if any.
    pub fn get_uuid(&self, entity: EntityId) -> (r: Option<Snowflake>)
        ensures
            r matches Some(s) ==> uuid_of(self@, entity) == Some(s.0),
            r is None ==> uuid_of(self@, entity) is None,
            injective(self@),
    {
        proof { use_type_invariant(self); }
        match bimap_get_by_right(&self.identifiers, entity) {
            Some(l) => Some(Snowflake(l)),
            None => None,
        }
    }
}


/// In a one-to-one correspondence, a snowflake names an entity exactly when
/// that entity is named by the snowflake.
pub proof fn lemma_lookups_agree(m: Map<u64, u64>, s: u64, e: u64)
    requires
        injective(m),
    ensures
        (entity_of(m, s) == Some(e)) == (uuid_of(m, e) == Some(s)),
{
    if entity_of(m, s) == Some(e) {
        assert(m.contains_key(s) && m[s] == e);
        let c = choose|k: u64| m.contains_key(k) && m[k] == e;
        assert(c == s);
    }
}

/// After `insert(s, e)` the snowflake names the entity and the entity is named
/// by the snowflake; every other pair that held neither of them is kept.
pub proof fn lemma_insert_then_lookup(m: Map<u64, u64>, s: u64, e: u64, other: u64)
    requires
        injective(m),
    ensures
        injective(insert_pair(m, s, e)),
        entity_of(insert_pair(m, s, e), s) == Some(e),
        uuid_of(insert_pair(m, s, e), e) == Some(s),
        other != s && !(m.contains_key(other) && m[other] == e)
            ==> entity_of(insert_pair(m, s, e), other) == entity_of(m, other),
{
    let n = insert_pair(m, s, e);
    assert(injective(n)) by {
        assert forall|a: u64, b: u64| n.contains_key(a) && n.contains_key(b) && #[trigger] n[a] == #[trigger] n[b] implies a == b by {
            if a != s && b != s {
                assert(m[a] == n[a] && m[b] == n[b]);
            }
        }
    }
    lemma_lookups_agree(n, s, e);
}

/// After the pair of a snowflake is removed, the snowflake names nothing and the
/// entity it named is named by nothing; after the pair of an entity is removed,
/// the entity is named by nothing.
pub proof fn lemma_remove_then_lookup(m: Map<u64, u64>, s: u64, e: u64)
    requires
        injective(m),
    ensures
        entity_of(m.remove(s), s) is None,
        entity_of(m, s) == Some(e) ==> uuid_of(m.remove(s), e) is None,
        uuid_of(without_value(m, e), e) is None,
        injective(m.remove(s)),
        injective(without_value(m, e)),
{
    if entity_of(m, s) == Some(e) {
        let r = m.remove(s);
        if exists|k: u64| r.contains_key(k) && r[k] == e {
            let k = choose|k: u64| r.contains_key(k) && r[k] == e;
            assert(m[k] == m[s]);
        }
    }
}

} // verus!
