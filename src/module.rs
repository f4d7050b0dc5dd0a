use crate::dna::{blake2_128_of, mix_dna, seed_payload};
use std::collections::HashMap;
use std::hash::Hash;
use vstd::prelude::*;
use vstd::std_specs::hash::obeys_key_model;

verus! {

broadcast use vstd::std_specs::hash::group_hash_axioms;

/// A kitty: its dna, fixed when it is created.
#[derive(Clone, Copy)]
pub struct Kitty(pub [u8; 16]);

/// Why a transition was refused. A refused transition changes nothing.
#[derive(Debug, Clone, Copy, PartialEq, Eq, Structural)]
pub enum Error {
    /// Every kitty id has been issued.
    KittiesCountOverflow,
    /// A parent id names no kitty.
    KittyIdInvalid,
    /// A kitty cannot breed with itself.
    SameParentNotAllowed,
    /// The kitty has no owner.
    KittyNotExists,
    /// The caller does not own the kitty.
    NotKittyOwner,
    /// A kitty cannot be transferred to its own owner.
    TransferToSelf,
    /// The fee could not be reserved from the caller's balance.
    NoEnoughBalance,
}

/// What a successful transition reports.
#[derive(Debug, Clone, Copy, PartialEq, Eq, Structural)]
pub enum Event {
    /// An owner and the kitty created for it.
    Created(u64, u32),
    /// The old owner, the new owner and the kitty.
    Transferred(u64, u64, u32),
    /// The owner, both parents and the child.
    Breed(u64, u32, u32, u32),
}

/// What the host environment provides to the registry.
pub trait Trait {
    /// The current random seed.
    fn random_seed(&self) -> [u8; 32];

    /// The index of the running call within its block, if any.
    fn extrinsic_index(&self) -> Option<u32>;

    /// The fee reserved for each new kitty.
    fn new_kitty_reserve(&self) -> u128;

    /// Reserves `amount` from `who`'s balance; false where it cannot.
    fn reserve(&mut self, who: u64, amount: u128) -> bool;

    /// Delivers an event.
    fn deposit_event(&mut self, event: Event);
}

/// The key of an ordered pair of parents in the children index: the first
/// parent in the high half, the second in the low half.
pub open spec fn pair_key(p1: u32, p2: u32) -> u64 {
    (p1 as int * 0x1_0000_0000 + p2 as int) as u64
}

proof fn lemma_pair_key(p1: u32, p2: u32)
    ensures
        pair_key(p1, p2) as int == p1 as int * 0x1_0000_0000 + p2 as int,
        pair_key(p1, p2) as int / 0x1_0000_0000 == p1 as int,
        pair_key(p1, p2) as int % 0x1_0000_0000 == p2 as int,
{
    assert(p1 as int * 0x1_0000_0000 + p2 as int <= u64::MAX) by (nonlinear_arith)
        requires
            p1 <= u32::MAX,
            p2 <= u32::MAX,
    ;
    vstd::arithmetic::div_mod::lemma_fundamental_div_mod_converse(
        pair_key(p1, p2) as int,
        0x1_0000_0000,
        p1 as int,
        p2 as int,
    );
}

proof fn lemma_pair_key_injective(p1: u32, p2: u32, q1: u32, q2: u32)
    ensures
        pair_key(p1, p2) == pair_key(q1, q2) <==> p1 == q1 && p2 == q2,
{
    lemma_pair_key(p1, p2);
    lemma_pair_key(q1, q2);
}

pub(crate) fn key_of_pair(p1: u32, p2: u32) -> (r: u64)
    ensures
        r == pair_key(p1, p2),
{
    proof {
        lemma_pair_key(p1, p2);
    }
    (p1 as u64) * 0x1_0000_0000 + (p2 as u64)
}

/// The registry as values: each index as a map, `count` the next id.
pub struct KittiesView {
    pub kitties: Map<u32, Seq<u8>>,
    pub count: u32,
    pub owners: Map<u32, u64>,
    pub owned: Map<u64, Seq<u32>>,
    pub parents: Map<u32, (u32, u32)>,
    pub children: Map<(u32, u32), Seq<u32>>,
    pub siblings: Map<u32, Seq<u32>>,
    pub spouses: Map<u32, Seq<u32>>,
}

/// A list index read at a key: empty where the key is absent.
pub open spec fn list_at<K>(m: Map<K, Seq<u32>>, k: K) -> Seq<u32> {
    if m.contains_key(k) {
        m[k]
    } else {
        Seq::empty()
    }
}

/// The ids of `s` other than `x`, in order.
pub open spec fn others(s: Seq<u32>, x: u32) -> Seq<u32> {
    s.filter(|y: u32| y != x)
}

/// `b` added to `a`'s spouses unless it is there already.
pub open spec fn add_spouse(m: Map<u32, Seq<u32>>, a: u32, b: u32) -> Map<u32, Seq<u32>> {
    if list_at(m, a).contains(b) {
        m
    } else {
        m.insert(a, list_at(m, a).push(b))
    }
}

impl KittiesView {
    /// Every kitty has an owner and every owned id is a kitty; ids are below
    /// the count; only kitties have parents.
    pub open spec fn wf(self) -> bool {
        &&& self.kitties.dom() == self.owners.dom()
        &&& forall|id: u32| #[trigger] self.kitties.contains_key(id) ==> id < self.count
        &&& forall|id: u32| #[trigger] self.kitties.contains_key(id) ==> self.kitties[id].len() == 16
        &&& forall|id: u32| #[trigger] self.parents.contains_key(id) ==> self.kitties.contains_key(id)
    }

    pub open spec fn owned_by(self, who: u64) -> Seq<u32> {
        list_at(self.owned, who)
    }

    pub open spec fn children_of(self, p1: u32, p2: u32) -> Seq<u32> {
        list_at(self.children, (p1, p2))
    }

    pub open spec fn siblings_of(self, id: u32) -> Seq<u32> {
        list_at(self.siblings, id)
    }

    pub open spec fn spouses_of(self, id: u32) -> Seq<u32> {
        list_at(self.spouses, id)
    }

    /// The registry with kitty `id` of dna `dna` stored for `owner`.
    pub open spec fn with_kitty(self, owner: u64, id: u32, dna: Seq<u8>) -> KittiesView {
        KittiesView {
            kitties: self.kitties.insert(id, dna),
            count: (id + 1) as u32,
            owners: self.owners.insert(id, owner),
            owned: self.owned.insert(owner, self.owned_by(owner).push(id)),
            ..self
        }
    }

    /// The first check that refuses a creation, in the order they are made.
    pub open spec fn create_error(self, reserved: bool) -> Option<Error> {
        if self.count == u32::MAX {
            Some(Error::KittiesCountOverflow)
        } else if !reserved {
            Some(Error::NoEnoughBalance)
        } else {
            None
        }
    }

    /// The first check that refuses a transfer, in the order they are made.
    pub open spec fn transfer_error(self, from: u64, to: u64, id: u32) -> Option<Error> {
        if to == from {
            Some(Error::TransferToSelf)
        } else if !self.owners.contains_key(id) {
            Some(Error::KittyNotExists)
        } else if self.owners[id] != from {
            Some(Error::NotKittyOwner)
        } else {
            None
        }
    }

    /// The registry after `id` has moved from `from` to `to`.
    pub open spec fn transferred(self, from: u64, to: u64, id: u32) -> KittiesView {
        let kept = others(self.owned_by(from), id);
        KittiesView {
            owners: self.owners.insert(id, to),
            owned: self.owned.insert(from, kept).insert(to, self.owned_by(to).push(id)),
            ..self
        }
    }

    /// The first check that refuses a breeding, in the order they are made.
    pub open spec fn breed_error(self, sender: u64, id1: u32, id2: u32, reserved: bool) -> Option<Error> {
        if id1 == id2 {
            Some(Error::SameParentNotAllowed)
        } else if !reserved {
            Some(Error::NoEnoughBalance)
        } else if !self.kitties.contains_key(id1) || !self.kitties.contains_key(id2) {
            Some(Error::KittyIdInvalid)
        } else if !self.owners.contains_key(id1) || !self.owners.contains_key(id2) {
            Some(Error::KittyNotExists)
        } else if self.owners[id1] != sender || self.owners[id2] != sender {
            Some(Error::NotKittyOwner)
        } else if self.count == u32::MAX {
            Some(Error::KittiesCountOverflow)
        } else {
            None
        }
    }

    /// The genealogy after `child` was bred from `p1` and `p2`: spouses both
    /// ways, the parent pair, the child under the pair, and its siblings.
    pub open spec fn with_genealogy(self, p1: u32, p2: u32, child: u32) -> KittiesView {
        let kids = self.children_of(p1, p2).push(child);
        KittiesView {
            spouses: add_spouse(add_spouse(self.spouses, p1, p2), p2, p1),
            parents: self.parents.insert(child, (p1, p2)),
            children: self.children.insert((p1, p2), kids),
            siblings: self.siblings.insert(child, others(kids, child)),
            ..self
        }
    }

    /// The registry after `sender` bred `child` from `p1` and `p2` under `selector`.
    pub open spec fn bred(self, sender: u64, p1: u32, p2: u32, child: u32, selector: Seq<u8>) -> KittiesView {
        let dna = mix_dna(self.kitties[p1], self.kitties[p2], selector);
        self.with_kitty(sender, child, dna).with_genealogy(p1, p2, child)
    }
}

/// The kitty registry and its genealogy indices.
pub struct Module {
    kitty_db: HashMap<u32, Kitty>,
    kitties_count: u32,
    kitty_owner: HashMap<u32, u64>,
    kitty_total: HashMap<u64, Vec<u32>>,
    kitties_parents: HashMap<u32, (u32, u32)>,
    kitties_children: HashMap<u64, Vec<u32>>,
    kitties_siblings: HashMap<u32, Vec<u32>>,
    kitties_spouse: HashMap<u32, Vec<u32>>,
}

impl View for Module {
    type V = KittiesView;

    closed spec fn view(&self) -> KittiesView {
        KittiesView {
            kitties: self.kitty_db@.map_values(|k: Kitty| k.0@),
            count: self.kitties_count,
            owners: self.kitty_owner@,
            owned: self.kitty_total@.map_values(|v: Vec<u32>| v@),
            parents: self.kitties_parents@,
            children: Map::new(
                |k: (u32, u32)| self.kitties_children@.contains_key(pair_key(k.0, k.1)),
                |k: (u32, u32)| self.kitties_children@[pair_key(k.0, k.1)]@,
            ),
            siblings: self.kitties_siblings@.map_values(|v: Vec<u32>| v@),
            spouses: self.kitties_spouse@.map_values(|v: Vec<u32>| v@),
        }
    }
}

/// Takes the list stored at `key` out of `m`; empty where there is none.
pub(crate) fn take_list<K: Hash + Eq>(m: &mut HashMap<K, Vec<u32>>, key: &K) -> (r: Vec<u32>)
    requires
        obeys_key_model::<K>(),
    ensures
        final(m)@ == old(m)@.remove(*key),
        r@ == (if old(m)@.contains_key(*key) { old(m)@[*key]@ } else { Seq::empty() }),
{
    match m.remove(key) {
        Some(v) => v,
        None => Vec::new(),
    }
}

/// The ids of `ids` other than `x`, in order.
pub(crate) fn without(ids: &Vec<u32>, x: u32) -> (r: Vec<u32>)
    ensures
        r@ == others(ids@, x),
{
    let mut out: Vec<u32> = Vec::new();
    let mut i: usize = 0;
    while i < ids.len()
        invariant
            i <= ids@.len(),
            out@ == others(ids@.take(i as int), x),
        decreases ids@.len() - i,
    {
        proof {
            assert(ids@.take(i as int + 1) =~= ids@.take(i as int).push(ids@[i as int]));
            assert(ids@.take(i as int).push(ids@[i as int]).drop_last() =~= ids@.take(i as int));
            reveal_with_fuel(Seq::filter, 1);
        }
        if ids[i] != x {
            out.push(ids[i]);
        }
        i = i + 1;
    }
    assert(ids@.take(ids@.len() as int) =~= ids@);
    out
}

/// Whether `ids` holds `x`.
pub(crate) fn holds(ids: &Vec<u32>, x: u32) -> (r: bool)
    ensures
        r == ids@.contains(x),
{
    let mut i: usize = 0;
    while i < ids.len()
        invariant
            i <= ids@.len(),
            forall|j: int| 0 <= j < i ==> ids@[j] != x,
        decreases ids@.len() - i,
    {
        if ids[i] == x {
            return true;
        }
        i = i + 1;
    }
    false
}

impl Module {
    /// An empty registry.
    pub fn new() -> (r: Module)
        ensures
            r@.wf(),
            r@.count == 0,
            r@.kitties.is_empty(),
            r@.owners.is_empty(),
            r@.owned.is_empty(),
            r@.parents.is_empty(),
            r@.children.is_empty(),
            r@.siblings.is_empty(),
            r@.spouses.is_empty(),
    {
        let r = Module {
            kitty_db: HashMap::new(),
            kitties_count: 0,
            kitty_owner: HashMap::new(),
            kitty_total: HashMap::new(),
            kitties_parents: HashMap::new(),
            kitties_children: HashMap::new(),
            kitties_siblings: HashMap::new(),
            kitties_spouse: HashMap::new(),
        };
        assert(r@.kitties =~= Map::empty());
        assert(r@.owned =~= Map::empty());
        assert(r@.children =~= Map::empty());
        assert(r@.siblings =~= Map::empty());
        assert(r@.spouses =~= Map::empty());
        r
    }

    /// The id the next kitty will get, unless every id has been issued.
    fn next_kitty_id(&self) -> (r: Result<u32, Error>)
        ensures
            self@.count == u32::MAX ==> r == Err::<u32, Error>(Error::KittiesCountOverflow),
            self@.count != u32::MAX ==> r == Ok::<u32, Error>(self@.count),
    {
        let kitty_id = self.kitties_count;
        if kitty_id == u32::MAX {
            return Err(Error::KittiesCountOverflow);
        }
        Ok(kitty_id)
    }

    /// Stores a new kitty for `owner` under the next id.
    fn insert_kitty(&mut self, owner: u64, kitty_id: u32, kitty: Kitty)
        requires
            old(self)@.wf(),
            kitty_id == old(self)@.count,
            kitty_id < u32::MAX,
        ensures
            final(self)@ == old(self)@.with_kitty(owner, kitty_id, kitty.0@),
            final(self)@.wf(),
    {
        let ghost pre = self@;
        self.kitty_db.insert(kitty_id, kitty);
        self.kitties_count = kitty_id + 1;
        self.kitty_owner.insert(kitty_id, owner);
        let mut ids = take_list(&mut self.kitty_total, &owner);
        ids.push(kitty_id);
        self.kitty_total.insert(owner, ids);
        let ghost want = pre.with_kitty(owner, kitty_id, kitty.0@);
        assert(self@.kitties =~= want.kitties);
        assert(self@.owned =~= want.owned);
        assert(self@.children =~= want.children);
        assert(self@.siblings =~= want.siblings);
        assert(self@.spouses =~= want.spouses);
    }
}


impl Module {
    /// Creates a kitty of dna `dna` for `sender`, where `reserved` tells
    /// whether the creation fee could be reserved from its balance.
    pub fn create_kitty(&mut self, sender: u64, dna: [u8; 16], reserved: bool) -> (r: Result<u32, Error>)
        requires
            old(self)@.wf(),
        ensures
            final(self)@.wf(),
            match old(self)@.create_error(reserved) {
                Some(e) => r == Err::<u32, Error>(e) && final(self)@ == old(self)@,
                None => r == Ok::<u32, Error>(old(self)@.count)
                    && final(self)@ == old(self)@.with_kitty(sender, old(self)@.count, dna@),
            },
    {
        let kitty_id = match self.next_kitty_id() {
            Ok(id) => id,
            Err(e) => return Err(e),
        };
        if !reserved {
            return Err(Error::NoEnoughBalance);
        }
        self.insert_kitty(sender, kitty_id, Kitty(dna));
        Ok(kitty_id)
    }

    /// Moves kitty `kitty_id` from `sender` to `to`.
    pub fn transfer_kitty(&mut self, sender: u64, to: u64, kitty_id: u32) -> (r: Result<(), Error>)
        requires
            old(self)@.wf(),
        ensures
            final(self)@.wf(),
            match old(self)@.transfer_error(sender, to, kitty_id) {
                Some(e) => r == Err::<(), Error>(e) && final(self)@ == old(self)@,
                None => r == Ok::<(), Error>(()) && final(self)@ == old(self)@.transferred(sender, to, kitty_id),
            },
    {
        if to == sender {
            return Err(Error::TransferToSelf);
        }
        let owner = match self.kitty_owner.get(&kitty_id) {
            Some(o) => *o,
            None => return Err(Error::KittyNotExists),
        };
        if owner != sender {
            return Err(Error::NotKittyOwner);
        }
        let ghost pre = self@;
        self.kitty_owner.insert(kitty_id, to);
        let ids = take_list(&mut self.kitty_total, &sender);
        assert(ids@ == pre.owned_by(sender));
        let kept = without(&ids, kitty_id);
        self.kitty_total.insert(sender, kept);
        let ghost mid = self@.owned;
        assert(mid =~= pre.owned.insert(sender, others(pre.owned_by(sender), kitty_id)));
        let mut theirs = take_list(&mut self.kitty_total, &to);
        assert(theirs@ == pre.owned_by(to));
        theirs.push(kitty_id);
        self.kitty_total.insert(to, theirs);
        let ghost want = pre.transferred(sender, to, kitty_id);
        assert(self@.owners.dom() =~= pre.owners.dom());
        assert(self@.kitties =~= want.kitties);
        assert(self@.owned =~= want.owned);
        assert(self@.children =~= want.children);
        assert(self@.siblings =~= want.siblings);
        assert(self@.spouses =~= want.spouses);
        Ok(())
    }

    /// Records `parent1` and `parent2` as the parents of `children`.
    pub fn update_kitties_parents(&mut self, children: u32, parent1: u32, parent2: u32)
        ensures
            final(self)@ == (KittiesView { parents: old(self)@.parents.insert(children, (parent1, parent2)), ..old(self)@ }),
    {
        let ghost pre = self@;
        self.kitties_parents.insert(children, (parent1, parent2));
        assert(self@.kitties =~= pre.kitties);
        assert(self@.owned =~= pre.owned);
        assert(self@.children =~= pre.children);
        assert(self@.siblings =~= pre.siblings);
        assert(self@.spouses =~= pre.spouses);
    }

    /// Adds `children` to the offspring of the ordered pair `(parent1, parent2)`.
    fn update_kitties_children(&mut self, children: u32, parent1: u32, parent2: u32)
        ensures
            final(self)@ == (KittiesView {
                children: old(self)@.children.insert((parent1, parent2), old(self)@.children_of(parent1, parent2).push(children)),
                ..old(self)@
            }),
    {
        let ghost pre = self@;
        let key = key_of_pair(parent1, parent2);
        let mut kids = take_list(&mut self.kitties_children, &key);
        kids.push(children);
        self.kitties_children.insert(key, kids);
        let ghost want = KittiesView {
            children: pre.children.insert((parent1, parent2), pre.children_of(parent1, parent2).push(children)),
            ..pre
        };
        assert forall|k: (u32, u32)| #![auto] (k.0 == parent1 && k.1 == parent2) <==> pair_key(k.0, k.1) == key by {
            lemma_pair_key_injective(k.0, k.1, parent1, parent2);
        }
        assert(self@.children =~= want.children);
        assert(self@.kitties =~= pre.kitties);
        assert(self@.owned =~= pre.owned);
        assert(self@.siblings =~= pre.siblings);
        assert(self@.spouses =~= pre.spouses);
    }

    /// Stores, as `kitty_id`'s siblings, the other children of its parents.
    fn update_kitties_siblings(&mut self, kitty_id: u32)
        requires
            old(self)@.parents.contains_key(kitty_id),
        ensures
            ({
                let (p1, p2) = old(self)@.parents[kitty_id];
                final(self)@ == (KittiesView {
                    siblings: old(self)@.siblings.insert(kitty_id, others(old(self)@.children_of(p1, p2), kitty_id)),
                    ..old(self)@
                })
            }),
    {
        let ghost pre = self@;
        let (parent1, parent2) = *self.kitties_parents.get(&kitty_id).unwrap();
        let key = key_of_pair(parent1, parent2);
        let reserve_val = match self.kitties_children.get(&key) {
            Some(val) => without(val, kitty_id),
            None => Vec::new(),
        };
        proof {
            reveal_with_fuel(Seq::filter, 1);
        }
        self.kitties_siblings.insert(kitty_id, reserve_val);
        assert(self@.siblings =~= pre.siblings.insert(kitty_id, others(pre.children_of(parent1, parent2), kitty_id)));
        assert(self@.kitties =~= pre.kitties);
        assert(self@.owned =~= pre.owned);
        assert(self@.children =~= pre.children);
        assert(self@.spouses =~= pre.spouses);
    }

    /// Adds `partner2` to `partner1`'s spouses unless it is there already.
    fn update_kitties_spouse(&mut self, partner1: u32, partner2: u32)
        ensures
            final(self)@ == (KittiesView { spouses: add_spouse(old(self)@.spouses, partner1, partner2), ..old(self)@ }),
    {
        let ghost pre = self@;
        let present = match self.kitties_spouse.get(&partner1) {
            Some(val) => holds(val, partner2),
            None => false,
        };
        if !present {
            let mut val = take_list(&mut self.kitties_spouse, &partner1);
            val.push(partner2);
            self.kitties_spouse.insert(partner1, val);
        }
        assert(self@.spouses =~= add_spouse(pre.spouses, partner1, partner2));
        assert(self@.kitties =~= pre.kitties);
        assert(self@.owned =~= pre.owned);
        assert(self@.children =~= pre.children);
        assert(self@.siblings =~= pre.siblings);
    }
}


/// A copy of a list of ids.
fn copy_ids(ids: &Vec<u32>) -> (r: Vec<u32>)
    ensures
        r@ == ids@,
{
    let mut out: Vec<u32> = Vec::new();
    let mut i: usize = 0;
    while i < ids.len()
        invariant
            i <= ids@.len(),
            out@ == ids@.take(i as int),
        decreases ids@.len() - i,
    {
        out.push(ids[i]);
        i = i + 1;
        assert(out@ =~= ids@.take(i as int));
    }
    assert(ids@.take(ids@.len() as int) =~= ids@);
    out
}

impl Module {
    /// Breeds a child for `sender` from `kitty_id_1` and `kitty_id_2`, where
    /// `reserved` tells whether the fee could be reserved and `selector`
    /// picks each bit of the child's dna from one parent.
    pub fn do_breed(
        &mut self,
        sender: u64,
        kitty_id_1: u32,
        kitty_id_2: u32,
        reserved: bool,
        selector: [u8; 16],
    ) -> (r: Result<u32, Error>)
        requires
            old(self)@.wf(),
        ensures
            final(self)@.wf(),
            match old(self)@.breed_error(sender, kitty_id_1, kitty_id_2, reserved) {
                Some(e) => r == Err::<u32, Error>(e) && final(self)@ == old(self)@,
                None => r == Ok::<u32, Error>(old(self)@.count) && final(self)@ == old(self)@.bred(
                    sender,
                    kitty_id_1,
                    kitty_id_2,
                    old(self)@.count,
                    selector@,
                ),
            },
    {
        if kitty_id_1 == kitty_id_2 {
            return Err(Error::SameParentNotAllowed);
        }
        if !reserved {
            return Err(Error::NoEnoughBalance);
        }
        let kitty1 = match self.kitty_db.get(&kitty_id_1) {
            Some(k) => *k,
            None => return Err(Error::KittyIdInvalid),
        };
        let kitty2 = match self.kitty_db.get(&kitty_id_2) {
            Some(k) => *k,
            None => return Err(Error::KittyIdInvalid),
        };
        let owner1 = match self.kitty_owner.get(&kitty_id_1) {
            Some(o) => *o,
            None => return Err(Error::KittyNotExists),
        };
        let owner2 = match self.kitty_owner.get(&kitty_id_2) {
            Some(o) => *o,
            None => return Err(Error::KittyNotExists),
        };
        if owner1 != sender || owner2 != sender {
            return Err(Error::NotKittyOwner);
        }
        let kitty_id = match self.next_kitty_id() {
            Ok(id) => id,
            Err(e) => return Err(e),
        };
        let ghost pre = self@;
        let new_dna = Self::combine(&kitty1.0, &kitty2.0, &selector);
        self.insert_kitty(sender, kitty_id, Kitty(new_dna));
        let ghost v1 = self@;
        self.update_kitties_spouse(kitty_id_1, kitty_id_2);
        self.update_kitties_spouse(kitty_id_2, kitty_id_1);
        self.update_kitties_parents(kitty_id, kitty_id_1, kitty_id_2);
        self.update_kitties_children(kitty_id, kitty_id_1, kitty_id_2);
        self.update_kitties_siblings(kitty_id);
        assert(self@ == v1.with_genealogy(kitty_id_1, kitty_id_2, kitty_id));
        Ok(kitty_id)
    }

    /// Creates a kitty for `sender`, its dna drawn from the host's randomness,
    /// once the creation fee is reserved.
    pub fn create<T: Trait>(&mut self, env: &mut T, sender: u64) -> (r: Result<u32, Error>)
        requires
            old(self)@.wf(),
        ensures
            final(self)@.wf(),
            old(self)@.count == u32::MAX ==> r == Err::<u32, Error>(Error::KittiesCountOverflow),
            old(self)@.count != u32::MAX ==> r != Err::<u32, Error>(Error::KittiesCountOverflow),
            match r {
                Ok(id) => id == old(self)@.count && exists|seed: Seq<u8>, index: Option<u32>|
                    final(self)@ == old(self)@.with_kitty(
                        sender,
                        id,
                        #[trigger] blake2_128_of(seed_payload(seed, sender, index)),
                    ),
                Err(e) => final(self)@ == old(self)@ && (e == Error::KittiesCountOverflow || e
                    == Error::NoEnoughBalance),
            },
    {
        match self.next_kitty_id() {
            Ok(_) => {},
            Err(e) => return Err(e),
        }
        let seed = env.random_seed();
        let index = env.extrinsic_index();
        let dna = Self::random_value(&seed, sender, index);
        let amount = env.new_kitty_reserve();
        let reserved = env.reserve(sender, amount);
        let r = self.create_kitty(sender, dna, reserved);
        match r {
            Ok(id) => {
                assert(blake2_128_of(seed_payload(seed@, sender, index)) == dna@);
                env.deposit_event(Event::Created(sender, id));
            },
            Err(_) => {},
        }
        r
    }

    /// Moves kitty `kitty_id` from `sender` to `to` and reports it.
    pub fn transfer<T: Trait>(&mut self, env: &mut T, sender: u64, to: u64, kitty_id: u32) -> (r: Result<(), Error>)
        requires
            old(self)@.wf(),
        ensures
            final(self)@.wf(),
            match old(self)@.transfer_error(sender, to, kitty_id) {
                Some(e) => r == Err::<(), Error>(e) && final(self)@ == old(self)@,
                None => r == Ok::<(), Error>(()) && final(self)@ == old(self)@.transferred(sender, to, kitty_id),
            },
    {
        let r = self.transfer_kitty(sender, to, kitty_id);
        match r {
            Ok(()) => env.deposit_event(Event::Transferred(sender, to, kitty_id)),
            Err(_) => {},
        }
        r
    }

    /// Breeds a child for `sender` from two of its kitties, once the fee is
    /// reserved, under a selector drawn from the host's randomness.
    pub fn breed<T: Trait>(&mut self, env: &mut T, sender: u64, kitty_id_1: u32, kitty_id_2: u32) -> (r: Result<u32, Error>)
        requires
            old(self)@.wf(),
        ensures
            final(self)@.wf(),
            kitty_id_1 == kitty_id_2 ==> r == Err::<u32, Error>(Error::SameParentNotAllowed),
            match r {
                Ok(c) => old(self)@.breed_error(sender, kitty_id_1, kitty_id_2, true) is None
                    && c == old(self)@.count && exists|seed: Seq<u8>, index: Option<u32>|
                    final(self)@ == old(self)@.bred(
                        sender,
                        kitty_id_1,
                        kitty_id_2,
                        c,
                        #[trigger] blake2_128_of(seed_payload(seed, sender, index)),
                    ),
                Err(e) => final(self)@ == old(self)@ && (old(self)@.breed_error(sender, kitty_id_1, kitty_id_2, true)
                    == Some(e) || (e == Error::NoEnoughBalance && kitty_id_1 != kitty_id_2)),
            },
    {
        if kitty_id_1 == kitty_id_2 {
            return Err(Error::SameParentNotAllowed);
        }
        let amount = env.new_kitty_reserve();
        let reserved = env.reserve(sender, amount);
        let seed = env.random_seed();
        let index = env.extrinsic_index();
        let selector = Self::random_value(&seed, sender, index);
        let r = self.do_breed(sender, kitty_id_1, kitty_id_2, reserved, selector);
        match r {
            Ok(id) => {
                assert(blake2_128_of(seed_payload(seed@, sender, index)) == selector@);
                env.deposit_event(Event::Breed(sender, kitty_id_1, kitty_id_2, id));
            },
            Err(_) => {},
        }
        r
    }

    /// The kitty stored under `id`.
    pub fn kitty_db(&self, id: u32) -> (r: Option<Kitty>)
        ensures
            match r {
                Some(k) => self@.kitties.contains_key(id) && k.0@ == self@.kitties[id],
                None => !self@.kitties.contains_key(id),
            },
    {
        match self.kitty_db.get(&id) {
            Some(k) => Some(*k),
            None => None,
        }
    }

    /// How many ids have been issued: the id of the next kitty.
    pub fn kitties_count(&self) -> (r: u32)
        ensures
            r == self@.count,
    {
        self.kitties_count
    }

    /// The owner of kitty `id`.
    pub fn kitties_owner(&self, id: u32) -> (r: Option<u64>)
        ensures
            match r {
                Some(o) => self@.owners.contains_key(id) && o == self@.owners[id],
                None => !self@.owners.contains_key(id),
            },
    {
        match self.kitty_owner.get(&id) {
            Some(o) => Some(*o),
            None => None,
        }
    }

    /// The ids listed for `who`.
    pub fn kitty_total(&self, who: u64) -> (r: Vec<u32>)
        ensures
            r@ == self@.owned_by(who),
    {
        match self.kitty_total.get(&who) {
            Some(ids) => copy_ids(ids),
            None => Vec::new(),
        }
    }

    /// The parents of kitty `id`, where it was bred.
    pub fn kitty_parents(&self, id: u32) -> (r: Option<(u32, u32)>)
        ensures
            match r {
                Some(p) => self@.parents.contains_key(id) && p == self@.parents[id],
                None => !self@.parents.contains_key(id),
            },
    {
        match self.kitties_parents.get(&id) {
            Some(p) => Some(*p),
            None => None,
        }
    }

    /// The children bred from the ordered pair `(parent1, parent2)`.
    pub fn kitty_children(&self, parent1: u32, parent2: u32) -> (r: Vec<u32>)
        ensures
            r@ == self@.children_of(parent1, parent2),
    {
        let key = key_of_pair(parent1, parent2);
        match self.kitties_children.get(&key) {
            Some(ids) => copy_ids(ids),
            None => Vec::new(),
        }
    }

    /// The siblings recorded for kitty `id`.
    pub fn kitty_siblings(&self, id: u32) -> (r: Vec<u32>)
        ensures
            r@ == self@.siblings_of(id),
    {
        match self.kitties_siblings.get(&id) {
            Some(ids) => copy_ids(ids),
            None => Vec::new(),
        }
    }

    /// The kitties that kitty `id` has bred with.
    pub fn kitty_spouse(&self, id: u32) -> (r: Vec<u32>)
        ensures
            r@ == self@.spouses_of(id),
    {
        match self.kitties_spouse.get(&id) {
            Some(ids) => copy_ids(ids),
            None => Vec::new(),
        }
    }
}

} // verus!
