use crate::dna::{mix_byte, mix_dna};
use crate::module::{add_spouse, list_at, others, Error, KittiesView};
use vstd::prelude::*;

verus! {

/// A created kitty gets the next id: no kitty holds it yet, every earlier id
/// is smaller, its owner is the caller, and the registry stays well formed.
pub proof fn lemma_create_fresh_id(v: KittiesView, owner: u64, dna: Seq<u8>)
    requires
        v.wf(),
        v.create_error(true) is None,
        dna.len() == 16,
    ensures
        !v.kitties.contains_key(v.count),
        forall|id: u32| #[trigger] v.kitties.contains_key(id) ==> id < v.count,
        v.with_kitty(owner, v.count, dna).owners[v.count] == owner,
        v.with_kitty(owner, v.count, dna).count > v.count,
        v.with_kitty(owner, v.count, dna).wf(),
{
}

/// Swapping the parents under one selector is the same as inverting the
/// selector: each child byte is the selector mix of the parents in the
/// order given.
pub proof fn lemma_breed_order(v: KittiesView, sender: u64, a: u32, b: u32, selector: Seq<u8>)
    requires
        v.wf(),
        v.breed_error(sender, a, b, true) is None,
        selector.len() == 16,
    ensures
        v.breed_error(sender, b, a, true) is None,
        v.bred(sender, a, b, v.count, selector).kitties[v.count] == mix_dna(v.kitties[a], v.kitties[b], selector),
        v.bred(sender, b, a, v.count, selector).kitties[v.count] == mix_dna(v.kitties[b], v.kitties[a], selector),
        forall|i: int|
            0 <= i < 16 ==> #[trigger] mix_dna(v.kitties[b], v.kitties[a], selector)[i] == mix_byte(
                v.kitties[a][i],
                v.kitties[b][i],
                !selector[i],
            ),
{
    assert forall|i: int| 0 <= i < 16 implies #[trigger] mix_dna(v.kitties[b], v.kitties[a], selector)[i]
        == mix_byte(v.kitties[a][i], v.kitties[b][i], !selector[i]) by {
        let x = v.kitties[a][i];
        let y = v.kitties[b][i];
        let s = selector[i];
        assert((s & y) | (!s & x) == (!s & x) | (!(!s) & y)) by (bit_vector);
    }
}

/// A kitty never breeds with itself, whatever its owner and balance.
pub proof fn lemma_same_parent_refused(v: KittiesView, sender: u64, id: u32, reserved: bool)
    ensures
        v.breed_error(sender, id, id, reserved) == Some(Error::SameParentNotAllowed),
{
}

/// After a transfer the recipient owns the kitty, and it leaves the sender's
/// list and joins the recipient's.
pub proof fn lemma_transfer_moves(v: KittiesView, from: u64, to: u64, id: u32)
    requires
        v.wf(),
        v.transfer_error(from, to, id) is None,
    ensures
        v.transferred(from, to, id).owners[id] == to,
        !v.transferred(from, to, id).owned_by(from).contains(id),
        v.transferred(from, to, id).owned_by(to).contains(id),
        v.transferred(from, to, id).wf(),
{
    let w = v.transferred(from, to, id);
    assert(w.owned_by(from) == others(v.owned_by(from), id));
    if others(v.owned_by(from), id).contains(id) {
        v.owned_by(from).lemma_filter_contains_rev(|y: u32| y != id, id);
    }
    assert(w.owned_by(to)[w.owned_by(to).len() - 1] == id);
    assert(w.owners.dom() =~= v.owners.dom());
}

/// A bred child records its parents, stands among the children of the pair,
/// and its siblings are the pair's other children.
pub proof fn lemma_breed_genealogy(v: KittiesView, sender: u64, p1: u32, p2: u32, selector: Seq<u8>)
    requires
        v.wf(),
        v.breed_error(sender, p1, p2, true) is None,
    ensures
        v.bred(sender, p1, p2, v.count, selector).parents[v.count] == (p1, p2),
        v.bred(sender, p1, p2, v.count, selector).children_of(p1, p2).contains(v.count),
        v.bred(sender, p1, p2, v.count, selector).siblings_of(v.count) == others(
            v.bred(sender, p1, p2, v.count, selector).children_of(p1, p2),
            v.count,
        ),
{
    let w = v.bred(sender, p1, p2, v.count, selector);
    let kids = w.children_of(p1, p2);
    assert(kids[kids.len() - 1] == v.count);
}

proof fn lemma_push_new_no_duplicates(s: Seq<u32>, x: u32)
    requires
        s.no_duplicates(),
        !s.contains(x),
    ensures
        s.push(x).no_duplicates(),
{
    assert forall|i: int, j: int| 0 <= i < s.push(x).len() && 0 <= j < s.push(x).len() && i != j implies s.push(x)[i]
        != s.push(x)[j] by {
        if i == s.len() as int {
            assert(s[j] == s.push(x)[j]);
        } else if j == s.len() as int {
            assert(s[i] == s.push(x)[i]);
        }
    }
}

proof fn lemma_add_spouse(m: Map<u32, Seq<u32>>, a: u32, b: u32)
    requires
        list_at(m, a).no_duplicates(),
    ensures
        list_at(add_spouse(m, a, b), a).contains(b),
        list_at(add_spouse(m, a, b), a).no_duplicates(),
        forall|k: u32| k != a ==> #[trigger] list_at(add_spouse(m, a, b), k) == list_at(m, k),
{
    if !list_at(m, a).contains(b) {
        lemma_push_new_no_duplicates(list_at(m, a), b);
        let l = list_at(m, a).push(b);
        assert(l[l.len() - 1] == b);
    }
}

/// Breeding links the parents as spouses both ways, and a spouse list with no
/// repeated entry keeps none, however often the pair breeds.
pub proof fn lemma_breed_spouses(v: KittiesView, sender: u64, p1: u32, p2: u32, selector: Seq<u8>)
    requires
        v.wf(),
        v.breed_error(sender, p1, p2, true) is None,
        v.spouses_of(p1).no_duplicates(),
        v.spouses_of(p2).no_duplicates(),
    ensures
        v.bred(sender, p1, p2, v.count, selector).spouses_of(p1).contains(p2),
        v.bred(sender, p1, p2, v.count, selector).spouses_of(p2).contains(p1),
        v.bred(sender, p1, p2, v.count, selector).spouses_of(p1).no_duplicates(),
        v.bred(sender, p1, p2, v.count, selector).spouses_of(p2).no_duplicates(),
{
    let m0 = v.spouses;
    lemma_add_spouse(m0, p1, p2);
    let m1 = add_spouse(m0, p1, p2);
    assert(list_at(m1, p2) == list_at(m0, p2));
    lemma_add_spouse(m1, p2, p1);
}

/// Once every id has been issued, creating or breeding is refused, and with
/// all other checks passed breeding is refused for that reason.
pub proof fn lemma_ids_exhausted(v: KittiesView, sender: u64, id1: u32, id2: u32, reserved: bool)
    requires
        v.count == u32::MAX,
    ensures
        v.create_error(reserved) == Some(Error::KittiesCountOverflow),
        v.breed_error(sender, id1, id2, reserved) is Some,
        id1 != id2 && reserved && v.kitties.contains_key(id1) && v.kitties.contains_key(id2)
            && v.owners.contains_key(id1) && v.owners.contains_key(id2) && v.owners[id1] == sender
            && v.owners[id2] == sender ==> v.breed_error(sender, id1, id2, reserved) == Some(
            Error::KittiesCountOverflow,
        ),
{
}

} // verus!
