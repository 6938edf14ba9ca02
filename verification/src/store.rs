//! The paste store: the one collection of all entities, searched by id from the front.
//!
//! Whoever shares the store between request handlers guards it with one lock and mirrors
//! each change to the durable index; every function here says which change that is.

use crate::pasta::Pasta;
use vstd::prelude::*;

verus! {

/// What the durable index has to do to follow a change of the store.
#[derive(Clone, Copy, Debug, PartialEq, Eq, Structural)]
pub enum IndexAction {
    /// Write the rows of the entities with this id.
    Upsert { id: u64 },
    /// Delete the rows with this id.
    Delete { id: u64 },
}

/// The store holds an entity with the id `id`.
pub open spec fn holds(pastas: Seq<Pasta>, id: u64) -> bool {
    exists|i: int| 0 <= i < pastas.len() && (#[trigger] pastas[i]).id == id
}

/// `i` is the place of the first entity with the id `id`.
pub open spec fn first_with_id(pastas: Seq<Pasta>, id: u64, i: int) -> bool {
    &&& 0 <= i < pastas.len()
    &&& pastas[i].id == id
    &&& forall|j: int| 0 <= j < i ==> (#[trigger] pastas[j]).id != id
}

/// Puts an entity at the end of the store. Nothing that was there is lost or moved.
pub fn insert(pastas: &mut Vec<Pasta>, pasta: Pasta) -> (action: IndexAction)
    ensures
        final(pastas)@ == old(pastas)@.push(pasta),
        action == (IndexAction::Upsert { id: pasta.id }),
{
    let id = pasta.id;
    pastas.push(pasta);
    IndexAction::Upsert { id }
}

/// The place of the first entity with the id `id`, if there is one.
pub fn position_by_id(pastas: &Vec<Pasta>, id: u64) -> (r: Option<usize>)
    ensures
        r matches Some(i) ==> first_with_id(pastas@, id, i as int),
        r is None ==> !holds(pastas@, id),
{
    let mut i: usize = 0;
    while i < pastas.len()
        invariant
            i <= pastas.len(),
            forall|j: int| 0 <= j < i ==> (#[trigger] pastas@[j]).id != id,
        decreases pastas.len() - i,
    {
        if pastas[i].id == id {
            return Some(i);
        }
        i += 1;
    }
    None
}

/// The first entity with the id `id`, if there is one.
pub fn find_by_id(pastas: &Vec<Pasta>, id: u64) -> (r: Option<&Pasta>)
    ensures
        r matches Some(p) ==> exists|i: int| first_with_id(pastas@, id, i) && pastas@[i] == *p,
        r is None ==> !holds(pastas@, id),
{
    match position_by_id(pastas, id) {
        Some(i) => Some(&pastas[i]),
        None => None,
    }
}

/// Takes the first entity with the id `id` out of the store and hands it back; the others
/// keep their order. Where there is none the store stays as it is. The row in the durable
/// index is to be deleted either way.
pub fn remove_by_id(pastas: &mut Vec<Pasta>, id: u64) -> (r: (Option<Pasta>, IndexAction))
    ensures
        r.1 == (IndexAction::Delete { id }),
        r.0 matches Some(p) ==> exists|i: int|
            first_with_id(old(pastas)@, id, i) && old(pastas)@[i] == p && final(pastas)@ == old(
                pastas,
            )@.remove(i),
        r.0 is None ==> !holds(old(pastas)@, id) && final(pastas)@ == old(pastas)@,
{
    match position_by_id(pastas, id) {
        Some(i) => {
            let p = pastas.remove(i);
            (Some(p), IndexAction::Delete { id })
        },
        None => (None, IndexAction::Delete { id }),
    }
}

/// The store after the entities of `new` have been put into it one after the other.
pub open spec fn after_inserts(before: Seq<Pasta>, new: Seq<Pasta>) -> Seq<Pasta>
    decreases new.len(),
{
    if new.len() == 0 {
        before
    } else {
        after_inserts(before, new.drop_last()).push(new.last())
    }
}

/// No two of the entities have the same id.
pub open spec fn distinct_ids(pastas: Seq<Pasta>) -> bool {
    forall|i: int, j: int|
        0 <= i < j < pastas.len() ==> (#[trigger] pastas[i]).id != (#[trigger] pastas[j]).id
}

/// No entity of `new` has an id that an entity of `before` has.
pub open spec fn fresh_ids(before: Seq<Pasta>, new: Seq<Pasta>) -> bool {
    forall|i: int, k: int|
        0 <= i < before.len() && 0 <= k < new.len() ==> (#[trigger] before[i]).id != (
        #[trigger] new[k]).id
}

/// No insert is lost: entities with ids that differ from one another and from those in the
/// store, put into the store in whatever order the lock lets their inserts through, are all
/// there afterwards behind what the store held, each one found under its id and nowhere
/// else; and what the store held before is as it was.
pub proof fn lemma_no_insert_is_lost(before: Seq<Pasta>, new: Seq<Pasta>)
    requires
        distinct_ids(new),
        fresh_ids(before, new),
    ensures
        after_inserts(before, new) == before + new,
        after_inserts(before, new).len() == before.len() + new.len(),
        after_inserts(before, new).take(before.len() as int) == before,
        forall|k: int|
            0 <= k < new.len() ==> first_with_id(
                after_inserts(before, new),
                (#[trigger] new[k]).id,
                before.len() + k,
            ),
        forall|j: int, k: int|
            0 <= j < before.len() + new.len() && 0 <= k < new.len() && (#[trigger] after_inserts(
                before,
                new,
            )[j]).id == (#[trigger] new[k]).id ==> j == before.len() + k,
    decreases new.len(),
{
    if new.len() > 0 {
        let rest = new.drop_last();
        assert(distinct_ids(rest)) by {
            assert forall|i: int, j: int| 0 <= i < j < rest.len() implies (#[trigger] rest[i]).id
                != (#[trigger] rest[j]).id by {
                assert(rest[i] == new[i] && rest[j] == new[j]);
            }
        }
        assert(fresh_ids(before, rest)) by {
            assert forall|i: int, k: int|
                0 <= i < before.len() && 0 <= k < rest.len() implies (#[trigger] before[i]).id
                != (#[trigger] rest[k]).id by {
                assert(rest[k] == new[k]);
            }
        }
        lemma_no_insert_is_lost(before, rest);
        assert(rest.push(new.last()) =~= new);
        assert((before + rest).push(new.last()) =~= before + new);
    } else {
        assert(before + new =~= before);
    }
    let all = before + new;
    assert(all.take(before.len() as int) =~= before);
    assert forall|j: int, k: int|
        0 <= j < before.len() + new.len() && 0 <= k < new.len() && (#[trigger] all[j]).id == (
        #[trigger] new[k]).id implies j == before.len() + k by {
        if j < before.len() {
            assert(all[j] == before[j]);
        } else {
            assert(all[j] == new[j - before.len()]);
        }
    }
    assert forall|k: int| 0 <= k < new.len() implies first_with_id(
        all,
        (#[trigger] new[k]).id,
        before.len() + k,
    ) by {
        assert(all[before.len() + k] == new[k]);
    }
}

} // verus!
