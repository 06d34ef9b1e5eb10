//! Laws of the registry, proved over the model in [`crate::model`].
//!
//! Each executable operation of [`crate::registry::GameFight`] ensures that it
//! behaves like the corresponding spec function of the model, so every law
//! proved here holds of the executable registry as well.

use vstd::prelude::*;
use crate::hero::HeroError;
use crate::hero::HeroView;
use crate::model::RegistryView;
use crate::model::has_id;
use crate::model::hero_with_id;
use crate::model::idx_of;
use crate::model::lemma_idx_of_unique;
use crate::model::lemma_push_fresh;
use crate::model::lemma_remove_id;
use crate::model::lemma_update_same_id;
use crate::model::new_hero;
use crate::model::spec_create;
use crate::model::spec_delete;
use crate::model::spec_edit;
use crate::model::spec_get;
use crate::model::spec_lvlup;
use crate::model::unique_ids;

verus! {

/// An empty registry owned by the given identity: the state a freshly created
/// [`crate::registry::GameFight`] has.
pub open spec fn fresh_registry(owner: Seq<char>) -> RegistryView {
    RegistryView { heros: Seq::empty(), owner }
}

/// The state after performing the given creations in order, starting from
/// `s`; each request is a pair of the caller's identity and the hero's name.
pub open spec fn run_creates(s: RegistryView, reqs: Seq<(Seq<char>, Seq<char>)>) -> RegistryView
    decreases reqs.len(),
{
    if reqs.len() == 0 {
        s
    } else {
        spec_create(run_creates(s, reqs.drop_last()), reqs.last().0, reqs.last().1).0
    }
}

/// The identifiers returned by the given creations, in call order.
pub open spec fn created_ids(s: RegistryView, reqs: Seq<(Seq<char>, Seq<char>)>) -> Seq<nat>
    decreases reqs.len(),
{
    if reqs.len() == 0 {
        Seq::empty()
    } else {
        created_ids(s, reqs.drop_last()).push(
            spec_create(run_creates(s, reqs.drop_last()), reqs.last().0, reqs.last().1).1,
        )
    }
}

/// Law: starting from a fresh registry, a sequence of creations with no
/// deletions returns the identifiers 0, 1, 2, ... in call order — hence all
/// distinct — and afterwards the i-th stored record is exactly the i-th
/// request's fresh record: its id field equals i, its owner is the i-th
/// caller, its name the i-th name. The registry owner never changes.
pub proof fn lemma_create_ids_sequential(owner: Seq<char>, reqs: Seq<(Seq<char>, Seq<char>)>)
    ensures
        created_ids(fresh_registry(owner), reqs).len() == reqs.len(),
        forall|i: int|
            0 <= i < reqs.len() ==> created_ids(fresh_registry(owner), reqs)[i] == i,
        run_creates(fresh_registry(owner), reqs).heros.len() == reqs.len(),
        run_creates(fresh_registry(owner), reqs).owner == owner,
        forall|i: int|
            0 <= i < reqs.len() ==> run_creates(fresh_registry(owner), reqs).heros[i] == new_hero(
                i as nat,
                reqs[i].1,
                reqs[i].0,
            ),
    decreases reqs.len(),
{
    if reqs.len() > 0 {
        let s0 = fresh_registry(owner);
        let prev = reqs.drop_last();
        lemma_create_ids_sequential(owner, prev);
        let sp = run_creates(s0, prev);
        let n = prev.len();
        assert forall|j: int| 0 <= j < sp.heros.len() implies sp.heros[j].id != n by {
            assert(sp.heros[j] == new_hero(j as nat, prev[j].1, prev[j].0));
        }
        assert(!has_id(sp.heros, n));
        assert(run_creates(s0, reqs).heros == sp.heros.push(
            new_hero(n, reqs.last().1, reqs.last().0),
        ));
    }
}

/// Law: after the creations of [`lemma_create_ids_sequential`], looking each
/// returned identifier up succeeds and yields that request's fresh record,
/// whose own id field is the identifier it is stored under.
pub proof fn lemma_fresh_creations_retrievable(owner: Seq<char>, reqs: Seq<(Seq<char>, Seq<char>)>)
    ensures
        run_creates(fresh_registry(owner), reqs).wf(),
        forall|i: int|
            0 <= i < reqs.len() ==> spec_get(run_creates(fresh_registry(owner), reqs), i as nat)
                == Ok::<HeroView, HeroError>(new_hero(i as nat, reqs[i].1, reqs[i].0)),
{
    lemma_create_ids_sequential(owner, reqs);
    let sn = run_creates(fresh_registry(owner), reqs);
    assert forall|j: int| 0 <= j < sn.heros.len() implies sn.heros[j].id == j by {
        assert(sn.heros[j] == new_hero(j as nat, reqs[j].1, reqs[j].0));
    }
    assert(unique_ids(sn.heros));
    assert forall|i: int| 0 <= i < reqs.len() implies spec_get(sn, i as nat) == Ok::<
        HeroView,
        HeroError,
    >(new_hero(i as nat, reqs[i].1, reqs[i].0)) by {
        lemma_idx_of_unique(sn.heros, i);
    }
}

/// Law: a creation by a caller yields a record owned by that caller, with
/// level 0, health 100 and damage 0 and the requested name, stored under the
/// returned identifier; every other record keeps its value, well-formedness
/// is preserved and the registry owner does not change. No authorization is
/// required to create.
pub proof fn lemma_create_hero_fields(s: RegistryView, caller: Seq<char>, name: Seq<char>)
    requires
        s.wf(),
    ensures
        ({
            let (s2, id) = spec_create(s, caller, name);
            let h = new_hero(id, name, caller);
            &&& s2.wf()
            &&& s2.owner == s.owner
            &&& spec_get(s2, id) == Ok::<HeroView, HeroError>(h)
            &&& h.owner == caller
            &&& h.name == name
            &&& h.level == 0
            &&& h.health == 100
            &&& h.damage == 0
            &&& forall|id2: nat|
                id2 != id && has_id(s.heros, id2) ==> spec_get(s2, id2) == spec_get(s, id2)
        }),
{
    let (s2, id) = spec_create(s, caller, name);
    let h = new_hero(id, name, caller);
    if has_id(s.heros, id) {
        let i = idx_of(s.heros, id);
        lemma_update_same_id(s.heros, i, h);
    } else {
        lemma_push_fresh(s.heros, h);
    }
}

/// Law: a level-up of a stored hero by its owner increments the record's
/// level by exactly 1 and its health by exactly 50, and leaves its name,
/// damage, owner and id unchanged, as well as every other record and the
/// registry owner; by any other caller it fails as unauthorized. (The
/// executable operation additionally leaves the whole state unchanged on
/// every failure: see `lvlup_hero`'s contract.)
pub proof fn lemma_lvlup_effect(s: RegistryView, caller: Seq<char>, id: nat)
    requires
        s.wf(),
        has_id(s.heros, id),
    ensures
        caller == hero_with_id(s.heros, id).owner ==> ({
            let s2 = spec_lvlup(s, caller, id)->Ok_0;
            let h = hero_with_id(s.heros, id);
            let h2 = hero_with_id(s2.heros, id);
            &&& spec_lvlup(s, caller, id) is Ok
            &&& s2.wf()
            &&& s2.owner == s.owner
            &&& has_id(s2.heros, id)
            &&& h2.level == h.level + 1
            &&& h2.health == h.health + 50
            &&& h2.name == h.name
            &&& h2.damage == h.damage
            &&& h2.owner == h.owner
            &&& h2.id == h.id
            &&& forall|id2: nat|
                id2 != id && has_id(s.heros, id2) ==> spec_get(s2, id2) == spec_get(s, id2)
        }),
        caller != hero_with_id(s.heros, id).owner ==> ({
            &&& spec_lvlup(s, caller, id) is Err
            &&& spec_lvlup(s, caller, id)->Err_0 == HeroError::NotHeroOwner
            &&& spec_lvlup(s, caller, id)->Err_0.is_unauthorized()
        }),
{
    if caller == hero_with_id(s.heros, id).owner {
        let i = idx_of(s.heros, id);
        let h = s.heros[i];
        let h2 = HeroView { level: h.level + 1, health: h.health + 50, ..h };
        lemma_update_same_id(s.heros, i, h2);
    }
}

/// Law: an edit succeeds exactly when the caller is simultaneously the
/// registry owner and the stored target's owner; on success only that
/// record's name changes — its other fields, every other record and the
/// registry owner keep their values. A caller that is not the registry owner
/// fails as unauthorized before the lookup; the registry owner fails with
/// `NotFound` on an absent identifier, and as unauthorized on a hero it does
/// not own. (The executable operation leaves the whole state unchanged on
/// every failure: see `edit_hero`'s contract.)
pub proof fn lemma_edit_authorization(
    s: RegistryView,
    caller: Seq<char>,
    id: nat,
    name: Seq<char>,
)
    requires
        s.wf(),
    ensures
        spec_edit(s, caller, id, name) is Ok <==> (caller == s.owner && has_id(s.heros, id)
            && caller == hero_with_id(s.heros, id).owner),
        spec_edit(s, caller, id, name) is Ok ==> ({
            let s2 = spec_edit(s, caller, id, name)->Ok_0;
            let h = hero_with_id(s.heros, id);
            let h2 = hero_with_id(s2.heros, id);
            &&& s2.wf()
            &&& s2.owner == s.owner
            &&& has_id(s2.heros, id)
            &&& h2.name == name
            &&& h2.level == h.level
            &&& h2.damage == h.damage
            &&& h2.health == h.health
            &&& h2.owner == h.owner
            &&& h2.id == h.id
            &&& forall|id2: nat|
                id2 != id && has_id(s.heros, id2) ==> spec_get(s2, id2) == spec_get(s, id2)
        }),
        caller != s.owner ==> spec_edit(s, caller, id, name) == Err::<RegistryView, HeroError>(
            HeroError::NotRegistryOwner,
        ) && spec_edit(s, caller, id, name)->Err_0.is_unauthorized(),
        caller == s.owner && !has_id(s.heros, id) ==> spec_edit(s, caller, id, name) == Err::<
            RegistryView,
            HeroError,
        >(HeroError::NotFound),
        caller == s.owner && has_id(s.heros, id) && caller != hero_with_id(s.heros, id).owner
            ==> spec_edit(s, caller, id, name) == Err::<RegistryView, HeroError>(
            HeroError::NotHeroOwner,
        ) && spec_edit(s, caller, id, name)->Err_0.is_unauthorized(),
{
    if caller == s.owner && has_id(s.heros, id) && caller == hero_with_id(s.heros, id).owner {
        let i = idx_of(s.heros, id);
        let h = s.heros[i];
        let h2 = HeroView { name, ..h };
        lemma_update_same_id(s.heros, i, h2);
    }
}

/// Law: a deletion by the registry owner removes the record — afterwards the
/// identifier is no longer stored and a lookup of it reports `NotFound` —
/// while every other record and the registry owner keep their values; by any
/// other caller the deletion fails as unauthorized. (The executable
/// operation leaves the whole state unchanged on every failure: see
/// `delete_hero`'s contract.)
pub proof fn lemma_delete_then_get(s: RegistryView, caller: Seq<char>, id: nat)
    requires
        s.wf(),
    ensures
        caller == s.owner ==> ({
            let s2 = spec_delete(s, caller, id)->Ok_0;
            &&& spec_delete(s, caller, id) is Ok
            &&& s2.wf()
            &&& s2.owner == s.owner
            &&& !has_id(s2.heros, id)
            &&& spec_get(s2, id) == Err::<HeroView, HeroError>(HeroError::NotFound)
            &&& forall|id2: nat|
                id2 != id && has_id(s.heros, id2) ==> spec_get(s2, id2) == spec_get(s, id2)
        }),
        caller != s.owner ==> spec_delete(s, caller, id) == Err::<RegistryView, HeroError>(
            HeroError::NotRegistryOwner,
        ) && spec_delete(s, caller, id)->Err_0.is_unauthorized(),
{
    if caller == s.owner && has_id(s.heros, id) {
        let i = idx_of(s.heros, id);
        lemma_remove_id(s.heros, i);
    }
}

/// Law: a lookup or a level-up of an absent identifier reports `NotFound`,
/// an edit of one by the registry owner reports `NotFound` as well (a caller
/// that is not the registry owner fails that check first), and a deletion of
/// one by the registry owner succeeds silently and changes nothing.
pub proof fn lemma_missing_id(s: RegistryView, caller: Seq<char>, id: nat, name: Seq<char>)
    requires
        s.wf(),
        !has_id(s.heros, id),
    ensures
        spec_get(s, id) == Err::<HeroView, HeroError>(HeroError::NotFound),
        spec_lvlup(s, caller, id) == Err::<RegistryView, HeroError>(HeroError::NotFound),
        caller == s.owner ==> spec_edit(s, caller, id, name) == Err::<RegistryView, HeroError>(
            HeroError::NotFound,
        ),
        caller == s.owner ==> spec_delete(s, caller, id) == Ok::<RegistryView, HeroError>(s),
{
}

} // verus!
