//! The abstract model of the registry.
//!
//! A registry state is a sequence of hero records in storage order together
//! with the registry owner's identity. Each registry operation has a spec
//! function here that says exactly what it returns and how it changes the
//! state; the executable methods in [`crate::registry`] ensure that they
//! behave like these functions, and the laws in [`crate::laws`] are proved
//! about them.

use vstd::prelude::*;
use crate::hero::HeroError;
use crate::hero::HeroView;

verus! {

/// The abstract state of a [`crate::registry::GameFight`] registry.
#[verifier::ext_equal]
pub struct RegistryView {
    /// The stored records, in storage order (creation order, except that a
    /// creation whose identifier collides with a stored record replaces that
    /// record in place).
    pub heros: Seq<HeroView>,
    /// The identity fixed at registry creation; it alone may delete records,
    /// and editing requires it as well.
    pub owner: Seq<char>,
}

/// No two stored records share an identifier.
pub open spec fn unique_ids(s: Seq<HeroView>) -> bool {
    forall|i: int, j: int|
        0 <= i < s.len() && 0 <= j < s.len() && i != j ==> s[i].id != s[j].id
}

/// Some stored record has identifier `id`.
pub open spec fn has_id(s: Seq<HeroView>, id: nat) -> bool {
    exists|i: int| 0 <= i < s.len() && s[i].id == id
}

/// The position of the record with identifier `id`; meaningful only when
/// `has_id(s, id)` holds, and unique when identifiers are unique.
pub open spec fn idx_of(s: Seq<HeroView>, id: nat) -> int {
    choose|i: int| 0 <= i < s.len() && s[i].id == id
}

/// The stored record with identifier `id`; meaningful only when
/// `has_id(s, id)` holds.
pub open spec fn hero_with_id(s: Seq<HeroView>, id: nat) -> HeroView {
    s[idx_of(s, id)]
}

/// When identifiers are unique, the record at position `i` is exactly the one
/// that looking its own identifier up yields.
pub proof fn lemma_idx_of_unique(s: Seq<HeroView>, i: int)
    requires
        unique_ids(s),
        0 <= i < s.len(),
    ensures
        has_id(s, s[i].id),
        idx_of(s, s[i].id) == i,
{
    assert(has_id(s, s[i].id));
    let j = idx_of(s, s[i].id);
    assert(0 <= j < s.len() && s[j].id == s[i].id);
    assert(j == i);
}

impl RegistryView {
    /// A registry state is well formed when its record identifiers are unique.
    pub open spec fn wf(self) -> bool {
        unique_ids(self.heros)
    }
}

/// Replacing the record at position `i` by one with the same identifier keeps
/// identifiers unique; the new record is then the one found under that
/// identifier, and every other identifier still finds its old record.
pub proof fn lemma_update_same_id(s: Seq<HeroView>, i: int, h: HeroView)
    requires
        unique_ids(s),
        0 <= i < s.len(),
        h.id == s[i].id,
    ensures
        unique_ids(s.update(i, h)),
        has_id(s.update(i, h), h.id),
        hero_with_id(s.update(i, h), h.id) == h,
        forall|id2: nat| id2 != h.id ==> has_id(s.update(i, h), id2) == has_id(s, id2),
        forall|id2: nat|
            id2 != h.id && has_id(s, id2) ==> hero_with_id(s.update(i, h), id2) == hero_with_id(
                s,
                id2,
            ),
{
    let s2 = s.update(i, h);
    assert(unique_ids(s2));
    lemma_idx_of_unique(s2, i);
    assert forall|id2: nat| id2 != h.id implies has_id(s2, id2) == has_id(s, id2) by {
        if has_id(s, id2) {
            let j = idx_of(s, id2);
            assert(s2[j].id == id2);
        }
        if has_id(s2, id2) {
            let j = idx_of(s2, id2);
            assert(s[j].id == id2);
        }
    }
    assert forall|id2: nat| id2 != h.id && has_id(s, id2) implies hero_with_id(s2, id2)
        == hero_with_id(s, id2) by {
        let j = idx_of(s, id2);
        assert(s2[j].id == id2);
        lemma_idx_of_unique(s2, j);
    }
}

/// Appending a record whose identifier is not yet stored keeps identifiers
/// unique; the new record is then the one found under that identifier, and
/// every other identifier still finds its old record.
pub proof fn lemma_push_fresh(s: Seq<HeroView>, h: HeroView)
    requires
        unique_ids(s),
        !has_id(s, h.id),
    ensures
        unique_ids(s.push(h)),
        has_id(s.push(h), h.id),
        hero_with_id(s.push(h), h.id) == h,
        forall|id2: nat| id2 != h.id ==> has_id(s.push(h), id2) == has_id(s, id2),
        forall|id2: nat|
            id2 != h.id && has_id(s, id2) ==> hero_with_id(s.push(h), id2) == hero_with_id(
                s,
                id2,
            ),
{
    let s2 = s.push(h);
    assert forall|j: int| 0 <= j < s.len() implies s[j].id != h.id by {
        assert(has_id(s, s[j].id));
    }
    assert(unique_ids(s2));
    lemma_idx_of_unique(s2, s.len() as int);
    assert forall|id2: nat| id2 != h.id implies has_id(s2, id2) == has_id(s, id2) by {
        if has_id(s, id2) {
            let j = idx_of(s, id2);
            assert(s2[j].id == id2);
        }
        if has_id(s2, id2) {
            let j = idx_of(s2, id2);
            assert(s[j].id == id2);
        }
    }
    assert forall|id2: nat| id2 != h.id && has_id(s, id2) implies hero_with_id(s2, id2)
        == hero_with_id(s, id2) by {
        let j = idx_of(s, id2);
        assert(s2[j].id == id2);
        lemma_idx_of_unique(s2, j);
    }
}

/// Removing the record at position `i` keeps identifiers unique, its
/// identifier is no longer stored afterwards, and every other identifier
/// still finds its old record.
pub proof fn lemma_remove_id(s: Seq<HeroView>, i: int)
    requires
        unique_ids(s),
        0 <= i < s.len(),
    ensures
        unique_ids(s.remove(i)),
        !has_id(s.remove(i), s[i].id),
        forall|id2: nat| id2 != s[i].id ==> has_id(s.remove(i), id2) == has_id(s, id2),
        forall|id2: nat|
            id2 != s[i].id && has_id(s, id2) ==> hero_with_id(s.remove(i), id2) == hero_with_id(
                s,
                id2,
            ),
{
    s.remove_ensures(i);
    let s2 = s.remove(i);
    assert forall|p: int, q: int|
        0 <= p < s2.len() && 0 <= q < s2.len() && p != q implies s2[p].id != s2[q].id by {
        let sp = if p < i { p } else { p + 1 };
        let sq = if q < i { q } else { q + 1 };
        assert(s2[p] == s[sp]);
        assert(s2[q] == s[sq]);
    }
    assert forall|j: int| 0 <= j < s2.len() implies s2[j].id != s[i].id by {
        let sj = if j < i { j } else { j + 1 };
        assert(s2[j] == s[sj]);
    }
    assert(!has_id(s2, s[i].id));
    assert forall|id2: nat| id2 != s[i].id implies has_id(s2, id2) == has_id(s, id2) by {
        if has_id(s, id2) {
            let j = idx_of(s, id2);
            let nj = if j < i { j } else { j - 1 };
            assert(s2[nj] == s[j]);
            assert(has_id(s2, id2));
        }
        if has_id(s2, id2) {
            let j = idx_of(s2, id2);
            let sj = if j < i { j } else { j + 1 };
            assert(s[sj] == s2[j]);
            assert(has_id(s, id2));
        }
    }
    assert forall|id2: nat| id2 != s[i].id && has_id(s, id2) implies hero_with_id(s2, id2)
        == hero_with_id(s, id2) by {
        let j = idx_of(s, id2);
        let nj = if j < i { j } else { j - 1 };
        assert(s2[nj] == s[j]);
        lemma_idx_of_unique(s2, nj);
    }
}

/// A freshly created record: level and damage start at zero, health at 100,
/// and the creating caller becomes the record's owner.
pub open spec fn new_hero(id: nat, name: Seq<char>, owner: Seq<char>) -> HeroView {
    HeroView { name, level: 0, damage: 0, health: 100, id, owner }
}

/// What a creation does: the new identifier is the current record count (not a
/// monotonic counter, so after deletions it can equal a stored identifier, in
/// which case the stored record is overwritten in place); the record starts as
/// [`new_hero`] with the caller as owner. Any caller may create; the result is
/// the new state and the returned identifier.
pub open spec fn spec_create(s: RegistryView, caller: Seq<char>, name: Seq<char>) -> (RegistryView, nat) {
    let id: nat = s.heros.len();
    let h = new_hero(id, name, caller);
    let heros = if has_id(s.heros, id) {
        s.heros.update(idx_of(s.heros, id), h)
    } else {
        s.heros.push(h)
    };
    (RegistryView { heros, owner: s.owner }, id)
}

/// What a lookup returns: the stored record, or `NotFound` when `id` is
/// absent. Any caller may read.
pub open spec fn spec_get(s: RegistryView, id: nat) -> Result<HeroView, HeroError> {
    if has_id(s.heros, id) {
        Ok(hero_with_id(s.heros, id))
    } else {
        Err(HeroError::NotFound)
    }
}

/// What a deletion does: only the registry owner may delete; deleting an
/// absent identifier is a silent no-op, deleting a stored one removes it.
pub open spec fn spec_delete(s: RegistryView, caller: Seq<char>, id: nat) -> Result<RegistryView, HeroError> {
    if caller != s.owner {
        Err(HeroError::NotRegistryOwner)
    } else if has_id(s.heros, id) {
        Ok(RegistryView { heros: s.heros.remove(idx_of(s.heros, id)), owner: s.owner })
    } else {
        Ok(s)
    }
}

/// What an edit does: the caller must be the registry owner, the identifier
/// must be stored, and the caller must also be the hero's owner — the checks
/// fail in that order. On success only the record's name changes.
pub open spec fn spec_edit(s: RegistryView, caller: Seq<char>, id: nat, name: Seq<char>) -> Result<RegistryView, HeroError> {
    if caller != s.owner {
        Err(HeroError::NotRegistryOwner)
    } else if !has_id(s.heros, id) {
        Err(HeroError::NotFound)
    } else if caller != hero_with_id(s.heros, id).owner {
        Err(HeroError::NotHeroOwner)
    } else {
        let i = idx_of(s.heros, id);
        let h = s.heros[i];
        Ok(RegistryView { heros: s.heros.update(i, (HeroView { name, ..h })), owner: s.owner })
    }
}

/// What a level-up does: the identifier must be stored and the caller must be
/// the hero's owner — the lookup fails first. On success the record's level
/// grows by exactly 1 and its health by exactly 50; nothing else changes.
pub open spec fn spec_lvlup(s: RegistryView, caller: Seq<char>, id: nat) -> Result<RegistryView, HeroError> {
    if !has_id(s.heros, id) {
        Err(HeroError::NotFound)
    } else if caller != hero_with_id(s.heros, id).owner {
        Err(HeroError::NotHeroOwner)
    } else {
        let i = idx_of(s.heros, id);
        let h = s.heros[i];
        Ok(RegistryView {
            heros: s.heros.update(i, (HeroView { level: h.level + 1, health: h.health + 50, ..h })),
            owner: s.owner,
        })
    }
}

/// A level-up that would succeed stays within the counters' machine range.
/// Level and health have no upper bound in the registry's rules, so growing
/// past the representable range is left out of the operation's domain rather
/// than handled.
pub open spec fn lvlup_fits(s: RegistryView, caller: Seq<char>, id: nat) -> bool {
    (has_id(s.heros, id) && caller == hero_with_id(s.heros, id).owner) ==> {
        let h = hero_with_id(s.heros, id);
        h.level + 1 <= u8::MAX && h.health + 50 <= u16::MAX
    }
}

} // verus!
