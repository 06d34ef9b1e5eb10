//! The executable registry and its access-controlled operations.
//!
//! Every operation takes the caller's identity as an explicit `caller`
//! argument; the hosting environment is responsible for supplying an
//! authentic identity. Each method's contract says that it behaves exactly
//! like the corresponding spec function of [`crate::model`].

use vstd::prelude::*;
use crate::hero::Hero;
use crate::hero::HeroError;
use crate::hero::HeroView;
use crate::model::RegistryView;
use crate::model::has_id;
use crate::model::idx_of;
use crate::model::lemma_idx_of_unique;
use crate::model::new_hero;
use crate::model::spec_create;
use crate::model::spec_delete;
use crate::model::spec_edit;
use crate::model::spec_get;
use crate::model::spec_lvlup;
use crate::model::lvlup_fits;
use crate::model::unique_ids;

verus! {

/// A registry of hero records, keyed by integer identifier, with a single
/// registry owner fixed at creation.
pub struct GameFight {
    /// A secondary index from identity to a last known hero name. It is part
    /// of the stored state but no exposed operation reads or writes it.
    #[allow(dead_code)]
    records_heros: Vec<(String, String)>,
    /// The stored records; identifiers are unique (see [`RegistryView::wf`]).
    heros: Vec<Hero>,
    /// The identity that created the registry.
    owner: String,
}

impl View for GameFight {
    type V = RegistryView;

    closed spec fn view(&self) -> RegistryView {
        RegistryView { heros: self.heros@.map_values(|h: Hero| h@), owner: self.owner@ }
    }
}

impl GameFight {
    /// The registry's invariant: stored identifiers are unique. Constructors
    /// establish it and every operation preserves it.
    pub open spec fn wf(self) -> bool {
        self@.wf()
    }

    /// Create an empty registry owned by the given identity.
    pub fn new(owner: String) -> (r: Self)
        ensures
            r.wf(),
            r@.heros == Seq::<HeroView>::empty(),
            r@.owner == owner@,
    {
        let r = GameFight { records_heros: Vec::new(), heros: Vec::new(), owner };
        proof {
            assert(r@.heros =~= Seq::<HeroView>::empty());
        }
        r
    }

    /// Rebuild a registry from a stored owner and records, as the hosting
    /// environment hands them back between calls. Succeeds exactly when the
    /// records' identifiers are unique, and then holds exactly those records,
    /// in the given order.
    pub fn from_records(owner: String, heros: Vec<Hero>) -> (r: Option<GameFight>)
        ensures
            match r {
                Some(g) => {
                    &&& g.wf()
                    &&& g@.heros == heros@.map_values(|h: Hero| h@)
                    &&& g@.owner == owner@
                },
                None => !unique_ids(heros@.map_values(|h: Hero| h@)),
            },
    {
        let ghost hs = heros@.map_values(|h: Hero| h@);
        let n: usize = heros.len();
        let mut i: usize = 0;
        while i < n
            invariant
                i <= n,
                n == heros.len(),
                hs == heros@.map_values(|h: Hero| h@),
                forall|p: int, q: int| 0 <= p < i && p < q < n ==> hs[p].id != hs[q].id,
            decreases n - i,
        {
            let mut j: usize = i + 1;
            while j < n
                invariant
                    i < j <= n,
                    i < n,
                    n == heros.len(),
                    hs == heros@.map_values(|h: Hero| h@),
                    forall|q: int| i < q < j ==> hs[i as int].id != hs[q].id,
                decreases n - j,
            {
                if heros[i].id == heros[j].id {
                    proof {
                        assert(hs[i as int].id == hs[j as int].id && i != j);
                    }
                    return None;
                }
                j = j + 1;
            }
            i = i + 1;
        }
        let g = GameFight { records_heros: Vec::new(), heros, owner };
        proof {
            assert forall|p: int, q: int|
                0 <= p < hs.len() && 0 <= q < hs.len() && p != q implies hs[p].id != hs[q].id by {
                if p > q {
                    assert(hs[q].id != hs[p].id);
                }
            }
            assert(unique_ids(g@.heros));
        }
        Some(g)
    }

    /// The position of the record with identifier `id`, if any is stored.
    fn find_index(&self, id: usize) -> (r: Option<usize>)
        ensures
            match r {
                Some(i) => i < self@.heros.len() && self@.heros[i as int].id == id as nat,
                None => !has_id(self@.heros, id as nat),
            },
    {
        let mut i: usize = 0;
        while i < self.heros.len()
            invariant
                i <= self.heros.len(),
                forall|j: int| 0 <= j < i ==> self@.heros[j].id != id as nat,
            decreases self.heros.len() - i,
        {
            if self.heros[i].id == id {
                return Some(i);
            }
            i = i + 1;
        }
        None
    }

    /// Replace the record at position `i` by one with the same identifier.
    fn replace_at(&mut self, i: usize, hero: Hero)
        requires
            old(self).wf(),
            i < old(self)@.heros.len(),
            hero@.id == old(self)@.heros[i as int].id,
        ensures
            final(self).wf(),
            final(self)@ == (RegistryView {
                heros: old(self)@.heros.update(i as int, hero@),
                owner: old(self)@.owner,
            }),
    {
        let ghost s0 = self@;
        self.heros[i] = hero;
        proof {
            assert(self@.heros =~= s0.heros.update(i as int, hero@));
            assert(unique_ids(self@.heros));
            assert(self@ =~= (RegistryView {
                heros: s0.heros.update(i as int, hero@),
                owner: s0.owner,
            }));
        }
    }

    /// Create a new hero named `name`, owned by the caller, and return its
    /// identifier. Any caller may create. The identifier is the number of
    /// records stored at call time; when it collides with a stored identifier
    /// (possible after deletions) the stored record is overwritten.
    pub fn create_hero(&mut self, caller: String, name: String) -> (id: usize)
        requires
            old(self).wf(),
        ensures
            final(self).wf(),
            final(self)@ == spec_create(old(self)@, caller@, name@).0,
            id as nat == spec_create(old(self)@, caller@, name@).1,
    {
        let ghost s0 = self@;
        let ghost caller0 = caller@;
        let ghost name0 = name@;
        let id: usize = self.heros.len();
        let hero = Hero { name, level: 0, damage: 0, health: 100, owner: caller, id };
        proof {
            assert(hero@ == new_hero(id as nat, name0, caller0));
            assert(s0.heros.len() == id as nat);
        }
        match self.find_index(id) {
            Some(i) => {
                proof {
                    lemma_idx_of_unique(s0.heros, i as int);
                }
                self.replace_at(i, hero);
            }
            None => {
                self.heros.push(hero);
                proof {
                    assert(self@.heros =~= s0.heros.push(new_hero(id as nat, name0, caller0)));
                    assert(self@ =~= spec_create(s0, caller0, name0).0);
                }
            }
        }
        id
    }

    /// Look a hero up by identifier. Any caller may read; an absent
    /// identifier yields `NotFound`.
    pub fn get_hero(&self, id: usize) -> (r: Result<Hero, HeroError>)
        requires
            self.wf(),
        ensures
            (r is Ok) == (spec_get(self@, id as nat) is Ok),
            r is Ok ==> r->Ok_0@ == spec_get(self@, id as nat)->Ok_0,
            r is Err ==> r->Err_0 == spec_get(self@, id as nat)->Err_0,
    {
        match self.find_index(id) {
            Some(i) => {
                proof {
                    lemma_idx_of_unique(self@.heros, i as int);
                }
                Ok(self.heros[i].clone())
            }
            None => Err(HeroError::NotFound),
        }
    }

    /// Return every stored record, in storage order. Any caller may read.
    pub fn get_all_hero(&self) -> (r: Vec<Hero>)
        ensures
            r@.len() == self@.heros.len(),
            forall|i: int| 0 <= i < r@.len() ==> r@[i]@ == self@.heros[i],
    {
        let mut out: Vec<Hero> = Vec::new();
        let mut i: usize = 0;
        while i < self.heros.len()
            invariant
                i <= self.heros.len(),
                out@.len() == i,
                forall|j: int| 0 <= j < i ==> out@[j]@ == self@.heros[j],
            decreases self.heros.len() - i,
        {
            out.push(self.heros[i].clone());
            i = i + 1;
        }
        out
    }

    /// Delete the record with identifier `id`. Only the registry owner may
    /// delete; deleting an absent identifier succeeds silently.
    pub fn delete_hero(&mut self, caller: String, id: usize) -> (r: Result<(), HeroError>)
        requires
            old(self).wf(),
        ensures
            final(self).wf(),
            match spec_delete(old(self)@, caller@, id as nat) {
                Ok(s2) => r is Ok && final(self)@ == s2,
                Err(e) => r is Err && r->Err_0 == e && final(self)@ == old(self)@,
            },
    {
        let ghost s0 = self@;
        if !(caller == self.owner) {
            return Err(HeroError::NotRegistryOwner);
        }
        match self.find_index(id) {
            Some(i) => {
                self.heros.remove(i);
                proof {
                    lemma_idx_of_unique(s0.heros, i as int);
                    assert(self@.heros =~= s0.heros.remove(i as int));
                    crate::model::lemma_remove_id(s0.heros, i as int);
                    assert(self@ =~= spec_delete(s0, caller@, id as nat)->Ok_0);
                }
                Ok(())
            }
            None => Ok(()),
        }
    }

    /// Rename the hero with identifier `id`. The caller must be the registry
    /// owner and the hero's owner, in that order of checks, with the lookup
    /// between them; only the record's name changes.
    pub fn edit_hero(&mut self, caller: String, id: usize, name: String) -> (r: Result<(), HeroError>)
        requires
            old(self).wf(),
        ensures
            final(self).wf(),
            match spec_edit(old(self)@, caller@, id as nat, name@) {
                Ok(s2) => r is Ok && final(self)@ == s2,
                Err(e) => r is Err && r->Err_0 == e && final(self)@ == old(self)@,
            },
    {
        let ghost s0 = self@;
        let ghost name0 = name@;
        if !(caller == self.owner) {
            return Err(HeroError::NotRegistryOwner);
        }
        match self.find_index(id) {
            Some(i) => {
                proof {
                    lemma_idx_of_unique(s0.heros, i as int);
                }
                if caller == self.heros[i].owner {
                    let mut hero = self.heros[i].clone();
                    hero.name = name;
                    proof {
                        assert(hero@ == (HeroView { name: name0, ..s0.heros[i as int] }));
                    }
                    self.replace_at(i, hero);
                    Ok(())
                } else {
                    Err(HeroError::NotHeroOwner)
                }
            }
            None => Err(HeroError::NotFound),
        }
    }

    /// Level the hero with identifier `id` up: level grows by exactly 1 and
    /// health by exactly 50; nothing else changes. The caller must be the
    /// hero's owner; the registry owner has no special right here.
    pub fn lvlup_hero(&mut self, caller: String, id: usize) -> (r: Result<(), HeroError>)
        requires
            old(self).wf(),
            lvlup_fits(old(self)@, caller@, id as nat),
        ensures
            final(self).wf(),
            match spec_lvlup(old(self)@, caller@, id as nat) {
                Ok(s2) => r is Ok && final(self)@ == s2,
                Err(e) => r is Err && r->Err_0 == e && final(self)@ == old(self)@,
            },
    {
        let ghost s0 = self@;
        match self.find_index(id) {
            Some(i) => {
                proof {
                    lemma_idx_of_unique(s0.heros, i as int);
                }
                if caller == self.heros[i].owner {
                    let mut hero = self.heros[i].clone();
                    proof {
                        assert(hero@ == s0.heros[i as int]);
                        assert(idx_of(s0.heros, id as nat) == i as int);
                    }
                    hero.level = hero.level + 1;
                    hero.health = hero.health + 50;
                    proof {
                        assert(hero@ == (HeroView {
                            level: s0.heros[i as int].level + 1,
                            health: s0.heros[i as int].health + 50,
                            ..s0.heros[i as int]
                        }));
                    }
                    self.replace_at(i, hero);
                    Ok(())
                } else {
                    Err(HeroError::NotHeroOwner)
                }
            }
            None => Err(HeroError::NotFound),
        }
    }
}

} // verus!
