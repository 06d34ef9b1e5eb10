//! The hero record and the errors that registry operations report.

use vstd::prelude::*;

verus! {

/// A hero record stored by the registry.
///
/// `id` is assigned at creation time and never changes afterwards; `owner` is
/// the identity of the caller that created the record and never changes
/// either. `damage` is reserved state: no exposed operation ever mutates it.
#[derive(Debug)]
pub struct Hero {
    pub name: String,
    pub level: u8,
    pub damage: u16,
    pub health: u16,
    pub id: usize,
    pub owner: String,
}

/// The abstract value of a [`Hero`]: the same fields over mathematical types.
pub struct HeroView {
    pub name: Seq<char>,
    pub level: nat,
    pub damage: nat,
    pub health: nat,
    pub id: nat,
    pub owner: Seq<char>,
}

impl View for Hero {
    type V = HeroView;

    open spec fn view(&self) -> HeroView {
        HeroView {
            name: self.name@,
            level: self.level as nat,
            damage: self.damage as nat,
            health: self.health as nat,
            id: self.id as nat,
            owner: self.owner@,
        }
    }
}

impl Clone for Hero {
    fn clone(&self) -> (r: Self)
        ensures
            r@ == self@,
    {
        Hero {
            name: self.name.clone(),
            level: self.level,
            damage: self.damage,
            health: self.health,
            id: self.id,
            owner: self.owner.clone(),
        }
    }
}

/// Why a registry operation refused to do its work.
///
/// `NotRegistryOwner` and `NotHeroOwner` are the two authorization failures:
/// together they make up the "unauthorized" outcome, and they record which
/// predicate failed. `NotFound` reports a lookup of an absent identifier.
#[derive(Clone, Copy, Debug, PartialEq, Eq, Structural)]
pub enum HeroError {
    /// The requested identifier has no record.
    NotFound,
    /// The caller is not the identity that owns the registry.
    NotRegistryOwner,
    /// The caller is not the identity that created the target hero.
    NotHeroOwner,
}

impl HeroError {
    /// Both authorization failures count as an unauthorized call.
    pub open spec fn is_unauthorized(self) -> bool {
        self is NotRegistryOwner || self is NotHeroOwner
    }
}

} // verus!
