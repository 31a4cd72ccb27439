use vstd::prelude::*;

pub mod entity;
pub mod health;

use health::{Health, HealthError, HealthLog};

verus! {

/// Entity is a unit in game. A teapot is an entity if the user can break the teapot.
/// The user is an Entity, enemies are entities...
/// If there is a reason to give health points to anything, this is an Entity.
#[derive(Debug, PartialEq, Eq, PartialOrd, Ord, Structural)]
pub struct Entity {
    hp: Health,
}

/// Errors of entity operations.
#[derive(Debug, PartialEq, Eq, Structural)]
pub enum EntityError {
    HeathError(HealthError),
}

/// Events reported by entity operations.
#[derive(Debug, PartialEq, Eq, Structural)]
pub enum EntityLog {
    Hp(HealthLog),
}

impl EntityError {
    /// A human-readable description: that of the underlying health error.
    pub fn message(&self) -> (r: &'static str)
        ensures
            r@ == "The level of health cannot be higher than max level."@,
    {
        match self {
            EntityError::HeathError(err) => err.message(),
        }
    }
}

impl EntityLog {
    /// A human-readable description: that of the underlying health event.
    pub fn message(&self) -> (r: &'static str)
        ensures
            r@ == "HP maxed out"@,
    {
        match self {
            EntityLog::Hp(hp_log) => hp_log.message(),
        }
    }
}

impl Entity {
    /// The entity's health value.
    pub closed spec fn hp(&self) -> Health {
        self.hp
    }

    /// Builds an entity of capacity `max_health`, at `health` when one is given
    /// and fully healed otherwise; a level above the capacity is refused.
    pub fn new(max_health: u32, health: Option<u32>) -> (r: Result<Entity, EntityError>)
        ensures
            r is Ok <==> (health is None || health->Some_0 <= max_health),
            r is Err ==> r == Err::<Entity, EntityError>(
                EntityError::HeathError(HealthError::LevelTooHigh),
            ),
            r matches Ok(e) ==> e.hp().capacity() == max_health && e.hp().level() == match health {
                Some(l) => l,
                None => max_health,
            },
    {
        match Health::new(max_health, health) {
            Ok(hp) => Ok(Entity { hp }),
            Err(err) => Err(EntityError::HeathError(err)),
        }
    }

    // Status
    pub fn get_current_hp(&self) -> (r: &u32)
        ensures
            *r == self.hp().level(),
            *r <= self.hp().capacity(),
    {
        self.hp.get_level()
    }

    pub fn get_max_hp(&self) -> (r: &u32)
        ensures
            *r == self.hp().capacity(),
            self.hp().level() <= *r,
    {
        self.hp.get_max()
    }

    // Interactions
    /// Raises the health level by `amount`, clamped to the capacity; reports
    /// `Hp(HpMaxedOut)` once the capacity is reached.
    pub fn gain_hp(&mut self, amount: u32) -> (r: Option<EntityLog>)
        ensures
            final(self).hp().capacity() == old(self).hp().capacity(),
            final(self).hp().level() <= final(self).hp().capacity(),
            old(self).hp().level() + amount >= old(self).hp().capacity() ==> final(self).hp().level()
                == old(self).hp().capacity() && r == Some(EntityLog::Hp(HealthLog::HpMaxedOut)),
            old(self).hp().level() + amount < old(self).hp().capacity() ==> final(self).hp().level()
                == old(self).hp().level() + amount && r is None,
    {
        match self.hp.increase(amount) {
            Some(log) => Some(EntityLog::Hp(log)),
            None => None,
        }
    }

    /// Lowers the health level by `amount`, stopping at zero.
    pub fn lose_hp(&mut self, amount: u32)
        ensures
            final(self).hp().capacity() == old(self).hp().capacity(),
            final(self).hp().level() == Health::saturating_difference(old(self).hp().level(), amount),
            final(self).hp().level() <= final(self).hp().capacity(),
    {
        self.hp.decrease(amount);
    }
}

} // verus!
