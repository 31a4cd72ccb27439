use vstd::prelude::*;

verus! {

/// A bounded amount of health points: a current `level` that never exceeds
/// its capacity `max`.
#[derive(Debug, PartialEq, Eq, PartialOrd, Ord, Structural)]
pub struct Health {
    level: u32,
    max: u32,
}

/// The one way a health operation can be refused.
#[derive(Debug, PartialEq, Eq, Structural)]
pub enum HealthError {
    /// A requested level exceeds the capacity.
    LevelTooHigh,
}

/// Events reported by health operations.
#[derive(Debug, PartialEq, Eq, Structural)]
pub enum HealthLog {
    /// The level reached (or stayed at) its capacity.
    HpMaxedOut,
}

impl Health {
    #[verifier::type_invariant]
    spec fn level_within_max(self) -> bool {
        self.level <= self.max
    }

    /// The current level.
    pub closed spec fn level(&self) -> u32 {
        self.level
    }

    /// The capacity.
    pub closed spec fn capacity(&self) -> u32 {
        self.max
    }

    /// The level left after taking `amount` from `level`, floored at zero.
    pub open spec fn saturating_difference(level: u32, amount: u32) -> u32 {
        if amount <= level {
            (level - amount) as u32
        } else {
            0
        }
    }

    /// Builds a health value of capacity `max`, at `level` when one is given
    /// and fully healed otherwise; a level above `max` is refused.
    pub fn new(max: u32, level: Option<u32>) -> (r: Result<Health, HealthError>)
        ensures
            r is Ok <==> (level is None || level->Some_0 <= max),
            r is Err ==> r == Err::<Health, HealthError>(HealthError::LevelTooHigh),
            r matches Ok(h) ==> h.capacity() == max && h.level() == match level {
                Some(l) => l,
                None => max,
            },
    {
        if let Some(level_value) = level {
            Health::validate(level_value, max)?;
        }
        let initial = match level {
            Some(l) => l,
            None => max,
        };
        Ok(Health { max, level: initial })
    }

    /// Accepts `level` exactly when it does not exceed `max`.
    fn validate(level: u32, max: u32) -> (r: Result<(), HealthError>)
        ensures
            r is Ok <==> level <= max,
            r is Err ==> r == Err::<(), HealthError>(HealthError::LevelTooHigh),
    {
        if level > max {
            Err(HealthError::LevelTooHigh)
        } else {
            Ok(())
        }
    }

    /// Raises the level by `amount` (saturating); once the sum reaches the
    /// capacity the level is clamped to it and `HpMaxedOut` is reported.
    pub fn increase(&mut self, amount: u32) -> (r: Option<HealthLog>)
        ensures
            final(self).capacity() == old(self).capacity(),
            final(self).level() <= final(self).capacity(),
            old(self).level() + amount >= old(self).capacity() ==> final(self).level() == old(self).capacity()
                && r == Some(HealthLog::HpMaxedOut),
            old(self).level() + amount < old(self).capacity() ==> final(self).level() == old(self).level()
                + amount && r is None,
    {
        let new_value = self.level.saturating_add(amount);
        if new_value >= self.max {
            self.level = self.max;
            Some(HealthLog::HpMaxedOut)
        } else {
            self.level = new_value;
            None
        }
    }

    /// Lowers the level by `amount`, stopping at zero.
    pub fn decrease(&mut self, amount: u32)
        ensures
            final(self).capacity() == old(self).capacity(),
            final(self).level() == Health::saturating_difference(old(self).level(), amount),
            final(self).level() <= final(self).capacity(),
    {
        proof {
            use_type_invariant(&*self);
        }
        self.level = self.level.saturating_sub(amount);
    }

    /// The current level.
    pub fn get_level(&self) -> (r: &u32)
        ensures
            *r == self.level(),
            *r <= self.capacity(),
    {
        proof {
            use_type_invariant(self);
        }
        &self.level
    }

    /// The capacity.
    pub fn get_max(&self) -> (r: &u32)
        ensures
            *r == self.capacity(),
            self.level() <= *r,
    {
        proof {
            use_type_invariant(self);
        }
        &self.max
    }

    /// Sets the level to `new_level` when it does not exceed the capacity;
    /// otherwise refuses and leaves the value unchanged.
    pub fn set_level(&mut self, new_level: u32) -> (r: Result<(), HealthError>)
        ensures
            final(self).capacity() == old(self).capacity(),
            r is Ok <==> new_level <= old(self).capacity(),
            r is Ok ==> final(self).level() == new_level,
            r is Err ==> r == Err::<(), HealthError>(HealthError::LevelTooHigh) && final(self).level()
                == old(self).level(),
    {
        Health::validate(new_level, self.max)?;
        self.level = new_level;
        Ok(())
    }

    /// Changes the capacity to `new_max` and resets the level to it.
    pub fn set_max(&mut self, new_max: u32)
        ensures
            final(self).capacity() == new_max,
            final(self).level() == new_max,
    {
        *self = Health { level: new_max, max: new_max };
    }
}

impl HealthError {
    /// A human-readable description of the error.
    pub fn message(&self) -> (r: &'static str)
        ensures
            r@ == "The level of health cannot be higher than max level."@,
    {
        match self {
            HealthError::LevelTooHigh => "The level of health cannot be higher than max level.",
        }
    }
}

impl HealthLog {
    /// A human-readable description of the event.
    pub fn message(&self) -> (r: &'static str)
        ensures
            r@ == "HP maxed out"@,
    {
        match self {
            HealthLog::HpMaxedOut => "HP maxed out",
        }
    }
}

} // verus!
