use vstd::prelude::*;

verus! {

/// Full health, 100.00 %, in hundredths of a percentage point.
pub const FULL_HEALTH: u32 = 10_000;

/// The species of an animal. It never changes once the animal exists.
#[derive(Debug, Clone, Copy, PartialEq, Eq, Structural)]
pub enum AnimalType {
    Monkey,
    Giraffe,
    Elephant,
}

/// Where an animal stands in its life. `CannotWalk` is reached by elephants only;
/// `Dead` is final.
#[derive(Debug, Clone, Copy, PartialEq, Eq, Structural)]
pub enum AnimalState {
    Alive,
    Dead,
    CannotWalk,
}

impl AnimalType {
    /// Health below which the species degrades, in hundredths of a percent.
    pub open spec fn threshold_spec(self) -> nat {
        match self {
            AnimalType::Monkey => 3_000,
            AnimalType::Giraffe => 5_000,
            AnimalType::Elephant => 7_000,
        }
    }

    /// Whether dropping below the threshold first disables the animal
    /// (`CannotWalk`) rather than killing it at once.
    pub open spec fn two_stage_spec(self) -> bool {
        self is Elephant
    }

    pub fn threshold(&self) -> (r: u32)
        ensures
            r == self.threshold_spec(),
    {
        match self {
            AnimalType::Monkey => 3_000,
            AnimalType::Giraffe => 5_000,
            AnimalType::Elephant => 7_000,
        }
    }

    pub fn two_stage(&self) -> (r: bool)
        ensures
            r == self.two_stage_spec(),
    {
        match self {
            AnimalType::Elephant => true,
            _ => false,
        }
    }

    /// The species' name, for display.
    pub fn label(&self) -> (r: &'static str)
        ensures
            r@ == match self {
                AnimalType::Monkey => "Monkey"@,
                AnimalType::Giraffe => "Giraffe"@,
                AnimalType::Elephant => "Elephant"@,
            },
    {
        match self {
            AnimalType::Monkey => "Monkey",
            AnimalType::Giraffe => "Giraffe",
            AnimalType::Elephant => "Elephant",
        }
    }
}

impl AnimalState {
    /// The state's name, for display.
    pub fn label(&self) -> (r: &'static str)
        ensures
            r@ == match self {
                AnimalState::Alive => "Alive"@,
                AnimalState::Dead => "Dead"@,
                AnimalState::CannotWalk => "Cannot Walk"@,
            },
    {
        match self {
            AnimalState::Alive => "Alive",
            AnimalState::Dead => "Dead",
            AnimalState::CannotWalk => "Cannot Walk",
        }
    }
}

/// The state an animal of species `t` takes when its health is `h` and its
/// state just before was `s`. A dead animal stays dead.
pub open spec fn next_state_spec(t: AnimalType, s: AnimalState, h: nat) -> AnimalState {
    if s == AnimalState::Dead {
        AnimalState::Dead
    } else if h >= t.threshold_spec() {
        AnimalState::Alive
    } else if t.two_stage_spec() && s != AnimalState::CannotWalk {
        AnimalState::CannotWalk
    } else {
        AnimalState::Dead
    }
}

/// The transition table: from species, current state and whether health is
/// below the species' threshold, to the next state. `Dead` is final.
pub fn next_state(t: AnimalType, s: AnimalState, h: u32) -> (r: AnimalState)
    ensures
        r == next_state_spec(t, s, h as nat),
{
    let below = h < t.threshold();
    match (below, t.two_stage(), s) {
        (_, _, AnimalState::Dead) => AnimalState::Dead,
        (false, _, _) => AnimalState::Alive,
        (true, true, AnimalState::CannotWalk) => AnimalState::Dead,
        (true, true, _) => AnimalState::CannotWalk,
        (true, false, _) => AnimalState::Dead,
    }
}

/// `v` brought into the range of valid health values.
pub open spec fn clamp_health(v: int) -> nat {
    if v < 0 {
        0
    } else if v > FULL_HEALTH {
        FULL_HEALTH as nat
    } else {
        v as nat
    }
}

/// `factor` % of `h`, rounded down, then brought into the range of valid
/// health values. Rounding down keeps "below a threshold" as it is for the
/// exact value, since thresholds are whole hundredths.
pub open spec fn scaled_health(h: nat, factor: int) -> nat {
    clamp_health((h * factor) / 100)
}

/// Health after losing `percentage` % of `h`.
pub open spec fn damaged_health(h: nat, percentage: int) -> nat {
    scaled_health(h, 100 - percentage)
}

/// Health after gaining `percentage` % of `h`.
pub open spec fn fed_health(h: nat, percentage: int) -> nat {
    scaled_health(h, 100 + percentage)
}

/// One animal. `health` is in hundredths of a percentage point.
#[derive(Debug, Clone, Copy)]
pub struct Animal {
    pub animal_type: AnimalType,
    pub health: u32,
    pub state: AnimalState,
}

/// `h` scaled by `factor` percent, as `scaled_health` states it.
fn scale_health(h: u32, factor: i64) -> (r: u32)
    requires
        h <= FULL_HEALTH,
        -2_147_483_748 <= factor <= 2_147_483_748,
    ensures
        r == scaled_health(h as nat, factor as int),
{
    assert(-10_000 * 2_147_483_748 <= (h as int) * (factor as int) <= 10_000 * 2_147_483_748)
        by (nonlinear_arith)
        requires
            h <= 10_000,
            -2_147_483_748 <= factor <= 2_147_483_748,
    ;
    let product: i64 = (h as i64) * factor;
    if product < 0 {
        0
    } else {
        clamp_to_health(product / 100)
    }
}

/// `v` brought into the range of valid health values.
fn clamp_to_health(v: i64) -> (r: u32)
    ensures
        r == clamp_health(v as int),
{
    if v < 0 {
        0
    } else if v > FULL_HEALTH as i64 {
        FULL_HEALTH
    } else {
        v as u32
    }
}

impl Animal {
    /// Health within bounds, and `CannotWalk` only for a species that has it.
    pub open spec fn wf(self) -> bool {
        &&& self.health <= FULL_HEALTH
        &&& self.state == AnimalState::CannotWalk ==> self.animal_type.two_stage_spec()
    }

    /// The animal after `apply_damage(percentage)`.
    pub open spec fn damaged_spec(self, percentage: int) -> Animal {
        if self.state == AnimalState::Dead {
            self
        } else {
            let h = damaged_health(self.health as nat, percentage);
            Animal {
                animal_type: self.animal_type,
                health: h as u32,
                state: next_state_spec(self.animal_type, self.state, h),
            }
        }
    }

    /// The animal after `feed(percentage)`.
    pub open spec fn fed_spec(self, percentage: int) -> Animal {
        if self.state == AnimalState::Dead {
            self
        } else {
            let h = fed_health(self.health as nat, percentage);
            Animal {
                animal_type: self.animal_type,
                health: h as u32,
                state: next_state_spec(self.animal_type, self.state, h),
            }
        }
    }

    /// A fresh animal of species `animal_type`: full health, alive.
    pub fn new(animal_type: AnimalType) -> (r: Animal)
        ensures
            r.wf(),
            r.animal_type == animal_type,
            r.health == FULL_HEALTH,
            r.state == AnimalState::Alive,
    {
        Animal { animal_type, health: FULL_HEALTH, state: AnimalState::Alive }
    }

    /// Takes `percentage` % of the current health away (never below zero), then
    /// settles the state. Does nothing to a dead animal.
    pub fn apply_damage(&mut self, percentage: i32)
        requires
            old(self).wf(),
        ensures
            final(self).wf(),
            *final(self) == old(self).damaged_spec(percentage as int),
    {
        if self.state == AnimalState::Dead {
            return;
        }
        self.health = scale_health(self.health, 100 - percentage as i64);
        self.update_state();
    }

    /// Adds `percentage` % of the current health (never above full health),
    /// then settles the state. Does nothing to a dead animal.
    pub fn feed(&mut self, percentage: i32)
        requires
            old(self).wf(),
        ensures
            final(self).wf(),
            *final(self) == old(self).fed_spec(percentage as int),
    {
        if self.state == AnimalState::Dead {
            return;
        }
        self.health = scale_health(self.health, 100 + percentage as i64);
        self.update_state();
    }

    /// Sets the state from the species, the current health and the state
    /// held so far. A dead animal is left as it is.
    pub fn update_state(&mut self)
        requires
            old(self).wf(),
        ensures
            final(self).wf(),
            final(self).animal_type == old(self).animal_type,
            final(self).health == old(self).health,
            final(self).state == next_state_spec(
                old(self).animal_type,
                old(self).state,
                old(self).health as nat,
            ),
            old(self).state == AnimalState::Dead ==> *final(self) == *old(self),
    {
        self.state = next_state(self.animal_type, self.state, self.health);
    }
}

/// The animal after a run of events, in order: `(true, p)` feeds it by `p`
/// percent, `(false, p)` damages it by `p` percent.
pub open spec fn after_events(a: Animal, events: Seq<(bool, int)>) -> Animal
    decreases events.len(),
{
    if events.len() == 0 {
        a
    } else {
        let e = events.last();
        let before = after_events(a, events.drop_last());
        if e.0 {
            before.fed_spec(e.1)
        } else {
            before.damaged_spec(e.1)
        }
    }
}

/// Damage and feeding keep an animal well formed, health within
/// `0..=FULL_HEALTH` included, and never change its species.
pub proof fn step_keeps_wf(a: Animal, percentage: int)
    requires
        a.wf(),
    ensures
        a.damaged_spec(percentage).wf(),
        a.fed_spec(percentage).wf(),
        a.damaged_spec(percentage).animal_type == a.animal_type,
        a.fed_spec(percentage).animal_type == a.animal_type,
{
}

/// After any run of damage and feeding, health stays within
/// `0..=FULL_HEALTH` and the species stays the same.
pub proof fn health_stays_bounded(a: Animal, events: Seq<(bool, int)>)
    requires
        a.wf(),
    ensures
        after_events(a, events).wf(),
        0 <= after_events(a, events).health <= FULL_HEALTH,
        after_events(a, events).animal_type == a.animal_type,
    decreases events.len(),
{
    if events.len() > 0 {
        health_stays_bounded(a, events.drop_last());
        step_keeps_wf(after_events(a, events.drop_last()), events.last().1);
    }
}

/// A dead animal is left as it is by damage and feeding, one event or many.
pub proof fn dead_is_final(a: Animal, events: Seq<(bool, int)>)
    requires
        a.state == AnimalState::Dead,
    ensures
        after_events(a, events) == a,
    decreases events.len(),
{
    if events.len() > 0 {
        dead_is_final(a, events.drop_last());
    }
}

/// Monkeys and giraffes: after damage or feeding, health below the species'
/// threshold (30 % for a monkey, 50 % for a giraffe) means dead; health at or
/// above it, for an animal that was not dead, means alive.
pub proof fn single_threshold_law(a: Animal, percentage: int)
    requires
        a.wf(),
        a.animal_type == AnimalType::Monkey || a.animal_type == AnimalType::Giraffe,
    ensures
        a.animal_type == AnimalType::Monkey ==> a.animal_type.threshold_spec() == 3_000,
        a.animal_type == AnimalType::Giraffe ==> a.animal_type.threshold_spec() == 5_000,
        forall|b: Animal|
            b == a.damaged_spec(percentage) || b == a.fed_spec(percentage) ==> {
                &&& b.health < a.animal_type.threshold_spec() ==> b.state == AnimalState::Dead
                &&& b.health >= a.animal_type.threshold_spec() && a.state != AnimalState::Dead
                    ==> b.state == AnimalState::Alive
            },
{
}

/// Elephants, after damage or feeding of one that was not dead: health at or
/// above 70 % means alive; below it, an elephant that was alive cannot walk,
/// and one that already could not walk dies.
pub proof fn elephant_law(a: Animal, percentage: int)
    requires
        a.wf(),
        a.animal_type == AnimalType::Elephant,
        a.state != AnimalState::Dead,
    ensures
        a.animal_type.threshold_spec() == 7_000,
        forall|b: Animal|
            b == a.damaged_spec(percentage) || b == a.fed_spec(percentage) ==> {
                &&& b.health >= 7_000 ==> b.state == AnimalState::Alive
                &&& b.health < 7_000 && a.state == AnimalState::Alive
                    ==> b.state == AnimalState::CannotWalk
                &&& b.health < 7_000 && a.state == AnimalState::CannotWalk
                    ==> b.state == AnimalState::Dead
            },
{
}

/// Feeding never takes health above full health, whatever the percentage; a
/// gain that would pass it stops exactly at full health.
pub proof fn feed_is_capped(a: Animal, percentage: int)
    requires
        a.wf(),
    ensures
        a.fed_spec(percentage).health <= FULL_HEALTH,
        a.state != AnimalState::Dead && (a.health * (100 + percentage)) / 100
            >= FULL_HEALTH ==> a.fed_spec(percentage).health == FULL_HEALTH,
{
}

} // verus!
