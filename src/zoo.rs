use crate::animal::{step_keeps_wf, Animal, AnimalState, AnimalType, FULL_HEALTH};
use rand::Rng;
use vstd::prelude::*;

verus! {

/// Number of animals of each species.
pub const GROUP_SIZE: usize = 5;

/// Number of animals in a zoo: one group of each species.
pub const POPULATION_SIZE: usize = 15;

/// Largest damage, in percent, that an hour can bring to one animal.
pub const MAX_DAMAGE: i32 = 20;

/// Smallest feeding bonus, in percent.
pub const MIN_BONUS: i32 = 10;

/// Largest feeding bonus, in percent.
pub const MAX_BONUS: i32 = 25;

/// Relies on `rand::rng` and `rand::Rng::random_range` over `lo..=hi`: the
/// value drawn lies in that range. The call panics on an empty range, which
/// `requires` rules out, and, as the thread generator does, when the operating
/// system's entropy source fails while seeding or reseeding it.
#[verifier::external_body]
fn draw_between(lo: i32, hi: i32) -> (r: i32)
    requires
        lo <= hi,
    ensures
        lo <= r <= hi,
{
    rand::rng().random_range(lo..=hi)
}

/// The species at position `i`: monkeys first, then giraffes, then elephants.
pub open spec fn species_at(i: int) -> AnimalType {
    if i < GROUP_SIZE {
        AnimalType::Monkey
    } else if i < 2 * GROUP_SIZE {
        AnimalType::Giraffe
    } else {
        AnimalType::Elephant
    }
}

/// The feeding bonus that species `t` gets out of one bonus per species.
pub open spec fn bonus_for(t: AnimalType, monkey: int, giraffe: int, elephant: int) -> int {
    match t {
        AnimalType::Monkey => monkey,
        AnimalType::Giraffe => giraffe,
        AnimalType::Elephant => elephant,
    }
}

/// Each animal of `animals` after damage by the percentage at its own position.
pub open spec fn damaged_all(animals: Seq<Animal>, damages: Seq<int>) -> Seq<Animal> {
    Seq::new(animals.len(), |i: int| animals[i].damaged_spec(damages[i]))
}

/// Each animal of `animals` after feeding by its species' bonus.
pub open spec fn fed_all(animals: Seq<Animal>, monkey: int, giraffe: int, elephant: int) -> Seq<Animal> {
    Seq::new(
        animals.len(),
        |i: int| animals[i].fed_spec(bonus_for(animals[i].animal_type, monkey, giraffe, elephant)),
    )
}

/// The species at position `i`, as `species_at` states it.
fn species_of_position(i: usize) -> (r: AnimalType)
    ensures
        r == species_at(i as int),
{
    if i < GROUP_SIZE {
        AnimalType::Monkey
    } else if i < 2 * GROUP_SIZE {
        AnimalType::Giraffe
    } else {
        AnimalType::Elephant
    }
}

/// The animals, in display order, and the hours elapsed.
pub struct Zoo {
    pub animals: Vec<Animal>,
    pub hour: u64,
}

impl Zoo {
    /// Fifteen well-formed animals, grouped by species.
    pub open spec fn wf(self) -> bool {
        &&& self.animals@.len() == POPULATION_SIZE
        &&& forall|i: int|
            0 <= i < POPULATION_SIZE ==> {
                &&& #[trigger] self.animals@[i].wf()
                &&& self.animals@[i].animal_type == species_at(i)
            }
    }

    /// Five monkeys, five giraffes and five elephants, in that order, all fresh;
    /// no hour has passed.
    pub fn new() -> (r: Zoo)
        ensures
            r.wf(),
            r.hour == 0,
            r.animals@.len() == POPULATION_SIZE,
            forall|i: int|
                0 <= i < POPULATION_SIZE ==> #[trigger] r.animals@[i] == (Animal {
                    animal_type: species_at(i),
                    health: FULL_HEALTH,
                    state: AnimalState::Alive,
                }),
    {
        let mut animals: Vec<Animal> = Vec::new();
        let mut i: usize = 0;
        while i < POPULATION_SIZE
            invariant
                i <= POPULATION_SIZE,
                animals@.len() == i,
                forall|j: int|
                    0 <= j < i ==> #[trigger] animals@[j] == (Animal {
                        animal_type: species_at(j),
                        health: FULL_HEALTH,
                        state: AnimalState::Alive,
                    }),
            decreases POPULATION_SIZE - i,
        {
            animals.push(Animal::new(species_of_position(i)));
            i = i + 1;
        }
        Zoo { animals, hour: 0 }
    }

    /// One hour passes: animal `i` takes `damages[i]` percent of damage, and
    /// the hour count goes up by one.
    pub fn pass_hour_with(&mut self, damages: &Vec<i32>)
        requires
            old(self).wf(),
            old(self).hour < u64::MAX,
            damages@.len() == old(self).animals@.len(),
        ensures
            final(self).wf(),
            final(self).hour == old(self).hour + 1,
            final(self).animals@ == damaged_all(
                old(self).animals@,
                damages@.map_values(|d: i32| d as int),
            ),
    {
        let ghost before = self.animals@;
        let ghost ds = damages@.map_values(|d: i32| d as int);
        let mut i: usize = 0;
        while i < self.animals.len()
            invariant
                0 <= i <= self.animals@.len(),
                self.animals@.len() == before.len(),
                before.len() == POPULATION_SIZE,
                damages@.len() == before.len(),
                ds == damages@.map_values(|d: i32| d as int),
                old(self).wf(),
                before == old(self).animals@,
                self.hour == old(self).hour,
                forall|j: int| 0 <= j < i ==> #[trigger] self.animals@[j] == before[j].damaged_spec(ds[j]),
                forall|j: int| i <= j < before.len() ==> #[trigger] self.animals@[j] == before[j],
            decreases before.len() - i,
        {
            let mut a = self.animals[i];
            assert(before[i as int].wf());
            a.apply_damage(damages[i]);
            self.animals.set(i, a);
            i = i + 1;
        }
        assert(self.animals@ =~= damaged_all(before, ds));
        assert forall|j: int| 0 <= j < POPULATION_SIZE implies #[trigger] self.animals@[j].wf()
            && self.animals@[j].animal_type == species_at(j) by {
            assert(old(self).animals@[j].wf());
            step_keeps_wf(before[j], ds[j]);
        }
        self.hour = self.hour + 1;
    }

    /// One hour passes: each animal takes its own random damage between 0 and
    /// `MAX_DAMAGE` percent, and the hour count goes up by one.
    pub fn pass_hour(&mut self)
        requires
            old(self).wf(),
            old(self).hour < u64::MAX,
        ensures
            final(self).wf(),
            final(self).hour == old(self).hour + 1,
            exists|ds: Seq<int>|
                {
                    &&& ds.len() == POPULATION_SIZE
                    &&& forall|j: int| 0 <= j < ds.len() ==> 0 <= #[trigger] ds[j] <= MAX_DAMAGE
                    &&& final(self).animals@ == #[trigger] damaged_all(old(self).animals@, ds)
                },
    {
        let mut damages: Vec<i32> = Vec::new();
        let mut i: usize = 0;
        while i < self.animals.len()
            invariant
                self.animals@.len() == POPULATION_SIZE,
                i <= POPULATION_SIZE,
                damages@.len() == i,
                forall|j: int| 0 <= j < i ==> 0 <= #[trigger] damages@[j] <= MAX_DAMAGE,
            decreases POPULATION_SIZE - i,
        {
            damages.push(draw_between(0, MAX_DAMAGE));
            i = i + 1;
        }
        let ghost ds = damages@.map_values(|d: i32| d as int);
        self.pass_hour_with(&damages);
        assert(forall|j: int| 0 <= j < ds.len() ==> 0 <= #[trigger] ds[j] <= MAX_DAMAGE);
    }

    /// Feeds every animal: monkeys by `monkey` percent, giraffes by `giraffe`
    /// percent, elephants by `elephant` percent.
    pub fn feed_animals_with(&mut self, monkey: i32, giraffe: i32, elephant: i32)
        requires
            old(self).wf(),
        ensures
            final(self).wf(),
            final(self).hour == old(self).hour,
            final(self).animals@ == fed_all(
                old(self).animals@,
                monkey as int,
                giraffe as int,
                elephant as int,
            ),
    {
        let ghost before = self.animals@;
        let ghost after = fed_all(before, monkey as int, giraffe as int, elephant as int);
        let mut i: usize = 0;
        while i < self.animals.len()
            invariant
                0 <= i <= self.animals@.len(),
                self.animals@.len() == before.len(),
                before.len() == POPULATION_SIZE,
                after == fed_all(before, monkey as int, giraffe as int, elephant as int),
                old(self).wf(),
                before == old(self).animals@,
                self.hour == old(self).hour,
                forall|j: int| 0 <= j < i ==> #[trigger] self.animals@[j] == after[j],
                forall|j: int| i <= j < before.len() ==> #[trigger] self.animals@[j] == before[j],
            decreases before.len() - i,
        {
            let mut a = self.animals[i];
            assert(before[i as int].wf());
            let bonus = match a.animal_type {
                AnimalType::Monkey => monkey,
                AnimalType::Giraffe => giraffe,
                AnimalType::Elephant => elephant,
            };
            a.feed(bonus);
            self.animals.set(i, a);
            i = i + 1;
        }
        assert(self.animals@ =~= after);
        assert forall|j: int| 0 <= j < POPULATION_SIZE implies #[trigger] self.animals@[j].wf()
            && self.animals@[j].animal_type == species_at(j) by {
            assert(old(self).animals@[j].wf());
            step_keeps_wf(before[j], bonus_for(before[j].animal_type, monkey as int, giraffe as int, elephant as int));
        }
    }

    /// Feeds every animal by a random bonus between `MIN_BONUS` and
    /// `MAX_BONUS` percent, drawn once per species: all animals of one species
    /// get the same bonus.
    pub fn feed_animals(&mut self)
        requires
            old(self).wf(),
        ensures
            final(self).wf(),
            final(self).hour == old(self).hour,
            exists|m: int, g: int, e: int|
                {
                    &&& MIN_BONUS <= m <= MAX_BONUS
                    &&& MIN_BONUS <= g <= MAX_BONUS
                    &&& MIN_BONUS <= e <= MAX_BONUS
                    &&& final(self).animals@ == #[trigger] fed_all(old(self).animals@, m, g, e)
                },
    {
        let monkey = draw_between(MIN_BONUS, MAX_BONUS);
        let giraffe = draw_between(MIN_BONUS, MAX_BONUS);
        let elephant = draw_between(MIN_BONUS, MAX_BONUS);
        self.feed_animals_with(monkey, giraffe, elephant);
    }

    /// One line per animal, in order: its number counting from one, its
    /// species, its health and its state.
    pub fn report(&self) -> (r: Vec<(usize, AnimalType, u32, AnimalState)>)
        requires
            self.animals@.len() < usize::MAX,
        ensures
            r@.len() == self.animals@.len(),
            forall|i: int|
                0 <= i < r@.len() ==> #[trigger] r@[i] == (
                    (i + 1) as usize,
                    self.animals@[i].animal_type,
                    self.animals@[i].health,
                    self.animals@[i].state,
                ),
    {
        let mut lines: Vec<(usize, AnimalType, u32, AnimalState)> = Vec::new();
        let mut i: usize = 0;
        while i < self.animals.len()
            invariant
                i <= self.animals@.len() < usize::MAX,
                lines@.len() == i,
                forall|j: int|
                    0 <= j < i ==> #[trigger] lines@[j] == (
                        (j + 1) as usize,
                        self.animals@[j].animal_type,
                        self.animals@[j].health,
                        self.animals@[j].state,
                    ),
            decreases self.animals@.len() - i,
        {
            let a = self.animals[i];
            lines.push((i + 1, a.animal_type, a.health, a.state));
            i = i + 1;
        }
        lines
    }

    /// Hours elapsed since the zoo was created.
    pub fn elapsed_hours(&self) -> (r: u64)
        ensures
            r == self.hour,
    {
        self.hour
    }
}

} // verus!
