use zoo_sim::animal::{AnimalState, AnimalType, FULL_HEALTH};
use zoo_sim::zoo::{Zoo, MAX_BONUS, MAX_DAMAGE, MIN_BONUS};

#[test]
fn test_zoo_creation_contains_15_animals() {
    let zoo = Zoo::new();
    assert_eq!(zoo.animals.len(), 15);
}

#[test]
fn test_zoo_pass_hour_increases_time() {
    let mut zoo = Zoo::new();
    let initial_hour = zoo.hour;
    zoo.pass_hour();
    assert_eq!(zoo.hour, initial_hour + 1);
}

#[test]
fn test_zoo_feed_animals_caps_health() {
    let mut zoo = Zoo::new();
    for animal in &mut zoo.animals {
        animal.health = 9_900;
    }
    zoo.feed_animals();
    for animal in &zoo.animals {
        assert!(animal.health <= 10_000);
    }
}

#[test]
fn new_zoo_is_grouped_by_species() {
    let zoo = Zoo::new();
    assert_eq!(zoo.hour, 0);
    assert_eq!(zoo.elapsed_hours(), 0);
    for (i, animal) in zoo.animals.iter().enumerate() {
        let expected = if i < 5 {
            AnimalType::Monkey
        } else if i < 10 {
            AnimalType::Giraffe
        } else {
            AnimalType::Elephant
        };
        assert_eq!(animal.animal_type, expected);
        assert_eq!(animal.health, FULL_HEALTH);
        assert_eq!(animal.state, AnimalState::Alive);
    }
}

#[test]
fn pass_hour_counts_even_when_all_dead() {
    let mut zoo = Zoo::new();
    for animal in &mut zoo.animals {
        animal.health = 0;
        animal.state = AnimalState::Dead;
    }
    zoo.pass_hour();
    zoo.pass_hour();
    zoo.pass_hour();
    assert_eq!(zoo.elapsed_hours(), 3);
    for animal in &zoo.animals {
        assert_eq!(animal.health, 0);
        assert_eq!(animal.state, AnimalState::Dead);
    }
}

#[test]
fn pass_hour_damage_stays_in_range() {
    let mut zoo = Zoo::new();
    zoo.pass_hour();
    for animal in &zoo.animals {
        assert!(animal.health >= 10_000 - 100 * MAX_DAMAGE as u32);
        assert!(animal.health <= FULL_HEALTH);
    }
}

#[test]
fn pass_hour_with_applies_each_damage() {
    let mut zoo = Zoo::new();
    let damages: Vec<i32> = (0..15).collect();
    zoo.pass_hour_with(&damages);
    assert_eq!(zoo.hour, 1);
    for (i, animal) in zoo.animals.iter().enumerate() {
        assert_eq!(animal.health, 10_000 - 100 * i as u32);
    }
    assert_eq!(zoo.animals[14].state, AnimalState::Alive);
}

#[test]
fn feed_animals_with_uses_species_bonus() {
    let mut zoo = Zoo::new();
    for animal in &mut zoo.animals {
        animal.health = 8_000;
    }
    zoo.feed_animals_with(10, 20, 25);
    assert_eq!(zoo.hour, 0);
    for animal in &zoo.animals {
        let expected = match animal.animal_type {
            AnimalType::Monkey => 8_800,
            AnimalType::Giraffe => 9_600,
            AnimalType::Elephant => 10_000,
        };
        assert_eq!(animal.health, expected);
    }
}

#[test]
fn feed_animals_gives_one_bonus_per_species() {
    let mut zoo = Zoo::new();
    for animal in &mut zoo.animals {
        animal.health = 8_000;
    }
    zoo.feed_animals();
    for group in 0..3 {
        let first = zoo.animals[group * 5].health;
        assert!(first >= 8_000 + 80 * MIN_BONUS as u32);
        assert!(first <= (8_000 + 80 * MAX_BONUS as u32).min(10_000));
        for k in 0..5 {
            assert_eq!(zoo.animals[group * 5 + k].health, first);
        }
    }
}

#[test]
fn report_lists_every_animal_in_order() {
    let mut zoo = Zoo::new();
    zoo.animals[3].health = 2_000;
    zoo.animals[3].state = AnimalState::Dead;
    let lines = zoo.report();
    assert_eq!(lines.len(), 15);
    assert_eq!(lines[0], (1, AnimalType::Monkey, 10_000, AnimalState::Alive));
    assert_eq!(lines[3], (4, AnimalType::Monkey, 2_000, AnimalState::Dead));
    assert_eq!(lines[7], (8, AnimalType::Giraffe, 10_000, AnimalState::Alive));
    assert_eq!(lines[14], (15, AnimalType::Elephant, 10_000, AnimalState::Alive));
}
