use pokemon_automata::Effectiveness;
use pokemon_automata::Pokemon;
use pokemon_automata::PokemonType;

fn all_types() -> Vec<PokemonType> {
    vec![
        PokemonType::Normal,
        PokemonType::Fire,
        PokemonType::Water,
        PokemonType::Electric,
        PokemonType::Grass,
        PokemonType::Ice,
        PokemonType::Fighting,
        PokemonType::Poison,
        PokemonType::Ground,
        PokemonType::Flying,
        PokemonType::Psychic,
        PokemonType::Bug,
        PokemonType::Rock,
        PokemonType::Phantom,
        PokemonType::Dragon,
        PokemonType::Dark,
        PokemonType::Steel,
        PokemonType::Fairy,
    ]
}

#[test]
fn multiplier_total_over_all_pairs() {
    for attacker in all_types() {
        for defender in all_types() {
            let e = PokemonType::get_damage_multiplier(&attacker, &defender);
            assert!(matches!(
                e,
                Effectiveness::Immune
                    | Effectiveness::NotVery
                    | Effectiveness::Neutral
                    | Effectiveness::Super
            ));
        }
    }
}

#[test]
fn multiplier_published_entries() {
    assert_eq!(
        PokemonType::get_damage_multiplier(&PokemonType::Water, &PokemonType::Fire),
        Effectiveness::Super
    );
    assert_eq!(
        PokemonType::get_damage_multiplier(&PokemonType::Fire, &PokemonType::Water),
        Effectiveness::NotVery
    );
    assert_eq!(
        PokemonType::get_damage_multiplier(&PokemonType::Normal, &PokemonType::Phantom),
        Effectiveness::Immune
    );
    assert_eq!(
        PokemonType::get_damage_multiplier(&PokemonType::Electric, &PokemonType::Ground),
        Effectiveness::Immune
    );
    assert_eq!(
        PokemonType::get_damage_multiplier(&PokemonType::Fire, &PokemonType::Grass),
        Effectiveness::Super
    );
    assert_eq!(
        PokemonType::get_damage_multiplier(&PokemonType::Dragon, &PokemonType::Fairy),
        Effectiveness::Immune
    );
    assert_eq!(
        PokemonType::get_damage_multiplier(&PokemonType::Normal, &PokemonType::Grass),
        Effectiveness::Neutral
    );
}

#[test]
fn multiplier_self_neutral_where_the_table_says_so() {
    for t in [
        PokemonType::Normal,
        PokemonType::Fighting,
        PokemonType::Flying,
        PokemonType::Ground,
        PokemonType::Rock,
        PokemonType::Bug,
        PokemonType::Fairy,
    ] {
        assert_eq!(
            PokemonType::get_damage_multiplier(&t, &t),
            Effectiveness::Neutral
        );
    }
    // The diagonal is not neutral everywhere.
    assert_eq!(
        PokemonType::get_damage_multiplier(&PokemonType::Fire, &PokemonType::Fire),
        Effectiveness::NotVery
    );
    assert_eq!(
        PokemonType::get_damage_multiplier(&PokemonType::Phantom, &PokemonType::Phantom),
        Effectiveness::Super
    );
}

#[test]
fn damage_formula_exact_values() {
    // Super effective: damage 2 * 2 = 4.
    let mut p = Pokemon::new(PokemonType::Fire, 20);
    p.take_damage(PokemonType::Water);
    assert_eq!(p.pokemon_type, PokemonType::Fire);
    assert_eq!(p.health, 16);

    // Neutral: damage 2 * 1 = 2.
    let mut p = Pokemon::new(PokemonType::Grass, 20);
    p.take_damage(PokemonType::Normal);
    assert_eq!(p.health, 18);

    // Not very effective: damage truncated from 2 * 1/2 to 1.
    let mut p = Pokemon::new(PokemonType::Water, 20);
    p.take_damage(PokemonType::Fire);
    assert_eq!(p.health, 19);

    // Immune: damage 0.
    let mut p = Pokemon::new(PokemonType::Phantom, 20);
    p.take_damage(PokemonType::Normal);
    assert_eq!(p.pokemon_type, PokemonType::Phantom);
    assert_eq!(p.health, 20);
}

#[test]
fn respawn_law() {
    // Health hits exactly zero: conversion and full respawn health.
    let mut p = Pokemon::new(PokemonType::Fire, 4);
    p.take_damage(PokemonType::Water);
    assert_eq!(p.pokemon_type, PokemonType::Water);
    assert_eq!(p.health, 20);

    // Health would go below zero: same conversion, never a negative value.
    let mut p = Pokemon::new(PokemonType::Fire, 3);
    p.take_damage(PokemonType::Water);
    assert_eq!(p, Pokemon::new(PokemonType::Water, 20));

    // A survivor is not converted.
    let mut p = Pokemon::new(PokemonType::Fire, 5);
    p.take_damage(PokemonType::Water);
    assert_eq!(p, Pokemon::new(PokemonType::Fire, 1));
    assert!(p.health > 0);
}

#[test]
fn colors_depend_on_type_alone() {
    for t in all_types() {
        assert_eq!(t.get_color(), t.get_color());
    }
    assert_eq!(PokemonType::Fire.get_color(), (240, 128, 48));
    assert_eq!(PokemonType::Water.get_color(), (104, 144, 240));
    assert_ne!(
        PokemonType::Fire.get_color(),
        PokemonType::Water.get_color()
    );
}
