//! The closed registry of creature types, the type-effectiveness table and
//! the fixed per-type display colour.

use vstd::prelude::*;

verus! {

use crate::pokemon_type::PokemonType::Normal;
use crate::pokemon_type::PokemonType::Fire;
use crate::pokemon_type::PokemonType::Water;
use crate::pokemon_type::PokemonType::Electric;
use crate::pokemon_type::PokemonType::Grass;
use crate::pokemon_type::PokemonType::Ice;
use crate::pokemon_type::PokemonType::Fighting;
use crate::pokemon_type::PokemonType::Poison;
use crate::pokemon_type::PokemonType::Ground;
use crate::pokemon_type::PokemonType::Flying;
use crate::pokemon_type::PokemonType::Psychic;
use crate::pokemon_type::PokemonType::Bug;
use crate::pokemon_type::PokemonType::Rock;
use crate::pokemon_type::PokemonType::Phantom;
use crate::pokemon_type::PokemonType::Dragon;
use crate::pokemon_type::PokemonType::Dark;
use crate::pokemon_type::PokemonType::Steel;
use crate::pokemon_type::PokemonType::Fairy;
use crate::pokemon_type::Effectiveness::Immune;
use crate::pokemon_type::Effectiveness::NotVery;
use crate::pokemon_type::Effectiveness::Neutral;
use crate::pokemon_type::Effectiveness::Super;

/// The closed enumeration of creature types.
#[derive(Clone, Copy, Debug, PartialEq, Eq, Structural)]
pub enum PokemonType {
    Normal,
    Fire,
    Water,
    Electric,
    Grass,
    Ice,
    Fighting,
    Poison,
    Ground,
    Flying,
    Psychic,
    Bug,
    Rock,
    Phantom,
    Dragon,
    Dark,
    Steel,
    Fairy,
}

/// How many variants `PokemonType` has.
pub const TYPE_COUNT: usize = 18;

/// An entry of the effectiveness table: the damage multiplier of an attack,
/// one of 0 (`Immune`), 1/2 (`NotVery`), 1 (`Neutral`) or 2 (`Super`).
#[derive(Clone, Copy, Debug, PartialEq, Eq, Structural)]
pub enum Effectiveness {
    Immune,
    NotVery,
    Neutral,
    Super,
}

impl Effectiveness {
    /// Twice the multiplier, which is a plain integer: 0, 1, 2 or 4.
    pub open spec fn doubled(self) -> int {
        match self {
            Immune => 0,
            NotVery => 1,
            Neutral => 2,
            Super => 4,
        }
    }

    /// Twice the multiplier as an executable value.
    pub fn doubled_value(&self) -> (d: i16)
        ensures
            d as int == self.doubled(),
    {
        match self {
            Immune => 0,
            NotVery => 1,
            Neutral => 2,
            Super => 4,
        }
    }
}

/// The fixed type-effectiveness table, keyed by `[attacker][defender]`.
/// Every pair not singled out in a row is `Neutral`; the relation is not
/// symmetric.
pub open spec fn effectiveness(attacker: PokemonType, defender: PokemonType) -> Effectiveness {
    match attacker {
        Normal => match defender {
            Phantom => Immune,
            Rock | Steel => NotVery,
            _ => Neutral,
        },
        Fire => match defender {
            Grass | Ice | Bug | Steel => Super,
            Fire | Water | Rock | Dragon => NotVery,
            _ => Neutral,
        },
        Water => match defender {
            Fire | Ground | Rock => Super,
            Water | Grass | Dragon => NotVery,
            _ => Neutral,
        },
        Electric => match defender {
            Water | Flying => Super,
            Electric | Grass | Dragon => NotVery,
            Ground => Immune,
            _ => Neutral,
        },
        Grass => match defender {
            Water | Ground | Rock => Super,
            Fire | Grass | Poison | Flying | Bug | Dragon | Steel => NotVery,
            _ => Neutral,
        },
        Ice => match defender {
            Grass | Ground | Flying | Dragon => Super,
            Fire | Water | Ice | Steel => NotVery,
            _ => Neutral,
        },
        Fighting => match defender {
            Normal | Ice | Rock | Dark | Steel => Super,
            Poison | Flying | Psychic | Bug | Fairy => NotVery,
            Phantom => Immune,
            _ => Neutral,
        },
        Poison => match defender {
            Grass | Fairy => Super,
            Poison | Ground | Rock | Phantom => NotVery,
            Steel => Immune,
            _ => Neutral,
        },
        Ground => match defender {
            Fire | Electric | Poison | Rock | Steel => Super,
            Grass | Bug => NotVery,
            Flying => Immune,
            _ => Neutral,
        },
        Flying => match defender {
            Grass | Fighting | Bug => Super,
            Electric | Rock | Steel => NotVery,
            _ => Neutral,
        },
        Psychic => match defender {
            Fighting | Poison => Super,
            Psychic | Steel => NotVery,
            Dark => Immune,
            _ => Neutral,
        },
        Bug => match defender {
            Grass | Psychic | Dark => Super,
            Fire | Fighting | Poison | Flying | Phantom | Steel | Fairy => NotVery,
            _ => Neutral,
        },
        Rock => match defender {
            Fire | Ice | Flying | Bug => Super,
            Fighting | Ground | Steel => NotVery,
            _ => Neutral,
        },
        Phantom => match defender {
            Psychic | Phantom => Super,
            Dark => NotVery,
            Normal => Immune,
            _ => Neutral,
        },
        Dragon => match defender {
            Dragon => Super,
            Steel => NotVery,
            Fairy => Immune,
            _ => Neutral,
        },
        Dark => match defender {
            Psychic | Phantom => Super,
            Fighting | Dark | Fairy => NotVery,
            _ => Neutral,
        },
        Steel => match defender {
            Ice | Rock | Fairy => Super,
            Fire | Water | Electric | Steel => NotVery,
            _ => Neutral,
        },
        Fairy => match defender {
            Fighting | Dragon | Dark => Super,
            Fire | Poison | Steel => NotVery,
            _ => Neutral,
        },
    }
}

/// The fixed display colour of each type, as an RGB triple.
pub open spec fn color_of(t: PokemonType) -> (u8, u8, u8) {
    match t {
        Normal => (168, 168, 120),
        Fire => (240, 128, 48),
        Water => (104, 144, 240),
        Electric => (248, 208, 48),
        Grass => (120, 200, 80),
        Ice => (152, 216, 216),
        Fighting => (192, 48, 40),
        Poison => (160, 64, 160),
        Ground => (224, 192, 104),
        Flying => (168, 144, 240),
        Psychic => (248, 88, 136),
        Bug => (168, 184, 32),
        Rock => (184, 160, 56),
        Phantom => (112, 88, 152),
        Dragon => (112, 56, 248),
        Dark => (112, 88, 72),
        Steel => (184, 184, 208),
        Fairy => (238, 153, 172),
    }
}

/// The variant of `PokemonType` at position `i` of the registry.
pub open spec fn type_of_index(i: int) -> PokemonType {
    if i == 0 {
        Normal
    } else if i == 1 {
        Fire
    } else if i == 2 {
        Water
    } else if i == 3 {
        Electric
    } else if i == 4 {
        Grass
    } else if i == 5 {
        Ice
    } else if i == 6 {
        Fighting
    } else if i == 7 {
        Poison
    } else if i == 8 {
        Ground
    } else if i == 9 {
        Flying
    } else if i == 10 {
        Psychic
    } else if i == 11 {
        Bug
    } else if i == 12 {
        Rock
    } else if i == 13 {
        Phantom
    } else if i == 14 {
        Dragon
    } else if i == 15 {
        Dark
    } else if i == 16 {
        Steel
    } else {
        Fairy
    }
}

impl PokemonType {
    /// Look up the effectiveness of an attack by a creature of type
    /// `attacker` against one of type `defender`.  Total: every pair of the
    /// enumeration has an entry.
    pub fn get_damage_multiplier(attacker: &PokemonType, defender: &PokemonType) -> (e:
        Effectiveness)
        ensures
            e == effectiveness(*attacker, *defender),
    {
        match attacker {
            Normal => match defender {
                Phantom => Immune,
                Rock | Steel => NotVery,
                _ => Neutral,
            },
            Fire => match defender {
                Grass | Ice | Bug | Steel => Super,
                Fire | Water | Rock | Dragon => NotVery,
                _ => Neutral,
            },
            Water => match defender {
                Fire | Ground | Rock => Super,
                Water | Grass | Dragon => NotVery,
                _ => Neutral,
            },
            Electric => match defender {
                Water | Flying => Super,
                Electric | Grass | Dragon => NotVery,
                Ground => Immune,
                _ => Neutral,
            },
            Grass => match defender {
                Water | Ground | Rock => Super,
                Fire | Grass | Poison | Flying | Bug | Dragon | Steel => NotVery,
                _ => Neutral,
            },
            Ice => match defender {
                Grass | Ground | Flying | Dragon => Super,
                Fire | Water | Ice | Steel => NotVery,
                _ => Neutral,
            },
            Fighting => match defender {
                Normal | Ice | Rock | Dark | Steel => Super,
                Poison | Flying | Psychic | Bug | Fairy => NotVery,
                Phantom => Immune,
                _ => Neutral,
            },
            Poison => match defender {
                Grass | Fairy => Super,
                Poison | Ground | Rock | Phantom => NotVery,
                Steel => Immune,
                _ => Neutral,
            },
            Ground => match defender {
                Fire | Electric | Poison | Rock | Steel => Super,
                Grass | Bug => NotVery,
                Flying => Immune,
                _ => Neutral,
            },
            Flying => match defender {
                Grass | Fighting | Bug => Super,
                Electric | Rock | Steel => NotVery,
                _ => Neutral,
            },
            Psychic => match defender {
                Fighting | Poison => Super,
                Psychic | Steel => NotVery,
                Dark => Immune,
                _ => Neutral,
            },
            Bug => match defender {
                Grass | Psychic | Dark => Super,
                Fire | Fighting | Poison | Flying | Phantom | Steel | Fairy => NotVery,
                _ => Neutral,
            },
            Rock => match defender {
                Fire | Ice | Flying | Bug => Super,
                Fighting | Ground | Steel => NotVery,
                _ => Neutral,
            },
            Phantom => match defender {
                Psychic | Phantom => Super,
                Dark => NotVery,
                Normal => Immune,
                _ => Neutral,
            },
            Dragon => match defender {
                Dragon => Super,
                Steel => NotVery,
                Fairy => Immune,
                _ => Neutral,
            },
            Dark => match defender {
                Psychic | Phantom => Super,
                Fighting | Dark | Fairy => NotVery,
                _ => Neutral,
            },
            Steel => match defender {
                Ice | Rock | Fairy => Super,
                Fire | Water | Electric | Steel => NotVery,
                _ => Neutral,
            },
            Fairy => match defender {
                Fighting | Dragon | Dark => Super,
                Fire | Poison | Steel => NotVery,
                _ => Neutral,
            },
        }
    }

    /// The fixed display colour of this type; it depends on the type alone.
    pub fn get_color(&self) -> (c: (u8, u8, u8))
        ensures
            c == color_of(*self),
    {
        match self {
            Normal => (168, 168, 120),
            Fire => (240, 128, 48),
            Water => (104, 144, 240),
            Electric => (248, 208, 48),
            Grass => (120, 200, 80),
            Ice => (152, 216, 216),
            Fighting => (192, 48, 40),
            Poison => (160, 64, 160),
            Ground => (224, 192, 104),
            Flying => (168, 144, 240),
            Psychic => (248, 88, 136),
            Bug => (168, 184, 32),
            Rock => (184, 160, 56),
            Phantom => (112, 88, 152),
            Dragon => (112, 56, 248),
            Dark => (112, 88, 72),
            Steel => (184, 184, 208),
            Fairy => (238, 153, 172),
        }
    }
}

/// The variant at position `i` of the registry, as an executable lookup.
pub fn nth_type(i: usize) -> (t: PokemonType)
    requires
        i < TYPE_COUNT,
    ensures
        t == type_of_index(i as int),
{
    if i == 0 {
        Normal
    } else if i == 1 {
        Fire
    } else if i == 2 {
        Water
    } else if i == 3 {
        Electric
    } else if i == 4 {
        Grass
    } else if i == 5 {
        Ice
    } else if i == 6 {
        Fighting
    } else if i == 7 {
        Poison
    } else if i == 8 {
        Ground
    } else if i == 9 {
        Flying
    } else if i == 10 {
        Psychic
    } else if i == 11 {
        Bug
    } else if i == 12 {
        Rock
    } else if i == 13 {
        Phantom
    } else if i == 14 {
        Dragon
    } else if i == 15 {
        Dark
    } else if i == 16 {
        Steel
    } else {
        Fairy
    }
}

/// The effectiveness table is total and its entries come from the published
/// set of multipliers alone: 0, 1/2, 1 or 2.
pub proof fn lemma_multiplier_total(attacker: PokemonType, defender: PokemonType)
    ensures
        effectiveness(attacker, defender) == Immune || effectiveness(attacker, defender)
            == NotVery || effectiveness(attacker, defender) == Neutral || effectiveness(
            attacker,
            defender,
        ) == Super,
{
}

/// Self-neutrality, for the types whose table row has a neutral diagonal
/// entry: attacking one's own type carries multiplier 1.  The table itself
/// makes the other diagonal entries `NotVery` or `Super`.
pub proof fn lemma_multiplier_self_neutral(t: PokemonType)
    requires
        t == Normal || t == Fighting || t == Flying || t == Ground || t == Rock || t == Bug || t
            == Fairy,
    ensures
        effectiveness(t, t) == Neutral,
{
}

} // verus!
