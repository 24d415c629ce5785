//! A single creature: a type together with a health quantity.

use vstd::prelude::*;

verus! {

use crate::pokemon_type::PokemonType;
use crate::pokemon_type::effectiveness;

/// Health given to a creature placed on a freshly created grid.
pub const INITIAL_SPAWN_HEALTH: i16 = 20;

/// Health given to a creature the instant it is converted by its attacker.
pub const RESPAWN_HEALTH: i16 = 20;

/// A creature.  While alive its health is positive; the instant an attack
/// would bring the health to zero or below, the creature is replaced by one
/// of the attacker's type at `RESPAWN_HEALTH` — it is never observed with a
/// non-positive health.
#[derive(Clone, Copy, Debug, PartialEq, Eq, Structural)]
pub struct Pokemon {
    pub pokemon_type: PokemonType,
    pub health: i16,
}

/// The damage of one attack: twice the effectiveness multiplier, which for
/// the multipliers 0, 1/2, 1 and 2 of the table is exactly the integer 0, 1,
/// 2 or 4.
pub open spec fn damage_of(attacker: PokemonType, defender: PokemonType) -> int {
    effectiveness(attacker, defender).doubled()
}

/// The state of `defender` after a single attack by a creature of type
/// `attacker`: its health drops by `damage_of` the pair, and if that reaches
/// zero or below it is atomically replaced by a creature of the attacker's
/// type at `RESPAWN_HEALTH`.
pub open spec fn attacked(defender: Pokemon, attacker: PokemonType) -> Pokemon {
    let h = defender.health - damage_of(attacker, defender.pokemon_type);
    if h <= 0 {
        Pokemon { pokemon_type: attacker, health: RESPAWN_HEALTH }
    } else {
        Pokemon { pokemon_type: defender.pokemon_type, health: h as i16 }
    }
}

impl Pokemon {
    /// A creature of the given type and health.
    pub fn new(pokemon_type: PokemonType, health: i16) -> (p: Self)
        ensures
            p.pokemon_type == pokemon_type,
            p.health == health,
    {
        Pokemon { pokemon_type, health }
    }

    /// Receive one attack from a creature of type `opponent_type`: lose
    /// exactly twice the multiplier in health, and on reaching zero or below
    /// respawn as the attacker's type at full health.
    pub fn take_damage(&mut self, opponent_type: PokemonType)
        requires
            old(self).health > 0,
        ensures
            *final(self) == attacked(*old(self), opponent_type),
            old(self).health - damage_of(opponent_type, old(self).pokemon_type) > 0
                ==> final(self).pokemon_type == old(self).pokemon_type
                && final(self).health == old(self).health - damage_of(opponent_type, old(self).pokemon_type),
            old(self).health - damage_of(opponent_type, old(self).pokemon_type) <= 0
                ==> final(self).pokemon_type == opponent_type
                && final(self).health == RESPAWN_HEALTH,
            final(self).health > 0,
    {
        let damage = PokemonType::get_damage_multiplier(&opponent_type, &self.pokemon_type)
            .doubled_value();
        self.health = self.health - damage;

        if self.health <= 0 {
            self.pokemon_type = opponent_type;
            self.health = RESPAWN_HEALTH;
        }
    }
}

} // verus!
