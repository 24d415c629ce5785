//! A cellular automaton of typed creatures on a rectangular grid.
//!
//! Every eligible tick each cell attacks its diagonal neighbours; damage is
//! scaled by a fixed type-effectiveness table, and a creature whose health
//! would drop to zero or below is atomically converted to its attacker's type
//! and revived at full health.

pub mod pokemon;
pub mod pokemon_type;
pub mod world;

pub use pokemon::Pokemon;
pub use pokemon_type::Effectiveness;
pub use pokemon_type::PokemonType;
pub use world::InvalidDimensions;
pub use world::PokemonWorld;
