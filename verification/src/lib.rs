//! # screeps_combat_engine
//!
//! The verified combat-mechanism layer of a Screeps combat micro-simulator: the combat constants,
//! the creep body model (per-part 100-hit pools that degrade front to back, boost-aware action
//! power) and the value types of a combat world (structures, towers, controllers).
//!
//! Every executable function here carries a contract over mathematical models, and the laws the
//! body model keeps (hit pools partition the body's hits, parts die front to back, action power
//! scales with base power and never grows with damage) are stated as proof functions.

pub mod body;
pub mod body_combat;
pub mod constants;
pub mod state;

pub use body::{BodyPartDef, BoostTier, PartType, SimBody};
pub use body_combat::SimBodyCombat;

pub use state::{
    CombatWorld, PlayerId, SimController, SimStructure, SimTower, StructureId, StructureKind,
};
