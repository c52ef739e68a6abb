//! Combat constants of the Screeps engine (`screeps-common` constants and the processor intents).
//! The floating-point falloff constants live beside the floating-point formulas that use them,
//! outside the verified library.

use vstd::prelude::*;

verus! {

/// Creep lifetime (`CREEP_LIFE_TIME`).
pub const CREEP_LIFE_TIME: u32 = 1500;

/// Lifetime of a creep with a CLAIM part (`CREEP_CLAIM_LIFE_TIME`).
pub const CREEP_CLAIM_LIFE_TIME: u32 = 600;

/// ATTACK power per part, melee, range 1.
pub const ATTACK_POWER: u32 = 30;

/// RANGED_ATTACK power per part, range 3.
pub const RANGED_ATTACK_POWER: u32 = 10;

/// HEAL power per part on an adjacent target, range 1.
pub const HEAL_POWER: u32 = 12;

/// HEAL power per part at range, range 3.
pub const RANGED_HEAL_POWER: u32 = 4;

/// WORK dismantle power per part, range 1.
pub const DISMANTLE_POWER: u32 = 50;

/// `attackController` downgrade per CLAIM part, range 1: each CLAIM part reduces the target
/// controller's downgrade timer; the de-claim accrues until it reaches 0 and the controller
/// turns neutral.
pub const CONTROLLER_ATTACK_PER_PART: u32 = 300;

/// Melee attack range (Chebyshev).
pub const ATTACK_RANGE: u32 = 1;

/// Ranged attack range (Chebyshev).
pub const RANGED_ATTACK_RANGE: u32 = 3;

/// Adjacent heal range (Chebyshev).
pub const HEAL_RANGE: u32 = 1;

/// Ranged heal range (Chebyshev).
pub const RANGED_HEAL_RANGE: u32 = 3;

/// Dismantle range (Chebyshev).
pub const DISMANTLE_RANGE: u32 = 1;

/// Range up to which a tower fires at full power.
pub const TOWER_OPTIMAL_RANGE: u32 = 5;

/// Range from which a tower fires at its fully fallen-off power.
pub const TOWER_FALLOFF_RANGE: u32 = 20;

/// Energy a tower spends per shot.
pub const TOWER_ENERGY_COST: u32 = 10;

} // verus!
