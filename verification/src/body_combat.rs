//! Body-combat arithmetic on [`SimBody`]: the attack, ranged attack, heal, ranged heal and
//! dismantle power of a body (the engine's `calcBodyEffectiveness` with the combat powers of
//! [`crate::constants`]). Bring [`SimBodyCombat`] into scope to call these on a `SimBody`.

use vstd::prelude::*;
use crate::body::{lemma_each_alive_part_acts, lemma_no_parts_no_power, BoostTier, PartType, SimBody};
use crate::constants::{
    ATTACK_POWER, DISMANTLE_POWER, HEAL_POWER, RANGED_ATTACK_POWER, RANGED_HEAL_POWER,
};

verus! {

/// Body-combat arithmetic: the power a body brings to each combat action.
pub trait SimBodyCombat {
    /// The melee attack power of the body.
    spec fn spec_attack_power(&self) -> int;

    /// The ranged attack power of the body.
    spec fn spec_ranged_attack_power(&self) -> int;

    /// The adjacent heal power of the body.
    spec fn spec_heal_power(&self) -> int;

    /// The ranged heal power of the body.
    spec fn spec_ranged_heal_power(&self) -> int;

    /// The dismantle power of the body.
    spec fn spec_dismantle_power(&self) -> int;

    /// Melee attack power: ATTACK parts.
    fn attack_power(&self) -> (power: u32)
        requires
            self.spec_attack_power() <= u32::MAX,
        ensures
            power == self.spec_attack_power(),
    ;

    /// Ranged attack power: RANGED_ATTACK parts.
    fn ranged_attack_power(&self) -> (power: u32)
        requires
            self.spec_ranged_attack_power() <= u32::MAX,
        ensures
            power == self.spec_ranged_attack_power(),
    ;

    /// Adjacent heal power: HEAL parts.
    fn heal_power(&self) -> (power: u32)
        requires
            self.spec_heal_power() <= u32::MAX,
        ensures
            power == self.spec_heal_power(),
    ;

    /// Ranged heal power: HEAL parts at range.
    fn ranged_heal_power(&self) -> (power: u32)
        requires
            self.spec_ranged_heal_power() <= u32::MAX,
        ensures
            power == self.spec_ranged_heal_power(),
    ;

    /// Dismantle power: WORK parts.
    fn dismantle_power(&self) -> (power: u32)
        requires
            self.spec_dismantle_power() <= u32::MAX,
        ensures
            power == self.spec_dismantle_power(),
    ;
}

impl SimBodyCombat for SimBody {
    open spec fn spec_attack_power(&self) -> int {
        self.power(PartType::Attack, ATTACK_POWER as int)
    }

    open spec fn spec_ranged_attack_power(&self) -> int {
        self.power(PartType::RangedAttack, RANGED_ATTACK_POWER as int)
    }

    open spec fn spec_heal_power(&self) -> int {
        self.power(PartType::Heal, HEAL_POWER as int)
    }

    open spec fn spec_ranged_heal_power(&self) -> int {
        self.power(PartType::Heal, RANGED_HEAL_POWER as int)
    }

    open spec fn spec_dismantle_power(&self) -> int {
        self.power(PartType::Work, DISMANTLE_POWER as int)
    }

    fn attack_power(&self) -> (power: u32) {
        self.effective_power(PartType::Attack, ATTACK_POWER)
    }

    fn ranged_attack_power(&self) -> (power: u32) {
        self.effective_power(PartType::RangedAttack, RANGED_ATTACK_POWER)
    }

    fn heal_power(&self) -> (power: u32) {
        self.effective_power(PartType::Heal, HEAL_POWER)
    }

    fn ranged_heal_power(&self) -> (power: u32) {
        self.effective_power(PartType::Heal, RANGED_HEAL_POWER)
    }

    fn dismantle_power(&self) -> (power: u32) {
        self.effective_power(PartType::Work, DISMANTLE_POWER)
    }
}

/// The same HEAL parts heal three times as much on an adjacent target as at range.
pub proof fn lemma_adjacent_heal_is_triple_ranged_heal(body: &SimBody)
    ensures
        body.spec_heal_power() == 3 * body.spec_ranged_heal_power(),
{
    body.lemma_power_scales_with_base(PartType::Heal, HEAL_POWER as int);
    body.lemma_power_scales_with_base(PartType::Heal, RANGED_HEAL_POWER as int);
}

/// A body without ATTACK parts has no melee attack power.
pub proof fn lemma_attack_power_without_parts(body: &SimBody)
    requires
        forall|j: int| 0 <= j < body.parts@.len() ==> #[trigger] body.parts@[j].part
            != PartType::Attack,
    ensures
        body.spec_attack_power() == 0,
{
    lemma_no_parts_no_power(body, PartType::Attack, ATTACK_POWER as int);
}

/// Each ATTACK part that holds any hits at all adds ATTACK_POWER times its boost multiplier
/// (1 unboosted; 2, 3, 4 for tiers 1, 2, 3) to the melee attack power; one without hits adds nothing.
/// `with` and `without` hold the same hits and differ only in part `i`, an ATTACK part in `with`.
pub proof fn lemma_attack_power_counts_alive_parts(with: &SimBody, without: &SimBody, i: int)
    requires
        with.hits == without.hits,
        with.parts@.len() == without.parts@.len(),
        0 <= i < with.parts@.len(),
        forall|j: int|
            0 <= j < with.parts@.len() && j != i ==> #[trigger] with.parts@[j]
                == without.parts@[j],
        with.parts@[i].part == PartType::Attack,
        without.parts@[i].part != PartType::Attack,
    ensures
        with.spec_attack_power() == without.spec_attack_power() + (if with.spec_part_hits(i) > 0 {
            ATTACK_POWER * match with.parts@[i].boost {
                BoostTier::Unboosted => 1int,
                BoostTier::T1 => 2int,
                BoostTier::T2 => 3int,
                BoostTier::T3 => 4int,
            }
        } else {
            0
        }),
{
    lemma_each_alive_part_acts(with, without, i, PartType::Attack, ATTACK_POWER as int);
}

/// A body without RANGED_ATTACK parts has no ranged attack power.
pub proof fn lemma_ranged_attack_power_without_parts(body: &SimBody)
    requires
        forall|j: int| 0 <= j < body.parts@.len() ==> #[trigger] body.parts@[j].part
            != PartType::RangedAttack,
    ensures
        body.spec_ranged_attack_power() == 0,
{
    lemma_no_parts_no_power(body, PartType::RangedAttack, RANGED_ATTACK_POWER as int);
}

/// Each RANGED_ATTACK part that holds any hits at all adds RANGED_ATTACK_POWER times its boost multiplier
/// (1 unboosted; 2, 3, 4 for tiers 1, 2, 3) to the ranged attack power; one without hits adds nothing.
/// `with` and `without` hold the same hits and differ only in part `i`, an RANGED_ATTACK part in `with`.
pub proof fn lemma_ranged_attack_power_counts_alive_parts(with: &SimBody, without: &SimBody, i: int)
    requires
        with.hits == without.hits,
        with.parts@.len() == without.parts@.len(),
        0 <= i < with.parts@.len(),
        forall|j: int|
            0 <= j < with.parts@.len() && j != i ==> #[trigger] with.parts@[j]
                == without.parts@[j],
        with.parts@[i].part == PartType::RangedAttack,
        without.parts@[i].part != PartType::RangedAttack,
    ensures
        with.spec_ranged_attack_power() == without.spec_ranged_attack_power() + (if with.spec_part_hits(i) > 0 {
            RANGED_ATTACK_POWER * match with.parts@[i].boost {
                BoostTier::Unboosted => 1int,
                BoostTier::T1 => 2int,
                BoostTier::T2 => 3int,
                BoostTier::T3 => 4int,
            }
        } else {
            0
        }),
{
    lemma_each_alive_part_acts(with, without, i, PartType::RangedAttack, RANGED_ATTACK_POWER as int);
}

/// A body without HEAL parts has no adjacent heal power.
pub proof fn lemma_heal_power_without_parts(body: &SimBody)
    requires
        forall|j: int| 0 <= j < body.parts@.len() ==> #[trigger] body.parts@[j].part
            != PartType::Heal,
    ensures
        body.spec_heal_power() == 0,
{
    lemma_no_parts_no_power(body, PartType::Heal, HEAL_POWER as int);
}

/// Each HEAL part that holds any hits at all adds HEAL_POWER times its boost multiplier
/// (1 unboosted; 2, 3, 4 for tiers 1, 2, 3) to the adjacent heal power; one without hits adds nothing.
/// `with` and `without` hold the same hits and differ only in part `i`, an HEAL part in `with`.
pub proof fn lemma_heal_power_counts_alive_parts(with: &SimBody, without: &SimBody, i: int)
    requires
        with.hits == without.hits,
        with.parts@.len() == without.parts@.len(),
        0 <= i < with.parts@.len(),
        forall|j: int|
            0 <= j < with.parts@.len() && j != i ==> #[trigger] with.parts@[j]
                == without.parts@[j],
        with.parts@[i].part == PartType::Heal,
        without.parts@[i].part != PartType::Heal,
    ensures
        with.spec_heal_power() == without.spec_heal_power() + (if with.spec_part_hits(i) > 0 {
            HEAL_POWER * match with.parts@[i].boost {
                BoostTier::Unboosted => 1int,
                BoostTier::T1 => 2int,
                BoostTier::T2 => 3int,
                BoostTier::T3 => 4int,
            }
        } else {
            0
        }),
{
    lemma_each_alive_part_acts(with, without, i, PartType::Heal, HEAL_POWER as int);
}

/// A body without HEAL parts has no ranged heal power.
pub proof fn lemma_ranged_heal_power_without_parts(body: &SimBody)
    requires
        forall|j: int| 0 <= j < body.parts@.len() ==> #[trigger] body.parts@[j].part
            != PartType::Heal,
    ensures
        body.spec_ranged_heal_power() == 0,
{
    lemma_no_parts_no_power(body, PartType::Heal, RANGED_HEAL_POWER as int);
}

/// Each HEAL part that holds any hits at all adds RANGED_HEAL_POWER times its boost multiplier
/// (1 unboosted; 2, 3, 4 for tiers 1, 2, 3) to the ranged heal power; one without hits adds nothing.
/// `with` and `without` hold the same hits and differ only in part `i`, an HEAL part in `with`.
pub proof fn lemma_ranged_heal_power_counts_alive_parts(with: &SimBody, without: &SimBody, i: int)
    requires
        with.hits == without.hits,
        with.parts@.len() == without.parts@.len(),
        0 <= i < with.parts@.len(),
        forall|j: int|
            0 <= j < with.parts@.len() && j != i ==> #[trigger] with.parts@[j]
                == without.parts@[j],
        with.parts@[i].part == PartType::Heal,
        without.parts@[i].part != PartType::Heal,
    ensures
        with.spec_ranged_heal_power() == without.spec_ranged_heal_power() + (if with.spec_part_hits(i) > 0 {
            RANGED_HEAL_POWER * match with.parts@[i].boost {
                BoostTier::Unboosted => 1int,
                BoostTier::T1 => 2int,
                BoostTier::T2 => 3int,
                BoostTier::T3 => 4int,
            }
        } else {
            0
        }),
{
    lemma_each_alive_part_acts(with, without, i, PartType::Heal, RANGED_HEAL_POWER as int);
}

/// A body without WORK parts has no dismantle power.
pub proof fn lemma_dismantle_power_without_parts(body: &SimBody)
    requires
        forall|j: int| 0 <= j < body.parts@.len() ==> #[trigger] body.parts@[j].part
            != PartType::Work,
    ensures
        body.spec_dismantle_power() == 0,
{
    lemma_no_parts_no_power(body, PartType::Work, DISMANTLE_POWER as int);
}

/// Each WORK part that holds any hits at all adds DISMANTLE_POWER times its boost multiplier
/// (1 unboosted; 2, 3, 4 for tiers 1, 2, 3) to the dismantle power; one without hits adds nothing.
/// `with` and `without` hold the same hits and differ only in part `i`, an WORK part in `with`.
pub proof fn lemma_dismantle_power_counts_alive_parts(with: &SimBody, without: &SimBody, i: int)
    requires
        with.hits == without.hits,
        with.parts@.len() == without.parts@.len(),
        0 <= i < with.parts@.len(),
        forall|j: int|
            0 <= j < with.parts@.len() && j != i ==> #[trigger] with.parts@[j]
                == without.parts@[j],
        with.parts@[i].part == PartType::Work,
        without.parts@[i].part != PartType::Work,
    ensures
        with.spec_dismantle_power() == without.spec_dismantle_power() + (if with.spec_part_hits(i) > 0 {
            DISMANTLE_POWER * match with.parts@[i].boost {
                BoostTier::Unboosted => 1int,
                BoostTier::T1 => 2int,
                BoostTier::T2 => 3int,
                BoostTier::T3 => 4int,
            }
        } else {
            0
        }),
{
    lemma_each_alive_part_acts(with, without, i, PartType::Work, DISMANTLE_POWER as int);
}

} // verus!
