//! The creep body model: per-part 100-hit pools that degrade front to back (the engine's
//! `_recalc-body`), and boost-aware action power (the engine's `calcBodyEffectiveness`).
//!
//! A body of `n` parts holding `hits` hits gives part `i` the hits left once the `n - 1 - i`
//! parts behind it have taken 100 each, clamped to `0..=100`: damage kills the front parts
//! first. A part acts only while it has hits; an alive part of the acting type contributes its
//! base power times its boost multiplier (1 unboosted, 2 / 3 / 4 for the three boost tiers).

use vstd::prelude::*;

verus! {

/// Hits a full body part holds.
pub const BODYPART_HITS: u32 = 100;

/// A body part type (the engine's `BODYPART` constants).
#[derive(Clone, Copy, Debug, PartialEq, Eq, Structural)]
pub enum PartType {
    Move,
    Work,
    Carry,
    Attack,
    RangedAttack,
    Tough,
    Heal,
    Claim,
}

/// The boost compound tier applied to a part: unboosted, or the tier-1 / tier-2 / tier-3
/// compound of the part's type.
#[derive(Clone, Copy, Debug, PartialEq, Eq, Structural)]
pub enum BoostTier {
    Unboosted,
    T1,
    T2,
    T3,
}

/// One body part: its type and its boost.
#[derive(Clone, Copy, Debug, PartialEq, Eq, Structural)]
pub struct BodyPartDef {
    pub part: PartType,
    pub boost: BoostTier,
}

/// A creep body: its parts, front (index 0) to back, and the hits the whole body holds.
#[derive(Clone, Debug)]
pub struct SimBody {
    pub parts: Vec<BodyPartDef>,
    pub hits: u32,
}

/// The hits a part holds when `behind` parts stand behind it in a body holding `hits` hits:
/// what is left after each part behind it took a full pool, clamped to one pool.
pub open spec fn pool_hits(hits: int, behind: int) -> int {
    let rest = hits - 100 * behind;
    if rest <= 0 {
        0
    } else if rest >= 100 {
        100
    } else {
        rest
    }
}

/// What `pools` full part pools hold of `hits` hits: `min(hits, 100 * pools)`.
pub open spec fn capped_hits(hits: int, pools: int) -> int {
    if hits <= 100 * pools {
        hits
    } else {
        100 * pools
    }
}

/// The action power of one alive part with base power `base` and boost `boost`.
pub open spec fn boosted_power(base: int, boost: BoostTier) -> int {
    match boost {
        BoostTier::Unboosted => base,
        BoostTier::T1 => 2 * base,
        BoostTier::T2 => 3 * base,
        BoostTier::T3 => 4 * base,
    }
}

/// Boosted power is linear in the base power.
proof fn lemma_boosted_power_linear(base: int, boost: BoostTier)
    ensures
        boosted_power(base, boost) == base * boosted_power(1, boost),
{
    assert(base * 1 == base && base * 2 == 2 * base && base * 3 == 3 * base && base * 4 == 4
        * base) by (nonlinear_arith);
}

impl BodyPartDef {
    /// A part of type `part` with boost `boost`.
    pub fn boosted(part: PartType, boost: BoostTier) -> (def: BodyPartDef)
        ensures
            def.part == part,
            def.boost == boost,
    {
        BodyPartDef { part, boost }
    }
}

impl SimBody {
    /// The hits part `i` holds.
    pub open spec fn spec_part_hits(&self, i: int) -> int {
        pool_hits(self.hits as int, self.parts@.len() - 1 - i)
    }

    /// The power part `i` contributes to an action of type `part` with base power `base`:
    /// its boosted power if it is of that type and alive, else nothing.
    pub open spec fn part_power(&self, i: int, part: PartType, base: int) -> int {
        if self.parts@[i].part == part && self.spec_part_hits(i) > 0 {
            boosted_power(base, self.parts@[i].boost)
        } else {
            0
        }
    }

    /// The power that parts `0..k` contribute to an action of type `part`.
    pub open spec fn power_upto(&self, part: PartType, base: int, k: int) -> int
        decreases k,
    {
        if k <= 0 {
            0
        } else {
            self.power_upto(part, base, k - 1) + self.part_power(k - 1, part, base)
        }
    }

    /// The body's power for an action of type `part` with per-part base power `base`
    /// (the engine's `calcBodyEffectiveness`).
    pub open spec fn power(&self, part: PartType, base: int) -> int {
        self.power_upto(part, base, self.parts@.len() as int)
    }

    /// The hits of parts `0..k` together.
    pub open spec fn part_hits_upto(&self, k: int) -> int
        decreases k,
    {
        if k <= 0 {
            0
        } else {
            self.part_hits_upto(k - 1) + self.spec_part_hits(k - 1)
        }
    }

    /// A full-health body of the given parts.
    pub fn new(parts: Vec<BodyPartDef>) -> (body: SimBody)
        requires
            100 * parts@.len() <= u32::MAX,
        ensures
            body.parts@ == parts@,
            body.hits == 100 * parts@.len(),
            forall|i: int| 0 <= i < parts@.len() ==> #[trigger] body.spec_part_hits(i) == 100,
    {
        let n = parts.len();
        let hits = (n as u32) * BODYPART_HITS;
        SimBody { parts, hits }
    }

    /// A full-health body of unboosted parts of the given types.
    pub fn unboosted(types: &[PartType]) -> (body: SimBody)
        requires
            100 * types@.len() <= u32::MAX,
        ensures
            body.parts@.len() == types@.len(),
            forall|i: int|
                0 <= i < types@.len() ==> #[trigger] body.parts@[i] == (BodyPartDef {
                    part: types@[i],
                    boost: BoostTier::Unboosted,
                }),
            body.hits == 100 * types@.len(),
            forall|i: int| 0 <= i < types@.len() ==> #[trigger] body.spec_part_hits(i) == 100,
    {
        let mut parts: Vec<BodyPartDef> = Vec::new();
        let mut k: usize = 0;
        while k < types.len()
            invariant
                k <= types@.len(),
                parts@.len() == k,
                forall|i: int|
                    0 <= i < k ==> #[trigger] parts@[i] == (BodyPartDef {
                        part: types@[i],
                        boost: BoostTier::Unboosted,
                    }),
            decreases types@.len() - k,
        {
            parts.push(BodyPartDef { part: types[k], boost: BoostTier::Unboosted });
            k = k + 1;
        }
        SimBody::new(parts)
    }

    /// The hits part `i` holds: each part holds a pool of 100, filled from the back, so the
    /// front parts are the first to die.
    pub fn part_hits(&self, i: usize) -> (part_hits: u32)
        requires
            i < self.parts@.len(),
        ensures
            part_hits == self.spec_part_hits(i as int),
            part_hits <= 100,
    {
        let behind = (self.parts.len() - 1 - i) as u128;
        let threshold: u128 = behind * 100;
        let hits = self.hits as u128;
        if hits <= threshold {
            0
        } else if hits - threshold >= 100 {
            BODYPART_HITS
        } else {
            (hits - threshold) as u32
        }
    }

    /// The body's power for an action of type `part` with per-part base power `base`: the
    /// boosted base power of each alive part of that type, summed.
    pub fn effective_power(&self, part: PartType, base: u32) -> (power: u32)
        requires
            self.power(part, base as int) <= u32::MAX,
        ensures
            power == self.power(part, base as int),
    {
        let n = self.parts.len();
        let mut acc: u32 = 0;
        let mut i: usize = 0;
        while i < n
            invariant
                n == self.parts@.len(),
                i <= n,
                acc == self.power_upto(part, base as int, i as int),
                self.power(part, base as int) <= u32::MAX,
            decreases n - i,
        {
            proof {
                self.lemma_power_upto_monotone(part, base as int, i as int + 1, n as int);
            }
            let def = self.parts[i];
            if def.part == part && self.part_hits(i) > 0 {
                let contribution: u32 = match def.boost {
                    BoostTier::Unboosted => base,
                    BoostTier::T1 => 2 * base,
                    BoostTier::T2 => 3 * base,
                    BoostTier::T3 => 4 * base,
                };
                acc = acc + contribution;
            }
            i = i + 1;
        }
        acc
    }

    /// The power of a prefix of the parts never exceeds that of a longer prefix.
    pub proof fn lemma_power_upto_monotone(&self, part: PartType, base: int, j: int, k: int)
        requires
            0 <= base,
            j <= k,
        ensures
            self.power_upto(part, base, j) <= self.power_upto(part, base, k),
        decreases k - j,
    {
        if j < k {
            self.lemma_power_upto_monotone(part, base, j, k - 1);
            if k - 1 >= 0 {
                assert(self.power_upto(part, base, k) == self.power_upto(part, base, k - 1)
                    + self.part_power(k - 1, part, base));
            }
        }
    }
}

/// Hits a pool of one part takes up: the pools of parts with `0..m` parts behind them hold
/// `min(hits, 100 * m)` together, and the next pool holds what is left of it, up to 100.
proof fn lemma_pools_fill(hits: int, m: int)
    requires
        0 <= hits,
        0 <= m,
    ensures
        capped_hits(hits, m) + pool_hits(hits, m) == capped_hits(hits, m + 1),
{
}

impl SimBody {
    /// The hit pools of parts `0..k` hold what the whole body holds minus what the parts from
    /// `k` on hold.
    proof fn lemma_part_hits_upto(&self, k: int)
        requires
            0 <= k <= self.parts@.len(),
        ensures
            self.part_hits_upto(k) == capped_hits(self.hits as int, self.parts@.len() as int)
                - capped_hits(self.hits as int, self.parts@.len() - k),
        decreases k,
    {
        if k > 0 {
            self.lemma_part_hits_upto(k - 1);
            lemma_pools_fill(self.hits as int, self.parts@.len() - k);
        }
    }

    /// The part hit pools partition the body's hits: together the parts hold all the body's
    /// hits, up to a full pool of 100 per part.
    pub proof fn lemma_hit_pools_partition_hits(&self)
        ensures
            self.part_hits_upto(self.parts@.len() as int) == capped_hits(
                self.hits as int,
                self.parts@.len() as int,
            ),
    {
        self.lemma_part_hits_upto(self.parts@.len() as int);
    }

    /// Parts die front to back: every part holds between 0 and 100 hits, no part holds more
    /// than a part behind it, and every part behind a part that still has hits is at full hits.
    pub proof fn lemma_parts_die_front_to_back(&self, i: int, j: int)
        requires
            0 <= i < j < self.parts@.len(),
        ensures
            0 <= self.spec_part_hits(i) <= 100,
            self.spec_part_hits(i) <= self.spec_part_hits(j),
            self.spec_part_hits(i) > 0 ==> self.spec_part_hits(j) == 100,
    {
    }

    /// Action power is linear in the base power: the power for base power `base` is `base`
    /// times the power for base power 1.
    pub proof fn lemma_power_scales_with_base(&self, part: PartType, base: int)
        ensures
            self.power(part, base) == base * self.power(part, 1),
    {
        self.lemma_power_upto_scales(part, base, self.parts@.len() as int);
    }

    proof fn lemma_power_upto_scales(&self, part: PartType, base: int, k: int)
        ensures
            self.power_upto(part, base, k) == base * self.power_upto(part, 1, k),
        decreases k,
    {
        if k > 0 {
            self.lemma_power_upto_scales(part, base, k - 1);
            let prev = self.power_upto(part, 1, k - 1);
            let unit = self.part_power(k - 1, part, 1);
            assert(self.part_power(k - 1, part, base) == base * unit) by {
                if self.parts@[k - 1].part == part && self.spec_part_hits(k - 1) > 0 {
                    lemma_boosted_power_linear(base, self.parts@[k - 1].boost);
                } else {
                    assert(base * 0 == 0) by (nonlinear_arith);
                }
            }
            assert(base * (prev + unit) == base * prev + base * unit) by (nonlinear_arith);
        }
    }
}

/// Damage never raises action power: of two bodies with the same parts, the one holding fewer
/// hits has no more power for any action and any base power.
pub proof fn lemma_damage_never_raises_power(
    damaged: &SimBody,
    healthy: &SimBody,
    part: PartType,
    base: int,
)
    requires
        damaged.parts@ == healthy.parts@,
        damaged.hits <= healthy.hits,
        0 <= base,
    ensures
        damaged.power(part, base) <= healthy.power(part, base),
{
    lemma_power_upto_le(damaged, healthy, part, base, damaged.parts@.len() as int);
}

proof fn lemma_power_upto_le(
    damaged: &SimBody,
    healthy: &SimBody,
    part: PartType,
    base: int,
    k: int,
)
    requires
        damaged.parts@ == healthy.parts@,
        damaged.hits <= healthy.hits,
        0 <= base,
        k <= damaged.parts@.len(),
    ensures
        damaged.power_upto(part, base, k) <= healthy.power_upto(part, base, k),
    decreases k,
{
    if k > 0 {
        lemma_power_upto_le(damaged, healthy, part, base, k - 1);
        assert(damaged.part_power(k - 1, part, base) <= healthy.part_power(k - 1, part, base));
    }
}


/// A body with no part of a type has no power for actions of that type.
pub proof fn lemma_no_parts_no_power(body: &SimBody, part: PartType, base: int)
    requires
        forall|j: int| 0 <= j < body.parts@.len() ==> #[trigger] body.parts@[j].part != part,
    ensures
        body.power(part, base) == 0,
{
    lemma_no_parts_no_power_upto(body, part, base, body.parts@.len() as int);
}

proof fn lemma_no_parts_no_power_upto(body: &SimBody, part: PartType, base: int, k: int)
    requires
        forall|j: int| 0 <= j < body.parts@.len() ==> #[trigger] body.parts@[j].part != part,
        k <= body.parts@.len(),
    ensures
        body.power_upto(part, base, k) == 0,
    decreases k,
{
    if k > 0 {
        lemma_no_parts_no_power_upto(body, part, base, k - 1);
        assert(body.parts@[k - 1].part != part);
    }
}

/// Every part of the acting type that still holds hits acts, at its base power times its boost
/// multiplier (1 unboosted; 2, 3, 4 for tiers 1, 2, 3), however few hits it holds; a part with
/// no hits does not act. Stated over two bodies that hold the same hits and differ only in part
/// `i`, which is of the acting type in `with` and of another type in `without`: their powers
/// differ by exactly what part `i` brings.
pub proof fn lemma_each_alive_part_acts(
    with: &SimBody,
    without: &SimBody,
    i: int,
    part: PartType,
    base: int,
)
    requires
        with.hits == without.hits,
        with.parts@.len() == without.parts@.len(),
        0 <= i < with.parts@.len(),
        forall|j: int|
            0 <= j < with.parts@.len() && j != i ==> #[trigger] with.parts@[j]
                == without.parts@[j],
        with.parts@[i].part == part,
        without.parts@[i].part != part,
    ensures
        with.power(part, base) == without.power(part, base) + (if with.spec_part_hits(i) > 0 {
            base * match with.parts@[i].boost {
                BoostTier::Unboosted => 1int,
                BoostTier::T1 => 2int,
                BoostTier::T2 => 3int,
                BoostTier::T3 => 4int,
            }
        } else {
            0
        }),
{
    lemma_boosted_power_linear(base, with.parts@[i].boost);
    lemma_each_alive_part_acts_upto(with, without, i, part, base, with.parts@.len() as int);
}

proof fn lemma_each_alive_part_acts_upto(
    with: &SimBody,
    without: &SimBody,
    i: int,
    part: PartType,
    base: int,
    k: int,
)
    requires
        with.hits == without.hits,
        with.parts@.len() == without.parts@.len(),
        0 <= i < with.parts@.len(),
        forall|j: int|
            0 <= j < with.parts@.len() && j != i ==> #[trigger] with.parts@[j]
                == without.parts@[j],
        with.parts@[i].part == part,
        without.parts@[i].part != part,
        k <= with.parts@.len(),
    ensures
        with.power_upto(part, base, k) == without.power_upto(part, base, k) + (if k > i {
            with.part_power(i, part, base)
        } else {
            0
        }),
    decreases k,
{
    if k > 0 {
        lemma_each_alive_part_acts_upto(with, without, i, part, base, k - 1);
        if k - 1 != i {
            assert(with.parts@[k - 1] == without.parts@[k - 1]);
            assert(with.part_power(k - 1, part, base) == without.part_power(k - 1, part, base));
        }
    }
}

} // verus!
