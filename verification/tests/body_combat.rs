use screeps_combat_engine::body::{BodyPartDef, BoostTier, PartType, SimBody};
use screeps_combat_engine::SimBodyCombat;

fn body(parts: &[(PartType, BoostTier)]) -> SimBody {
    SimBody::new(
        parts
            .iter()
            .map(|&(p, b)| BodyPartDef::boosted(p, b))
            .collect(),
    )
}

#[test]
fn action_power_unboosted_and_boosted() {
    let five_attack = body(&[(PartType::Attack, BoostTier::Unboosted); 5]);
    assert_eq!(five_attack.attack_power(), 150); // 5 × 30

    let five_attack_t3 = body(&[(PartType::Attack, BoostTier::T3); 5]);
    assert_eq!(five_attack_t3.attack_power(), 600); // 5 × 30 × 4

    let heal = body(&[(PartType::Heal, BoostTier::Unboosted); 4]);
    assert_eq!(heal.heal_power(), 48); // 4 × 12
    assert_eq!(heal.ranged_heal_power(), 16); // 4 × 4

    let heal_t3 = body(&[(PartType::Heal, BoostTier::T3); 4]);
    assert_eq!(heal_t3.heal_power(), 192); // 4 × 12 × 4
    assert_eq!(heal_t3.ranged_heal_power(), 64); // 4 × 4 × 4

    let ranged = body(&[(PartType::RangedAttack, BoostTier::Unboosted); 7]);
    assert_eq!(ranged.ranged_attack_power(), 70); // 7 × 10

    let work = body(&[(PartType::Work, BoostTier::T3); 10]);
    assert_eq!(work.dismantle_power(), 2000); // 10 × 50 × 4
}

#[test]
fn boost_tiers_multiply_by_two_three_four() {
    let mixed = body(&[
        (PartType::Attack, BoostTier::Unboosted),
        (PartType::Attack, BoostTier::T1),
        (PartType::Attack, BoostTier::T2),
        (PartType::Attack, BoostTier::T3),
    ]);
    assert_eq!(mixed.attack_power(), 30 + 60 + 90 + 120);
    assert_eq!(mixed.effective_power(PartType::Attack, 1), 10);
}

#[test]
fn only_parts_of_the_acting_type_count() {
    let b = body(&[
        (PartType::Tough, BoostTier::T3),
        (PartType::Attack, BoostTier::Unboosted),
        (PartType::RangedAttack, BoostTier::Unboosted),
        (PartType::Heal, BoostTier::T1),
        (PartType::Work, BoostTier::Unboosted),
        (PartType::Move, BoostTier::Unboosted),
    ]);
    assert_eq!(b.attack_power(), 30);
    assert_eq!(b.ranged_attack_power(), 10);
    assert_eq!(b.heal_power(), 24);
    assert_eq!(b.ranged_heal_power(), 8);
    assert_eq!(b.dismantle_power(), 50);
    assert_eq!(b.effective_power(PartType::Claim, 600), 0);
}

#[test]
fn dead_parts_contribute_no_power() {
    // [Attack, Attack, Move] at 150 hits: Move 100, second Attack 50, first Attack dead.
    let mut b = body(&[
        (PartType::Attack, BoostTier::T2),
        (PartType::Attack, BoostTier::Unboosted),
        (PartType::Move, BoostTier::Unboosted),
    ]);
    b.hits = 150;
    assert_eq!(b.part_hits(0), 0);
    assert_eq!(b.part_hits(1), 50);
    assert_eq!(b.part_hits(2), 100);
    assert_eq!(b.attack_power(), 30);
    b.hits = 0;
    assert_eq!(b.attack_power(), 0);
}

#[test]
fn dead_front_tough_part_holds_no_hits() {
    // [Tough(T3), Attack] at 100 hits: the front Tough part is dead, the back Attack full.
    let mut b = body(&[
        (PartType::Tough, BoostTier::T3),
        (PartType::Attack, BoostTier::Unboosted),
    ]);
    b.hits = 100;
    assert_eq!(b.part_hits(0), 0);
    assert_eq!(b.part_hits(1), 100);
}

#[test]
fn hit_pools_partition_the_hits() {
    let mut b = SimBody::unboosted(&[PartType::Tough, PartType::Attack, PartType::Move, PartType::Heal]);
    for hits in [0u32, 1, 99, 100, 101, 250, 399, 400] {
        b.hits = hits;
        let total: u32 = (0..4).map(|i| b.part_hits(i)).sum();
        assert_eq!(total, hits);
    }
    b.hits = 1000;
    let total: u32 = (0..4).map(|i| b.part_hits(i)).sum();
    assert_eq!(total, 400);
}

#[test]
fn parts_die_front_to_back() {
    let mut b = SimBody::unboosted(&[PartType::Tough; 5]);
    b.hits = 234;
    let hits: Vec<u32> = (0..5).map(|i| b.part_hits(i)).collect();
    assert_eq!(hits, vec![0, 0, 34, 100, 100]);
}

#[test]
fn adjacent_heal_is_triple_ranged_heal() {
    let mut b = body(&[
        (PartType::Heal, BoostTier::T2),
        (PartType::Heal, BoostTier::Unboosted),
        (PartType::Move, BoostTier::Unboosted),
    ]);
    assert_eq!(b.heal_power(), 3 * b.ranged_heal_power());
    assert_eq!(b.heal_power(), 36 + 12);
    b.hits = 150;
    assert_eq!(b.heal_power(), 3 * b.ranged_heal_power());
    assert_eq!(b.heal_power(), 12);
}

#[test]
fn damage_never_raises_power() {
    let mut b = body(&[
        (PartType::Attack, BoostTier::T1),
        (PartType::Move, BoostTier::Unboosted),
        (PartType::Attack, BoostTier::Unboosted),
        (PartType::Move, BoostTier::Unboosted),
    ]);
    let mut last = b.attack_power();
    assert_eq!(last, 90);
    let mut hits = 400u32;
    while hits > 0 {
        hits -= 10;
        b.hits = hits;
        let now = b.attack_power();
        assert!(now <= last);
        last = now;
    }
    assert_eq!(last, 0);
}

#[test]
fn new_body_is_at_full_hits() {
    let b = body(&[(PartType::Tough, BoostTier::T3), (PartType::Move, BoostTier::Unboosted)]);
    assert_eq!(b.hits, 200);
    assert_eq!(b.part_hits(0), 100);
    assert_eq!(b.part_hits(1), 100);
    let u = SimBody::unboosted(&[PartType::Claim, PartType::Carry]);
    assert_eq!(u.hits, 200);
    assert_eq!(u.parts[0], BodyPartDef::boosted(PartType::Claim, BoostTier::Unboosted));
    assert_eq!(u.parts[1].part, PartType::Carry);
    let empty = SimBody::unboosted(&[]);
    assert_eq!(empty.hits, 0);
    assert_eq!(empty.attack_power(), 0);
}
