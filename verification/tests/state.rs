use screeps::{Position, RoomCoordinate, RoomName};
use screeps_combat_engine::state::{
    CombatWorld, SimController, SimStructure, SimTower, StructureKind,
};

fn at(x: u8, y: u8) -> Position {
    let room: RoomName = "W1N1".parse().unwrap();
    Position::new(RoomCoordinate::new(x).unwrap(), RoomCoordinate::new(y).unwrap(), room)
}

#[test]
fn structure_alive_while_it_has_hits() {
    let mut wall = SimStructure {
        id: 7,
        kind: StructureKind::Wall,
        owner: None,
        pos: at(10, 10),
        hits: 1,
        hits_max: 300_000_000,
    };
    assert!(wall.is_alive());
    wall.hits = 0;
    assert!(!wall.is_alive());
    let copy = wall.clone();
    assert_eq!(copy.kind, StructureKind::Wall);
    assert_eq!(copy.pos, at(10, 10));
    assert_eq!(copy.hits, 0);
}

#[test]
fn tower_alive_while_it_has_hits() {
    let mut tower = SimTower { id: 3, owner: 1, pos: at(25, 25), energy: 1000, hits: 3000, hits_max: 3000 };
    assert!(tower.is_alive());
    tower.hits = 0;
    assert!(!tower.is_alive());
    let copy = tower.clone();
    assert_eq!(copy.energy, 1000);
    assert_eq!(copy.owner, 1);
}

#[test]
fn controller_claimed_while_owned() {
    let mut c = SimController { pos: at(5, 5), owner: Some(2), downgrade_ticks: 600 };
    assert!(c.is_claimed());
    c.owner = None;
    assert!(!c.is_claimed());
    assert_eq!(c.clone().downgrade_ticks, 600);
}

#[test]
fn default_world_is_empty() {
    let w = CombatWorld::default();
    assert!(w.towers.is_empty());
    assert!(w.structures.is_empty());
    assert!(w.controllers.is_empty());
    assert_eq!(w.safe_mode_owner, None);
    assert_ne!(StructureKind::Rampart, StructureKind::Spawn);
}
