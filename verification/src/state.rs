//! Combat world state: value types over `screeps::Position` for one room's structures, towers
//! and controllers.

use vstd::prelude::*;
use screeps::Position;

verus! {

/// A room position of the Screeps game API. Verus carries it through as an opaque value.
#[verifier::external_type_specification]
#[verifier::external_body]
pub struct ExPosition(Position);

/// Identifies a player (the owner of creeps, structures and controllers).
pub type PlayerId = u32;

/// Identifies a structure; unique across a world's structures and towers.
pub type StructureId = u32;

/// Attackable, dismantlable structure kinds. `Tower` tags a [`SimTower`] when it appears as a
/// damage target; towers live in their own list of [`CombatWorld`] because they also fire, but
/// they share the structure damage and repair pools.
#[derive(Clone, Copy, Debug, PartialEq, Eq, Structural)]
pub enum StructureKind {
    Spawn,
    Rampart,
    Wall,
    Tower,
}

/// A passive (non-firing) structure that can be attacked, dismantled and repaired. Ramparts
/// shield co-located targets.
#[derive(Debug)]
pub struct SimStructure {
    pub id: StructureId,
    pub kind: StructureKind,
    /// `None` for unowned constructed walls; `Some` for ramparts and spawns.
    pub owner: Option<PlayerId>,
    pub pos: Position,
    pub hits: u32,
    pub hits_max: u32,
}

impl Clone for SimStructure {
    fn clone(&self) -> (copy: Self)
        ensures
            copy == *self,
    {
        SimStructure {
            id: self.id,
            kind: self.kind,
            owner: self.owner,
            pos: self.pos,
            hits: self.hits,
            hits_max: self.hits_max,
        }
    }
}

impl SimStructure {
    /// A structure stands while it has hits left.
    pub fn is_alive(&self) -> (alive: bool)
        ensures
            alive == (self.hits > 0),
    {
        self.hits > 0
    }
}

/// A tower. Towers fire once per tick for [`crate::constants::TOWER_ENERGY_COST`] energy, and
/// are damage targets too: a tower shares the structure damage and repair pools, keyed by its
/// `id`, which is unique across structures and towers.
#[derive(Debug)]
pub struct SimTower {
    pub id: StructureId,
    pub owner: PlayerId,
    pub pos: Position,
    pub energy: u32,
    pub hits: u32,
    pub hits_max: u32,
}

impl Clone for SimTower {
    fn clone(&self) -> (copy: Self)
        ensures
            copy == *self,
    {
        SimTower {
            id: self.id,
            owner: self.owner,
            pos: self.pos,
            energy: self.energy,
            hits: self.hits,
            hits_max: self.hits_max,
        }
    }
}

impl SimTower {
    /// A tower stands while it has hits left.
    pub fn is_alive(&self) -> (alive: bool)
        ensures
            alive == (self.hits > 0),
    {
        self.hits > 0
    }
}

/// A room controller, the de-claim target of `attackController`. `downgrade_ticks` is the
/// de-claim countdown: each `attackController` (CLAIM parts times
/// [`crate::constants::CONTROLLER_ATTACK_PER_PART`]) reduces it, and at 0 the controller turns
/// neutral (`owner == None`).
#[derive(Debug)]
pub struct SimController {
    pub pos: Position,
    pub owner: Option<PlayerId>,
    pub downgrade_ticks: u32,
}

impl Clone for SimController {
    fn clone(&self) -> (copy: Self)
        ensures
            copy == *self,
    {
        SimController {
            pos: self.pos,
            owner: self.owner,
            downgrade_ticks: self.downgrade_ticks,
        }
    }
}

impl SimController {
    /// A de-claim target: a controller owned by someone (a neutral one cannot be attacked
    /// further).
    pub fn is_claimed(&self) -> (claimed: bool)
        ensures
            claimed == (self.owner is Some),
    {
        self.owner.is_some()
    }
}

/// One room's combat overlay for a tick: towers, passive structures, controllers and the
/// safe-mode owner.
#[derive(Clone, Debug)]
pub struct CombatWorld {
    pub towers: Vec<SimTower>,
    pub structures: Vec<SimStructure>,
    /// Room controllers, the de-claim targets of `attackController` (one per room at most).
    pub controllers: Vec<SimController>,
    /// Owner whose controller is in safe mode this tick (all hostile combat is zeroed), if any.
    pub safe_mode_owner: Option<PlayerId>,
}

impl Default for CombatWorld {
    /// An empty world: no towers, structures or controllers, and no safe mode.
    fn default() -> (world: Self)
        ensures
            world.towers@.len() == 0,
            world.structures@.len() == 0,
            world.controllers@.len() == 0,
            world.safe_mode_owner is None,
    {
        CombatWorld {
            towers: Vec::new(),
            structures: Vec::new(),
            controllers: Vec::new(),
            safe_mode_owner: None,
        }
    }
}

} // verus!
