//! Vocabulary of the game that the players and the relay share.

use vstd::prelude::*;

verus! {

/// One of the two sides of a match. The relay seats the first player of a
/// session as `A` and the second as `B`.
#[derive(PartialEq, Eq, Clone, Copy, Debug, Structural)]
pub enum Team {
    A,
    B,
}

impl Team {
    /// The other side.
    pub open spec fn other(self) -> Team {
        match self {
            Team::A => Team::B,
            Team::B => Team::A,
        }
    }

    /// The side that faces `self`.
    pub fn opposite(&self) -> (r: Team)
        ensures
            r == self.other(),
            r != *self,
    {
        match self {
            Team::A => Team::B,
            Team::B => Team::A,
        }
    }

    /// Taking the opposite twice leads back to the same side, and no side
    /// faces itself.
    pub proof fn lemma_opposite_is_involution(self)
        ensures
            self.other().other() == self,
            self.other() != self,
    {
    }
}

/// An order to send the ships of some worlds against one world. Worlds are
/// named by their position in the map's list of worlds.
#[derive(Clone, Debug)]
pub struct PlayerActionAttack {
    sources: Vec<i32>,
    target: i32,
}

impl PlayerActionAttack {
    /// The worlds that send their ships, in the order they were chosen.
    pub closed spec fn spec_sources(&self) -> Seq<i32> {
        self.sources@
    }

    /// The world under attack.
    pub closed spec fn spec_target(&self) -> i32 {
        self.target
    }

    /// An attack from `sources` on `target`.
    pub fn new(sources: Vec<i32>, target: i32) -> (attack: PlayerActionAttack)
        ensures
            attack.spec_sources() == sources@,
            attack.spec_target() == target,
    {
        PlayerActionAttack { sources, target }
    }

    /// The worlds that send their ships.
    pub fn sources(&self) -> (sources: &Vec<i32>)
        ensures
            sources@ == self.spec_sources(),
    {
        &self.sources
    }

    /// The world under attack.
    pub fn target(&self) -> (target: i32)
        ensures
            target == self.spec_target(),
    {
        self.target
    }
}

/// What a player does in one tick.
#[derive(Clone, Debug)]
pub enum PlayerAction {
    /// The player does nothing.
    Idle,
    /// The player sends ships.
    Attack(PlayerActionAttack),
}

/// One step of the simulation, with the move of either player.
#[derive(Debug)]
pub struct Tick {
    pub tick_number: i32,
    pub player_a_move: PlayerAction,
    pub player_b_move: PlayerAction,
}

/// A stored map.
#[derive(Debug)]
pub struct MapFile {}

/// How large a world is.
#[derive(PartialEq, Eq, Clone, Copy, Debug, Structural)]
pub enum PlanetSize {
    Small,
    Medium,
    Large,
}

impl PlanetSize {
    /// The radius of a world of this size.
    pub open spec fn radius(self) -> int {
        match self {
            PlanetSize::Small => 8,
            PlanetSize::Medium => 12,
            PlanetSize::Large => 19,
        }
    }

    /// The size with the given position in the order small, medium, large.
    pub open spec fn at(index: int) -> PlanetSize {
        if index == 0 {
            PlanetSize::Small
        } else if index == 1 {
            PlanetSize::Medium
        } else {
            PlanetSize::Large
        }
    }

    /// The radius of a world of this size: 8, 12 or 19.
    pub fn size(&self) -> (r: i32)
        ensures
            r == self.radius(),
    {
        match self {
            PlanetSize::Small => 8,
            PlanetSize::Medium => 12,
            PlanetSize::Large => 19,
        }
    }

    /// The size with position `index`: 0 is small, 1 medium, 2 large. This
    /// is how a size is picked at random: the caller draws one of the three
    /// positions and hands it over.
    pub fn from_index(index: i32) -> (size: PlanetSize)
        requires
            0 <= index < 3,
        ensures
            size == PlanetSize::at(index as int),
    {
        if index == 0 {
            PlanetSize::Small
        } else if index == 1 {
            PlanetSize::Medium
        } else {
            PlanetSize::Large
        }
    }

    /// A larger size has a larger radius.
    pub proof fn lemma_radius_grows(i: int, j: int)
        requires
            0 <= i < j < 3,
        ensures
            PlanetSize::at(i).radius() < PlanetSize::at(j).radius(),
    {
    }
}

} // verus!
