//! The entity store: the tagged records the simulation's systems read and
//! write each frame.
//!
//! The engine's generic entity storage is an external collaborator; this
//! store holds, as plain values, exactly the records the specified systems
//! operate on. The player slot is an `Option`, which enforces structurally
//! that at most one player entity ever exists.
use vstd::prelude::*;

use crate::components::{
    FromPlayer, Laser, Life, MaxLife, Movable, Player, PlayerInfo, ScoreText, SpriteSize,
    Velocity,
};

verus! {

/// The player entity: position, movement, life and sprite attributes.
#[derive(Clone, Copy, PartialEq, Eq, Structural, Debug)]
pub struct PlayerEntity {
    pub marker: Player,
    pub x: i64,
    pub y: i64,
    pub velocity: Velocity,
    pub size: SpriteSize,
    pub movable: Movable,
    pub life: Life,
    pub max_life: MaxLife,
}

impl PlayerEntity {
    /// The position stays far from the integer limits, so offset
    /// arithmetic on it cannot overflow.
    pub open spec fn pos_ok(self) -> bool {
        -2000000 <= self.x <= 2000000 && -2000000 <= self.y <= 2000000
    }
}

/// A laser projectile entity.
#[derive(Clone, Copy, PartialEq, Eq, Structural, Debug)]
pub struct LaserEntity {
    pub marker: Laser,
    pub owner: FromPlayer,
    pub x: i64,
    pub y: i64,
    pub velocity: Velocity,
    pub size: SpriteSize,
    pub movable: Movable,
}

/// The UI life bar: a singleton presentation entity whose width is
/// derived from the player's current life.
#[derive(Clone, Copy, PartialEq, Eq, Structural, Debug)]
pub struct LifeBar {
    pub marker: PlayerInfo,
    pub life: Life,
    pub x: i64,
    pub y: i64,
    pub width: u64,
    pub height: u64,
    pub layer: u64,
}

/// The UI max-life bar: set once at startup and constant for a session.
#[derive(Clone, Copy, PartialEq, Eq, Structural, Debug)]
pub struct MaxLifeBar {
    pub marker: PlayerInfo,
    pub max_life: MaxLife,
    pub x: i64,
    pub y: i64,
    pub width: u64,
    pub height: u64,
    pub layer: u64,
}

/// The UI score display: its text is overwritten every frame from the
/// authoritative score.
#[derive(Clone, Debug)]
pub struct ScoreDisplay {
    pub marker: ScoreText,
    pub text: String,
}

/// All entities the specified systems touch. Enemy and explosion
/// entities are owned by external systems and never enter this store.
#[derive(Clone, Debug)]
pub struct EntityStore {
    pub player: Option<PlayerEntity>,
    pub lasers: Vec<LaserEntity>,
    pub life_bar: Option<LifeBar>,
    pub max_life_bar: Option<MaxLifeBar>,
    pub score_display: Option<ScoreDisplay>,
}

impl EntityStore {
    /// How many player entities the store holds.
    pub open spec fn player_count(self) -> nat {
        if self.player is Some {
            1nat
        } else {
            0nat
        }
    }

    /// An empty store: no entities at all.
    pub fn new() -> (s: EntityStore)
        ensures
            s.player is None,
            s.lasers@ =~= Seq::<LaserEntity>::empty(),
            s.life_bar is None,
            s.max_life_bar is None,
            s.score_display is None,
    {
        EntityStore {
            player: None,
            lasers: Vec::new(),
            life_bar: None,
            max_life_bar: None,
            score_display: None,
        }
    }
}

/// At most one player entity exists, whatever was done to the store: the
/// store has a single player slot, so no sequence of operations can make
/// a second one.
pub proof fn lemma_at_most_one_player(s: EntityStore)
    ensures
        s.player_count() <= 1,
{
}

} // verus!
