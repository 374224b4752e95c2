//! Attribute records and tag markers attached to entities, and the window
//! extent the simulation is configured with.
use vstd::prelude::*;

verus! {

/// Direction of travel, one component per axis, each in {-1, 0, +1}.
///
/// The stored components name one of nine unit-or-zero directions: when
/// both are nonzero the rendered vector scales each axis by 1/√2 so the
/// diagonal itself has unit length. That scaling is a rendering concern
/// and happens outside this crate; the simulation only ever decides the
/// direction.
#[derive(Clone, Copy, PartialEq, Eq, Structural, Debug)]
pub struct Velocity {
    pub x: i8,
    pub y: i8,
}

impl Velocity {
    /// Each axis component stays in {-1, 0, +1}.
    pub open spec fn wf(self) -> bool {
        -1 <= self.x <= 1 && -1 <= self.y <= 1
    }

    /// The resting direction.
    pub fn zero() -> (v: Velocity)
        ensures
            v.x == 0 && v.y == 0,
    {
        Velocity { x: 0, y: 0 }
    }
}

/// Marks an entity as moved by the external integration step.
#[derive(Clone, Copy, PartialEq, Eq, Structural, Debug)]
pub struct Movable {
    /// Whether the external bounds check removes the entity once it
    /// leaves the play area.
    pub auto_despawn: bool,
}

/// Tag: the entity is a laser projectile.
#[derive(Clone, Copy, PartialEq, Eq, Structural, Debug)]
pub struct Laser;

/// Extent of an entity's sprite, in pixels.
#[derive(Clone, Copy, PartialEq, Eq, Structural, Debug)]
pub struct SpriteSize {
    pub w: u64,
    pub h: u64,
}

impl From<(u64, u64)> for SpriteSize {
    fn from(val: (u64, u64)) -> (s: SpriteSize)
        ensures
            s == (SpriteSize { w: val.0, h: val.1 }),
    {
        SpriteSize { w: val.0, h: val.1 }
    }
}

impl vstd::std_specs::convert::FromSpecImpl<(u64, u64)> for SpriteSize {
    open spec fn obeys_from_spec() -> bool {
        true
    }

    open spec fn from_spec(val: (u64, u64)) -> SpriteSize {
        SpriteSize { w: val.0, h: val.1 }
    }
}

/// Remaining life of a life-carrying entity.
#[derive(Clone, Copy, PartialEq, Eq, Structural, Debug)]
pub struct Life(pub u32);

impl Life {
    pub fn new(life: u32) -> (l: Life)
        ensures
            l.0 == life,
    {
        Life(life)
    }
}

/// Largest life a life-carrying entity can hold; constant for a session.
#[derive(Clone, Copy, PartialEq, Eq, Structural, Debug)]
pub struct MaxLife(pub u32);

impl MaxLife {
    pub fn new(life: u32) -> (l: MaxLife)
        ensures
            l.0 == life,
    {
        MaxLife(life)
    }
}

/// Tag: the entity is the player.
#[derive(Clone, Copy, PartialEq, Eq, Structural, Debug)]
pub struct Player;

/// Tag: the projectile was fired by the player.
#[derive(Clone, Copy, PartialEq, Eq, Structural, Debug)]
pub struct FromPlayer;

/// Tag: the entity presents player information in the UI.
#[derive(Clone, Copy, PartialEq, Eq, Structural, Debug)]
pub struct PlayerInfo;

/// Tag: the entity presents the score text in the UI.
#[derive(Clone, Copy, PartialEq, Eq, Structural, Debug)]
pub struct ScoreText;

/// Tag: the entity is an enemy. Enemy behaviour is driven by external
/// systems; the tag is declared here so stores can classify such records.
#[derive(Clone, Copy, PartialEq, Eq, Structural, Debug)]
pub struct Enemy;

/// Tag: the projectile was fired by an enemy.
#[derive(Clone, Copy, PartialEq, Eq, Structural, Debug)]
pub struct FromEnemy;

/// Tag: the entity is an explosion effect, animated by external systems.
#[derive(Clone, Copy, PartialEq, Eq, Structural, Debug)]
pub struct Explosion;

/// Window extent, in pixels, the simulation runs in. Positions are
/// centered: x ranges over ±w/2 and y over ±h/2.
#[derive(Clone, Copy, PartialEq, Eq, Structural, Debug)]
pub struct WinSize {
    pub w: i64,
    pub h: i64,
}

impl WinSize {
    /// Extents the simulation accepts: positive and small enough that
    /// every derived position stays far from the integer limits.
    pub open spec fn wf(self) -> bool {
        2 <= self.w <= 1000000 && 2 <= self.h <= 1000000
    }
}

} // verus!
