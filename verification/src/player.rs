//! The player-facing systems: the lifecycle state machine that decides
//! respawns, the movement resolver, the projectile spawner, and the
//! life-bar synchronizer.
use vstd::prelude::*;

use crate::components::{
    FromPlayer, Laser, Life, MaxLife, Movable, Player, PlayerInfo, SpriteSize, Velocity,
    WinSize,
};
use crate::store::{EntityStore, LaserEntity, LifeBar, MaxLifeBar, PlayerEntity};
use crate::{
    BAR_HEIGHT, BAR_WIDTH_PER_LIFE, DEFAULT_PLAYER_LIFE, LASER_X_INSET, LASER_Y_OFFSET,
    LIFE_BAR_LAYER, MAX_LIFE_BAR_LAYER, PLAYER_LASER_SIZE_H, PLAYER_LASER_SIZE_W,
    PLAYER_SIZE_H, PLAYER_SIZE_W, SPAWN_MARGIN, UI_BAR_OFFSET_X, UI_BAR_OFFSET_Y,
};

verus! {

// region: --- player state ---

/// Authoritative, session-long player bookkeeping, created once at
/// simulation start. `alive` and `last_death_time` are owned by the
/// lifecycle system below; `score` is written by the external scoring
/// collaborator through `add_score`.
#[derive(Clone, Copy, Debug)]
pub struct PlayerState {
    /// Whether a player entity currently represents the player.
    pub alive: bool,
    /// When the player last died, in milliseconds; `None` before the
    /// first death of the session.
    pub last_death_time: Option<u64>,
    /// The current score, owned by the external scoring collaborator.
    pub score: u64,
}

impl PlayerState {
    /// The state a session starts in: dead, never died, score zero.
    pub fn new() -> (s: PlayerState)
        ensures
            !s.alive,
            s.last_death_time is None,
            s.score == 0,
    {
        PlayerState { alive: false, last_death_time: None, score: 0 }
    }

    /// Called by the lifecycle system when it materializes a player
    /// entity: only the `alive` flag changes.
    pub fn spawned(&mut self)
        ensures
            final(self).alive,
            final(self).last_death_time == old(self).last_death_time,
            final(self).score == old(self).score,
    {
        self.alive = true;
    }

    /// The contract the external damage system calls when the player's
    /// life reaches zero and its entity is removed: records the time of
    /// death and clears the `alive` flag.
    pub fn mark_dead(&mut self, now: u64)
        ensures
            !final(self).alive,
            final(self).last_death_time == Some(now),
            final(self).score == old(self).score,
    {
        self.alive = false;
        self.last_death_time = Some(now);
    }

    /// The contract the external scoring collaborator calls; no other
    /// writer touches `score`.
    pub fn add_score(&mut self, points: u64)
        requires
            old(self).score + points <= u64::MAX,
        ensures
            final(self).score == old(self).score + points,
            final(self).alive == old(self).alive,
            final(self).last_death_time == old(self).last_death_time,
    {
        self.score = self.score + points;
    }
}

impl Default for PlayerState {
    fn default() -> (s: PlayerState)
        ensures
            !s.alive,
            s.last_death_time is None,
            s.score == 0,
    {
        PlayerState::new()
    }
}

// endregion

// region: --- lifecycle state machine ---

/// Whether the lifecycle machine owes a respawn: the player is dead,
/// and either it never died this session or the respawn delay has
/// elapsed since the recorded death.
pub open spec fn respawn_due(state: PlayerState, now: u64, respawn_delay: u64) -> bool {
    &&& !state.alive
    &&& match state.last_death_time {
        None => true,
        Some(t) => now >= t + respawn_delay,
    }
}

/// Where a fresh player materializes: horizontally centered, just above
/// the bottom edge of the window.
pub open spec fn spec_spawn_y(win: WinSize) -> int {
    -(win.h / 2) + PLAYER_SIZE_H as int / 2 + SPAWN_MARGIN as int
}

/// The player entity a respawn creates: at the spawn position, at rest,
/// with full default life.
pub open spec fn spec_spawned_player(win: WinSize) -> PlayerEntity {
    PlayerEntity {
        marker: Player,
        x: 0,
        y: spec_spawn_y(win) as i64,
        velocity: Velocity { x: 0, y: 0 },
        size: SpriteSize { w: PLAYER_SIZE_W, h: PLAYER_SIZE_H },
        movable: Movable { auto_despawn: false },
        life: Life(DEFAULT_PLAYER_LIFE),
        max_life: MaxLife(DEFAULT_PLAYER_LIFE),
    }
}

/// Whether one lifecycle evaluation spawns a player: a respawn is due
/// and no player entity exists. The second conjunct is the defensive
/// guard of the at-most-one-player invariant: a spawn attempted while a
/// player exists is skipped, never duplicated.
pub open spec fn spawns_player(
    state: PlayerState,
    store: EntityStore,
    now: u64,
    respawn_delay: u64,
) -> bool {
    respawn_due(state, now, respawn_delay) && store.player is None
}

/// One evaluation of the lifecycle state machine, run on the coarse
/// periodic tick. When a respawn is due it materializes the player
/// entity at the spawn position and records the state as alive;
/// otherwise it changes nothing. It never touches `last_death_time`,
/// `score`, the lasers or the UI entities.
pub fn player_spawn_system(
    state: &mut PlayerState,
    store: &mut EntityStore,
    now: u64,
    respawn_delay: u64,
    win: WinSize,
)
    requires
        win.wf(),
    ensures
        spawns_player(*old(state), *old(store), now, respawn_delay) ==> {
            &&& final(store).player == Some(spec_spawned_player(win))
            &&& final(state).alive
        },
        !spawns_player(*old(state), *old(store), now, respawn_delay) ==> {
            &&& final(store).player == old(store).player
            &&& final(state).alive == old(state).alive
        },
        final(state).last_death_time == old(state).last_death_time,
        final(state).score == old(state).score,
        final(store).lasers == old(store).lasers,
        final(store).life_bar == old(store).life_bar,
        final(store).max_life_bar == old(store).max_life_bar,
        final(store).score_display == old(store).score_display,
{
    let due = !state.alive && match state.last_death_time {
        None => true,
        Some(t) => now >= t && now - t >= respawn_delay,
    };
    if due && store.player.is_none() {
        let bottom = -(win.h / 2);
        let y = bottom + (PLAYER_SIZE_H / 2) as i64 + SPAWN_MARGIN;
        store.player = Some(PlayerEntity {
            marker: Player,
            x: 0,
            y,
            velocity: Velocity::zero(),
            size: SpriteSize { w: PLAYER_SIZE_W, h: PLAYER_SIZE_H },
            movable: Movable { auto_despawn: false },
            life: Life::new(DEFAULT_PLAYER_LIFE),
            max_life: MaxLife::new(DEFAULT_PLAYER_LIFE),
        });
        state.spawned();
    }
}

/// A respawn is owed exactly from the moment the delay has elapsed: for
/// a dead player with a recorded death at `death_time`, no evaluation
/// before `death_time + respawn_delay` spawns, and every evaluation at
/// or after it does.
pub proof fn lemma_respawn_timing(
    state: PlayerState,
    death_time: u64,
    now: u64,
    respawn_delay: u64,
)
    requires
        !state.alive,
        state.last_death_time == Some(death_time),
    ensures
        respawn_due(state, now, respawn_delay) <==> now >= death_time + respawn_delay,
{
}

// endregion

// region: --- movement resolver ---

/// The movement table: the direction for one combination of the four
/// held directional keys. Exactly one axis held gives the pure-axis
/// directions; one horizontal with one vertical gives the four
/// diagonals; opposite keys cancel the whole vector, and no keys held
/// is at rest.
pub open spec fn resolve_spec(left: bool, right: bool, up: bool, down: bool) -> Velocity {
    if left && !right && !up && !down {
        Velocity { x: -1i8, y: 0i8 }
    } else if !left && right && !up && !down {
        Velocity { x: 1i8, y: 0i8 }
    } else if !left && !right && up && !down {
        Velocity { x: 0i8, y: 1i8 }
    } else if !left && !right && !up && down {
        Velocity { x: 0i8, y: -1i8 }
    } else if left && !right && up && !down {
        Velocity { x: -1i8, y: 1i8 }
    } else if left && !right && !up && down {
        Velocity { x: -1i8, y: -1i8 }
    } else if !left && right && up && !down {
        Velocity { x: 1i8, y: 1i8 }
    } else if !left && right && !up && down {
        Velocity { x: 1i8, y: -1i8 }
    } else {
        Velocity { x: 0i8, y: 0i8 }
    }
}

/// The movement vector resolver: maps the four held directional keys to
/// the direction of travel, exactly as the movement table states, for
/// all sixteen combinations.
pub fn resolve_velocity(left: bool, right: bool, up: bool, down: bool) -> (v: Velocity)
    ensures
        v == resolve_spec(left, right, up, down),
        v.wf(),
{
    match (left, right, up, down) {
        (true, false, false, false) => Velocity { x: -1, y: 0 },
        (false, true, false, false) => Velocity { x: 1, y: 0 },
        (false, false, true, false) => Velocity { x: 0, y: 1 },
        (false, false, false, true) => Velocity { x: 0, y: -1 },
        (true, false, true, false) => Velocity { x: -1, y: 1 },
        (true, false, false, true) => Velocity { x: -1, y: -1 },
        (false, true, true, false) => Velocity { x: 1, y: 1 },
        (false, true, false, true) => Velocity { x: 1, y: -1 },
        _ => Velocity { x: 0, y: 0 },
    }
}

/// `p` with its velocity replaced.
pub open spec fn spec_with_velocity(p: PlayerEntity, v: Velocity) -> PlayerEntity {
    PlayerEntity { velocity: v, ..p }
}

/// Writes the resolved direction onto the player entity's velocity each
/// frame. A missing player is the normal transient case during the
/// respawn delay and leaves the store untouched.
pub fn player_keyboard_event_system(
    store: &mut EntityStore,
    left: bool,
    right: bool,
    up: bool,
    down: bool,
)
    ensures
        old(store).player is None ==> final(store).player == old(store).player,
        old(store).player matches Some(p) ==> final(store).player == Some(
            spec_with_velocity(p, resolve_spec(left, right, up, down)),
        ),
        final(store).lasers == old(store).lasers,
        final(store).life_bar == old(store).life_bar,
        final(store).max_life_bar == old(store).max_life_bar,
        final(store).score_display == old(store).score_display,
{
    match &mut store.player {
        Some(p) => {
            p.velocity = resolve_velocity(left, right, up, down);
        },
        None => {},
    }
}

// endregion

// region: --- projectile spawner ---

/// How far lasers spawn to each side of the player: half the player's
/// horizontal extent, minus a small inset.
pub open spec fn spec_laser_x_offset() -> int {
    PLAYER_SIZE_W as int / 2 - LASER_X_INSET as int
}

/// One of the pair of lasers a fire event creates, offset to the right
/// or to the left of the player, slightly above it, moving straight up,
/// player-owned and removed automatically once off-screen.
pub open spec fn spec_player_laser(p: PlayerEntity, to_right: bool) -> LaserEntity {
    LaserEntity {
        marker: Laser,
        owner: FromPlayer,
        x: if to_right {
            (p.x + spec_laser_x_offset()) as i64
        } else {
            (p.x - spec_laser_x_offset()) as i64
        },
        y: (p.y + LASER_Y_OFFSET) as i64,
        velocity: Velocity { x: 0, y: 1 },
        size: SpriteSize { w: PLAYER_LASER_SIZE_W, h: PLAYER_LASER_SIZE_H },
        movable: Movable { auto_despawn: true },
    }
}

/// The projectile spawner. `fire_just_pressed` must be the edge of the
/// fire key — true only on a frame where the key went from released to
/// pressed — so holding the key does not repeat-fire; the frame
/// scheduler derives it from the raw held state. On the edge, with a
/// player present, exactly two symmetric player-owned lasers are
/// appended; a missing player is a no-op.
pub fn player_fire_system(store: &mut EntityStore, fire_just_pressed: bool)
    requires
        old(store).player matches Some(p) ==> p.pos_ok(),
    ensures
        (fire_just_pressed && old(store).player is Some) ==> final(store).lasers@
            == old(store).lasers@.push(spec_player_laser(old(store).player->0, true)).push(
            spec_player_laser(old(store).player->0, false),
        ),
        !(fire_just_pressed && old(store).player is Some) ==> final(store).lasers
            == old(store).lasers,
        final(store).player == old(store).player,
        final(store).life_bar == old(store).life_bar,
        final(store).max_life_bar == old(store).max_life_bar,
        final(store).score_display == old(store).score_display,
{
    match &store.player {
        Some(p) => {
            if fire_just_pressed {
                let x_offset = (PLAYER_SIZE_W / 2) as i64 - LASER_X_INSET;
                let right = LaserEntity {
                    marker: Laser,
                    owner: FromPlayer,
                    x: p.x + x_offset,
                    y: p.y + LASER_Y_OFFSET,
                    velocity: Velocity { x: 0, y: 1 },
                    size: SpriteSize { w: PLAYER_LASER_SIZE_W, h: PLAYER_LASER_SIZE_H },
                    movable: Movable { auto_despawn: true },
                };
                let left = LaserEntity { x: right.x - 2 * x_offset, ..right };
                store.lasers.push(right);
                store.lasers.push(left);
            }
        },
        None => {},
    }
}

// endregion

// region: --- life bar ---

/// The visual width of a life bar: a fixed number of pixels per point
/// of life.
pub fn life_width(life: &Life) -> (w: u64)
    ensures
        w == BAR_WIDTH_PER_LIFE * life.0,
{
    BAR_WIDTH_PER_LIFE * (life.0 as u64)
}

/// The life bar as created at startup: top-right corner of the window,
/// sized for the default life, above the max-life bar.
pub open spec fn spec_initial_life_bar(win: WinSize) -> LifeBar {
    LifeBar {
        marker: PlayerInfo,
        life: Life(DEFAULT_PLAYER_LIFE),
        x: (win.w / 2 - UI_BAR_OFFSET_X as int) as i64,
        y: (win.h / 2 - UI_BAR_OFFSET_Y as int) as i64,
        width: (BAR_WIDTH_PER_LIFE * DEFAULT_PLAYER_LIFE as u64) as u64,
        height: BAR_HEIGHT,
        layer: LIFE_BAR_LAYER,
    }
}

/// The max-life bar as created at startup: same place and size as the
/// life bar, on a lower layer, constant for the session.
pub open spec fn spec_initial_max_life_bar(win: WinSize) -> MaxLifeBar {
    MaxLifeBar {
        marker: PlayerInfo,
        max_life: MaxLife(DEFAULT_PLAYER_LIFE),
        x: (win.w / 2 - UI_BAR_OFFSET_X as int) as i64,
        y: (win.h / 2 - UI_BAR_OFFSET_Y as int) as i64,
        width: (BAR_WIDTH_PER_LIFE * DEFAULT_PLAYER_LIFE as u64) as u64,
        height: BAR_HEIGHT,
        layer: MAX_LIFE_BAR_LAYER,
    }
}

/// Creates the two life bars at startup.
pub fn player_life_spawn_system(store: &mut EntityStore, win: WinSize)
    requires
        win.wf(),
    ensures
        final(store).life_bar == Some(spec_initial_life_bar(win)),
        final(store).max_life_bar == Some(spec_initial_max_life_bar(win)),
        final(store).player == old(store).player,
        final(store).lasers == old(store).lasers,
        final(store).score_display == old(store).score_display,
{
    let x = win.w / 2 - UI_BAR_OFFSET_X;
    let y = win.h / 2 - UI_BAR_OFFSET_Y;
    store.life_bar = Some(LifeBar {
        marker: PlayerInfo,
        life: Life::new(DEFAULT_PLAYER_LIFE),
        x,
        y,
        width: life_width(&Life(DEFAULT_PLAYER_LIFE)),
        height: BAR_HEIGHT,
        layer: LIFE_BAR_LAYER,
    });
    store.max_life_bar = Some(MaxLifeBar {
        marker: PlayerInfo,
        max_life: MaxLife::new(DEFAULT_PLAYER_LIFE),
        x,
        y,
        width: life_width(&Life(DEFAULT_PLAYER_LIFE)),
        height: BAR_HEIGHT,
        layer: MAX_LIFE_BAR_LAYER,
    });
}

/// The life synchronizer: every frame a player exists, the life bar's
/// width is recomputed from the player's current life — never cached
/// stale. A missing player leaves the bar as it is; a missing life bar
/// would be a broken setup invariant and is excluded by contract, the
/// invariant being established once at startup.
pub fn player_life_system(store: &mut EntityStore)
    requires
        old(store).life_bar is Some,
    ensures
        old(store).player matches Some(p) ==> final(store).life_bar == Some(
            LifeBar { width: (BAR_WIDTH_PER_LIFE * p.life.0 as u64) as u64, ..old(
                store,
            ).life_bar->0 },
        ),
        old(store).player is None ==> final(store).life_bar == old(store).life_bar,
        final(store).player == old(store).player,
        final(store).lasers == old(store).lasers,
        final(store).max_life_bar == old(store).max_life_bar,
        final(store).score_display == old(store).score_display,
{
    let width = match &store.player {
        Some(p) => Some(life_width(&p.life)),
        None => None,
    };
    match width {
        Some(w) => {
            match &mut store.life_bar {
                Some(bar) => {
                    bar.width = w;
                },
                None => {},
            }
        },
        None => {},
    }
}

// endregion

} // verus!
