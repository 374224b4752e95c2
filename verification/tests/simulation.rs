use arcade_core::components::{Life, MaxLife, SpriteSize, WinSize};
use arcade_core::game::{Game, InputFrame};
use arcade_core::player::{life_width, player_spawn_system, PlayerState};
use arcade_core::store::EntityStore;
use arcade_core::DEFAULT_PLAYER_LIFE;

fn win() -> WinSize {
    WinSize { w: 400, h: 600 }
}

fn idle() -> InputFrame {
    InputFrame { left: false, right: false, up: false, down: false, fire_held: false }
}

fn firing() -> InputFrame {
    InputFrame { fire_held: true, ..idle() }
}

/// A fresh game starts dead, never died, score zero, no entities but
/// the UI singletons.
#[test]
fn initial_state() {
    let g = Game::new(win(), 1000, 500);
    assert!(!g.state.alive);
    assert!(g.state.last_death_time.is_none());
    assert_eq!(g.state.score, 0);
    assert!(g.store.player.is_none());
    assert!(g.store.lasers.is_empty());
    let bar = g.store.life_bar.as_ref().unwrap();
    assert_eq!(bar.width, 100);
    assert_eq!(bar.height, 25);
    assert_eq!((bar.x, bar.y), (80, 280));
    assert_eq!(bar.layer, 20);
    let max_bar = g.store.max_life_bar.as_ref().unwrap();
    assert_eq!(max_bar.width, 100);
    assert_eq!((max_bar.x, max_bar.y), (80, 280));
    assert_eq!(max_bar.layer, 10);
    assert_eq!(max_bar.max_life.0, DEFAULT_PLAYER_LIFE);
    assert_eq!(g.store.score_display.as_ref().unwrap().text, "");
}

/// The first lifecycle tick of a session spawns the player: never
/// died, so no delay applies.
#[test]
fn first_tick_spawns_player() {
    let mut g = Game::new(win(), 1000, 500);
    g.frame(0, idle());
    assert!(g.state.alive);
    let p = g.store.player.as_ref().unwrap();
    assert_eq!(p.life.0, DEFAULT_PLAYER_LIFE);
    assert_eq!(p.max_life.0, DEFAULT_PLAYER_LIFE);
    assert_eq!((p.x, p.y), (0, -258));
    assert_eq!((p.velocity.x, p.velocity.y), (0, 0));
}

/// Respawn timing, evaluated tick by tick on the lifecycle system
/// itself: with a death recorded at T and delay D, every tick with
/// now < T + D is a no-op and the first tick with now >= T + D spawns.
#[test]
fn respawn_timing_boundary() {
    let death = 10000u64;
    let delay = 1000u64;
    for now in [10000u64, 10200, 10500, 10999] {
        let mut state = PlayerState { alive: false, last_death_time: Some(death), score: 0 };
        let mut store = EntityStore::new();
        player_spawn_system(&mut state, &mut store, now, delay, win());
        assert!(store.player.is_none(), "no respawn owed at {now}");
        assert!(!state.alive);
    }
    let mut state = PlayerState { alive: false, last_death_time: Some(death), score: 0 };
    let mut store = EntityStore::new();
    player_spawn_system(&mut state, &mut store, 11000, delay, win());
    assert!(store.player.is_some());
    assert!(state.alive);
}

/// A spawn attempted while already alive is rejected as a no-op, and
/// the store can never hold more than one player.
#[test]
fn no_duplicate_spawn() {
    let mut g = Game::new(win(), 1000, 500);
    g.frame(0, idle());
    let before = *g.store.player.as_ref().unwrap();
    // many more lifecycle ticks while alive: still exactly one player,
    // untouched by the lifecycle system
    for k in 1..20u64 {
        g.frame(k * 500, idle());
        assert!(g.store.player.is_some());
        let p = g.store.player.as_ref().unwrap();
        assert_eq!((p.x, p.y), (before.x, before.y));
        assert_eq!(p.life.0, before.life.0);
    }
}

/// The life bar's width is twenty pixels per point of life, recomputed
/// every frame the player exists, including life zero.
#[test]
fn life_bar_tracks_life() {
    let mut g = Game::new(win(), 1000, 500);
    g.frame(0, idle());
    assert_eq!(g.store.life_bar.as_ref().unwrap().width, 100);
    g.store.player.as_mut().unwrap().life = Life::new(3);
    g.frame(100, idle());
    assert_eq!(g.store.life_bar.as_ref().unwrap().width, 60);
    g.store.player.as_mut().unwrap().life = Life::new(0);
    g.frame(200, idle());
    assert_eq!(g.store.life_bar.as_ref().unwrap().width, 0);
    // no player: the stale width persists for the frame
    g.store.player = None;
    g.state.mark_dead(300);
    g.frame(300, idle());
    assert_eq!(g.store.life_bar.as_ref().unwrap().width, 0);
}

/// The width formula itself.
#[test]
fn life_width_formula() {
    assert_eq!(life_width(&Life::new(5)), 100);
    assert_eq!(life_width(&Life::new(0)), 0);
    assert_eq!(life_width(&Life::new(7)), 140);
}

/// The score text equals the decimal string of the score after every
/// score-mutating event.
#[test]
fn score_text_tracks_score() {
    let mut g = Game::new(win(), 1000, 500);
    g.frame(0, idle());
    assert_eq!(g.store.score_display.as_ref().unwrap().text, "0");
    g.state.add_score(1500);
    g.frame(100, idle());
    assert_eq!(g.store.score_display.as_ref().unwrap().text, "1500");
    g.state.add_score(1);
    g.frame(200, idle());
    assert_eq!(g.store.score_display.as_ref().unwrap().text, "1501");
}

/// Holding fire over many frames fires exactly one pair of lasers;
/// releasing and pressing again fires a second pair.
#[test]
fn fire_is_edge_triggered() {
    let mut g = Game::new(win(), 1000, 500);
    g.frame(0, idle());
    for k in 1..=5u64 {
        g.frame(k * 16, firing());
    }
    assert_eq!(g.store.lasers.len(), 2);
    g.frame(96, idle());
    assert_eq!(g.store.lasers.len(), 2);
    g.frame(112, firing());
    assert_eq!(g.store.lasers.len(), 4);
}

/// Firing with no player present is a no-op.
#[test]
fn fire_without_player() {
    let mut g = Game::new(win(), 1000, 500);
    g.state.mark_dead(0);
    g.frame(0, firing());
    assert!(g.store.player.is_none());
    assert!(g.store.lasers.is_empty());
}

/// The spawned pair: symmetric offsets of half the player's width
/// minus the inset, slightly above the player, moving straight up,
/// player-owned, auto-despawning.
#[test]
fn laser_pair_geometry() {
    let mut g = Game::new(win(), 1000, 500);
    g.frame(0, idle());
    g.frame(16, firing());
    let p = g.store.player.as_ref().unwrap();
    assert_eq!(g.store.lasers.len(), 2);
    let right = &g.store.lasers[0];
    let left = &g.store.lasers[1];
    assert_eq!(right.x, p.x + 67);
    assert_eq!(left.x, p.x - 67);
    assert_eq!(right.y, p.y + 15);
    assert_eq!(left.y, p.y + 15);
    assert_eq!((right.velocity.x, right.velocity.y), (0, 1));
    assert_eq!((left.velocity.x, left.velocity.y), (0, 1));
    assert!(right.movable.auto_despawn);
    assert!(left.movable.auto_despawn);
}

/// Movement is written onto the player every frame it exists.
#[test]
fn movement_applied_to_player() {
    let mut g = Game::new(win(), 1000, 500);
    g.frame(0, idle());
    g.frame(16, InputFrame { right: true, up: true, ..idle() });
    let p = g.store.player.as_ref().unwrap();
    assert_eq!((p.velocity.x, p.velocity.y), (1, 1));
    g.frame(32, InputFrame { left: true, right: true, ..idle() });
    let p = g.store.player.as_ref().unwrap();
    assert_eq!((p.velocity.x, p.velocity.y), (0, 0));
}

/// The end-to-end lifecycle scenario: spawn on the first tick, fire a
/// pair, die at 10.0 seconds with a one-second delay, no respawn at
/// 10.5, respawn at 11.0.
#[test]
fn end_to_end_lifecycle() {
    let mut g = Game::new(win(), 1000, 500);
    assert!(!g.state.alive);
    assert!(g.state.last_death_time.is_none());
    g.frame(0, idle());
    assert_eq!(g.store.player.as_ref().unwrap().life.0, DEFAULT_PLAYER_LIFE);
    g.frame(16, firing());
    assert_eq!(g.store.lasers.len(), 2);
    assert_eq!(g.store.lasers[0].x, 67);
    assert_eq!(g.store.lasers[1].x, -67);
    // the external damage system drains the life and removes the entity
    g.store.player.as_mut().unwrap().life = Life::new(0);
    g.frame(9984, idle());
    assert_eq!(g.store.life_bar.as_ref().unwrap().width, 0);
    g.store.player = None;
    g.state.mark_dead(10000);
    g.frame(10500, idle());
    assert!(g.store.player.is_none(), "no respawn before the delay elapsed");
    assert!(!g.state.alive);
    g.frame(11000, idle());
    assert!(g.store.player.is_some(), "respawn owed once the delay elapsed");
    assert!(g.state.alive);
    assert_eq!(g.store.player.as_ref().unwrap().life.0, DEFAULT_PLAYER_LIFE);
}

/// The state-machine primitives: a default state is dead with no death
/// recorded; `spawned` and `mark_dead` flip exactly the lifecycle
/// fields; `add_score` only adds.
#[test]
fn player_state_transitions() {
    let mut s = PlayerState::default();
    assert!(!s.alive);
    assert!(s.last_death_time.is_none());
    assert_eq!(s.score, 0);
    s.spawned();
    assert!(s.alive);
    assert!(s.last_death_time.is_none());
    s.add_score(40);
    s.mark_dead(1234);
    assert!(!s.alive);
    assert_eq!(s.last_death_time, Some(1234));
    assert_eq!(s.score, 40);
    s.add_score(2);
    assert_eq!(s.score, 42);
    assert_eq!(s.last_death_time, Some(1234));
}

/// The attribute constructors keep their values.
#[test]
fn component_constructors() {
    assert_eq!(Life::new(4).0, 4);
    assert_eq!(MaxLife::new(9).0, 9);
    let s = SpriteSize::from((144, 75));
    assert_eq!((s.w, s.h), (144, 75));
}
