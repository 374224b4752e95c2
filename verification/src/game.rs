//! The frame scheduler: one `Game` value holds the whole simulation
//! state, and `frame` runs the systems once, in their fixed order, for
//! one tick of the outer loop.
use vstd::prelude::*;

use crate::components::{Life, WinSize};
use crate::decimal::decimal_string;
use crate::menu::{menu_spawn_system, player_score_system};
use crate::player::{
    player_fire_system, player_keyboard_event_system, player_life_system,
    player_spawn_system, resolve_spec, respawn_due, spawns_player, spec_player_laser,
    spec_spawned_player, spec_with_velocity, PlayerState,
};
use crate::player::{spec_initial_life_bar, spec_initial_max_life_bar};
use crate::store::{EntityStore, LaserEntity, LifeBar, PlayerEntity};
use crate::{BAR_WIDTH_PER_LIFE, DEFAULT_PLAYER_LIFE};

verus! {

/// Longest accepted period, in milliseconds, for the lifecycle timer
/// and the respawn delay: one day.
pub const MAX_PERIOD: u64 = 86400000;

/// The raw input of one frame: the four directional keys and the fire
/// key, each as "currently held".
#[derive(Clone, Copy, PartialEq, Eq, Structural, Debug)]
pub struct InputFrame {
    pub left: bool,
    pub right: bool,
    pub up: bool,
    pub down: bool,
    pub fire_held: bool,
}

/// True on a frame where the fire key went from released to pressed:
/// the only frames on which the projectile spawner fires.
pub open spec fn fire_edge(prev_held: bool, held: bool) -> bool {
    held && !prev_held
}

/// The whole simulation: authoritative state, the entity store, the
/// configuration, and the scheduler's own bookkeeping (when the next
/// lifecycle evaluation is owed, and whether fire was held on the
/// previous frame).
pub struct Game {
    pub state: PlayerState,
    pub store: EntityStore,
    pub win: WinSize,
    pub respawn_delay: u64,
    pub lifecycle_interval: u64,
    pub next_lifecycle_at: u64,
    pub fire_held_prev: bool,
}

impl Game {
    /// What every frame preserves: an accepted window and timer
    /// configuration, the UI singletons created at startup, and a
    /// player position far from the integer limits.
    pub open spec fn wf(self) -> bool {
        &&& self.win.wf()
        &&& 0 < self.lifecycle_interval <= MAX_PERIOD
        &&& self.respawn_delay <= MAX_PERIOD
        &&& self.store.life_bar is Some
        &&& self.store.score_display is Some
        &&& (self.store.player matches Some(p) ==> p.pos_ok())
    }

    /// Whether this frame is one of the coarse periodic ticks that
    /// evaluate the lifecycle machine; frames in between skip it.
    pub open spec fn lifecycle_due(self, now: u64) -> bool {
        now >= self.next_lifecycle_at
    }

    /// Whether this frame's lifecycle evaluation spawns the player.
    pub open spec fn spawns(self, now: u64) -> bool {
        self.lifecycle_due(now) && spawns_player(self.state, self.store, now, self.respawn_delay)
    }

    /// The player slot as it stands after this frame's lifecycle
    /// evaluation, before movement is applied.
    pub open spec fn player_after_lifecycle(self, now: u64) -> Option<PlayerEntity> {
        if self.spawns(now) {
            Some(spec_spawned_player(self.win))
        } else {
            self.store.player
        }
    }

    /// A fresh simulation: dead player that never died, score zero, no
    /// lasers, the UI singletons in place, the first lifecycle
    /// evaluation owed at once.
    pub fn new(win: WinSize, respawn_delay: u64, lifecycle_interval: u64) -> (g: Game)
        requires
            win.wf(),
            0 < lifecycle_interval <= MAX_PERIOD,
            respawn_delay <= MAX_PERIOD,
        ensures
            g.wf(),
            !g.state.alive,
            g.state.last_death_time is None,
            g.state.score == 0,
            g.store.player is None,
            g.store.lasers@ == Seq::<LaserEntity>::empty(),
            g.store.life_bar == Some(spec_initial_life_bar(win)),
            g.store.max_life_bar == Some(spec_initial_max_life_bar(win)),
            g.store.score_display matches Some(sd) && sd.text@ == Seq::<char>::empty(),
            g.win == win,
            g.respawn_delay == respawn_delay,
            g.lifecycle_interval == lifecycle_interval,
            g.next_lifecycle_at == 0,
            !g.fire_held_prev,
    {
        let state = PlayerState::new();
        let mut store = EntityStore::new();
        menu_spawn_system(&mut store, win);
        Game {
            state,
            store,
            win,
            respawn_delay,
            lifecycle_interval,
            next_lifecycle_at: 0,
            fire_held_prev: false,
        }
    }

    /// One simulation frame at time `now`, in the fixed system order:
    /// lifecycle (on its coarse tick), movement, fire, life-bar sync,
    /// score sync. `frame_rel` is the whole contract: it pins down
    /// every field of the result.
    pub fn frame(&mut self, now: u64, input: InputFrame)
        requires
            old(self).wf(),
            now + old(self).lifecycle_interval <= u64::MAX,
        ensures
            frame_rel(*old(self), *final(self), now, input),
    {
        if now >= self.next_lifecycle_at {
            player_spawn_system(&mut self.state, &mut self.store, now, self.respawn_delay, self.win);
            self.next_lifecycle_at = now + self.lifecycle_interval;
        }
        player_keyboard_event_system(&mut self.store, input.left, input.right, input.up, input.down);
        let just_pressed = input.fire_held && !self.fire_held_prev;
        self.fire_held_prev = input.fire_held;
        player_fire_system(&mut self.store, just_pressed);
        player_life_system(&mut self.store);
        player_score_system(&self.state, &mut self.store);
    }
}

/// What one frame does: the whole contract of `Game::frame`, relating
/// the simulation before (`pre`) and after (`post`) a frame at time
/// `now` with input `input`.
///
/// Reading it clause by clause: the configuration and the authoritative
/// score and death time are untouched; the player slot is the lifecycle
/// outcome with this frame's resolved movement written onto it, and is
/// never more than one entity; the lasers grow by exactly one
/// symmetric pair on a fire edge with a player present, and not
/// otherwise; the life bar's width is recomputed from the player's
/// life whenever a player exists and kept otherwise; the score text is
/// the decimal numeral of the score; and the scheduler's bookkeeping
/// advances (the next lifecycle tick, and the fire key's held state for
/// the next frame's edge detection).
pub open spec fn frame_rel(pre: Game, post: Game, now: u64, input: InputFrame) -> bool {
    &&& post.wf()
    &&& post.win == pre.win
    &&& post.respawn_delay == pre.respawn_delay
    &&& post.lifecycle_interval == pre.lifecycle_interval
    &&& post.state.score == pre.state.score
    &&& post.state.last_death_time == pre.state.last_death_time
    &&& post.state.alive == (pre.state.alive || pre.spawns(now))
    &&& post.store.player == (match pre.player_after_lifecycle(now) {
        None => None::<PlayerEntity>,
        Some(p) => Some(
            spec_with_velocity(p, resolve_spec(input.left, input.right, input.up, input.down)),
        ),
    })
    &&& post.store.player_count() <= 1
    &&& {
        let fired = fire_edge(pre.fire_held_prev, input.fire_held)
            && pre.player_after_lifecycle(now) is Some;
        let shooter = pre.player_after_lifecycle(now)->0;
        if fired {
            post.store.lasers@ == pre.store.lasers@.push(spec_player_laser(shooter, true)).push(
                spec_player_laser(shooter, false),
            )
        } else {
            post.store.lasers == pre.store.lasers
        }
    }
    &&& (pre.player_after_lifecycle(now) matches Some(p) ==> post.store.life_bar == Some(
        (LifeBar {
            width: (BAR_WIDTH_PER_LIFE * p.life.0 as u64) as u64,
            ..pre.store.life_bar->0
        }),
    ))
    &&& (pre.player_after_lifecycle(now) is None ==> post.store.life_bar == pre.store.life_bar)
    &&& post.store.max_life_bar == pre.store.max_life_bar
    &&& post.store.score_display is Some
    &&& post.store.score_display->0.text@ == decimal_string(pre.state.score as nat)
    &&& post.next_lifecycle_at == if pre.lifecycle_due(now) {
        now + pre.lifecycle_interval
    } else {
        pre.next_lifecycle_at as int
    }
    &&& post.fire_held_prev == input.fire_held
}

/// How many rising edges the fire key shows over a run of frames,
/// `prev_held` being its state just before the first of them. Each
/// frame appends one laser pair per rising edge while a player exists
/// (see `Game::frame`), so this counts the pairs such a run fires.
pub open spec fn rising_edges(prev_held: bool, held: Seq<bool>) -> nat
    decreases held.len(),
{
    if held.len() == 0 {
        0nat
    } else {
        (if fire_edge(prev_held, held[0]) {
            1nat
        } else {
            0nat
        }) + rising_edges(held[0], held.skip(1))
    }
}

/// Holding fire across any number of frames fires at most once: a run
/// of frames on which the key is held throughout shows exactly one
/// rising edge when the key was up before the run, and none when it
/// was already held.
pub proof fn lemma_fire_edge_once(prev_held: bool, held: Seq<bool>)
    requires
        forall|i: int| 0 <= i < held.len() ==> held[i],
    ensures
        rising_edges(prev_held, held) == if held.len() == 0 || prev_held {
            0nat
        } else {
            1nat
        },
    decreases held.len(),
{
    if held.len() > 0 {
        assert(held[0]);
        assert(forall|i: int|
            0 <= i < held.skip(1).len() ==> held.skip(1)[i] == held[i + 1]);
        lemma_fire_edge_once(held[0], held.skip(1));
    }
}

/// Rising edges split over runs: the edges of two runs back to back are
/// the edges of the first plus the edges of the second, the second
/// counted from the key state the first run ends in.
pub proof fn lemma_rising_edges_append(prev_held: bool, a: Seq<bool>, b: Seq<bool>)
    ensures
        rising_edges(prev_held, a + b) == rising_edges(prev_held, a) + rising_edges(
            if a.len() == 0 {
                prev_held
            } else {
                a.last()
            },
            b,
        ),
    decreases a.len(),
{
    if a.len() == 0 {
        assert(a + b =~= b);
    } else {
        assert((a + b).skip(1) =~= a.skip(1) + b);
        lemma_rising_edges_append(a[0], a.skip(1), b);
    }
}

/// Releasing and pressing again fires again: a run of held frames, one
/// released frame, then a second run of held frames shows exactly two
/// rising edges — one pair of lasers per run.
pub proof fn lemma_fire_rearm(first: Seq<bool>, second: Seq<bool>)
    requires
        forall|i: int| 0 <= i < first.len() ==> first[i],
        forall|i: int| 0 <= i < second.len() ==> second[i],
        first.len() > 0,
        second.len() > 0,
    ensures
        rising_edges(false, first + seq![false] + second) == 2,
{
    lemma_fire_edge_once(false, first);
    lemma_fire_edge_once(false, second);
    lemma_rising_edges_append(false, first + seq![false], second);
    lemma_rising_edges_append(false, first, seq![false]);
    assert((first + seq![false]).last() == false);
    assert(seq![false].skip(1) =~= Seq::<bool>::empty());
    assert(rising_edges(false, seq![false].skip(1)) == 0);
    assert(seq![false][0] == false);
    assert(rising_edges(first.last(), seq![false]) == 0);
}

/// Holding fire across any run of frames produces exactly one pair of
/// lasers, not one per frame: over any chain of consecutive frames
/// (`games[i]` stepping to `games[i + 1]` as `Game::frame` states) that
/// holds the fire key throughout and starts with a player present, the
/// lasers grow by exactly one pair when the key was up before the run,
/// and not at all when it was already held.
pub proof fn lemma_holding_fire_fires_once(
    games: Seq<Game>,
    times: Seq<u64>,
    inputs: Seq<InputFrame>,
)
    requires
        games.len() == inputs.len() + 1,
        times.len() == inputs.len(),
        forall|i: int|
            0 <= i < inputs.len() ==> frame_rel(games[i], games[i + 1], times[i], inputs[i]),
        forall|i: int| 0 <= i < inputs.len() ==> inputs[i].fire_held,
        games[0].store.player is Some,
    ensures
        games.last().store.lasers@.len() == games[0].store.lasers@.len() + (
        if inputs.len() == 0 || games[0].fire_held_prev {
            0int
        } else {
            2int
        }),
    decreases inputs.len(),
{
    if inputs.len() > 0 {
        let g0 = games[0];
        let g1 = games[1];
        assert(frame_rel(g0, g1, times[0], inputs[0]));
        // a present player is never removed by a frame
        assert(g0.player_after_lifecycle(times[0]) is Some);
        assert(g1.store.player is Some);
        assert(g1.fire_held_prev);
        let gs = games.skip(1);
        let ts = times.skip(1);
        let ins = inputs.skip(1);
        assert forall|i: int|
            0 <= i < ins.len() implies frame_rel(gs[i], gs[i + 1], ts[i], ins[i]) by {
            assert(frame_rel(games[i + 1], games[i + 2], times[i + 1], inputs[i + 1]));
        }
        assert forall|i: int| 0 <= i < ins.len() implies ins[i].fire_held by {
            assert(inputs[i + 1].fire_held);
        }
        lemma_holding_fire_fires_once(gs, ts, ins);
        assert(gs.last() == games.last());
        assert(gs[0] == g1);
    }
}

/// The life bar never shows a stale width while a player exists: after
/// any frame that ends with a player present, the bar's width is
/// exactly the width-per-life constant times that player's current
/// life.
pub proof fn lemma_life_bar_width(pre: Game, post: Game, now: u64, input: InputFrame)
    requires
        frame_rel(pre, post, now, input),
        post.store.player is Some,
    ensures
        post.store.life_bar is Some,
        post.store.life_bar->0.width == BAR_WIDTH_PER_LIFE * post.store.player->0.life.0,
{
}

/// The score text never lags the score: after any frame, the score
/// display holds exactly the decimal numeral of the authoritative
/// score as it stands after the frame.
pub proof fn lemma_score_text(pre: Game, post: Game, now: u64, input: InputFrame)
    requires
        frame_rel(pre, post, now, input),
    ensures
        post.store.score_display is Some,
        post.store.score_display->0.text@ == decimal_string(post.state.score as nat),
{
}

/// No respawn before the delay: over any chain of consecutive frames
/// that starts dead with a death recorded at `death_time` and whose
/// times all fall before `death_time` plus the respawn delay, the
/// player stays absent and dead throughout.
pub proof fn lemma_no_respawn_before_delay(
    games: Seq<Game>,
    times: Seq<u64>,
    inputs: Seq<InputFrame>,
    death_time: u64,
)
    requires
        games.len() == inputs.len() + 1,
        times.len() == inputs.len(),
        forall|i: int|
            0 <= i < inputs.len() ==> frame_rel(games[i], games[i + 1], times[i], inputs[i]),
        !games[0].state.alive,
        games[0].state.last_death_time == Some(death_time),
        games[0].store.player is None,
        forall|i: int|
            0 <= i < times.len() ==> times[i] < death_time + games[0].respawn_delay,
    ensures
        !games.last().state.alive,
        games.last().store.player is None,
        games.last().state.last_death_time == Some(death_time),
    decreases inputs.len(),
{
    if inputs.len() > 0 {
        let g0 = games[0];
        let g1 = games[1];
        assert(frame_rel(g0, g1, times[0], inputs[0]));
        assert(times[0] < death_time + g0.respawn_delay);
        assert(!respawn_due(g0.state, times[0], g0.respawn_delay));
        assert(!g0.spawns(times[0]));
        let gs = games.skip(1);
        let ts = times.skip(1);
        let ins = inputs.skip(1);
        assert forall|i: int|
            0 <= i < ins.len() implies frame_rel(gs[i], gs[i + 1], ts[i], ins[i]) by {
            assert(frame_rel(games[i + 1], games[i + 2], times[i + 1], inputs[i + 1]));
        }
        assert(g1.respawn_delay == g0.respawn_delay);
        assert forall|i: int|
            0 <= i < ts.len() implies ts[i] < death_time + gs[0].respawn_delay by {
            assert(times[i + 1] < death_time + g0.respawn_delay);
        }
        lemma_no_respawn_before_delay(gs, ts, ins, death_time);
        assert(gs.last() == games.last());
    }
}

/// A respawn occurs on the first lifecycle tick at or after the delay:
/// a frame stepping a dead simulation, with the death recorded at
/// `death_time`, no player present, the lifecycle evaluation due, and
/// the delay elapsed, ends with the player present and alive.
pub proof fn lemma_respawn_on_due_frame(
    pre: Game,
    post: Game,
    now: u64,
    input: InputFrame,
    death_time: u64,
)
    requires
        frame_rel(pre, post, now, input),
        !pre.state.alive,
        pre.state.last_death_time == Some(death_time),
        pre.store.player is None,
        pre.lifecycle_due(now),
        now >= death_time + pre.respawn_delay,
    ensures
        post.store.player is Some,
        post.state.alive,
        post.store.player->0.life == Life(DEFAULT_PLAYER_LIFE),
{
}

} // verus!
