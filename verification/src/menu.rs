//! The UI setup and the score synchronizer.
use vstd::prelude::*;

use crate::components::{ScoreText, WinSize};
use crate::decimal::{decimal_string, u64_to_decimal};
use crate::player::{
    player_life_spawn_system, spec_initial_life_bar, spec_initial_max_life_bar, PlayerState,
};
use crate::store::{EntityStore, ScoreDisplay};

verus! {

/// Creates the UI singletons at startup: the two life bars and the
/// score display, whose text starts empty until the first frame writes
/// the score into it.
pub fn menu_spawn_system(store: &mut EntityStore, win: WinSize)
    requires
        win.wf(),
    ensures
        final(store).life_bar == Some(spec_initial_life_bar(win)),
        final(store).max_life_bar == Some(spec_initial_max_life_bar(win)),
        final(store).score_display matches Some(sd) && sd.text@ == Seq::<char>::empty(),
        final(store).player == old(store).player,
        final(store).lasers == old(store).lasers,
{
    player_life_spawn_system(store, win);
    store.score_display = Some(ScoreDisplay { marker: ScoreText, text: String::new() });
}

/// The score synchronizer: every frame, the score display's text is
/// overwritten with the decimal numeral of the authoritative score. A
/// missing score display leaves the store untouched.
pub fn player_score_system(state: &PlayerState, store: &mut EntityStore)
    ensures
        old(store).score_display is Some ==> {
            &&& final(store).score_display is Some
            &&& final(store).score_display->0.text@ == decimal_string(state.score as nat)
        },
        old(store).score_display is None ==> final(store).score_display == old(
            store,
        ).score_display,
        final(store).player == old(store).player,
        final(store).lasers == old(store).lasers,
        final(store).life_bar == old(store).life_bar,
        final(store).max_life_bar == old(store).max_life_bar,
{
    match &mut store.score_display {
        Some(sd) => {
            sd.text = u64_to_decimal(state.score);
        },
        None => {},
    }
}

} // verus!
