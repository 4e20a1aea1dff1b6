use vstd::prelude::*;
use crate::timer::Timer;

verus! {

/// Length of the intro, in ticks (six seconds).
pub const INTRO_TICKS: u32 = 360;

/// The level that the intro leads into.
pub const FIRST_LEVEL: usize = 1;

/// The keys held during a tick. `pause` is the pause key going down on
/// this tick.
#[derive(Clone, Copy, Debug, PartialEq, Eq, Structural)]
pub struct Input {
    pub left: bool,
    pub right: bool,
    pub fire: bool,
    pub confirm: bool,
    pub pause: bool,
}

/// Where the game stands: not started, in the intro, playing, or paused.
#[derive(Clone, Copy, Debug, PartialEq, Eq, Structural)]
pub struct GameState {
    pub started: bool,
    pub paused: bool,
    pub intro: bool,
    pub level: usize,
}

/// What to do with the start-screen prompt.
#[derive(Clone, Copy, Debug, PartialEq, Eq, Structural)]
pub enum PromptAction {
    Show,
    Remove,
    Keep,
}

impl Input {
    /// No key held.
    pub fn idle() -> (r: Input)
        ensures
            !r.left && !r.right && !r.fire && !r.confirm && !r.pause,
    {
        Input { left: false, right: false, fire: false, confirm: false, pause: false }
    }
}

impl GameState {
    /// Movement and firing run only while the game is started, not paused
    /// and past its intro.
    pub open spec fn is_active(self) -> bool {
        self.started && !self.paused && !self.intro
    }

    /// A game that has not started, at the first level.
    pub fn new() -> (r: GameState)
        ensures
            r == (GameState { started: false, paused: false, intro: false, level: FIRST_LEVEL }),
    {
        GameState { started: false, paused: false, intro: false, level: FIRST_LEVEL }
    }

    pub fn active(&self) -> (r: bool)
        ensures
            r == self.is_active(),
    {
        self.started && !self.paused && !self.intro
    }
}

/// The state after the start check, and whether the game started on this
/// tick.
pub open spec fn after_start(gs: GameState, input: Input) -> (GameState, bool) {
    if !gs.started && (input.fire || input.confirm) {
        (GameState { started: true, ..gs }, true)
    } else {
        (gs, false)
    }
}

/// The state after the pause check.
pub open spec fn after_pause(gs: GameState, input: Input) -> GameState {
    if gs.started && input.pause {
        GameState { paused: !gs.paused, ..gs }
    } else {
        gs
    }
}

/// The state and intro timer after the intro step, and the level that
/// starts on this tick, if any.
pub open spec fn after_intro(gs: GameState, t: Timer, game_start: bool) -> (GameState, Timer, Option<usize>) {
    let gs1 = if game_start {
        GameState { intro: true, ..gs }
    } else {
        gs
    };
    let t1 = if game_start {
        t.restarted()
    } else {
        t
    };
    if gs1.intro {
        let t2 = t1.ticked(1);
        if t2.just_finished {
            (GameState { intro: false, ..gs1 }, t2, Some(FIRST_LEVEL))
        } else {
            (gs1, t2, None)
        }
    } else {
        (gs1, t1, None)
    }
}

/// Starts the game when fire or confirm is held before it has started.
/// Returns whether it started on this tick.
pub fn start_game(gs: &mut GameState, input: &Input) -> (game_start: bool)
    ensures
        (*final(gs), game_start) == after_start(*old(gs), *input),
{
    if !gs.started && (input.fire || input.confirm) {
        gs.started = true;
        true
    } else {
        false
    }
}

/// Toggles the pause once the game has started.
pub fn pause_game(gs: &mut GameState, input: &Input)
    ensures
        *final(gs) == after_pause(*old(gs), *input),
{
    if gs.started && input.pause {
        gs.paused = !gs.paused;
    }
}

/// Enters the intro when the game has just started, and leaves it when the
/// intro timer completes. Returns the level that starts on this tick.
pub fn play_intro(gs: &mut GameState, timer: &mut Timer, game_start: bool) -> (level_start: Option<usize>)
    requires
        old(timer).wf(),
    ensures
        (*final(gs), *final(timer), level_start) == after_intro(*old(gs), *old(timer), game_start),
        final(timer).wf(),
{
    if game_start {
        gs.intro = true;
        timer.reset();
    }
    if gs.intro {
        timer.tick(1);
        if timer.just_finished {
            gs.intro = false;
            return Some(FIRST_LEVEL);
        }
    }
    None
}

/// The prompt is shown while the game has not started, once, and removed
/// once it has.
pub fn start_prompt(started: bool, prompt_shown: bool) -> (r: PromptAction)
    ensures
        r == if !started && !prompt_shown {
            PromptAction::Show
        } else if started && prompt_shown {
            PromptAction::Remove
        } else {
            PromptAction::Keep
        },
{
    if !started && !prompt_shown {
        PromptAction::Show
    } else if started && prompt_shown {
        PromptAction::Remove
    } else {
        PromptAction::Keep
    }
}

} // verus!
