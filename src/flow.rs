use vstd::prelude::*;
use crate::logic::GameEvent;
use crate::timer::{Countdown, RESULTS_SCREEN_DURATION, SPLASH_SCREEN_DURATION};

verus! {

/// The screen being shown.
#[derive(Clone, Copy, Debug, PartialEq, Eq, Structural)]
pub enum GameState {
    Splash,
    Menu,
    Game,
    Results,
}

/// Whether the game screen runs the simulation or holds it.
#[derive(Clone, Copy, Debug, PartialEq, Eq, Structural)]
pub enum GameMode {
    Running,
    Pause,
}

impl GameMode {
    /// The other mode.
    pub open spec fn toggled(self) -> GameMode {
        match self {
            GameMode::Running => GameMode::Pause,
            GameMode::Pause => GameMode::Running,
        }
    }
}

/// The buttons of the menu.
#[derive(Clone, Copy, Debug, PartialEq, Eq, Structural)]
pub enum MenuButtonAction {
    Play,
    Quit,
}

/// What handing `delta` nanoseconds to the screen timers of `pre` does,
/// leaving `post`; `changed` tells whether the screen changed.
pub open spec fn counted_down(pre: GameFlow, post: GameFlow, delta: u64, changed: bool) -> bool {
    &&& post.mode == pre.mode
    &&& post.already_played == pre.already_played
    &&& pre.state == GameState::Splash ==> {
        &&& post.results.duration == pre.results.duration
        &&& post.results.elapsed == if changed {
            0
        } else {
            pre.results.elapsed
        }
        &&& post.splash.duration == pre.splash.duration
        &&& changed == (pre.splash.elapsed + delta >= pre.splash.duration)
        &&& post.state == if changed {
            GameState::Menu
        } else {
            GameState::Splash
        }
    }
    &&& pre.state == GameState::Results ==> {
        &&& post.splash == pre.splash
        &&& post.results.duration == pre.results.duration
        &&& changed == (pre.results.elapsed + delta >= pre.results.duration)
        &&& changed ==> post.state == GameState::Menu && post.results.elapsed == 0
        &&& !changed ==> post.state == GameState::Results
    }
    &&& (pre.state == GameState::Menu || pre.state == GameState::Game) ==> !changed && post == pre
}

/// The screens and the timers that move between them.
#[derive(Clone, Copy, Debug, PartialEq, Eq, Structural)]
pub struct GameFlow {
    pub state: GameState,
    pub mode: GameMode,
    pub splash: Countdown,
    pub results: Countdown,
    pub already_played: bool,
}

impl GameFlow {
    pub open spec fn wf(self) -> bool {
        self.splash.wf() && self.results.wf()
    }

    /// Whether the simulation ticks: on the game screen, unpaused.
    pub open spec fn runs_simulation(self) -> bool {
        self.state == GameState::Game && self.mode == GameMode::Running
    }

    /// The flow at start-up: the splash screen, nothing played yet.
    pub fn new() -> (f: GameFlow)
        ensures
            f.wf(),
            f.state == GameState::Splash,
            f.mode == GameMode::Running,
            f.splash == Countdown::new_spec(SPLASH_SCREEN_DURATION),
            f.results == Countdown::new_spec(RESULTS_SCREEN_DURATION),
            !f.already_played,
    {
        GameFlow {
            state: GameState::Splash,
            mode: GameMode::Running,
            splash: Countdown::new(SPLASH_SCREEN_DURATION),
            results: Countdown::new(RESULTS_SCREEN_DURATION),
            already_played: false,
        }
    }

    /// Hand `delta` nanoseconds to the screen timers: the splash screen and
    /// the results screen each give way to the menu once their time is up.
    /// Returns whether the screen changed.
    pub fn countdown(&mut self, delta: u64) -> (changed: bool)
        requires
            old(self).wf(),
        ensures
            final(self).wf(),
            counted_down(*old(self), *final(self), delta, changed),
    {
        match self.state {
            GameState::Splash => {
                if self.splash.tick(delta) {
                    self.enter_menu();
                    true
                } else {
                    false
                }
            },
            GameState::Results => {
                if self.results.tick(delta) {
                    self.enter_menu();
                    true
                } else {
                    false
                }
            },
            _ => false,
        }
    }

    /// Show the menu, with the results timer wound back for the next game.
    fn enter_menu(&mut self)
        requires
            old(self).wf(),
        ensures
            final(self).wf(),
            final(self).state == GameState::Menu,
            final(self).mode == old(self).mode,
            final(self).splash == old(self).splash,
            final(self).results.duration == old(self).results.duration,
            final(self).results.elapsed == 0,
            final(self).already_played == old(self).already_played,
    {
        self.state = GameState::Menu;
        self.results.reset();
    }

    /// A menu button was pressed: Play starts a game (unpaused); Quit asks
    /// to leave the program, which the returned flag says. Off the menu
    /// nothing happens.
    pub fn menu_action(&mut self, action: MenuButtonAction) -> (quit: bool)
        ensures
            quit == (old(self).state == GameState::Menu && action == MenuButtonAction::Quit),
            final(self).splash == old(self).splash,
            final(self).results == old(self).results,
            (old(self).state == GameState::Menu && action == MenuButtonAction::Play) ==> {
                &&& final(self).state == GameState::Game
                &&& final(self).mode == GameMode::Running
                &&& final(self).already_played
            },
            !(old(self).state == GameState::Menu && action == MenuButtonAction::Play)
                ==> *final(self) == *old(self),
    {
        if self.state != GameState::Menu {
            return false;
        }
        match action {
            MenuButtonAction::Play => {
                self.state = GameState::Game;
                self.mode = GameMode::Running;
                self.already_played = true;
                false
            },
            MenuButtonAction::Quit => true,
        }
    }

    /// The pause key: on the game screen it switches between running and
    /// paused; elsewhere nothing happens.
    pub fn toggle_pause(&mut self)
        ensures
            final(self).state == old(self).state,
            final(self).splash == old(self).splash,
            final(self).results == old(self).results,
            final(self).already_played == old(self).already_played,
            old(self).state == GameState::Game ==> final(self).mode == old(self).mode.toggled(),
            old(self).state != GameState::Game ==> *final(self) == *old(self),
    {
        if self.state == GameState::Game {
            self.mode = match self.mode {
                GameMode::Running => GameMode::Pause,
                GameMode::Pause => GameMode::Running,
            };
        }
    }

    /// The game has ended: show the results.
    pub fn end_game(&mut self)
        ensures
            final(self).mode == old(self).mode,
            final(self).splash == old(self).splash,
            final(self).results == old(self).results,
            final(self).already_played == old(self).already_played,
            old(self).state == GameState::Game ==> final(self).state == GameState::Results,
            old(self).state != GameState::Game ==> *final(self) == *old(self),
    {
        if self.state == GameState::Game {
            self.state = GameState::Results;
        }
    }

    pub fn simulation_runs(&self) -> (r: bool)
        ensures
            r == self.runs_simulation(),
    {
        self.state == GameState::Game && self.mode == GameMode::Running
    }

    /// The label of the menu's first button.
    pub fn play_label(&self) -> (r: &'static str)
        ensures
            r@ == if self.already_played {
                "Replay"@
            } else {
                "Play"@
            },
    {
        if self.already_played {
            "Replay"
        } else {
            "Play"
        }
    }
}

/// The title of the results screen for how the game ended.
pub fn results_title(event: &GameEvent) -> (r: &'static str)
    ensures
        r@ == match event {
            GameEvent::GameOver(_) => "Game over!"@,
            GameEvent::GameWon => "Good job!"@,
        },
{
    match event {
        GameEvent::GameOver(_) => "Game over!",
        GameEvent::GameWon => "Good job!",
    }
}

/// The line under the title of the results screen: why the game was lost,
/// or congratulations.
pub fn results_text(event: &GameEvent) -> (r: String)
    ensures
        r@ == match event {
            GameEvent::GameOver(why) => why@,
            GameEvent::GameWon => "Congratulations!"@,
        },
{
    match event {
        GameEvent::GameOver(why) => why.clone(),
        GameEvent::GameWon => "Congratulations!".to_owned(),
    }
}

} // verus!
