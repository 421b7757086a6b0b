//! The game-flow state machine: which screen is active and what moves between them.

use vstd::prelude::*;

verus! {

/// The active screen. Exactly one is active at a time.
#[derive(Clone, Copy, Debug, PartialEq, Eq, Structural, Hash)]
pub enum GameState {
    Startup,
    StartGame,
    MainMenu,
    CharacterSelect,
    CharacterCreate,
    SettingsMenu,
    Gameplay,
    /// A debug screen reachable from every state.
    UiPlayground,
}

impl Default for GameState {
    fn default() -> (r: Self)
        ensures
            r == GameState::Startup,
    {
        GameState::Startup
    }
}

/// Something that happened this tick that may move the game to another state.
#[derive(Clone, Copy, Debug, PartialEq, Eq, Structural)]
pub enum FlowEvent {
    /// Start-up work is done.
    Booted,
    /// F9: the debug key.
    DebugKey,
    /// Escape: leave the game.
    QuitKey,
    /// Main menu: Play.
    Play,
    /// Main menu: Settings.
    OpenSettings,
    /// Main menu: Exit.
    Exit,
    /// Character screens: New Character.
    NewCharacter,
    /// Character selection: one of the saved characters.
    PickCharacter,
    /// Character creation: Create, with a name entered.
    Create,
    /// Settings: Back.
    Back,
    /// The character's save data is ready.
    SaveLoaded,
}

/// What an event asks of the state machine.
#[derive(Clone, Copy, Debug, PartialEq, Eq, Structural)]
pub enum Transition {
    /// Nothing changes.
    Stay,
    /// Move to this state at the next boundary between ticks.
    Goto(GameState),
    /// Leave the game.
    Quit,
}

/// The transition that `event` asks for in state `s`. The debug key and Escape work
/// in every state; the other events only on the screen that offers them.
pub open spec fn transition_of(s: GameState, event: FlowEvent) -> Transition {
    match event {
        FlowEvent::DebugKey => Transition::Goto(GameState::UiPlayground),
        FlowEvent::QuitKey => Transition::Quit,
        FlowEvent::Booted => if s == GameState::Startup {
            Transition::Goto(GameState::MainMenu)
        } else {
            Transition::Stay
        },
        FlowEvent::Play => if s == GameState::MainMenu {
            Transition::Goto(GameState::CharacterSelect)
        } else {
            Transition::Stay
        },
        FlowEvent::OpenSettings => if s == GameState::MainMenu {
            Transition::Goto(GameState::SettingsMenu)
        } else {
            Transition::Stay
        },
        FlowEvent::Exit => if s == GameState::MainMenu {
            Transition::Quit
        } else {
            Transition::Stay
        },
        FlowEvent::NewCharacter => if s == GameState::CharacterSelect || s
            == GameState::CharacterCreate {
            Transition::Goto(GameState::CharacterCreate)
        } else {
            Transition::Stay
        },
        FlowEvent::PickCharacter => if s == GameState::CharacterSelect {
            Transition::Goto(GameState::StartGame)
        } else {
            Transition::Stay
        },
        FlowEvent::Create => if s == GameState::CharacterCreate {
            Transition::Goto(GameState::StartGame)
        } else {
            Transition::Stay
        },
        FlowEvent::Back => if s == GameState::SettingsMenu {
            Transition::Goto(GameState::MainMenu)
        } else {
            Transition::Stay
        },
        FlowEvent::SaveLoaded => if s == GameState::StartGame {
            Transition::Goto(GameState::Gameplay)
        } else {
            Transition::Stay
        },
    }
}

/// The transition that `event` asks for in state `s`.
pub fn transition(s: GameState, event: FlowEvent) -> (r: Transition)
    ensures
        r == transition_of(s, event),
{
    match event {
        FlowEvent::DebugKey => Transition::Goto(GameState::UiPlayground),
        FlowEvent::QuitKey => Transition::Quit,
        FlowEvent::Booted => match s {
            GameState::Startup => Transition::Goto(GameState::MainMenu),
            _ => Transition::Stay,
        },
        FlowEvent::Play => match s {
            GameState::MainMenu => Transition::Goto(GameState::CharacterSelect),
            _ => Transition::Stay,
        },
        FlowEvent::OpenSettings => match s {
            GameState::MainMenu => Transition::Goto(GameState::SettingsMenu),
            _ => Transition::Stay,
        },
        FlowEvent::Exit => match s {
            GameState::MainMenu => Transition::Quit,
            _ => Transition::Stay,
        },
        FlowEvent::NewCharacter => match s {
            GameState::CharacterSelect | GameState::CharacterCreate => Transition::Goto(
                GameState::CharacterCreate,
            ),
            _ => Transition::Stay,
        },
        FlowEvent::PickCharacter => match s {
            GameState::CharacterSelect => Transition::Goto(GameState::StartGame),
            _ => Transition::Stay,
        },
        FlowEvent::Create => match s {
            GameState::CharacterCreate => Transition::Goto(GameState::StartGame),
            _ => Transition::Stay,
        },
        FlowEvent::Back => match s {
            GameState::SettingsMenu => Transition::Goto(GameState::MainMenu),
            _ => Transition::Stay,
        },
        FlowEvent::SaveLoaded => match s {
            GameState::StartGame => Transition::Goto(GameState::Gameplay),
            _ => Transition::Stay,
        },
    }
}

/// A change of state: `exited`'s exit work runs in full before `entered`'s enter work.
#[derive(Clone, Copy, Debug, PartialEq, Eq, Structural)]
pub struct StateChange {
    pub exited: GameState,
    pub entered: GameState,
}

/// The active state and the change requested during the current tick. Requests
/// take effect only at the boundary between ticks, never in the middle of one.
#[derive(Clone, Copy, Debug, PartialEq, Eq, Structural)]
pub struct GameFlow {
    pub current: GameState,
    pub next: Option<GameState>,
    pub quitting: bool,
}

impl GameFlow {
    /// The machine before start-up: in `Startup`, nothing requested.
    pub fn new() -> (r: GameFlow)
        ensures
            r == (GameFlow { current: GameState::Startup, next: None, quitting: false }),
    {
        GameFlow { current: GameState::Startup, next: None, quitting: false }
    }

    /// Records what `event` asks for in the current state. The active state does
    /// not change; a later request in the same tick replaces an earlier one.
    pub fn request(&mut self, event: FlowEvent)
        ensures
            final(self).current == old(self).current,
            match transition_of(old(self).current, event) {
                Transition::Stay => *final(self) == *old(self),
                Transition::Goto(s) => final(self).next == Some(s) && final(self).quitting
                    == old(self).quitting,
                Transition::Quit => final(self).next == old(self).next && final(self).quitting,
            },
    {
        match transition(self.current, event) {
            Transition::Stay => {},
            Transition::Goto(s) => {
                self.next = Some(s);
            },
            Transition::Quit => {
                self.quitting = true;
            },
        }
    }

    /// At the boundary between ticks: moves to the requested state, if any, and
    /// reports the change so that the old state's exit work runs before the new
    /// state's enter work.
    pub fn advance(&mut self) -> (r: Option<StateChange>)
        ensures
            final(self).quitting == old(self).quitting,
            final(self).next is None,
            match old(self).next {
                None => r is None && final(self).current == old(self).current,
                Some(s) => r == Some(StateChange { exited: old(self).current, entered: s })
                    && final(self).current == s,
            },
    {
        match self.next {
            None => None,
            Some(s) => {
                let change = StateChange { exited: self.current, entered: s };
                self.current = s;
                self.next = None;
                Some(change)
            },
        }
    }
}

/// The debug key reaches the debug screen from every state, and Escape leaves the
/// game from every state.
pub proof fn global_keys_work_everywhere(s: GameState)
    ensures
        transition_of(s, FlowEvent::DebugKey) == Transition::Goto(GameState::UiPlayground),
        transition_of(s, FlowEvent::QuitKey) == Transition::Quit,
{
}

} // verus!
