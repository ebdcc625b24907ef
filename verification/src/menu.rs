use vstd::prelude::*;
use crate::game::Difficulty;

verus! {

/// Screens of the main menu.
#[derive(Clone, Copy, Debug, PartialEq, Eq, Hash, Structural)]
pub enum MainMenuState {
    MainMenu,
    DifficultySelector,
    GameModeSelector,
    Settings,
}

impl Default for MainMenuState {
    /// The menu opens on the main screen.
    fn default() -> (s: MainMenuState)
        ensures
            s == MainMenuState::MainMenu,
    {
        MainMenuState::MainMenu
    }
}

/// What a button of the main screen does.
#[derive(Clone, Copy, Debug, PartialEq, Eq, Structural)]
pub enum MainMenuButtonAction {
    Play,
    Settings,
    Exit,
}

/// What a button of the difficulty screen picks.
#[derive(Clone, Copy, Debug, PartialEq, Eq, Structural)]
pub enum DifficultyButtonAction {
    Easy,
    Medium,
    Hard,
}

/// How the pointer interacts with a button that changed this frame.
#[derive(Clone, Copy, Debug, PartialEq, Eq, Structural)]
pub enum ButtonInteraction {
    Pressed,
    Hovered,
    Idle,
}

/// What one main-screen button does to the menu.
#[derive(Clone, Copy, Debug, PartialEq, Eq, Structural)]
pub enum MenuCommand {
    /// Nothing happens.
    Stay,
    /// The menu moves to this screen.
    GoTo(MainMenuState),
    /// The application is asked to quit.
    Exit,
}

/// What the main screen did in one frame: the screen to move to, if any
/// (the last one asked for wins), and how many quit requests were sent.
#[derive(Clone, Copy, Debug, PartialEq, Eq, Structural)]
pub struct MainMenuOutcome {
    pub next_state: Option<MainMenuState>,
    pub exit_requests: usize,
}

/// What pressing (or not) one button of the main screen asks for.
pub open spec fn spec_main_menu_command(interaction: ButtonInteraction, action: MainMenuButtonAction) -> MenuCommand {
    if interaction == ButtonInteraction::Pressed {
        match action {
            MainMenuButtonAction::Play => MenuCommand::GoTo(MainMenuState::DifficultySelector),
            MainMenuButtonAction::Settings => MenuCommand::GoTo(MainMenuState::Settings),
            MainMenuButtonAction::Exit => MenuCommand::Exit,
        }
    } else {
        MenuCommand::Stay
    }
}

/// The screen asked for last by a frame's button changes, if any.
pub open spec fn spec_main_menu_next(events: Seq<(ButtonInteraction, MainMenuButtonAction)>) -> Option<MainMenuState>
    decreases events.len(),
{
    if events.len() == 0 {
        None
    } else {
        match spec_main_menu_command(events.last().0, events.last().1) {
            MenuCommand::GoTo(s) => Some(s),
            _ => spec_main_menu_next(events.drop_last()),
        }
    }
}

/// How many of a frame's button changes ask to quit.
pub open spec fn spec_main_menu_exits(events: Seq<(ButtonInteraction, MainMenuButtonAction)>) -> nat
    decreases events.len(),
{
    if events.len() == 0 {
        0
    } else {
        spec_main_menu_exits(events.drop_last()) + if spec_main_menu_command(
            events.last().0,
            events.last().1,
        ) == MenuCommand::Exit {
            1nat
        } else {
            0nat
        }
    }
}

/// The difficulty picked last by a frame's button changes, if any.
pub open spec fn spec_picked_difficulty(events: Seq<(ButtonInteraction, DifficultyButtonAction)>) -> Option<Difficulty>
    decreases events.len(),
{
    if events.len() == 0 {
        None
    } else if events.last().0 == ButtonInteraction::Pressed {
        Some(
            match events.last().1 {
                DifficultyButtonAction::Easy => Difficulty::Easy,
                DifficultyButtonAction::Medium => Difficulty::Medium,
                DifficultyButtonAction::Hard => Difficulty::Hard,
            },
        )
    } else {
        spec_picked_difficulty(events.drop_last())
    }
}

/// What pressing (or not) one button of the main screen asks for.
pub fn main_menu_command(interaction: ButtonInteraction, action: MainMenuButtonAction) -> (c: MenuCommand)
    ensures
        c == spec_main_menu_command(interaction, action),
{
    match interaction {
        ButtonInteraction::Pressed => match action {
            MainMenuButtonAction::Play => MenuCommand::GoTo(MainMenuState::DifficultySelector),
            MainMenuButtonAction::Settings => MenuCommand::GoTo(MainMenuState::Settings),
            MainMenuButtonAction::Exit => MenuCommand::Exit,
        },
        _ => MenuCommand::Stay,
    }
}

/// Handles the main-screen buttons whose interaction changed this frame, in
/// order: Play moves to the difficulty screen, Settings to the settings
/// screen, and Exit sends a quit request; buttons that are not pressed do
/// nothing.
pub fn main_menu_system(events: &Vec<(ButtonInteraction, MainMenuButtonAction)>) -> (out: MainMenuOutcome)
    ensures
        out.next_state == spec_main_menu_next(events@),
        out.exit_requests == spec_main_menu_exits(events@),
{
    let mut next_state: Option<MainMenuState> = None;
    let mut exit_requests: usize = 0;
    let n = events.len();
    let mut i: usize = 0;
    while i < n
        invariant
            n == events@.len(),
            i <= n,
            next_state == spec_main_menu_next(events@.take(i as int)),
            exit_requests == spec_main_menu_exits(events@.take(i as int)),
            exit_requests <= i,
        decreases n - i,
    {
        let (interaction, action) = events[i];
        proof {
            assert(events@.take(i + 1).drop_last() =~= events@.take(i as int));
            assert(events@.take(i + 1).last() == events@[i as int]);
        }
        match main_menu_command(interaction, action) {
            MenuCommand::GoTo(s) => {
                next_state = Some(s);
            },
            MenuCommand::Exit => {
                exit_requests = exit_requests + 1;
            },
            MenuCommand::Stay => {},
        }
        i = i + 1;
    }
    proof {
        assert(events@.take(n as int) =~= events@);
    }
    MainMenuOutcome { next_state, exit_requests }
}

/// Handles the difficulty buttons whose interaction changed this frame, in
/// order: each pressed button sets the difficulty and asks to move to the
/// game-mode screen. Returns the screen to move to, if any.
pub fn difficulty_selector_system(
    events: &Vec<(ButtonInteraction, DifficultyButtonAction)>,
    difficulty: &mut Difficulty,
) -> (next_state: Option<MainMenuState>)
    ensures
        next_state is Some <==> spec_picked_difficulty(events@) is Some,
        next_state is Some ==> next_state == Some(MainMenuState::GameModeSelector),
        *final(difficulty) == match spec_picked_difficulty(events@) {
            Some(d) => d,
            None => *old(difficulty),
        },
{
    let ghost start = *difficulty;
    let mut next_state: Option<MainMenuState> = None;
    let n = events.len();
    let mut i: usize = 0;
    while i < n
        invariant
            n == events@.len(),
            i <= n,
            next_state is Some <==> spec_picked_difficulty(events@.take(i as int)) is Some,
            next_state is Some ==> next_state == Some(MainMenuState::GameModeSelector),
            *difficulty == match spec_picked_difficulty(events@.take(i as int)) {
                Some(d) => d,
                None => start,
            },
        decreases n - i,
    {
        let (interaction, action) = events[i];
        proof {
            assert(events@.take(i + 1).drop_last() =~= events@.take(i as int));
            assert(events@.take(i + 1).last() == events@[i as int]);
        }
        if interaction == ButtonInteraction::Pressed {
            match action {
                DifficultyButtonAction::Easy => {
                    *difficulty = Difficulty::Easy;
                },
                DifficultyButtonAction::Medium => {
                    *difficulty = Difficulty::Medium;
                },
                DifficultyButtonAction::Hard => {
                    *difficulty = Difficulty::Hard;
                },
            }
            next_state = Some(MainMenuState::GameModeSelector);
        }
        i = i + 1;
    }
    proof {
        assert(events@.take(n as int) =~= events@);
    }
    next_state
}

/// Law: a frame in which no button is pressed leaves the menu where it is
/// and sends no quit request.
pub proof fn lemma_no_press_no_change(events: Seq<(ButtonInteraction, MainMenuButtonAction)>)
    requires
        forall|i: int| 0 <= i < events.len() ==> #[trigger] events[i].0 != ButtonInteraction::Pressed,
    ensures
        spec_main_menu_next(events) is None,
        spec_main_menu_exits(events) == 0,
    decreases events.len(),
{
    if events.len() > 0 {
        let rest = events.drop_last();
        assert forall|i: int| 0 <= i < rest.len() implies #[trigger] rest[i].0 != ButtonInteraction::Pressed by {
            assert(rest[i] == events[i]);
        }
        lemma_no_press_no_change(rest);
        assert(events.last() == events[events.len() - 1]);
    }
}

/// Law: each difficulty button sets the difficulty of its own name. The
/// difficulty picked in a frame is that of the last pressed button, whatever
/// came before it and however many unpressed buttons follow it; a frame
/// with no pressed button picks none.
pub proof fn lemma_pressed_button_sets_its_difficulty(
    events: Seq<(ButtonInteraction, DifficultyButtonAction)>,
    i: int,
)
    requires
        0 <= i < events.len(),
        events[i].0 == ButtonInteraction::Pressed,
        forall|j: int| i < j < events.len() ==> #[trigger] events[j].0 != ButtonInteraction::Pressed,
    ensures
        events[i].1 == DifficultyButtonAction::Easy ==> spec_picked_difficulty(events) == Some(Difficulty::Easy),
        events[i].1 == DifficultyButtonAction::Medium ==> spec_picked_difficulty(events) == Some(Difficulty::Medium),
        events[i].1 == DifficultyButtonAction::Hard ==> spec_picked_difficulty(events) == Some(Difficulty::Hard),
    decreases events.len(),
{
    if i < events.len() - 1 {
        let rest = events.drop_last();
        assert(events.last() == events[events.len() - 1]);
        assert(events.last().0 != ButtonInteraction::Pressed);
        assert forall|j: int| i < j < rest.len() implies #[trigger] rest[j].0 != ButtonInteraction::Pressed by {
            assert(rest[j] == events[j]);
        }
        assert(rest[i] == events[i]);
        lemma_pressed_button_sets_its_difficulty(rest, i);
    } else {
        assert(events.last() == events[i]);
    }
}

/// Law: a frame with no pressed difficulty button picks no difficulty.
pub proof fn lemma_no_press_no_difficulty(events: Seq<(ButtonInteraction, DifficultyButtonAction)>)
    requires
        forall|j: int| 0 <= j < events.len() ==> #[trigger] events[j].0 != ButtonInteraction::Pressed,
    ensures
        spec_picked_difficulty(events) is None,
    decreases events.len(),
{
    if events.len() > 0 {
        let rest = events.drop_last();
        assert forall|j: int| 0 <= j < rest.len() implies #[trigger] rest[j].0 != ButtonInteraction::Pressed by {
            assert(rest[j] == events[j]);
        }
        assert(events.last() == events[events.len() - 1]);
        lemma_no_press_no_difficulty(rest);
    }
}

} // verus!
