use vstd::prelude::*;
use crate::logic::keys::{KeyCode, KeyEvent};
use crate::logic::session::{Session, Type};
use crate::logic::tutorial::{init_tutorial, is_fresh_tutorial};
use crate::ui::app::{App, MenuAction, Screen, Sound};

verus! {

/// Work the main menu hands to the surrounding program, which owns the storage.
#[derive(Debug, Clone, Copy, PartialEq, Eq, Structural)]
pub enum MenuCommand {
    /// Nothing to do.
    Stay,
    /// Load a practice session of this kind, then call `open_session`.
    StartSession(Type),
    /// Clear the stored completion flag, then call `restart_tutorial`.
    RestartTutorial,
}

/// What the surrounding program must do after a key press on the main menu.
#[derive(Debug, Clone, Copy, PartialEq, Eq, Structural)]
pub struct MenuOutcome {
    pub sound: Option<Sound>,
    pub command: MenuCommand,
}

/// The command an entry of the menu asks for when it is confirmed.
pub open spec fn command_of(action: MenuAction) -> MenuCommand {
    match action {
        MenuAction::Session(t) => MenuCommand::StartSession(t),
        MenuAction::RestartTutorial => MenuCommand::RestartTutorial,
        MenuAction::Exit => MenuCommand::Stay,
    }
}

/// Handles a key on the main menu. The error line is cleared first; `q` or
/// Escape asks to quit; Down/`j` and Up/`k` move the selection with wrap-around;
/// Enter confirms the selected entry: Exit asks to quit, the others return a
/// command for the surrounding program.
pub fn handle_event(app: &mut App, key: KeyEvent) -> (out: MenuOutcome)
    requires
        old(app).menu_items.len() > 0,
        old(app).selected < old(app).menu_items.len(),
    ensures
        final(app).error is None,
        final(app).menu_items == old(app).menu_items,
        final(app).selected < final(app).menu_items.len(),
        key.code == KeyCode::Esc || key.code == KeyCode::Char('q') ==> {
            &&& *final(app) == (App { should_quit: true, error: None, ..*old(app) })
            &&& out == (MenuOutcome { sound: None, command: MenuCommand::Stay })
        },
        key.code == KeyCode::Down || key.code == KeyCode::Char('j') ==> {
            &&& *final(app) == (App {
                selected: ((old(app).selected + 1) % (old(app).menu_items.len() as int)) as usize,
                error: None,
                ..*old(app)
            })
            &&& out == (MenuOutcome { sound: Some(Sound::Menu), command: MenuCommand::Stay })
        },
        key.code == KeyCode::Up || key.code == KeyCode::Char('k') ==> {
            &&& *final(app) == (App {
                selected: if old(app).selected == 0 {
                    (old(app).menu_items.len() - 1) as usize
                } else {
                    (old(app).selected - 1) as usize
                },
                error: None,
                ..*old(app)
            })
            &&& out == (MenuOutcome { sound: Some(Sound::Menu), command: MenuCommand::Stay })
        },
        key.code == KeyCode::Enter ==> {
            let action = old(app).menu_items@[old(app).selected as int];
            &&& *final(app) == (App {
                should_quit: old(app).should_quit || action == MenuAction::Exit,
                error: None,
                ..*old(app)
            })
            &&& out == (MenuOutcome { sound: None, command: command_of(action) })
        },
        !(key.code == KeyCode::Esc || key.code == KeyCode::Char('q') || key.code == KeyCode::Down
            || key.code == KeyCode::Char('j') || key.code == KeyCode::Up || key.code == KeyCode::Char('k')
            || key.code == KeyCode::Enter) ==> {
            &&& *final(app) == (App { error: None, ..*old(app) })
            &&& out == (MenuOutcome { sound: None, command: MenuCommand::Stay })
        },
{
    app.error = None;
    match key.code {
        KeyCode::Esc | KeyCode::Char('q') => {
            app.should_quit = true;
            MenuOutcome { sound: None, command: MenuCommand::Stay }
        },
        KeyCode::Down | KeyCode::Char('j') => {
            app.next();
            MenuOutcome { sound: Some(Sound::Menu), command: MenuCommand::Stay }
        },
        KeyCode::Up | KeyCode::Char('k') => {
            app.previous();
            MenuOutcome { sound: Some(Sound::Menu), command: MenuCommand::Stay }
        },
        KeyCode::Enter => {
            app.select();
            let command = match app.menu_items[app.selected] {
                MenuAction::Session(session_type) => MenuCommand::StartSession(session_type),
                MenuAction::RestartTutorial => MenuCommand::RestartTutorial,
                MenuAction::Exit => MenuCommand::Stay,
            };
            MenuOutcome { sound: None, command }
        },
        _ => MenuOutcome { sound: None, command: MenuCommand::Stay },
    }
}

/// Why a loaded session cannot be opened.
#[derive(Debug, Clone, Copy, PartialEq, Eq, Structural)]
pub enum SessionProblem {
    /// The word list is empty.
    EmptyWordList,
    /// The stored position lies past the end of the word list.
    IndexOutOfBounds { index: usize, len: usize },
}

/// Opens a loaded session on `screen` when its position points at a word;
/// otherwise leaves the application as it was and says what is wrong.
pub fn open_session(app: &mut App, session: Session, screen: Screen) -> (r: Result<(), SessionProblem>)
    ensures
        session.index < session.words.len() ==> {
            &&& r is Ok
            &&& *final(app) == (App { session: Some(session), current_screen: screen, ..*old(app) })
        },
        session.index >= session.words.len() ==> {
            &&& *final(app) == *old(app)
            &&& r == if session.words.len() == 0 {
                Err::<(), SessionProblem>(SessionProblem::EmptyWordList)
            } else {
                Err(SessionProblem::IndexOutOfBounds { index: session.index, len: session.words.len() })
            }
        },
{
    if session.index < session.words.len() {
        app.session = Some(session);
        app.current_screen = screen;
        Ok(())
    } else if session.words.len() == 0 {
        Err(SessionProblem::EmptyWordList)
    } else {
        Err(SessionProblem::IndexOutOfBounds { index: session.index, len: session.words.len() })
    }
}

/// Starts a new tutorial run from its first step and shows the tutorial screen.
pub fn restart_tutorial(app: &mut App)
    ensures
        final(app).current_screen == Screen::Tutorial,
        final(app).tutorial_state matches Some(t) && is_fresh_tutorial(t),
        *final(app) == (App {
            current_screen: final(app).current_screen,
            tutorial_state: final(app).tutorial_state,
            ..*old(app)
        }),
{
    app.tutorial_state = Some(init_tutorial());
    app.current_screen = Screen::Tutorial;
}

} // verus!
