use vstd::prelude::*;
use crate::logic::keys::{KeyCode, KeyEvent};
use crate::logic::tutorial::{init_tutorial, is_fresh_tutorial};
use crate::ui::app::{App, Screen, Sound};

verus! {

/// The prompt's selection after a key: Down/`j` and Up/`k` switch between
/// its two options (start the tutorial, skip to the menu).
pub open spec fn prompt_selection(selected: usize, code: KeyCode) -> usize {
    if code == KeyCode::Down || code == KeyCode::Char('j') {
        ((selected + 1) % 2) as usize
    } else if code == KeyCode::Up || code == KeyCode::Char('k') {
        if selected == 0 {
            1
        } else {
            0
        }
    } else {
        selected
    }
}

/// Handles a key on the first-run prompt: navigation between its two options,
/// and Enter to start the tutorial (option 0) or go to the menu (option 1).
/// Returns the sound cue to play, if any.
pub fn handle_event(app: &mut App, key: KeyEvent) -> (sound: Option<Sound>)
    ensures
        final(app).selected == prompt_selection(old(app).selected, key.code),
        sound == if key.code == KeyCode::Down || key.code == KeyCode::Char('j') || key.code == KeyCode::Up
            || key.code == KeyCode::Char('k') {
            Some(Sound::Menu)
        } else {
            None
        },
        key.code == KeyCode::Enter && old(app).selected == 0 ==> {
            &&& final(app).current_screen == Screen::Tutorial
            &&& final(app).tutorial_state matches Some(t) && is_fresh_tutorial(t)
            &&& *final(app) == (App {
                current_screen: final(app).current_screen,
                tutorial_state: final(app).tutorial_state,
                ..*old(app)
            })
        },
        key.code == KeyCode::Enter && old(app).selected == 1 ==> *final(app) == (App {
            current_screen: Screen::Menu,
            ..*old(app)
        }),
        !(key.code == KeyCode::Enter && old(app).selected <= 1) ==> *final(app) == (App {
            selected: final(app).selected,
            ..*old(app)
        }),
{
    match key.code {
        KeyCode::Down | KeyCode::Char('j') => {
            app.selected = (app.selected % 2 + 1) % 2;
            Some(Sound::Menu)
        },
        KeyCode::Up | KeyCode::Char('k') => {
            app.selected = if app.selected == 0 {
                1
            } else {
                0
            };
            Some(Sound::Menu)
        },
        KeyCode::Enter => {
            if app.selected == 0 {
                app.tutorial_state = Some(init_tutorial());
                app.current_screen = Screen::Tutorial;
            } else if app.selected == 1 {
                app.current_screen = Screen::Menu;
            }
            None
        },
        _ => None,
    }
}

} // verus!
