use vstd::prelude::*;
use crate::logic::keys::{KeyCode, KeyEvent};
use crate::ui::app::{App, Screen};

verus! {

/// On the practice screen, `q` or Escape returns to the menu; other keys do nothing here.
pub fn handle_event(app: &mut App, key: KeyEvent)
    ensures
        *final(app) == if key.code == KeyCode::Esc || key.code == KeyCode::Char('q') {
            App { current_screen: Screen::Menu, ..*old(app) }
        } else {
            *old(app)
        },
{
    match key.code {
        KeyCode::Esc | KeyCode::Char('q') => app.current_screen = Screen::Menu,
        _ => {},
    }
}

} // verus!
