use vstd::prelude::*;
use vstd::arithmetic::div_mod::{lemma_add_mod_noop_right, lemma_mod_bound};
use crate::logic::session::{Session, Type};
use crate::logic::tutorial::TutorialState;

verus! {

/// The screen that is shown and receives key presses.
#[derive(Debug, Clone, Copy, PartialEq, Eq, Structural)]
pub enum Screen {
    Menu,
    Practice,
    Test,
    TutorialPrompt,
    Tutorial,
}

/// An entry of the main menu.
#[derive(Debug, Clone, Copy, PartialEq, Eq, Structural)]
pub enum MenuAction {
    Session(Type),
    RestartTutorial,
    Exit,
}

/// The state of the application, apart from its storage.
#[derive(Debug)]
pub struct App {
    pub current_screen: Screen,
    pub menu_items: Vec<MenuAction>,
    pub selected: usize,
    pub should_quit: bool,
    pub session: Option<Session>,
    pub error: Option<String>,
    pub tutorial_state: Option<TutorialState>,
}

impl MenuAction {
    pub open spec fn spec_label(self) -> Seq<char> {
        match self {
            MenuAction::Session(t) => t.spec_label(),
            MenuAction::RestartTutorial => "Restart Tutorial"@,
            MenuAction::Exit => "Exit"@,
        }
    }

    /// The menu text for this entry.
    pub fn label(&self) -> (r: &'static str)
        ensures
            r@ == self.spec_label(),
    {
        match self {
            MenuAction::Session(t) => t.label(),
            MenuAction::RestartTutorial => "Restart Tutorial",
            MenuAction::Exit => "Exit",
        }
    }
}

/// A sound cue that the surrounding program plays.
#[derive(Debug, Clone, Copy, PartialEq, Eq, Structural)]
pub enum Sound {
    Correct,
    Wrong,
    Mark,
    Menu,
}

/// The main menu's entries, in order.
pub open spec fn main_menu() -> Seq<MenuAction> {
    seq![
        MenuAction::Session(Type::Group),
        MenuAction::Session(Type::Marked),
        MenuAction::Session(Type::Weak),
        MenuAction::RestartTutorial,
        MenuAction::Exit,
    ]
}

impl App {
    /// The application at start: the main menu, its first entry selected,
    /// no session, no error, no tutorial.
    pub fn new() -> (r: App)
        ensures
            r.current_screen == Screen::Menu,
            r.menu_items@ == main_menu(),
            r.selected == 0,
            !r.should_quit,
            r.session is None,
            r.error is None,
            r.tutorial_state is None,
    {
        App {
            current_screen: Screen::Menu,
            menu_items: vec![
                MenuAction::Session(Type::Group),
                MenuAction::Session(Type::Marked),
                MenuAction::Session(Type::Weak),
                MenuAction::RestartTutorial,
                MenuAction::Exit,
            ],
            selected: 0,
            should_quit: false,
            session: None,
            error: None,
            tutorial_state: None,
        }
    }

    /// The application as `new` builds it, for exercising handlers.
    pub fn new_test() -> (r: App)
        ensures
            r.current_screen == Screen::Menu,
            r.menu_items@ == main_menu(),
            r.selected == 0,
            !r.should_quit,
            r.session is None,
            r.error is None,
            r.tutorial_state is None,
    {
        App::new()
    }

    /// Moves the selection one entry down, wrapping to the first.
    pub fn next(&mut self)
        requires
            old(self).menu_items.len() > 0,
        ensures
            final(self).selected == (old(self).selected + 1) % (old(self).menu_items.len() as int),
            *final(self) == (App { selected: final(self).selected, ..*old(self) }),
    {
        let len = self.menu_items.len();
        let ghost s = self.selected as int;
        let ghost n = len as int;
        proof {
            lemma_add_mod_noop_right(1, s, n);
            lemma_mod_bound(s, n);
        }
        self.selected = (self.selected % len + 1) % len;
    }

    /// Moves the selection one entry up, wrapping to the last.
    pub fn previous(&mut self)
        requires
            old(self).menu_items.len() > 0,
        ensures
            final(self).selected == if old(self).selected == 0 {
                old(self).menu_items.len() - 1
            } else {
                old(self).selected - 1
            },
            *final(self) == (App { selected: final(self).selected, ..*old(self) }),
    {
        if self.selected == 0 {
            self.selected = self.menu_items.len() - 1;
        } else {
            self.selected -= 1;
        }
    }

    /// Acts on the selected entry; only Exit acts here, by asking to quit.
    pub fn select(&mut self)
        requires
            old(self).selected < old(self).menu_items.len(),
        ensures
            final(self).should_quit == (old(self).should_quit
                || old(self).menu_items@[old(self).selected as int] == MenuAction::Exit),
            *final(self) == (App { should_quit: final(self).should_quit, ..*old(self) }),
    {
        match self.menu_items[self.selected] {
            MenuAction::Exit => self.should_quit = true,
            _ => {},
        }
    }
}

} // verus!
