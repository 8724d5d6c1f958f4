use vstd::prelude::*;
use crate::logic::keys::{KeyCode, KeyEvent};
use crate::logic::session::{Session, Word};
use crate::logic::tutorial::{
    accepts, advanced, catalog_step, hint_text, is_finished, validate_and_advance,
    should_auto_advance, TutorialState, ValidationResult, PREVIEW_STEP,
    TUTORIAL_STEP_COUNT,
};
use crate::ui::app::{App, Screen, Sound};

verus! {

/// What the surrounding program must do after a key press on the tutorial screen.
#[derive(Debug, Clone, Copy, PartialEq, Eq, Structural)]
pub struct TutorialOutcome {
    /// A sound cue to play, if any.
    pub sound: Option<Sound>,
    /// The tutorial was just completed: persist the completion flag.
    pub mark_completed: bool,
}

/// The entry logged when the completion dialog is shown.
pub open spec fn congrats_marker() -> Seq<char> {
    "SHOW_CONGRATS"@
}

/// The pending dialog is the completion dialog rather than the exit confirmation.
pub open spec fn shows_congratulations(s: TutorialState) -> bool {
    exists|i: int| 0 <= i < s.completed_actions.len() && (#[trigger] s.completed_actions@[i])@ == congrats_marker()
}

/// Steps during which the practice keys act on the sample session.
pub open spec fn is_practice_step(step: usize) -> bool {
    (5 <= step <= 8) || (10 <= step <= 12)
}

/// Steps during which the navigation keys move the menu selection.
pub open spec fn is_menu_preview_step(step: usize) -> bool {
    1 <= step <= 3
}

/// The menu selection after a navigation key, wrapping at both ends.
pub open spec fn navigated(selected: usize, len: usize, code: KeyCode) -> usize {
    if len == 0 {
        selected
    } else if code == KeyCode::Down || code == KeyCode::Char('j') {
        if selected < len - 1 {
            (selected + 1) as usize
        } else {
            0
        }
    } else if code == KeyCode::Up || code == KeyCode::Char('k') {
        if selected > 0 {
            (selected - 1) as usize
        } else {
            (len - 1) as usize
        }
    } else {
        selected
    }
}

/// The word with its bookmark flipped.
pub open spec fn toggled(w: Word) -> Word {
    Word { marked: !w.marked, ..w }
}

/// What a practice key does to the sample session: `m` flips the current
/// word's bookmark, `s` reveals the definition, `y` and `n` grade, and Enter
/// moves to the next word (unless at the last) with nothing revealed or graded.
pub open spec fn practice_key_effect(pre: Session, post: Session, code: KeyCode) -> bool {
    if code == KeyCode::Char('m') {
        if pre.index < pre.words.len() {
            &&& post.words@ == pre.words@.update(pre.index as int, toggled(pre.words@[pre.index as int]))
            &&& post == (Session { words: post.words, ..pre })
        } else {
            post == pre
        }
    } else if code == KeyCode::Char('s') {
        post == (Session { show_definition: true, ..pre })
    } else if code == KeyCode::Char('y') {
        post == (Session { graded: Some(true), ..pre })
    } else if code == KeyCode::Char('n') {
        post == (Session { graded: Some(false), ..pre })
    } else if code == KeyCode::Enter {
        if pre.words.len() > 0 && pre.index < pre.words.len() - 1 {
            post == (Session { index: (pre.index + 1) as usize, show_definition: false, graded: None, ..pre })
        } else {
            post == pre
        }
    } else {
        post == pre
    }
}

/// The practice key applied to the tutorial's sample session, if it has one.
pub open spec fn practice_state_effect(pre: TutorialState, post: TutorialState, code: KeyCode) -> bool {
    match pre.sample_session {
        Some(s) => {
            &&& post.sample_session matches Some(t) && practice_key_effect(s, t, code)
            &&& post == (TutorialState { sample_session: post.sample_session, ..pre })
        },
        None => post == pre,
    }
}

/// The sound cue of a practice key.
pub open spec fn practice_sound(pre: TutorialState, code: KeyCode) -> Option<Sound> {
    match pre.sample_session {
        Some(s) => if code == KeyCode::Char('m') && s.index < s.words.len() {
            Some(Sound::Mark)
        } else if code == KeyCode::Char('y') {
            Some(Sound::Correct)
        } else if code == KeyCode::Char('n') {
            Some(Sound::Wrong)
        } else {
            None
        },
        None => None,
    }
}

/// `post` shows the completion dialog over `mid`: the dialog flag is set and
/// the completion marker is appended to the action log.
pub open spec fn completion_shown(mid: TutorialState, post: TutorialState) -> bool {
    &&& post.exit_requested
    &&& post.completed_actions@.len() == mid.completed_actions@.len() + 1
    &&& post.completed_actions@.drop_last() == mid.completed_actions@
    &&& post.completed_actions@.last()@ == congrats_marker()
    &&& post.current_step == mid.current_step
    &&& post.total_steps == mid.total_steps
    &&& post.sample_session == mid.sample_session
    &&& post.step_entered_at == mid.step_entered_at
}

/// The exit-confirmation dialog (or the completion dialog) is pending in `ts`:
/// the completion dialog, and `y`/`Y` in the confirmation, end the tutorial
/// and return to the menu; `n`/`N`/Escape dismiss the confirmation; any other
/// key changes nothing.
pub open spec fn dialog_outcome(pre: App, ts: TutorialState, key: KeyEvent, post: App) -> bool {
    if shows_congratulations(ts) || key.code == KeyCode::Char('y') || key.code == KeyCode::Char('Y') {
        post == (App { current_screen: Screen::Menu, tutorial_state: None, ..pre })
    } else if key.code == KeyCode::Char('n') || key.code == KeyCode::Char('N') || key.code == KeyCode::Esc {
        post == (App { tutorial_state: Some(TutorialState { exit_requested: false, ..ts }), ..pre })
    } else {
        post == pre
    }
}

/// A key press that reaches the step check: navigation and practice keys act
/// first, then the current step is checked against the key.
pub open spec fn step_outcome(pre: App, ts: TutorialState, key: KeyEvent, post: App, out: TutorialOutcome) -> bool {
    let cs = ts.current_step;
    let selected = if is_menu_preview_step(cs) {
        navigated(pre.selected, pre.menu_items.len(), key.code)
    } else {
        pre.selected
    };
    let post_ts = post.tutorial_state->Some_0;
    // the tutorial state after the practice key, before the step check
    let mid = TutorialState { sample_session: post_ts.sample_session, ..ts };
    &&& post.tutorial_state is Some
    &&& post == (App { selected, error: post.error, tutorial_state: post.tutorial_state, ..pre })
    &&& if is_practice_step(cs) {
        &&& practice_state_effect(ts, mid, key.code)
        &&& out.sound == practice_sound(ts, key.code)
    } else {
        &&& mid == ts
        &&& out.sound is None
    }
    &&& if is_finished(mid) {
        &&& completion_shown(mid, post_ts)
        &&& out.mark_completed
        &&& post.error == pre.error
    } else if accepts(mid, selected, key) {
        if cs + 1 == TUTORIAL_STEP_COUNT {
            let moved = TutorialState {
                exit_requested: mid.exit_requested,
                completed_actions: mid.completed_actions,
                ..post_ts
            };
            &&& advanced(mid, moved)
            &&& completion_shown(moved, post_ts)
            &&& out.mark_completed
            &&& post.error == pre.error
        } else {
            &&& advanced(mid, post_ts)
            &&& !out.mark_completed
            &&& post.error is None
        }
    } else {
        &&& post_ts == mid
        &&& !out.mark_completed
        &&& post.error matches Some(h) && h@ == hint_text(catalog_step(cs as int))
    }
}

/// What a key press on the tutorial screen does to the application.
pub open spec fn routed(pre: App, key: KeyEvent, post: App, out: TutorialOutcome) -> bool {
    match pre.tutorial_state {
        None => {
            &&& post == (App { current_screen: Screen::Menu, ..pre })
            &&& out == TutorialOutcome { sound: None, mark_completed: false }
        },
        Some(ts) => if ts.exit_requested {
            &&& dialog_outcome(pre, ts, key, post)
            &&& out == TutorialOutcome { sound: None, mark_completed: false }
        } else if key.code == KeyCode::Char('q') || key.code == KeyCode::Esc {
            &&& post == (App { tutorial_state: Some(TutorialState { exit_requested: true, ..ts }), ..pre })
            &&& out == TutorialOutcome { sound: None, mark_completed: false }
        } else if ts.current_step == PREVIEW_STEP {
            &&& post.tutorial_state matches Some(t) && t == (TutorialState {
                current_step: (PREVIEW_STEP + 1) as usize,
                step_entered_at: t.step_entered_at,
                ..ts
            }) && t.step_entered_at is Some
            &&& post == (App { error: None, tutorial_state: post.tutorial_state, ..pre })
            &&& out == TutorialOutcome { sound: None, mark_completed: false }
        } else {
            step_outcome(pre, ts, key, post, out)
        },
    }
}

fn quiet() -> (r: TutorialOutcome)
    ensures
        r == (TutorialOutcome { sound: None, mark_completed: false }),
{
    TutorialOutcome { sound: None, mark_completed: false }
}

/// Whether the pending dialog of `state` is the completion dialog.
pub fn showing_congratulations(state: &TutorialState) -> (r: bool)
    ensures
        r == shows_congratulations(*state),
{
    has_congrats_marker(&state.completed_actions)
}

/// Whether the practice keys act on the sample session during `step`.
pub fn practice_step(step: usize) -> (r: bool)
    ensures
        r == is_practice_step(step),
{
    (5 <= step && step <= 8) || (10 <= step && step <= 12)
}

fn has_congrats_marker(actions: &Vec<String>) -> (r: bool)
    ensures
        r == exists|i: int| 0 <= i < actions.len() && (#[trigger] actions@[i])@ == congrats_marker(),
{
    let marker = "SHOW_CONGRATS".to_owned();
    let mut i: usize = 0;
    while i < actions.len()
        invariant
            i <= actions.len(),
            marker@ == congrats_marker(),
            forall|k: int| 0 <= k < i ==> (#[trigger] actions@[k])@ != congrats_marker(),
        decreases actions.len() - i,
    {
        if actions[i] == marker {
            return true;
        }
        i += 1;
    }
    false
}

fn navigate_menu(app: &mut App, code: KeyCode)
    ensures
        *final(app) == (App { selected: navigated(old(app).selected, old(app).menu_items.len(), code), ..*old(app) }),
{
    let len = app.menu_items.len();
    if len == 0 {
        return;
    }
    match code {
        KeyCode::Down | KeyCode::Char('j') => {
            if app.selected < len - 1 {
                app.selected += 1;
            } else {
                app.selected = 0;
            }
        },
        KeyCode::Up | KeyCode::Char('k') => {
            if app.selected > 0 {
                app.selected -= 1;
            } else {
                app.selected = len - 1;
            }
        },
        _ => {},
    }
}

fn practice_on_session(session: &mut Session, code: KeyCode)
    ensures
        practice_key_effect(*old(session), *final(session), code),
{
    match code {
        KeyCode::Char('m') => {
            if session.index < session.words.len() {
                let word = session.current_mut();
                word.marked = !word.marked;
            }
        },
        KeyCode::Char('s') => {
            session.show_definition = true;
        },
        KeyCode::Char('y') => {
            session.graded = Some(true);
        },
        KeyCode::Char('n') => {
            session.graded = Some(false);
        },
        KeyCode::Enter => {
            if session.words.len() > 0 && session.index < session.words.len() - 1 {
                session.index += 1;
                session.show_definition = false;
                session.graded = None;
            }
        },
        _ => {},
    }
}

fn forward_practice_key(state: &mut TutorialState, code: KeyCode) -> (sound: Option<Sound>)
    ensures
        practice_state_effect(*old(state), *final(state), code),
        sound == practice_sound(*old(state), code),
{
    let taken = state.sample_session.take();
    match taken {
        Some(mut session) => {
            let sound = match code {
                KeyCode::Char('m') => if session.index < session.words.len() {
                    Some(Sound::Mark)
                } else {
                    None
                },
                KeyCode::Char('y') => Some(Sound::Correct),
                KeyCode::Char('n') => Some(Sound::Wrong),
                _ => None,
            };
            practice_on_session(&mut session, code);
            state.sample_session = Some(session);
            sound
        },
        None => None,
    }
}

/// Handles a key press on the tutorial screen: the exit-confirmation and
/// completion dialogs, the exit request, the preview step's skip, navigation
/// and practice keys, and finally the check of the current step. Returns what
/// the surrounding program must do: play a sound, persist completion.
pub fn handle_event(app: &mut App, key: KeyEvent) -> (out: TutorialOutcome)
    ensures
        routed(*old(app), key, *final(app), out),
{
    let taken = app.tutorial_state.take();
    let mut state = match taken {
        Some(s) => s,
        None => {
            app.current_screen = Screen::Menu;
            return quiet();
        },
    };
    if state.exit_requested {
        if has_congrats_marker(&state.completed_actions) {
            app.current_screen = Screen::Menu;
            return quiet();
        }
        match key.code {
            KeyCode::Char('y') | KeyCode::Char('Y') => {
                app.current_screen = Screen::Menu;
            },
            KeyCode::Char('n') | KeyCode::Char('N') | KeyCode::Esc => {
                state.exit_requested = false;
                app.tutorial_state = Some(state);
            },
            _ => {
                app.tutorial_state = Some(state);
            },
        }
        return quiet();
    }
    if key.code == KeyCode::Char('q') || key.code == KeyCode::Esc {
        state.exit_requested = true;
        app.tutorial_state = Some(state);
        return quiet();
    }
    let current_step = state.current_step;
    if current_step == PREVIEW_STEP {
        state.current_step = PREVIEW_STEP + 1;
        state.step_entered_at = Some(std::time::Instant::now());
        app.error = None;
        app.tutorial_state = Some(state);
        return quiet();
    }
    if 1 <= current_step && current_step <= 3 {
        navigate_menu(app, key.code);
    }
    let mut sound: Option<Sound> = None;
    if practice_step(current_step) {
        sound = forward_practice_key(&mut state, key.code);
    }
    let result = validate_and_advance(&mut state, app, key);
    match result {
        ValidationResult::Valid => {
            app.error = None;
            app.tutorial_state = Some(state);
            TutorialOutcome { sound, mark_completed: false }
        },
        ValidationResult::Invalid(hint) => {
            app.error = Some(hint);
            app.tutorial_state = Some(state);
            TutorialOutcome { sound, mark_completed: false }
        },
        ValidationResult::Complete => {
            state.exit_requested = true;
            let ghost logged = state.completed_actions@;
            let marker = "SHOW_CONGRATS".to_owned();
            state.completed_actions.push(marker);
            assert(state.completed_actions@.drop_last() =~= logged);
            app.tutorial_state = Some(state);
            TutorialOutcome { sound, mark_completed: true }
        },
    }
}

/// Called between key presses: while the tutorial screen shows the preview
/// step and it has been shown long enough (read from the clock), moves on to
/// the next step and clears the error line. Returns whether it did.
pub fn auto_advance(app: &mut App) -> (advanced: bool)
    ensures
        advanced ==> {
            &&& old(app).current_screen == Screen::Tutorial
            &&& old(app).tutorial_state matches Some(ts) && ts.current_step == PREVIEW_STEP
            &&& final(app).tutorial_state matches Some(t) && t == (TutorialState {
                current_step: (PREVIEW_STEP + 1) as usize,
                step_entered_at: t.step_entered_at,
                ..old(app).tutorial_state->Some_0
            }) && t.step_entered_at is Some
            &&& *final(app) == (App { error: None, tutorial_state: final(app).tutorial_state, ..*old(app) })
        },
        !advanced ==> *final(app) == *old(app),
{
    if app.current_screen != Screen::Tutorial {
        return false;
    }
    let taken = app.tutorial_state.take();
    match taken {
        Some(mut state) => {
            if should_auto_advance(&state) {
                state.current_step = PREVIEW_STEP + 1;
                state.step_entered_at = Some(std::time::Instant::now());
                app.error = None;
                app.tutorial_state = Some(state);
                true
            } else {
                app.tutorial_state = Some(state);
                false
            }
        },
        None => false,
    }
}

} // verus!
