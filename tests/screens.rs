use vocabulator::logic::keys::{KeyCode, KeyEvent, KeyModifiers};
use vocabulator::logic::session::{Session, Type, Word};
use vocabulator::logic::tutorial::{init_tutorial, TUTORIAL_STEP_COUNT};
use vocabulator::ui::app::{App, MenuAction, Screen, Sound};
use vocabulator::ui::screens::menu::{self, open_session, restart_tutorial, MenuCommand, SessionProblem};
use vocabulator::ui::screens::tutorial::{auto_advance, handle_event};
use vocabulator::ui::screens::{practice, tutorial_prompt};

fn press(code: KeyCode) -> KeyEvent {
    KeyEvent::new(code, KeyModifiers::empty())
}

#[test]
fn test_navigation_wraps_forward() {
    let mut app = App::new();
    app.selected = app.menu_items.len() - 1;
    app.next();
    assert_eq!(app.selected, 0);
}

#[test]
fn test_navigation_wraps_backward() {
    let mut app = App::new();
    app.selected = 0;
    app.previous();
    assert_eq!(app.selected, app.menu_items.len() - 1);
}

#[test]
fn test_exit_sets_flag() {
    let mut app = App::new();
    app.selected = app.menu_items.iter().position(|x| *x == MenuAction::Exit).unwrap();
    app.select();
    assert!(app.should_quit);
}

#[test]
fn test_restart_tutorial_option_exists() {
    let app = App::new();
    let has_restart = app.menu_items.iter().any(|x| *x == MenuAction::RestartTutorial);
    assert!(has_restart, "Menu should contain RestartTutorial option");
}

#[test]
fn test_restart_tutorial_label() {
    let action = MenuAction::RestartTutorial;
    assert_eq!(action.label(), "Restart Tutorial");
}

#[test]
fn test_restart_tutorial_resets_completion_flag() {
    let mut app = App::new();
    app.selected = app.menu_items.iter().position(|x| *x == MenuAction::RestartTutorial).unwrap();

    let out = menu::handle_event(&mut app, press(KeyCode::Enter));

    // the stored flag is cleared by the caller on this command
    assert_eq!(out.command, MenuCommand::RestartTutorial);
}

#[test]
fn test_restart_tutorial_transitions_to_tutorial_screen() {
    let mut app = App::new();
    app.current_screen = Screen::Menu;
    app.selected = app.menu_items.iter().position(|x| *x == MenuAction::RestartTutorial).unwrap();

    let out = menu::handle_event(&mut app, press(KeyCode::Enter));
    assert_eq!(out.command, MenuCommand::RestartTutorial);
    restart_tutorial(&mut app);

    assert_eq!(app.current_screen, Screen::Tutorial);
}

#[test]
fn test_restart_tutorial_initializes_tutorial_state() {
    let mut app = App::new();
    app.tutorial_state = None;
    app.selected = app.menu_items.iter().position(|x| *x == MenuAction::RestartTutorial).unwrap();

    let out = menu::handle_event(&mut app, press(KeyCode::Enter));
    assert_eq!(out.command, MenuCommand::RestartTutorial);
    restart_tutorial(&mut app);

    assert!(app.tutorial_state.is_some());
    let state = app.tutorial_state.unwrap();
    assert_eq!(state.current_step, 0);
}

#[test]
fn test_restart_tutorial_creates_sample_session() {
    let mut app = App::new();
    app.selected = app.menu_items.iter().position(|x| *x == MenuAction::RestartTutorial).unwrap();

    let out = menu::handle_event(&mut app, press(KeyCode::Enter));
    assert_eq!(out.command, MenuCommand::RestartTutorial);
    restart_tutorial(&mut app);

    assert!(app.tutorial_state.is_some());
    let state = app.tutorial_state.unwrap();
    assert!(state.sample_session.is_some());
}

#[test]
fn test_handle_event_no_tutorial_state_returns_to_menu() {
    let mut app = App::new_test();
    app.current_screen = Screen::Tutorial;
    app.tutorial_state = None;

    handle_event(&mut app, press(KeyCode::Enter));

    assert_eq!(app.current_screen, Screen::Menu);
}

#[test]
fn test_handle_event_q_key_requests_exit() {
    let mut app = App::new_test();
    app.current_screen = Screen::Tutorial;
    app.tutorial_state = Some(init_tutorial());

    handle_event(&mut app, press(KeyCode::Char('q')));

    assert!(app.tutorial_state.as_ref().unwrap().exit_requested);
    assert_eq!(app.current_screen, Screen::Tutorial);
}

#[test]
fn test_handle_event_escape_key_requests_exit() {
    let mut app = App::new_test();
    app.current_screen = Screen::Tutorial;
    app.tutorial_state = Some(init_tutorial());

    handle_event(&mut app, press(KeyCode::Esc));

    assert!(app.tutorial_state.as_ref().unwrap().exit_requested);
    assert_eq!(app.current_screen, Screen::Tutorial);
}

#[test]
fn test_handle_event_confirm_exit_with_y() {
    let mut app = App::new_test();
    app.current_screen = Screen::Tutorial;
    let mut state = init_tutorial();
    state.exit_requested = true;
    app.tutorial_state = Some(state);

    handle_event(&mut app, press(KeyCode::Char('y')));

    assert!(app.tutorial_state.is_none());
    assert_eq!(app.current_screen, Screen::Menu);
}

#[test]
fn test_handle_event_confirm_exit_with_uppercase_y() {
    let mut app = App::new_test();
    app.current_screen = Screen::Tutorial;
    let mut state = init_tutorial();
    state.exit_requested = true;
    app.tutorial_state = Some(state);

    handle_event(&mut app, press(KeyCode::Char('Y')));

    assert!(app.tutorial_state.is_none());
    assert_eq!(app.current_screen, Screen::Menu);
}

#[test]
fn test_handle_event_cancel_exit_with_n() {
    let mut app = App::new_test();
    app.current_screen = Screen::Tutorial;
    let mut state = init_tutorial();
    state.exit_requested = true;
    app.tutorial_state = Some(state);

    handle_event(&mut app, press(KeyCode::Char('n')));

    assert!(app.tutorial_state.is_some());
    assert!(!app.tutorial_state.as_ref().unwrap().exit_requested);
    assert_eq!(app.current_screen, Screen::Tutorial);
}

#[test]
fn test_handle_event_cancel_exit_with_uppercase_n() {
    let mut app = App::new_test();
    app.current_screen = Screen::Tutorial;
    let mut state = init_tutorial();
    state.exit_requested = true;
    app.tutorial_state = Some(state);

    handle_event(&mut app, press(KeyCode::Char('N')));

    assert!(app.tutorial_state.is_some());
    assert!(!app.tutorial_state.as_ref().unwrap().exit_requested);
    assert_eq!(app.current_screen, Screen::Tutorial);
}

#[test]
fn test_handle_event_cancel_exit_with_escape() {
    let mut app = App::new_test();
    app.current_screen = Screen::Tutorial;
    let mut state = init_tutorial();
    state.exit_requested = true;
    app.tutorial_state = Some(state);

    handle_event(&mut app, press(KeyCode::Esc));

    assert!(app.tutorial_state.is_some());
    assert!(!app.tutorial_state.as_ref().unwrap().exit_requested);
    assert_eq!(app.current_screen, Screen::Tutorial);
}

#[test]
fn test_handle_event_ignore_other_keys_during_exit_confirmation() {
    let mut app = App::new_test();
    app.current_screen = Screen::Tutorial;
    let mut state = init_tutorial();
    state.exit_requested = true;
    let initial_step = state.current_step;
    app.tutorial_state = Some(state);

    handle_event(&mut app, press(KeyCode::Char('x')));

    assert!(app.tutorial_state.is_some());
    assert!(app.tutorial_state.as_ref().unwrap().exit_requested);
    assert_eq!(app.tutorial_state.as_ref().unwrap().current_step, initial_step);
    assert_eq!(app.current_screen, Screen::Tutorial);
}

#[test]
fn test_handle_event_valid_action_advances_step() {
    let mut app = App::new_test();
    app.current_screen = Screen::Tutorial;
    app.tutorial_state = Some(init_tutorial());

    handle_event(&mut app, press(KeyCode::Enter));

    assert_eq!(app.tutorial_state.as_ref().unwrap().current_step, 1);
    assert!(app.error.is_none());
    assert_eq!(app.current_screen, Screen::Tutorial);
}

#[test]
fn test_handle_event_invalid_action_shows_hint() {
    let mut app = App::new_test();
    app.current_screen = Screen::Tutorial;
    app.tutorial_state = Some(init_tutorial());

    handle_event(&mut app, press(KeyCode::Char('x')));

    assert_eq!(app.tutorial_state.as_ref().unwrap().current_step, 0);
    assert!(app.error.is_some());
    assert_eq!(app.current_screen, Screen::Tutorial);
}

#[test]
fn test_handle_event_completion_marks_tutorial_and_returns_to_menu() {
    let mut app = App::new_test();
    app.current_screen = Screen::Tutorial;
    let mut state = init_tutorial();
    state.current_step = state.total_steps - 1;
    app.tutorial_state = Some(state);

    let out = handle_event(&mut app, press(KeyCode::Enter));

    assert_eq!(app.current_screen, Screen::Tutorial);
    assert!(app.tutorial_state.is_some());
    assert!(app.tutorial_state.as_ref().unwrap().exit_requested);
    assert!(app.tutorial_state.as_ref().unwrap().completed_actions.contains(&"SHOW_CONGRATS".to_string()));

    let later = handle_event(&mut app, press(KeyCode::Enter));

    assert_eq!(app.current_screen, Screen::Menu);
    assert!(app.tutorial_state.is_none());

    // the completion flag is persisted by the caller on this request
    assert!(out.mark_completed);
    assert!(!later.mark_completed);
}

#[test]
fn test_handle_event_exit_without_completion_does_not_mark_completed() {
    let mut app = App::new_test();
    app.current_screen = Screen::Tutorial;
    app.tutorial_state = Some(init_tutorial());

    let first = handle_event(&mut app, press(KeyCode::Char('q')));
    let second = handle_event(&mut app, press(KeyCode::Char('y')));

    assert_eq!(app.current_screen, Screen::Menu);
    assert!(app.tutorial_state.is_none());

    assert!(!first.mark_completed && !second.mark_completed);
}

#[test]
fn test_handle_event_m_key_toggles_bookmark_during_practice_steps() {
    let mut app = App::new_test();
    app.current_screen = Screen::Tutorial;
    let mut state = init_tutorial();
    state.current_step = 7;
    app.tutorial_state = Some(state);

    assert!(!app.tutorial_state.as_ref().unwrap().sample_session.as_ref().unwrap().words[0].marked);

    handle_event(&mut app, press(KeyCode::Char('m')));
    assert!(app.tutorial_state.as_ref().unwrap().sample_session.as_ref().unwrap().words[0].marked);

    handle_event(&mut app, press(KeyCode::Char('m')));
    assert!(!app.tutorial_state.as_ref().unwrap().sample_session.as_ref().unwrap().words[0].marked);
}

#[test]
fn test_handle_event_enter_advances_word_index_during_practice_steps() {
    let mut app = App::new_test();
    app.current_screen = Screen::Tutorial;
    let mut state = init_tutorial();
    state.current_step = 10;
    app.tutorial_state = Some(state);

    assert_eq!(app.tutorial_state.as_ref().unwrap().sample_session.as_ref().unwrap().index, 0);

    handle_event(&mut app, press(KeyCode::Enter));

    assert_eq!(app.tutorial_state.as_ref().unwrap().sample_session.as_ref().unwrap().index, 1);
}

#[test]
fn test_navigate_down_wraps() {
    let mut app = App::new_test();
    app.current_screen = Screen::TutorialPrompt;
    app.selected = 0;
    tutorial_prompt::handle_event(&mut app, press(KeyCode::Down));
    assert_eq!(app.selected, 1);
}

#[test]
fn test_navigate_down_with_j() {
    let mut app = App::new_test();
    app.current_screen = Screen::TutorialPrompt;
    app.selected = 0;
    tutorial_prompt::handle_event(&mut app, press(KeyCode::Char('j')));
    assert_eq!(app.selected, 1);
}

#[test]
fn test_navigate_down_wraps_to_zero() {
    let mut app = App::new_test();
    app.current_screen = Screen::TutorialPrompt;
    app.selected = 1;
    tutorial_prompt::handle_event(&mut app, press(KeyCode::Down));
    assert_eq!(app.selected, 0);
}

#[test]
fn test_navigate_up_wraps() {
    let mut app = App::new_test();
    app.current_screen = Screen::TutorialPrompt;
    app.selected = 1;
    tutorial_prompt::handle_event(&mut app, press(KeyCode::Up));
    assert_eq!(app.selected, 0);
}

#[test]
fn test_navigate_up_with_k() {
    let mut app = App::new_test();
    app.current_screen = Screen::TutorialPrompt;
    app.selected = 1;
    tutorial_prompt::handle_event(&mut app, press(KeyCode::Char('k')));
    assert_eq!(app.selected, 0);
}

#[test]
fn test_navigate_up_wraps_to_one() {
    let mut app = App::new_test();
    app.current_screen = Screen::TutorialPrompt;
    app.selected = 0;
    tutorial_prompt::handle_event(&mut app, press(KeyCode::Up));
    assert_eq!(app.selected, 1);
}

#[test]
fn test_select_start_tutorial() {
    let mut app = App::new_test();
    app.current_screen = Screen::TutorialPrompt;
    app.selected = 0;
    tutorial_prompt::handle_event(&mut app, press(KeyCode::Enter));
    assert_eq!(app.current_screen, Screen::Tutorial);
    assert!(app.tutorial_state.is_some());
}

#[test]
fn test_select_skip_to_menu() {
    let mut app = App::new_test();
    app.current_screen = Screen::TutorialPrompt;
    app.selected = 1;
    tutorial_prompt::handle_event(&mut app, press(KeyCode::Enter));
    assert_eq!(app.current_screen, Screen::Menu);
    assert!(app.tutorial_state.is_none());
}

#[test]
fn test_ignore_other_keys() {
    let mut app = App::new_test();
    app.current_screen = Screen::TutorialPrompt;
    app.selected = 0;
    tutorial_prompt::handle_event(&mut app, press(KeyCode::Char('x')));
    assert_eq!(app.selected, 0);
    assert_eq!(app.current_screen, Screen::TutorialPrompt);
}

// ---- further cases of the screens ----

fn tutorial_app(step: usize) -> App {
    let mut app = App::new();
    app.current_screen = Screen::Tutorial;
    let mut state = init_tutorial();
    state.current_step = step;
    app.tutorial_state = Some(state);
    app
}

#[test]
fn quit_keeps_step_then_n_resumes_and_y_discards() {
    for step in 0..TUTORIAL_STEP_COUNT {
        let mut app = tutorial_app(step);
        handle_event(&mut app, press(KeyCode::Char('q')));
        assert!(app.tutorial_state.as_ref().unwrap().exit_requested);
        assert_eq!(app.tutorial_state.as_ref().unwrap().current_step, step);
        handle_event(&mut app, press(KeyCode::Char('n')));
        assert!(!app.tutorial_state.as_ref().unwrap().exit_requested);
        assert_eq!(app.tutorial_state.as_ref().unwrap().current_step, step);
        handle_event(&mut app, press(KeyCode::Esc));
        handle_event(&mut app, press(KeyCode::Char('y')));
        assert!(app.tutorial_state.is_none());
    }
}

#[test]
fn any_key_skips_the_preview_step() {
    let mut app = tutorial_app(4);
    app.error = Some("old".to_string());
    let out = handle_event(&mut app, press(KeyCode::Char('z')));
    assert_eq!(app.tutorial_state.as_ref().unwrap().current_step, 5);
    assert!(app.error.is_none());
    assert_eq!(out.sound, None);
}

#[test]
fn bookmark_key_marks_and_completes_the_bookmark_step() {
    let mut app = tutorial_app(7);
    let out = handle_event(&mut app, press(KeyCode::Char('m')));
    let state = app.tutorial_state.as_ref().unwrap();
    assert!(state.sample_session.as_ref().unwrap().words[0].marked);
    assert_eq!(state.current_step, 8);
    assert_eq!(out.sound, Some(Sound::Mark));
    handle_event(&mut app, press(KeyCode::Char('m')));
    let state = app.tutorial_state.as_ref().unwrap();
    assert!(!state.sample_session.as_ref().unwrap().words[0].marked);
    assert_eq!(state.current_step, 9);
}

#[test]
fn grading_keys_grade_the_sample_word_and_advance() {
    let mut app = tutorial_app(6);
    let out = handle_event(&mut app, press(KeyCode::Char('n')));
    let state = app.tutorial_state.as_ref().unwrap();
    assert_eq!(state.sample_session.as_ref().unwrap().graded, Some(false));
    assert_eq!(state.current_step, 7);
    assert_eq!(out.sound, Some(Sound::Wrong));
}

#[test]
fn show_key_reveals_the_definition() {
    let mut app = tutorial_app(5);
    handle_event(&mut app, press(KeyCode::Char('s')));
    let state = app.tutorial_state.as_ref().unwrap();
    assert!(state.sample_session.as_ref().unwrap().show_definition);
    assert_eq!(state.current_step, 6);
}

#[test]
fn enter_stops_at_the_last_sample_word() {
    let mut app = tutorial_app(11);
    for _ in 0..10 {
        handle_event(&mut app, press(KeyCode::Enter));
    }
    let state = app.tutorial_state.as_ref().unwrap();
    assert_eq!(state.sample_session.as_ref().unwrap().index, 4);
}

#[test]
fn menu_preview_steps_move_the_selection() {
    let mut app = tutorial_app(1);
    handle_event(&mut app, press(KeyCode::Down));
    assert_eq!(app.selected, 1);
    assert_eq!(app.tutorial_state.as_ref().unwrap().current_step, 2);
    handle_event(&mut app, press(KeyCode::Char('k')));
    assert_eq!(app.selected, 0);
    assert_eq!(app.tutorial_state.as_ref().unwrap().current_step, 3);
    handle_event(&mut app, press(KeyCode::Up));
    assert_eq!(app.selected, app.menu_items.len() - 1);
    handle_event(&mut app, press(KeyCode::Enter));
    assert_eq!(app.tutorial_state.as_ref().unwrap().current_step, 3);
    assert!(app.error.is_some());
}

#[test]
fn auto_advance_does_nothing_off_the_preview_step() {
    let mut app = tutorial_app(3);
    assert!(!auto_advance(&mut app));
    assert_eq!(app.tutorial_state.as_ref().unwrap().current_step, 3);
    let mut app = tutorial_app(4);
    assert!(!auto_advance(&mut app));
    app.current_screen = Screen::Menu;
    assert!(!auto_advance(&mut app));
}

#[test]
fn menu_keys_navigate_quit_and_start_sessions() {
    let mut app = App::new();
    app.error = Some("stale".to_string());
    let out = menu::handle_event(&mut app, press(KeyCode::Char('j')));
    assert_eq!(app.selected, 1);
    assert!(app.error.is_none());
    assert_eq!(out.sound, Some(Sound::Menu));
    let out = menu::handle_event(&mut app, press(KeyCode::Enter));
    assert_eq!(out.command, MenuCommand::StartSession(Type::Marked));
    let out = menu::handle_event(&mut app, press(KeyCode::Char('x')));
    assert_eq!(out.command, MenuCommand::Stay);
    menu::handle_event(&mut app, press(KeyCode::Char('q')));
    assert!(app.should_quit);
}

#[test]
fn menu_labels() {
    assert_eq!(MenuAction::Session(Type::Group).label(), "Continue Learning");
    assert_eq!(MenuAction::Session(Type::Weak).label(), "Revise Weak");
    assert_eq!(MenuAction::Exit.label(), "Exit");
    assert_eq!(Type::Custom.label(), "Custom Query");
}

fn word(id: i32) -> Word {
    Word {
        id,
        word: "w".to_string(),
        definition: "d".to_string(),
        group_id: 1,
        marked: false,
        last_seen: None,
        times_seen: 0,
        success_count: 0,
    }
}

#[test]
fn open_session_checks_the_position() {
    let mut app = App::new();
    let r = open_session(&mut app, Session::new(vec![], 0, Type::Group), Screen::Practice);
    assert_eq!(r, Err(SessionProblem::EmptyWordList));
    assert!(app.session.is_none());
    let r = open_session(&mut app, Session::new(vec![word(1)], 3, Type::Group), Screen::Practice);
    assert_eq!(r, Err(SessionProblem::IndexOutOfBounds { index: 3, len: 1 }));
    let r = open_session(&mut app, Session::new(vec![word(1), word(2)], 1, Type::Group), Screen::Test);
    assert_eq!(r, Ok(()));
    assert_eq!(app.current_screen, Screen::Test);
    assert_eq!(app.session.as_ref().unwrap().current().id, 2);
}

#[test]
fn test_and_practice_screens_leave_on_quit() {
    let mut app = App::new();
    app.current_screen = Screen::Test;
    vocabulator::ui::screens::test::handle_event(&mut app, press(KeyCode::Char('a')));
    assert_eq!(app.current_screen, Screen::Test);
    vocabulator::ui::screens::test::handle_event(&mut app, press(KeyCode::Esc));
    assert_eq!(app.current_screen, Screen::Menu);
    app.current_screen = Screen::Practice;
    practice::handle_event(&mut app, press(KeyCode::Char('q')));
    assert_eq!(app.current_screen, Screen::Menu);
}
