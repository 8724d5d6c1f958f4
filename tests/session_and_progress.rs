use vocabulator::logic::practice::start_session;
use vocabulator::logic::progress::{progress_to_save, update_word_stats};
use vocabulator::logic::session::{Session, Type, Word};
use vocabulator::logic::utils::{relative_age, relative_time, RelativeAge};
use vocabulator::ui::app::Screen;

fn word(id: i32) -> Word {
    Word {
        id,
        word: format!("w{id}"),
        definition: "d".to_string(),
        group_id: 1,
        marked: false,
        last_seen: None,
        times_seen: 0,
        success_count: 0,
    }
}

#[test]
fn current_and_current_mut_follow_the_index() {
    let mut s = Session::new(vec![word(1), word(2)], 1, Type::Marked);
    assert_eq!(s.current().id, 2);
    s.current_mut().marked = true;
    assert!(s.words[1].marked);
    assert!(!s.words[0].marked);
}

#[test]
fn reset_ui_state_clears_transient_flags() {
    let mut s = Session::new(vec![word(1)], 0, Type::Group);
    s.show_definition = true;
    s.graded = Some(true);
    s.input_buffer = "abc".to_string();
    s.insert_mode = true;
    s.reset_ui_state();
    assert!(!s.show_definition);
    assert_eq!(s.graded, None);
    assert!(s.input_buffer.is_empty());
    assert!(!s.insert_mode);
    assert_eq!(s.words.len(), 1);
}

#[test]
fn practice_session_has_two_fixed_words() {
    let s = start_session();
    assert_eq!(s.words.len(), 2);
    assert_eq!(s.words[0].word, "ephemeral");
    assert_eq!(s.words[1].word, "lucid");
    assert!(s.words[1].marked);
    assert_eq!(s.index, 0);
}

#[test]
fn progress_wraps_past_the_final_group() {
    assert_eq!(progress_to_save((Screen::Practice, 5, 3), Some(4)), (Screen::Practice, 1, 3));
    assert_eq!(progress_to_save((Screen::Test, 4, 2), Some(4)), (Screen::Test, 4, 2));
    assert_eq!(progress_to_save((Screen::Practice, 2, 0), None), (Screen::Practice, 1, 0));
    assert_eq!(progress_to_save((Screen::Practice, 1, 0), None), (Screen::Practice, 1, 0));
}

#[test]
fn word_stats_count_attempts_and_successes() {
    let mut w = word(7);
    update_word_stats(&mut w, 1000, true);
    update_word_stats(&mut w, 2000, false);
    assert_eq!(w.times_seen, 2);
    assert_eq!(w.success_count, 1);
    assert_eq!(w.last_seen, Some(2000));
}

#[test]
fn relative_age_picks_the_unit() {
    assert_eq!(relative_age(None, 100), RelativeAge::Unknown);
    assert_eq!(relative_age(Some(100), 159), RelativeAge::JustNow);
    assert_eq!(relative_age(Some(100), 50), RelativeAge::JustNow);
    assert_eq!(relative_age(Some(0), 60), RelativeAge::Minutes(1));
    assert_eq!(relative_age(Some(0), 3599), RelativeAge::Minutes(59));
    assert_eq!(relative_age(Some(0), 7200), RelativeAge::Hours(2));
    assert_eq!(relative_age(Some(0), 86400 * 3 + 5), RelativeAge::Days(3));
}

#[test]
fn relative_time_of_an_old_instant_is_in_days() {
    assert_eq!(relative_time(None), RelativeAge::Unknown);
    assert!(matches!(relative_time(Some(0)), RelativeAge::Days(d) if d > 10000));
}
