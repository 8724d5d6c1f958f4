use vstd::prelude::*;
use crate::logic::keys::{KeyCode, KeyEvent};
use crate::logic::session::{Session, Type, Word};
use crate::ui::app::App;

verus! {

/// Number of steps in the tutorial catalog.
pub const TUTORIAL_STEP_COUNT: usize = 14;

/// Number of words in the tutorial's sample session.
pub const SAMPLE_WORD_COUNT: usize = 5;

/// Group tag that marks a word as tutorial data rather than real vocabulary.
pub const TUTORIAL_GROUP_ID: i32 = -1;

/// The timed word-preview step, which advances by itself.
pub const PREVIEW_STEP: usize = 4;

/// The self-grading step, which accepts either grading key.
pub const GRADING_STEP: usize = 6;

/// Seconds after which the preview step advances by itself.
pub const AUTO_ADVANCE_SECS: u64 = 10;

/// A predicate over the tutorial state, for steps that no single key completes.
#[derive(Debug, Clone, Copy, PartialEq, Eq, Structural)]
pub enum Condition {
    /// Never holds: the step is advanced by other means.
    Never,
    /// The sample session's current word is bookmarked.
    CurrentMarked,
    /// The sample session's current word is not bookmarked.
    CurrentUnmarked,
    /// The sample session's position is at least this index.
    IndexAtLeast(usize),
}

/// What completes a tutorial step.
#[derive(Debug, Clone, Copy, PartialEq, Eq, Structural)]
pub enum StepValidation {
    /// A key press, or one of its accepted alternatives.
    KeyPress(KeyCode),
    /// The confirm key while the menu selection is at this index.
    MenuSelection(usize),
    /// A condition over the tutorial state.
    StateCondition(Condition),
}

/// The part of the screen a step draws attention to.
#[derive(Debug, Clone, Copy)]
pub enum HighlightTarget {
    /// A menu option, by position.
    MenuOption(usize),
    /// A key-hint label.
    KeyHint(&'static str),
}

/// One step of the tutorial: what to tell the user, and what completes it.
#[derive(Debug, Clone, Copy)]
pub struct TutorialStep {
    pub id: usize,
    pub instruction: &'static str,
    pub hint: Option<&'static str>,
    pub validation: StepValidation,
    pub highlight: Option<HighlightTarget>,
}

/// The state of one tutorial run.
#[derive(Debug)]
pub struct TutorialState {
    /// Index of the current step; equal to the step count once the tutorial is complete.
    pub current_step: usize,
    pub total_steps: usize,
    /// The isolated practice session the tutorial works on.
    pub sample_session: Option<Session>,
    pub completed_actions: Vec<String>,
    pub exit_requested: bool,
    /// When the current step was entered.
    pub step_entered_at: Option<std::time::Instant>,
}

/// Outcome of checking a key press against the current step.
#[derive(Debug)]
pub enum ValidationResult {
    /// The step was completed and the tutorial moved to the next one.
    Valid,
    /// The step was not completed; the hint tells the user what to do.
    Invalid(String),
    /// Every step is done.
    Complete,
}

/// The step at position `i` of the tutorial catalog, for `i` below the step count.
pub open spec fn catalog_step(i: int) -> TutorialStep {
    if i == 0 {
        TutorialStep {
            id: 0,
            instruction: "Welcome to Vocabulator! This tutorial will teach you how to use the app. Press Enter to continue.",
            hint: Some("Press the Enter key to proceed."),
            validation: StepValidation::KeyPress(KeyCode::Enter),
            highlight: None,
        }
    } else if i == 1 {
        TutorialStep {
            id: 1,
            instruction: "Use the Down arrow or 'j' key to move down in the menu. Try it now.",
            hint: Some("Press Down arrow or 'j' to move the selection down."),
            validation: StepValidation::KeyPress(KeyCode::Down),
            highlight: Some(HighlightTarget::MenuOption(1)),
        }
    } else if i == 2 {
        TutorialStep {
            id: 2,
            instruction: "Use the Up arrow or 'k' key to move up. Try moving back up.",
            hint: Some("Press Up arrow or 'k' to move the selection up."),
            validation: StepValidation::KeyPress(KeyCode::Up),
            highlight: Some(HighlightTarget::MenuOption(0)),
        }
    } else if i == 3 {
        TutorialStep {
            id: 3,
            instruction: "Press Enter to select 'Continue Learning' and start a practice session.",
            hint: Some("Make sure 'Continue Learning' is highlighted, then press Enter."),
            validation: StepValidation::MenuSelection(0),
            highlight: Some(HighlightTarget::MenuOption(0)),
        }
    } else if i == 4 {
        TutorialStep {
            id: 4,
            instruction: "You see a vocabulary word. Try to recall its definition before revealing it.",
            hint: Some("This message will auto-advance in 10 seconds, or press any key to continue."),
            validation: StepValidation::StateCondition(Condition::Never),
            highlight: None,
        }
    } else if i == 5 {
        TutorialStep {
            id: 5,
            instruction: "Press 's' to show the definition.",
            hint: Some("Press the 's' key to reveal the definition."),
            validation: StepValidation::KeyPress(KeyCode::Char('s')),
            highlight: Some(HighlightTarget::KeyHint("s")),
        }
    } else if i == 6 {
        TutorialStep {
            id: 6,
            instruction: "Grade yourself honestly. Press 'y' if you knew it, or 'n' if you didn't.",
            hint: Some("Press 'y' for correct or 'n' for incorrect."),
            validation: StepValidation::KeyPress(KeyCode::Char('y')),
            highlight: Some(HighlightTarget::KeyHint("y/n")),
        }
    } else if i == 7 {
        TutorialStep {
            id: 7,
            instruction: "Press 'm' to bookmark this word. Bookmarked words show a star (*).",
            hint: Some("Press the 'm' key to toggle the bookmark."),
            validation: StepValidation::StateCondition(Condition::CurrentMarked),
            highlight: Some(HighlightTarget::KeyHint("m")),
        }
    } else if i == 8 {
        TutorialStep {
            id: 8,
            instruction: "Press 'm' again to remove the bookmark.",
            hint: Some("Press the 'm' key to toggle the bookmark off."),
            validation: StepValidation::StateCondition(Condition::CurrentUnmarked),
            highlight: Some(HighlightTarget::KeyHint("m")),
        }
    } else if i == 9 {
        TutorialStep {
            id: 9,
            instruction: "Bookmarked words can be reviewed later! Use 'Review Marks' from the main menu to practice only your bookmarked words. Press Enter to continue.",
            hint: Some("Press Enter to continue learning about the app."),
            validation: StepValidation::KeyPress(KeyCode::Enter),
            highlight: None,
        }
    } else if i == 10 {
        TutorialStep {
            id: 10,
            instruction: "Press Enter to move to the next word.",
            hint: Some("Press the Enter key to advance to the next word."),
            validation: StepValidation::StateCondition(Condition::IndexAtLeast(1)),
            highlight: Some(HighlightTarget::KeyHint("Enter")),
        }
    } else if i == 11 {
        TutorialStep {
            id: 11,
            instruction: "Practice with a few more words using 's', 'y'/'n', 'm', and Enter as you like.",
            hint: Some("Use the practice controls freely. Advance to at least 2 more words to continue."),
            validation: StepValidation::StateCondition(Condition::IndexAtLeast(2)),
            highlight: None,
        }
    } else if i == 12 {
        TutorialStep {
            id: 12,
            instruction: "Press 'q' or Escape to return to the main menu.",
            hint: Some("Press 'q' or Escape to exit the practice session."),
            validation: StepValidation::KeyPress(KeyCode::Char('q')),
            highlight: Some(HighlightTarget::KeyHint("q")),
        }
    } else {
        TutorialStep {
            id: 13,
            instruction: "Great job! You've learned the basics. There's also a Test mode where you type the word from the definition. Your progress auto-saves. Press Enter to finish.",
            hint: Some("Press Enter to complete the tutorial."),
            validation: StepValidation::KeyPress(KeyCode::Enter),
            highlight: None,
        }
    }
}

/// The catalog entry at `i`: the steps in order, from welcome to completion.
pub fn step_at(i: usize) -> (r: TutorialStep)
    requires
        i < TUTORIAL_STEP_COUNT,
    ensures
        r == catalog_step(i as int),
        r.id == i,
{
    if i == 0 {
        TutorialStep {
            id: 0,
            instruction: "Welcome to Vocabulator! This tutorial will teach you how to use the app. Press Enter to continue.",
            hint: Some("Press the Enter key to proceed."),
            validation: StepValidation::KeyPress(KeyCode::Enter),
            highlight: None,
        }
    } else if i == 1 {
        TutorialStep {
            id: 1,
            instruction: "Use the Down arrow or 'j' key to move down in the menu. Try it now.",
            hint: Some("Press Down arrow or 'j' to move the selection down."),
            validation: StepValidation::KeyPress(KeyCode::Down),
            highlight: Some(HighlightTarget::MenuOption(1)),
        }
    } else if i == 2 {
        TutorialStep {
            id: 2,
            instruction: "Use the Up arrow or 'k' key to move up. Try moving back up.",
            hint: Some("Press Up arrow or 'k' to move the selection up."),
            validation: StepValidation::KeyPress(KeyCode::Up),
            highlight: Some(HighlightTarget::MenuOption(0)),
        }
    } else if i == 3 {
        TutorialStep {
            id: 3,
            instruction: "Press Enter to select 'Continue Learning' and start a practice session.",
            hint: Some("Make sure 'Continue Learning' is highlighted, then press Enter."),
            validation: StepValidation::MenuSelection(0),
            highlight: Some(HighlightTarget::MenuOption(0)),
        }
    } else if i == 4 {
        TutorialStep {
            id: 4,
            instruction: "You see a vocabulary word. Try to recall its definition before revealing it.",
            hint: Some("This message will auto-advance in 10 seconds, or press any key to continue."),
            validation: StepValidation::StateCondition(Condition::Never),
            highlight: None,
        }
    } else if i == 5 {
        TutorialStep {
            id: 5,
            instruction: "Press 's' to show the definition.",
            hint: Some("Press the 's' key to reveal the definition."),
            validation: StepValidation::KeyPress(KeyCode::Char('s')),
            highlight: Some(HighlightTarget::KeyHint("s")),
        }
    } else if i == 6 {
        TutorialStep {
            id: 6,
            instruction: "Grade yourself honestly. Press 'y' if you knew it, or 'n' if you didn't.",
            hint: Some("Press 'y' for correct or 'n' for incorrect."),
            validation: StepValidation::KeyPress(KeyCode::Char('y')),
            highlight: Some(HighlightTarget::KeyHint("y/n")),
        }
    } else if i == 7 {
        TutorialStep {
            id: 7,
            instruction: "Press 'm' to bookmark this word. Bookmarked words show a star (*).",
            hint: Some("Press the 'm' key to toggle the bookmark."),
            validation: StepValidation::StateCondition(Condition::CurrentMarked),
            highlight: Some(HighlightTarget::KeyHint("m")),
        }
    } else if i == 8 {
        TutorialStep {
            id: 8,
            instruction: "Press 'm' again to remove the bookmark.",
            hint: Some("Press the 'm' key to toggle the bookmark off."),
            validation: StepValidation::StateCondition(Condition::CurrentUnmarked),
            highlight: Some(HighlightTarget::KeyHint("m")),
        }
    } else if i == 9 {
        TutorialStep {
            id: 9,
            instruction: "Bookmarked words can be reviewed later! Use 'Review Marks' from the main menu to practice only your bookmarked words. Press Enter to continue.",
            hint: Some("Press Enter to continue learning about the app."),
            validation: StepValidation::KeyPress(KeyCode::Enter),
            highlight: None,
        }
    } else if i == 10 {
        TutorialStep {
            id: 10,
            instruction: "Press Enter to move to the next word.",
            hint: Some("Press the Enter key to advance to the next word."),
            validation: StepValidation::StateCondition(Condition::IndexAtLeast(1)),
            highlight: Some(HighlightTarget::KeyHint("Enter")),
        }
    } else if i == 11 {
        TutorialStep {
            id: 11,
            instruction: "Practice with a few more words using 's', 'y'/'n', 'm', and Enter as you like.",
            hint: Some("Use the practice controls freely. Advance to at least 2 more words to continue."),
            validation: StepValidation::StateCondition(Condition::IndexAtLeast(2)),
            highlight: None,
        }
    } else if i == 12 {
        TutorialStep {
            id: 12,
            instruction: "Press 'q' or Escape to return to the main menu.",
            hint: Some("Press 'q' or Escape to exit the practice session."),
            validation: StepValidation::KeyPress(KeyCode::Char('q')),
            highlight: Some(HighlightTarget::KeyHint("q")),
        }
    } else {
        TutorialStep {
            id: 13,
            instruction: "Great job! You've learned the basics. There's also a Test mode where you type the word from the definition. Your progress auto-saves. Press Enter to finish.",
            hint: Some("Press Enter to complete the tutorial."),
            validation: StepValidation::KeyPress(KeyCode::Enter),
            highlight: None,
        }
    }
}

/// The `i`-th sample word and its definition, for `i` below the sample word count.
pub open spec fn spec_sample_word(i: int) -> (Seq<char>, Seq<char>) {
    if i == 0 {
        ("ephemeral"@, "lasting for a very short time"@)
    } else if i == 1 {
        ("ubiquitous"@, "present, appearing, or found everywhere"@)
    } else if i == 2 {
        ("serendipity"@, "the occurrence of events by chance in a happy way"@)
    } else if i == 3 {
        ("eloquent"@, "fluent or persuasive in speaking or writing"@)
    } else {
        ("pragmatic"@, "dealing with things sensibly and realistically"@)
    }
}

/// The words the tutorial practises on: simple words with clear definitions.
pub fn sample_word(i: usize) -> (r: (&'static str, &'static str))
    requires
        i < SAMPLE_WORD_COUNT,
    ensures
        r.0@ == spec_sample_word(i as int).0,
        r.1@ == spec_sample_word(i as int).1,
{
    if i == 0 {
        ("ephemeral", "lasting for a very short time")
    } else if i == 1 {
        ("ubiquitous", "present, appearing, or found everywhere")
    } else if i == 2 {
        ("serendipity", "the occurrence of events by chance in a happy way")
    } else if i == 3 {
        ("eloquent", "fluent or persuasive in speaking or writing")
    } else {
        ("pragmatic", "dealing with things sensibly and realistically")
    }
}

/// The `i`-th word of the sample session: negative id `-(i + 1)`, the tutorial
/// group, not bookmarked, never seen.
pub open spec fn is_sample_word(w: Word, i: int) -> bool {
    &&& w.id == -(i + 1)
    &&& w.word@ == spec_sample_word(i).0
    &&& w.definition@ == spec_sample_word(i).1
    &&& w.group_id == TUTORIAL_GROUP_ID
    &&& !w.marked
    &&& w.last_seen is None
    &&& w.times_seen == 0
    &&& w.success_count == 0
}

/// A freshly built sample session: every sample word in order, at the first word.
pub open spec fn is_fresh_sample(s: Session) -> bool {
    &&& s.words.len() == SAMPLE_WORD_COUNT
    &&& forall|i: int| 0 <= i < s.words.len() ==> #[trigger] is_sample_word(s.words@[i], i)
    &&& s.index == 0
    &&& s.session_type == Type::Group
    &&& s.ui_is_reset()
}

/// Builds the isolated practice session the tutorial works on. Its words have
/// negative, pairwise distinct ids and the tutorial group tag, so they can never
/// be mistaken for real vocabulary.
pub fn create_sample_session() -> (r: Session)
    ensures
        is_fresh_sample(r),
        r.words.len() == SAMPLE_WORD_COUNT,
        forall|i: int| 0 <= i < r.words.len() ==> (#[trigger] r.words@[i]).id < 0,
        forall|i: int, j: int|
            0 <= i < r.words.len() && 0 <= j < r.words.len() && i != j
                ==> #[trigger] r.words@[i].id != #[trigger] r.words@[j].id,
        forall|i: int| 0 <= i < r.words.len() ==> (#[trigger] r.words@[i]).group_id == TUTORIAL_GROUP_ID,
        forall|i: int| 0 <= i < r.words.len() ==> !(#[trigger] r.words@[i]).marked,
        forall|i: int| 0 <= i < r.words.len() ==> {
            &&& (#[trigger] r.words@[i]).times_seen == 0
            &&& r.words@[i].success_count == 0
            &&& r.words@[i].last_seen is None
        },
        r.index == 0,
{
    let mut words: Vec<Word> = Vec::new();
    let mut i: usize = 0;
    while i < SAMPLE_WORD_COUNT
        invariant
            i <= SAMPLE_WORD_COUNT,
            words.len() == i,
            forall|k: int| 0 <= k < i ==> #[trigger] is_sample_word(words@[k], k),
        decreases SAMPLE_WORD_COUNT - i,
    {
        let (word, definition) = sample_word(i);
        let id: i32 = -((i + 1) as i32);
        words.push(Word {
            id,
            word: word.to_owned(),
            definition: definition.to_owned(),
            group_id: TUTORIAL_GROUP_ID,
            marked: false,
            last_seen: None,
            times_seen: 0,
            success_count: 0,
        });
        i += 1;
    }
    let r = Session::new(words, 0, Type::Group);
    assert forall|i: int| 0 <= i < r.words.len() implies #[trigger] is_sample_word(r.words@[i], i) by {}
    assert forall|i: int| 0 <= i < r.words.len() implies {
        &&& (#[trigger] r.words@[i]).id < 0
        &&& r.words@[i].group_id == TUTORIAL_GROUP_ID
        &&& !r.words@[i].marked
        &&& r.words@[i].times_seen == 0
        &&& r.words@[i].success_count == 0
        &&& r.words@[i].last_seen is None
    } by {
        assert(is_sample_word(r.words@[i], i));
    }
    assert forall|i: int, j: int|
        0 <= i < r.words.len() && 0 <= j < r.words.len() && i != j
            implies #[trigger] r.words@[i].id != #[trigger] r.words@[j].id by {
        assert(is_sample_word(r.words@[i], i));
        assert(is_sample_word(r.words@[j], j));
    }
    r
}

/// A tutorial run that has just begun: first step, fresh sample session,
/// nothing logged, no exit pending.
pub open spec fn is_fresh_tutorial(s: TutorialState) -> bool {
    &&& s.current_step == 0
    &&& s.total_steps == TUTORIAL_STEP_COUNT
    &&& s.sample_session matches Some(session) && is_fresh_sample(session)
    &&& s.completed_actions@.len() == 0
    &&& !s.exit_requested
    &&& s.step_entered_at is Some
}

/// Starts a tutorial run at the first step, practising on a fresh sample session.
pub fn init_tutorial() -> (r: TutorialState)
    ensures
        is_fresh_tutorial(r),
{
    let sample_session = create_sample_session();
    TutorialState {
        current_step: 0,
        total_steps: TUTORIAL_STEP_COUNT,
        sample_session: Some(sample_session),
        completed_actions: Vec::new(),
        exit_requested: false,
        step_entered_at: Some(std::time::Instant::now()),
    }
}

/// The catalog position shown for a step index: past the end, the last step.
pub open spec fn clamped_step(current_step: usize) -> int {
    if current_step < TUTORIAL_STEP_COUNT {
        current_step as int
    } else {
        TUTORIAL_STEP_COUNT - 1
    }
}

/// The step to show for the state; once the tutorial is complete, the last step.
pub fn get_current_step(state: &TutorialState) -> (r: TutorialStep)
    ensures
        r == catalog_step(clamped_step(state.current_step)),
        r.id == clamped_step(state.current_step),
{
    let index = if state.current_step < TUTORIAL_STEP_COUNT {
        state.current_step
    } else {
        TUTORIAL_STEP_COUNT - 1
    };
    step_at(index)
}

/// Whether `pressed` completes a key-press step that expects `expected`: the
/// same key, or an equivalent (`j` for Down, `k` for Up, Escape for `q`); on the
/// grading step either grading key counts, whichever was pressed.
pub open spec fn key_accepted(expected: KeyCode, pressed: KeyCode, step_id: usize) -> bool {
    ||| pressed == expected
    ||| (expected == KeyCode::Down && pressed == KeyCode::Char('j'))
    ||| (expected == KeyCode::Up && pressed == KeyCode::Char('k'))
    ||| (expected == KeyCode::Char('q') && pressed == KeyCode::Esc)
    ||| (step_id == GRADING_STEP && expected == KeyCode::Char('y') && pressed == KeyCode::Char('n'))
    ||| (step_id == GRADING_STEP && expected == KeyCode::Char('n') && pressed == KeyCode::Char('y'))
}

fn key_matches(expected: KeyCode, pressed: KeyCode, step_id: usize) -> (r: bool)
    ensures
        r == key_accepted(expected, pressed, step_id),
{
    if pressed == expected {
        return true;
    }
    match (expected, pressed) {
        (KeyCode::Down, KeyCode::Char('j')) => true,
        (KeyCode::Up, KeyCode::Char('k')) => true,
        (KeyCode::Char('q'), KeyCode::Esc) => true,
        (KeyCode::Char('y'), KeyCode::Char('n')) => step_id == GRADING_STEP,
        (KeyCode::Char('n'), KeyCode::Char('y')) => step_id == GRADING_STEP,
        _ => false,
    }
}

/// Whether the condition holds of the tutorial state.
pub open spec fn condition_holds(c: Condition, state: TutorialState) -> bool {
    match c {
        Condition::Never => false,
        Condition::CurrentMarked => match state.sample_session {
            Some(s) => s.index < s.words.len() && s.words@[s.index as int].marked,
            None => false,
        },
        Condition::CurrentUnmarked => match state.sample_session {
            Some(s) => s.index < s.words.len() && !s.words@[s.index as int].marked,
            None => false,
        },
        Condition::IndexAtLeast(n) => match state.sample_session {
            Some(s) => s.index >= n,
            None => false,
        },
    }
}

fn check_condition(c: Condition, state: &TutorialState) -> (r: bool)
    ensures
        r == condition_holds(c, *state),
{
    match c {
        Condition::Never => false,
        Condition::CurrentMarked => match &state.sample_session {
            Some(s) => s.index < s.words.len() && s.words[s.index].marked,
            None => false,
        },
        Condition::CurrentUnmarked => match &state.sample_session {
            Some(s) => s.index < s.words.len() && !s.words[s.index].marked,
            None => false,
        },
        Condition::IndexAtLeast(n) => match &state.sample_session {
            Some(s) => s.index >= n,
            None => false,
        },
    }
}

/// Whether a key press, with the menu selection at `selected`, completes `step`.
pub open spec fn step_satisfied(step: TutorialStep, state: TutorialState, selected: usize, key: KeyEvent) -> bool {
    match step.validation {
        StepValidation::KeyPress(expected) => key_accepted(expected, key.code, step.id),
        StepValidation::MenuSelection(index) => key.code == KeyCode::Enter && selected == index,
        StepValidation::StateCondition(c) => condition_holds(c, state),
    }
}

/// The tutorial has gone past its last step.
pub open spec fn is_finished(state: TutorialState) -> bool {
    state.current_step >= TUTORIAL_STEP_COUNT
}

/// The key press completes the current step of a tutorial that is not finished.
pub open spec fn accepts(state: TutorialState, selected: usize, key: KeyEvent) -> bool {
    &&& !is_finished(state)
    &&& step_satisfied(catalog_step(state.current_step as int), state, selected, key)
}

/// The text shown when a key press does not complete `step`.
pub open spec fn hint_text(step: TutorialStep) -> Seq<char> {
    match step.hint {
        Some(h) => h@,
        None => "Try again."@,
    }
}

/// `post` is `pre` moved on by exactly one step, entered at a new instant.
pub open spec fn advanced(pre: TutorialState, post: TutorialState) -> bool {
    &&& post.current_step == pre.current_step + 1
    &&& post.step_entered_at is Some
    &&& post.total_steps == pre.total_steps
    &&& post.sample_session == pre.sample_session
    &&& post.completed_actions == pre.completed_actions
    &&& post.exit_requested == pre.exit_requested
}

/// What `validate_and_advance` does: a finished tutorial stays complete and
/// unchanged; an accepted key moves on by one step, reporting completion when
/// that was the last step; any other key leaves the state alone and yields the
/// step's hint.
pub open spec fn validation_outcome(
    pre: TutorialState,
    selected: usize,
    key: KeyEvent,
    post: TutorialState,
    r: ValidationResult,
) -> bool {
    if is_finished(pre) {
        r is Complete && post == pre
    } else if accepts(pre, selected, key) {
        &&& advanced(pre, post)
        &&& if pre.current_step + 1 == TUTORIAL_STEP_COUNT {
            r is Complete
        } else {
            r is Valid
        }
    } else {
        &&& post == pre
        &&& r matches ValidationResult::Invalid(h) && h@ == hint_text(catalog_step(pre.current_step as int))
    }
}

/// Checks the key press against the current step and, when it completes the
/// step, moves to the next one.
pub fn validate_and_advance(state: &mut TutorialState, app: &App, key: KeyEvent) -> (r: ValidationResult)
    ensures
        validation_outcome(*old(state), app.selected, key, *final(state), r),
{
    if state.current_step >= TUTORIAL_STEP_COUNT {
        return ValidationResult::Complete;
    }
    let current_step = get_current_step(state);
    let is_valid = match current_step.validation {
        StepValidation::KeyPress(expected) => key_matches(expected, key.code, current_step.id),
        StepValidation::MenuSelection(expected_index) => {
            key.code == KeyCode::Enter && app.selected == expected_index
        },
        StepValidation::StateCondition(condition) => check_condition(condition, state),
    };
    if is_valid {
        state.current_step = state.current_step + 1;
        state.step_entered_at = Some(std::time::Instant::now());
        if state.current_step >= TUTORIAL_STEP_COUNT {
            ValidationResult::Complete
        } else {
            ValidationResult::Valid
        }
    } else {
        let hint = match current_step.hint {
            Some(h) => h,
            None => "Try again.",
        };
        ValidationResult::Invalid(hint.to_owned())
    }
}

/// Whether the preview step is due to advance, given the whole seconds since
/// the step was entered (`None` when that is unknown).
pub fn auto_advance_due(current_step: usize, elapsed_secs: Option<u64>) -> (r: bool)
    ensures
        r == (current_step == PREVIEW_STEP && (elapsed_secs matches Some(s) && s >= AUTO_ADVANCE_SECS)),
{
    if current_step != PREVIEW_STEP {
        return false;
    }
    match elapsed_secs {
        Some(s) => s >= AUTO_ADVANCE_SECS,
        None => false,
    }
}

/// Whether the preview step has been shown long enough to advance by itself.
/// Reads the clock; changes nothing.
pub fn should_auto_advance(state: &TutorialState) -> (r: bool)
    ensures
        r ==> state.current_step == PREVIEW_STEP && state.step_entered_at is Some,
{
    if state.current_step != PREVIEW_STEP {
        return false;
    }
    let elapsed = match &state.step_entered_at {
        Some(entered_at) => Some(entered_at.elapsed().as_secs()),
        None => None,
    };
    auto_advance_due(state.current_step, elapsed)
}

} // verus!
