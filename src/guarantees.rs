//! Facts about the tutorial that relate several steps or calls, proved from
//! the contracts of the state machine and the input router.

use vstd::prelude::*;
use crate::logic::keys::{KeyCode, KeyEvent};
use crate::logic::tutorial::{
    catalog_step, clamped_step, is_fresh_tutorial, validation_outcome, Condition, StepValidation,
    TutorialState, ValidationResult, GRADING_STEP, TUTORIAL_STEP_COUNT,
};
use crate::ui::app::App;
use crate::ui::screens::tutorial::{practice_state_effect, routed, shows_congratulations};

verus! {

/// Once the step index has reached or passed the catalog's length, the step
/// shown is the last catalog entry, and checking any key reports completion
/// and leaves the state unchanged.
pub proof fn lemma_finished_is_terminal(
    pre: TutorialState,
    selected: usize,
    key: KeyEvent,
    post: TutorialState,
    r: ValidationResult,
)
    requires
        pre.current_step >= TUTORIAL_STEP_COUNT,
        validation_outcome(pre, selected, key, post, r),
    ensures
        clamped_step(pre.current_step) == TUTORIAL_STEP_COUNT - 1,
        catalog_step(clamped_step(pre.current_step)).id == TUTORIAL_STEP_COUNT - 1,
        r is Complete,
        post == pre,
{
}

/// On a fresh tutorial, the confirm key completes the welcome step.
pub proof fn lemma_fresh_start_confirm(
    pre: TutorialState,
    selected: usize,
    key: KeyEvent,
    post: TutorialState,
    r: ValidationResult,
)
    requires
        is_fresh_tutorial(pre),
        key.code == KeyCode::Enter,
        validation_outcome(pre, selected, key, post, r),
    ensures
        r is Valid,
        post.current_step == 1,
{
}

/// The alternate keys count: `j` for Down on step 1, `k` for Up on step 2,
/// and Escape for `q` on step 12; each advances by one step.
pub proof fn lemma_alternate_keys(
    pre: TutorialState,
    selected: usize,
    key: KeyEvent,
    post: TutorialState,
    r: ValidationResult,
)
    requires
        (pre.current_step == 1 && key.code == KeyCode::Char('j'))
            || (pre.current_step == 2 && key.code == KeyCode::Char('k'))
            || (pre.current_step == 12 && key.code == KeyCode::Esc),
        validation_outcome(pre, selected, key, post, r),
    ensures
        r is Valid,
        post.current_step == pre.current_step + 1,
{
}

/// On the grading step, `y` and `n` both advance exactly one step; any other
/// key yields a non-empty hint and leaves the step where it was.
pub proof fn lemma_grading_step(
    pre: TutorialState,
    selected: usize,
    key: KeyEvent,
    post: TutorialState,
    r: ValidationResult,
)
    requires
        pre.current_step == GRADING_STEP,
        validation_outcome(pre, selected, key, post, r),
    ensures
        key.code == KeyCode::Char('y') || key.code == KeyCode::Char('n') ==> {
            &&& r is Valid
            &&& post.current_step == pre.current_step + 1
        },
        !(key.code == KeyCode::Char('y') || key.code == KeyCode::Char('n')) ==> {
            &&& r matches ValidationResult::Invalid(h) && h@.len() > 0
            &&& post.current_step == pre.current_step
        },
{
    reveal_strlit("Press 'y' for correct or 'n' for incorrect.");
}

/// Completing the last step moves the index to the catalog's length and
/// reports completion; a further check reports completion again and changes
/// nothing.
pub proof fn lemma_completion_once(
    pre: TutorialState,
    selected: usize,
    key: KeyEvent,
    mid: TutorialState,
    r1: ValidationResult,
    key2: KeyEvent,
    post: TutorialState,
    r2: ValidationResult,
)
    requires
        pre.current_step == TUTORIAL_STEP_COUNT - 1,
        key.code == KeyCode::Enter,
        validation_outcome(pre, selected, key, mid, r1),
        validation_outcome(mid, selected, key2, post, r2),
    ensures
        r1 is Complete,
        mid.current_step == TUTORIAL_STEP_COUNT,
        r2 is Complete,
        post == mid,
{
}

/// On the bookmark step, flipping the unmarked current word's bookmark with
/// the forwarded `m` key marks it, and the check that follows advances to the
/// step that asks for the bookmark to be removed.
pub proof fn lemma_bookmark_steps(
    pre: TutorialState,
    mid: TutorialState,
    selected: usize,
    key: KeyEvent,
    post: TutorialState,
    r: ValidationResult,
)
    requires
        pre.current_step == 7,
        pre.sample_session matches Some(s) && s.index < s.words.len() && !s.words@[s.index as int].marked,
        practice_state_effect(pre, mid, KeyCode::Char('m')),
        validation_outcome(mid, selected, key, post, r),
    ensures
        mid.sample_session matches Some(s) && s.index < s.words.len() && s.words@[s.index as int].marked,
        r is Valid,
        post.current_step == 8,
        catalog_step(8).validation == StepValidation::StateCondition(Condition::CurrentUnmarked),
{
}

/// From any step, the quit key opens the exit confirmation without moving the
/// step; then `n` closes it, still at the same step, and `y` discards the
/// tutorial state.
pub proof fn lemma_exit_confirmation(
    pre: App,
    quit: KeyEvent,
    mid: App,
    out1: crate::ui::screens::tutorial::TutorialOutcome,
    answer: KeyEvent,
    post: App,
    out2: crate::ui::screens::tutorial::TutorialOutcome,
)
    requires
        pre.tutorial_state matches Some(ts) && !ts.exit_requested && !shows_congratulations(ts),
        quit.code == KeyCode::Char('q') || quit.code == KeyCode::Esc,
        routed(pre, quit, mid, out1),
        routed(mid, answer, post, out2),
    ensures
        mid.tutorial_state matches Some(t) && t.exit_requested
            && t.current_step == pre.tutorial_state->Some_0.current_step,
        answer.code == KeyCode::Char('n') ==> (post.tutorial_state matches Some(t) && !t.exit_requested
            && t.current_step == pre.tutorial_state->Some_0.current_step),
        answer.code == KeyCode::Char('y') ==> post.tutorial_state is None,
{
}

/// Checking a key never moves the tutorial back and never moves it on by more
/// than one step.
pub proof fn lemma_one_step_at_most(
    pre: TutorialState,
    selected: usize,
    key: KeyEvent,
    post: TutorialState,
    r: ValidationResult,
)
    requires
        validation_outcome(pre, selected, key, post, r),
    ensures
        post.current_step == pre.current_step || post.current_step == pre.current_step + 1,
        r is Valid ==> post.current_step == pre.current_step + 1,
        r is Invalid ==> post == pre,
{
}

} // verus!
