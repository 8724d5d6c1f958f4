use vstd::prelude::*;
use crate::logic::session::Word;
use crate::ui::app::Screen;

verus! {

/// The group to store as the place to continue from: past the last stored
/// group (1 when no group is stored), learning starts over at group 1.
pub open spec fn spec_group_to_save(group_id: i32, final_group: Option<i32>) -> i32 {
    let last = match final_group {
        Some(g) => g,
        None => 1,
    };
    if group_id > last {
        1
    } else {
        group_id
    }
}

/// The progress record to store for `(screen, group, index)`, given the last
/// group that storage holds.
pub fn progress_to_save(progress: (Screen, i32, usize), final_group: Option<i32>) -> (r: (Screen, i32, usize))
    ensures
        r.0 == progress.0,
        r.1 == spec_group_to_save(progress.1, final_group),
        r.2 == progress.2,
{
    let (screen, group_id, index) = progress;
    let last = match final_group {
        Some(g) => g,
        None => 1,
    };
    let group = if group_id > last {
        1
    } else {
        group_id
    };
    (screen, group, index)
}

/// Records one practice of `word` at `now` (seconds since the Unix epoch):
/// one more time seen, and one more success when the answer was correct.
pub fn update_word_stats(word: &mut Word, now: i32, correct: bool)
    requires
        old(word).times_seen < u32::MAX,
        correct ==> old(word).success_count < u8::MAX,
    ensures
        final(word).last_seen == Some(now),
        final(word).times_seen == old(word).times_seen + 1,
        final(word).success_count == old(word).success_count + if correct {
            1int
        } else {
            0int
        },
        final(word).id == old(word).id,
        final(word).word == old(word).word,
        final(word).definition == old(word).definition,
        final(word).group_id == old(word).group_id,
        final(word).marked == old(word).marked,
{
    word.last_seen = Some(now);
    word.times_seen = word.times_seen + 1;
    if correct {
        word.success_count = word.success_count + 1;
    }
}

} // verus!
