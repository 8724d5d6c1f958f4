use vstd::prelude::*;
use crate::logic::session::{Session, Type, Word};

verus! {

/// A small fixed practice session of two words, for trying the practice screen
/// without any stored vocabulary.
pub fn start_session() -> (r: Session)
    ensures
        r.words.len() == 2,
        r.words@[0].id == 1 && r.words@[0].word@ == "ephemeral"@
            && r.words@[0].definition@ == "lasting for a very short time"@ && r.words@[0].group_id == 1
            && !r.words@[0].marked && r.words@[0].last_seen == Some(4i32) && r.words@[0].times_seen == 7
            && r.words@[0].success_count == 5,
        r.words@[1].id == 2 && r.words@[1].word@ == "lucid"@
            && r.words@[1].definition@ == "expressed clearly; easy to understand"@ && r.words@[1].group_id == 1
            && r.words@[1].marked && r.words@[1].last_seen == Some(2i32) && r.words@[1].times_seen == 3
            && r.words@[1].success_count == 2,
        r.index == 0,
        r.session_type == Type::Group,
        r.ui_is_reset(),
{
    let words = vec![
        Word {
            id: 1,
            word: "ephemeral".to_owned(),
            definition: "lasting for a very short time".to_owned(),
            group_id: 1,
            marked: false,
            last_seen: Some(4),
            times_seen: 7,
            success_count: 5,
        },
        Word {
            id: 2,
            word: "lucid".to_owned(),
            definition: "expressed clearly; easy to understand".to_owned(),
            group_id: 1,
            marked: true,
            last_seen: Some(2),
            times_seen: 3,
            success_count: 2,
        },
    ];
    Session::new(words, 0, Type::Group)
}

} // verus!
