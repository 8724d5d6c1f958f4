use vstd::prelude::*;

verus! {

/// One vocabulary entry with its practice statistics.
#[derive(Debug, Clone)]
pub struct Word {
    pub id: i32,
    pub word: String,
    pub definition: String,
    pub group_id: i32,
    pub marked: bool,
    /// Seconds since the Unix epoch of the last practice, if any.
    pub last_seen: Option<i32>,
    pub times_seen: u32,
    pub success_count: u8,
}

/// Which words a practice session draws from.
#[derive(Debug, Clone, Copy, PartialEq, Eq, Structural)]
pub enum Type {
    Group,
    Marked,
    Weak,
    Custom,
}

impl Type {
    pub open spec fn spec_label(self) -> Seq<char> {
        match self {
            Type::Group => "Continue Learning"@,
            Type::Marked => "Review Marks"@,
            Type::Weak => "Revise Weak"@,
            Type::Custom => "Custom Query"@,
        }
    }

    /// The menu text for this kind of session.
    pub fn label(&self) -> (r: &'static str)
        ensures
            r@ == self.spec_label(),
    {
        match self {
            Type::Group => "Continue Learning",
            Type::Marked => "Review Marks",
            Type::Weak => "Revise Weak",
            Type::Custom => "Custom Query",
        }
    }
}

/// A practice session: an ordered word list, a position in it, and the
/// transient state of the word on screen.
#[derive(Debug)]
pub struct Session {
    pub words: Vec<Word>,
    pub index: usize,
    pub session_type: Type,
    pub show_definition: bool,
    pub graded: Option<bool>,
    pub input_buffer: String,
    pub insert_mode: bool,
}

impl Session {
    /// A session over `words` at `index`, with nothing revealed or graded yet.
    pub fn new(words: Vec<Word>, index: usize, session_type: Type) -> (r: Session)
        ensures
            r.words@ == words@,
            r.index == index,
            r.session_type == session_type,
            r.ui_is_reset(),
    {
        Session {
            words,
            index,
            session_type,
            show_definition: false,
            graded: None,
            input_buffer: String::new(),
            insert_mode: false,
        }
    }

    /// Nothing revealed, nothing graded, no typed input.
    pub open spec fn ui_is_reset(self) -> bool {
        &&& !self.show_definition
        &&& self.graded is None
        &&& self.input_buffer@.len() == 0
        &&& !self.insert_mode
    }

    /// The word at the current position.
    pub fn current(&self) -> (r: &Word)
        requires
            self.index < self.words.len(),
        ensures
            *r == self.words@[self.index as int],
    {
        &self.words[self.index]
    }

    /// The word at the current position, for changing it in place.
    pub fn current_mut(&mut self) -> (r: &mut Word)
        requires
            old(self).index < old(self).words.len(),
        ensures
            *r == old(self).words@[old(self).index as int],
            final(self).words@ == old(self).words@.update(old(self).index as int, *final(r)),
            final(self).index == old(self).index,
            final(self).session_type == old(self).session_type,
            final(self).show_definition == old(self).show_definition,
            final(self).graded == old(self).graded,
            final(self).input_buffer == old(self).input_buffer,
            final(self).insert_mode == old(self).insert_mode,
    {
        let i = self.index;
        &mut self.words[i]
    }

    /// Forgets what was revealed, graded or typed for the current word.
    pub fn reset_ui_state(&mut self)
        ensures
            final(self).ui_is_reset(),
            final(self).words == old(self).words,
            final(self).index == old(self).index,
            final(self).session_type == old(self).session_type,
    {
        self.show_definition = false;
        self.graded = None;
        self.input_buffer = String::new();
        self.insert_mode = false;
    }
}

} // verus!
