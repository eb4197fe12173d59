//! The query buffer: the text the user edits, framed by a fixed prefix and
//! suffix.

use vstd::prelude::*;
use crate::action::{Action, PopupAction};

verus! {

/// `String::push` appends one character at the end.
pub assume_specification[ String::push ](s: &mut String, ch: char)
    ensures
        final(s)@ == old(s)@.push(ch),
;

/// `String::pop` removes the last character and returns it, or returns
/// `None` and changes nothing when the string is empty.
pub assume_specification[ String::pop ](s: &mut String) -> (ch: Option<char>)
    ensures
        old(s)@.len() == 0 ==> ch is None && final(s)@ == old(s)@,
        old(s)@.len() > 0 ==> ch == Some(old(s)@.last()) && final(s)@ == old(s)@.drop_last(),
;

/// `String::clear` removes every character.
pub assume_specification[ String::clear ](s: &mut String)
    ensures
        final(s)@ == Seq::<char>::empty(),
;

/// The editable search text with its fixed frame.
#[derive(Debug, PartialEq)]
pub struct TelescopeQuery {
    pub contents: String,
    pub prefix: String,
    pub suffix: String,
}

impl Clone for TelescopeQuery {
    fn clone(&self) -> (copy: Self)
        ensures
            copy == *self,
    {
        Self {
            contents: self.contents.clone(),
            prefix: self.prefix.clone(),
            suffix: self.suffix.clone(),
        }
    }
}

/// What a sequence of characters looks like after its last one is dropped;
/// the empty sequence stays empty.
pub open spec fn without_last(text: Seq<char>) -> Seq<char> {
    if text.len() == 0 {
        text
    } else {
        text.drop_last()
    }
}

impl TelescopeQuery {
    /// The full text handed to a search: prefix, then contents, then suffix.
    pub open spec fn full_text(&self) -> Seq<char> {
        self.prefix@ + self.contents@ + self.suffix@
    }

    /// A query with empty contents and no frame.
    pub fn default() -> (query: Self)
        ensures
            query.contents@ == Seq::<char>::empty(),
            query.prefix@ == Seq::<char>::empty(),
            query.suffix@ == Seq::<char>::empty(),
    {
        Self { contents: String::new(), prefix: String::new(), suffix: String::new() }
    }

    /// A query with empty contents inside the given frame.
    pub fn new(prefix: String, suffix: String) -> (query: Self)
        ensures
            query.contents@ == Seq::<char>::empty(),
            query.prefix == prefix,
            query.suffix == suffix,
    {
        Self { contents: String::new(), prefix, suffix }
    }

    /// Takes the contents out, leaving them empty.
    pub fn pop_contents(&mut self) -> (taken: String)
        ensures
            taken@ == old(self).contents@,
            final(self).contents@ == Seq::<char>::empty(),
            final(self).prefix == old(self).prefix,
            final(self).suffix == old(self).suffix,
    {
        let taken = self.contents.clone();
        self.contents.clear();
        taken
    }

    /// Appends one character to the contents.
    pub fn append_char(&mut self, c: char)
        ensures
            final(self).contents@ == old(self).contents@.push(c),
            final(self).prefix == old(self).prefix,
            final(self).suffix == old(self).suffix,
    {
        self.contents.push(c);
    }

    /// Empties the contents.
    pub fn clear_contents(&mut self)
        ensures
            final(self).contents@ == Seq::<char>::empty(),
            final(self).prefix == old(self).prefix,
            final(self).suffix == old(self).suffix,
    {
        self.contents.clear();
    }

    /// Drops the last character of the contents; empty contents stay empty.
    pub fn drop_char(&mut self)
        ensures
            final(self).contents@ == without_last(old(self).contents@),
            final(self).prefix == old(self).prefix,
            final(self).suffix == old(self).suffix,
    {
        let _ = self.contents.pop();
    }

    /// Drops the last character of the contents and asks the overlay to
    /// search for what is left.
    pub fn remove_char(&mut self) -> (action: Option<Action>)
        ensures
            final(self).contents@ == without_last(old(self).contents@),
            final(self).prefix == old(self).prefix,
            final(self).suffix == old(self).suffix,
            action matches Some(Action::PopupAct(PopupAction::UpdateSearchQuery(query)))
                && query@ == final(self).contents@,
    {
        let _ = self.contents.pop();
        Some(Action::PopupAct(PopupAction::UpdateSearchQuery(self.contents.clone())))
    }

    /// The full text: prefix, contents and suffix in that order.
    pub fn get_contents(&self) -> (text: String)
        ensures
            text@ == self.full_text(),
    {
        let mut text = self.prefix.clone();
        text.append(self.contents.as_str());
        text.append(self.suffix.as_str());
        text
    }
}

/// Appending a character and then dropping one gives back the contents, and
/// with them the full text, whatever the prefix and the suffix are.
pub proof fn lemma_append_then_drop_restores(
    before: TelescopeQuery,
    appended: TelescopeQuery,
    after: TelescopeQuery,
    c: char,
)
    requires
        appended.contents@ == before.contents@.push(c),
        appended.prefix == before.prefix,
        appended.suffix == before.suffix,
        after.contents@ == without_last(appended.contents@),
        after.prefix == appended.prefix,
        after.suffix == appended.suffix,
    ensures
        after.contents@ == before.contents@,
        after.full_text() == before.full_text(),
{
}

} // verus!
