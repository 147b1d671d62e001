//! A guard that tells whether an operation ran to its end.

use vstd::prelude::*;

verus! {

/// Stands for an operation that has begun. Unless `success` is called on it
/// before it goes out of scope, the operation counts as broken off, and a
/// warning is due.
pub struct WarnDefer<'s> {
    /// Whether the operation has not been reported as done.
    pub failed: bool,
    /// The name of the operation.
    pub content: &'s str,
}

impl<'s> WarnDefer<'s> {
    /// The text of the warning for an operation named `content` that broke off.
    pub open spec fn warning_text(content: Seq<char>) -> Seq<char> {
        content + ".interupted"@
    }

    /// A guard for the operation named `content`, which has not succeeded yet.
    pub fn new(content: &'s str) -> (guard: Self)
        ensures
            guard.failed,
            guard.content@ == content@,
    {
        Self { failed: true, content }
    }

    /// Records that the operation ran to its end.
    pub fn success(&mut self)
        ensures
            !final(self).failed,
            final(self).content@ == old(self).content@,
    {
        self.failed = false;
    }

    /// The warning that is due when the guard goes out of scope: none after
    /// `success`, and otherwise the operation's name with `.interupted`.
    pub fn warning(&self) -> (w: Option<String>)
        ensures
            self.failed ==> (w matches Some(text) && text@ == Self::warning_text(self.content@)),
            !self.failed ==> w is None,
    {
        if self.failed {
            let mut text = String::from_str(self.content);
            text.append(".interupted");
            Some(text)
        } else {
            None
        }
    }
}

} // verus!
