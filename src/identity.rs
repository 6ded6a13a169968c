//! Identities of platform users.
use vstd::prelude::*;

verus! {

/// The identity of a user, held as the textual form of the principal
/// that the platform assigns to it.
#[derive(Debug)]
pub struct UserId {
    pub text: String,
}

impl View for UserId {
    type V = Seq<char>;

    open spec fn view(&self) -> Seq<char> {
        self.text@
    }
}

impl UserId {
    pub fn new(text: String) -> (r: UserId)
        ensures
            r.text == text,
    {
        UserId { text }
    }

    /// Whether two identities name the same user.
    pub fn same_as(&self, other: &UserId) -> (r: bool)
        ensures
            r == (self@ == other@),
    {
        self.text == other.text
    }
}

impl Clone for UserId {
    fn clone(&self) -> (r: Self)
        ensures
            r == *self,
    {
        UserId { text: self.text.clone() }
    }
}

} // verus!
