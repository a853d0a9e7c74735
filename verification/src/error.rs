//! Why a factory refused its input.

use vstd::prelude::*;

verus! {

/// A rule that the input of a factory broke. Nothing is built when one is
/// returned, and the caller may try again with other input.
#[derive(Clone, Copy, Debug, PartialEq, Eq, Structural)]
pub enum ValidationError {
    /// The username is empty or holds white space only.
    EmptyUsername,
    /// The email address lacks an `@` or a `.`.
    InvalidEmail,
    /// The description is empty or holds white space only.
    EmptyDescription,
    /// The title is empty or holds white space only.
    EmptyTitle,
    /// The text of the goal is empty or holds white space only.
    EmptyText,
}

impl ValidationError {
    /// The message shown to the user for this error.
    pub open spec fn message_text(self) -> Seq<char> {
        match self {
            ValidationError::EmptyUsername => "Kullanıcı adı boş olamaz."@,
            ValidationError::InvalidEmail => "Geçerli bir e-posta giriniz."@,
            ValidationError::EmptyDescription => "Target description is not be empty"@,
            ValidationError::EmptyTitle => "Target Title is not be empty"@,
            ValidationError::EmptyText => "Hedef metni boş olamaz."@,
        }
    }

    /// The message shown to the user for this error.
    pub fn message(&self) -> (r: &'static str)
        ensures
            r@ == self.message_text(),
    {
        match self {
            ValidationError::EmptyUsername => "Kullanıcı adı boş olamaz.",
            ValidationError::InvalidEmail => "Geçerli bir e-posta giriniz.",
            ValidationError::EmptyDescription => "Target description is not be empty",
            ValidationError::EmptyTitle => "Target Title is not be empty",
            ValidationError::EmptyText => "Hedef metni boş olamaz.",
        }
    }
}

} // verus!
