//! The role label that a user carries.

use crate::text::same_text;
use vstd::prelude::*;

verus! {

/// A label attached to a user. It ranks nothing and grants nothing.
#[derive(Clone, Copy, Debug, PartialEq, Eq, Structural)]
pub enum UserRole {
    Classic,
    Vip,
    Admin,
    Owner,
}

impl UserRole {
    /// The role that a text names: one of the four names, letter for letter,
    /// and `Classic` for every other text.
    pub open spec fn named_by(text: Seq<char>) -> UserRole {
        if text == "Classic"@ {
            UserRole::Classic
        } else if text == "Vip"@ {
            UserRole::Vip
        } else if text == "Admin"@ {
            UserRole::Admin
        } else if text == "Owner"@ {
            UserRole::Owner
        } else {
            UserRole::Classic
        }
    }

    /// Reads a role from free text. A text that names no role gives `Classic`.
    pub fn parse(text: &str) -> (r: UserRole)
        ensures
            r == UserRole::named_by(text@),
    {
        if same_text(text, "Classic") {
            UserRole::Classic
        } else if same_text(text, "Vip") {
            UserRole::Vip
        } else if same_text(text, "Admin") {
            UserRole::Admin
        } else if same_text(text, "Owner") {
            UserRole::Owner
        } else {
            UserRole::Classic
        }
    }
}

} // verus!
