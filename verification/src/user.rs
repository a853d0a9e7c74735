//! Users: the owners of workspaces, goal tables and goals.

use crate::display::{bool_text, line, push_line, render_bool};
use crate::numeral::{decimal_digits, render_decimal};
use crate::role::UserRole;
use crate::text::{contains_char, is_blank};
use vstd::prelude::*;

verus! {

/// What a user is, as the contracts see it.
pub struct UserView {
    pub id: u32,
    pub username: Seq<char>,
    pub email: Seq<char>,
    pub is_active: bool,
    pub role: UserRole,
}

/// An email address is accepted when it holds an `@` and a `.`; nothing more
/// is asked of it.
pub open spec fn is_email(s: Seq<char>) -> bool {
    s.contains('@') && s.contains('.')
}

/// Tells whether `s` is accepted as an email address.
pub fn is_email_text(s: &str) -> (r: bool)
    ensures
        r == is_email(s@),
{
    contains_char(s, '@') && contains_char(s, '.')
}

impl UserView {
    /// A user as the validating factory makes it: a username with something
    /// visible in it, and an accepted email address.
    pub open spec fn is_valid(self) -> bool {
        !is_blank(self.username) && is_email(self.email)
    }

    /// The summary of a user: id, username, email and activity, one line each.
    pub open spec fn summary(self) -> Seq<char> {
        line("User ID: "@, decimal_digits(self.id as nat)) + line("Username: "@, self.username)
            + line("Email: "@, self.email) + line("Is Active: "@, bool_text(self.is_active))
    }
}

/// A user of the system.
#[derive(Debug)]
pub struct User {
    id: u32,
    username: String,
    email: String,
    is_active: bool,
    user_role: UserRole,
}

impl View for User {
    type V = UserView;

    closed spec fn view(&self) -> UserView {
        UserView {
            id: self.id,
            username: self.username@,
            email: self.email@,
            is_active: self.is_active,
            role: self.user_role,
        }
    }
}

impl Clone for User {
    fn clone(&self) -> (r: Self)
        ensures
            r@ == self@,
    {
        User {
            id: self.id,
            username: self.username.clone(),
            email: self.email.clone(),
            is_active: self.is_active,
            user_role: self.user_role,
        }
    }
}

impl User {
    /// An active user with the given fields, taken as they are: nothing is
    /// checked here, so the user is valid exactly when the fields are.
    pub fn new(id: u32, username: String, email: String, user_role: UserRole) -> (r: User)
        ensures
            r@ == (UserView {
                id,
                username: username@,
                email: email@,
                is_active: true,
                role: user_role,
            }),
    {
        User { id, username, email, is_active: true, user_role }
    }

    /// The id of this user.
    pub fn id(&self) -> (r: u32)
        ensures
            r == self@.id,
    {
        self.id
    }

    /// The username, as it was given.
    pub fn username(&self) -> (r: &str)
        ensures
            r@ == self@.username,
    {
        self.username.as_str()
    }

    /// The email address, as it was given.
    pub fn email(&self) -> (r: &str)
        ensures
            r@ == self@.email,
    {
        self.email.as_str()
    }

    /// Whether this user is active.
    pub fn is_active(&self) -> (r: bool)
        ensures
            r == self@.is_active,
    {
        self.is_active
    }

    /// The role of this user.
    pub fn role(&self) -> (r: UserRole)
        ensures
            r == self@.role,
    {
        self.user_role
    }

    /// Renders the summary of this user.
    pub fn display_info(&self) -> (r: String)
        ensures
            r@ == self@.summary(),
    {
        let mut out = String::new();
        let id = render_decimal(self.id);
        push_line(&mut out, "User ID: ", id.as_str());
        push_line(&mut out, "Username: ", self.username.as_str());
        push_line(&mut out, "Email: ", self.email.as_str());
        push_line(&mut out, "Is Active: ", render_bool(self.is_active));
        assert(out@ =~= self@.summary());
        out
    }
}

} // verus!
