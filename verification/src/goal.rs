//! Goals: the entries of a goal table.

use crate::clock::TimeOfDay;
use crate::display::{bool_text, line, push_line, render_bool};
use crate::text::is_blank;
use crate::user::{User, UserView};
use vstd::prelude::*;

verus! {

/// What a goal is, as the contracts see it.
pub struct GoalView {
    pub id: u32,
    pub owner: UserView,
    pub text: Seq<char>,
    /// The id of the table that the goal was made for. Nothing holds it to a
    /// table that exists.
    pub table: u32,
    /// Seconds after midnight.
    pub created_at: nat,
    pub is_active: bool,
}

impl GoalView {
    /// A goal as the validating factory makes it: its text has something
    /// visible in it.
    pub open spec fn is_valid(self) -> bool {
        !is_blank(self.text)
    }

    /// The summary of a goal: text, owner and activity, one line each.
    pub open spec fn summary(self) -> Seq<char> {
        line("Goal Text: "@, self.text) + line("Owner: "@, self.owner.username) + line(
            "Is Active: "@,
            bool_text(self.is_active),
        )
    }
}

/// A goal.
#[derive(Debug)]
pub struct Goal {
    id: u32,
    owner: User,
    text: String,
    table: u32,
    create_at: TimeOfDay,
    is_active: bool,
}

impl View for Goal {
    type V = GoalView;

    closed spec fn view(&self) -> GoalView {
        GoalView {
            id: self.id,
            owner: self.owner@,
            text: self.text@,
            table: self.table,
            created_at: self.create_at@,
            is_active: self.is_active,
        }
    }
}

impl Clone for Goal {
    fn clone(&self) -> (r: Self)
        ensures
            r@ == self@,
    {
        Goal {
            id: self.id,
            owner: self.owner.clone(),
            text: self.text.clone(),
            table: self.table,
            create_at: self.create_at,
            is_active: self.is_active,
        }
    }
}

impl Goal {
    /// An active goal with the given fields, taken as they are, stamped with
    /// the start of the day.
    pub fn new(id: u32, owner: User, text: String, table: u32) -> (r: Goal)
        ensures
            r@ == (GoalView {
                id,
                owner: owner@,
                text: text@,
                table,
                created_at: 0,
                is_active: true,
            }),
    {
        Goal { id, owner, text, table, create_at: TimeOfDay::midnight(), is_active: true }
    }

    /// The id of this goal.
    pub fn id(&self) -> (r: u32)
        ensures
            r == self@.id,
    {
        self.id
    }

    /// The user who owns this goal.
    pub fn owner(&self) -> (r: &User)
        ensures
            r@ == self@.owner,
    {
        &self.owner
    }

    /// The text of this goal, as it was given.
    pub fn text(&self) -> (r: &str)
        ensures
            r@ == self@.text,
    {
        self.text.as_str()
    }

    /// The id of the table that this goal was made for.
    pub fn table(&self) -> (r: u32)
        ensures
            r == self@.table,
    {
        self.table
    }

    /// When this goal was made.
    pub fn created_at(&self) -> (r: TimeOfDay)
        ensures
            r@ == self@.created_at,
    {
        self.create_at
    }

    /// Whether this goal is active.
    pub fn is_active(&self) -> (r: bool)
        ensures
            r == self@.is_active,
    {
        self.is_active
    }

    /// Renders the summary of this goal.
    pub fn display_info(&self) -> (r: String)
        ensures
            r@ == self@.summary(),
    {
        let mut out = String::new();
        push_line(&mut out, "Goal Text: ", self.text.as_str());
        push_line(&mut out, "Owner: ", self.owner.username());
        push_line(&mut out, "Is Active: ", render_bool(self.is_active));
        assert(out@ =~= self@.summary());
        out
    }
}

} // verus!
