//! Goal tables: titled lists of goals inside a workspace.

use crate::clock::TimeOfDay;
use crate::display::{bool_text, bullets, line, push_bullet, push_line, render_bool};
use crate::goal::{Goal, GoalView};
use crate::text::is_blank;
use crate::user::{User, UserView};
use vstd::prelude::*;

verus! {

/// What a goal table is, as the contracts see it.
pub struct GoalTableView {
    pub id: u32,
    pub title: Seq<char>,
    pub description: Seq<char>,
    pub owner: UserView,
    /// The id of the workspace that the table was made for. Nothing holds it
    /// to a workspace that exists.
    pub workspace: u32,
    /// Seconds after midnight.
    pub created_at: nat,
    /// The goals of the table, in the order in which they were added.
    pub goals: Seq<GoalView>,
    pub is_active: bool,
}

impl GoalTableView {
    /// A table as the validating factory makes it: title and description have
    /// something visible in them.
    pub open spec fn is_valid(self) -> bool {
        !is_blank(self.title) && !is_blank(self.description)
    }

    /// The texts of the goals, in their order.
    pub open spec fn goal_texts(self) -> Seq<Seq<char>> {
        self.goals.map_values(|g: GoalView| g.text)
    }

    /// The summary of a table: title, description, owner and activity, one
    /// line each, then the heading `Goals:` and one bulleted line for the
    /// text of each goal.
    pub open spec fn summary(self) -> Seq<char> {
        line("Table Title: "@, self.title) + line("Description: "@, self.description) + line(
            "Owner: "@,
            self.owner.username,
        ) + line("Is Active: "@, bool_text(self.is_active)) + line("Goals:"@, Seq::empty())
            + bullets(self.goal_texts())
    }
}

/// The views of a list of goals, in their order.
pub open spec fn goal_views(goals: Seq<Goal>) -> Seq<GoalView> {
    goals.map_values(|g: Goal| g@)
}

/// A goal table.
#[derive(Debug)]
pub struct GoalTable {
    id: u32,
    title: String,
    description: String,
    owner: User,
    workspace: u32,
    create_at: TimeOfDay,
    goals: Vec<Goal>,
    is_active: bool,
}

impl View for GoalTable {
    type V = GoalTableView;

    closed spec fn view(&self) -> GoalTableView {
        GoalTableView {
            id: self.id,
            title: self.title@,
            description: self.description@,
            owner: self.owner@,
            workspace: self.workspace,
            created_at: self.create_at@,
            goals: goal_views(self.goals@),
            is_active: self.is_active,
        }
    }
}

impl Clone for GoalTable {
    fn clone(&self) -> (r: Self)
        ensures
            r@ == self@,
    {
        let mut goals: Vec<Goal> = Vec::new();
        for i in 0..self.goals.len()
            invariant
                goals@.len() == i,
                goal_views(goals@) == goal_views(self.goals@.take(i as int)),
        {
            let ghost before = goals@;
            let copy = self.goals[i].clone();
            goals.push(copy);
            proof {
                let source = self.goals@.take(i + 1);
                assert forall|j: int| 0 <= j < i + 1 implies goal_views(goals@)[j] == goal_views(
                    source,
                )[j] by {
                    if j < i {
                        assert(goal_views(before)[j] == goal_views(self.goals@.take(i as int))[j]);
                    }
                }
                assert(goal_views(goals@) =~= goal_views(source));
            }
        }
        assert(self.goals@.take(self.goals@.len() as int) == self.goals@);
        GoalTable {
            id: self.id,
            title: self.title.clone(),
            description: self.description.clone(),
            owner: self.owner.clone(),
            workspace: self.workspace,
            create_at: self.create_at,
            goals,
            is_active: self.is_active,
        }
    }
}

impl GoalTable {
    /// An active table without goals, with the given fields taken as they
    /// are, stamped with the start of the day.
    pub fn new(id: u32, title: String, description: String, owner: User, workspace: u32) -> (r:
        GoalTable)
        ensures
            r@ == (GoalTableView {
                id,
                title: title@,
                description: description@,
                owner: owner@,
                workspace,
                created_at: 0,
                goals: Seq::empty(),
                is_active: true,
            }),
    {
        let r = GoalTable {
            id,
            title,
            description,
            owner,
            workspace,
            create_at: TimeOfDay::midnight(),
            goals: Vec::new(),
            is_active: true,
        };
        assert(r@.goals =~= Seq::empty());
        r
    }

    /// Adds `goal` behind the goals that the table holds: there is one goal
    /// more, the new one last, and those before it keep their places. Nothing
    /// else changes, and no goal is refused.
    pub fn add_goal(&mut self, goal: Goal)
        ensures
            final(self)@ == (GoalTableView { goals: old(self)@.goals.push(goal@), ..old(self)@ }),
            final(self)@.goals.len() == old(self)@.goals.len() + 1,
            final(self)@.goals.last() == goal@,
            forall|i: int|
                0 <= i < old(self)@.goals.len() ==> final(self)@.goals[i] == old(self)@.goals[i],
    {
        self.goals.push(goal);
        assert(self@.goals =~= old(self)@.goals.push(goal@));
    }

    /// The id of this table.
    pub fn id(&self) -> (r: u32)
        ensures
            r == self@.id,
    {
        self.id
    }

    /// The title, as it was given.
    pub fn title(&self) -> (r: &str)
        ensures
            r@ == self@.title,
    {
        self.title.as_str()
    }

    /// The description, as it was given.
    pub fn description(&self) -> (r: &str)
        ensures
            r@ == self@.description,
    {
        self.description.as_str()
    }

    /// The user who owns this table.
    pub fn owner(&self) -> (r: &User)
        ensures
            r@ == self@.owner,
    {
        &self.owner
    }

    /// The id of the workspace that this table was made for.
    pub fn workspace(&self) -> (r: u32)
        ensures
            r == self@.workspace,
    {
        self.workspace
    }

    /// When this table was made.
    pub fn created_at(&self) -> (r: TimeOfDay)
        ensures
            r@ == self@.created_at,
    {
        self.create_at
    }

    /// The goals of this table, in the order in which they were added.
    pub fn goals(&self) -> (r: &Vec<Goal>)
        ensures
            goal_views(r@) == self@.goals,
    {
        &self.goals
    }

    /// Whether this table is active.
    pub fn is_active(&self) -> (r: bool)
        ensures
            r == self@.is_active,
    {
        self.is_active
    }

    /// Renders the summary of this table.
    pub fn display_info(&self) -> (r: String)
        ensures
            r@ == self@.summary(),
    {
        let mut out = String::new();
        push_line(&mut out, "Table Title: ", self.title.as_str());
        push_line(&mut out, "Description: ", self.description.as_str());
        push_line(&mut out, "Owner: ", self.owner.username());
        push_line(&mut out, "Is Active: ", render_bool(self.is_active));
        push_line(&mut out, "Goals:", "");
        let ghost head = out@;
        let ghost texts = self@.goal_texts();
        proof {
            reveal_strlit("");
            assert(""@ =~= Seq::<char>::empty());
            assert(texts.take(0) =~= Seq::<Seq<char>>::empty());
        }
        for i in 0..self.goals.len()
            invariant
                texts == self@.goal_texts(),
                out@ == head + bullets(texts.take(i as int)),
        {
            push_bullet(&mut out, self.goals[i].text());
            proof {
                let upto = texts.take(i + 1);
                assert(upto.drop_last() == texts.take(i as int));
                assert(upto.last() == self.goals@[i as int]@.text);
                assert(out@ =~= head + bullets(upto));
            }
        }
        assert(texts.take(texts.len() as int) == texts);
        assert(out@ =~= self@.summary());
        out
    }
}

} // verus!
