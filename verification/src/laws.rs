//! What holds of the factories taken together, and of the steps of a session.
//!
//! The laws are stated over the outcomes that the contracts of the factories
//! and of the session promise, and proved from them.

use crate::error::ValidationError;
use crate::factory::{
    goal_outcome, goal_table_outcome, refusal, user_outcome, workspace_outcome,
};
use crate::goal::GoalView;
use crate::role::UserRole;
use crate::session::SessionView;
use crate::table::GoalTableView;
use crate::text::{is_blank, lemma_trimmed_empty_iff_blank, trimmed};
use crate::user::{is_email, UserView};
use crate::workspace::WorkSpaceView;
use vstd::prelude::*;

verus! {

/// A text that is empty or holds white space only is refused in every field
/// that must hold something visible, with the error of that field, and
/// nothing is built.
///
/// A goal table checks its title first: a blank description is reported only
/// where the title passes.
pub proof fn lemma_blank_field_is_refused(
    s: Seq<char>,
    id: u32,
    other: Seq<char>,
    owner: UserView,
    role: UserRole,
    parent: u32,
)
    requires
        s.len() == 0 || is_blank(s),
    ensures
        refusal(user_outcome(id, s, other, role)) == Some(ValidationError::EmptyUsername),
        refusal(workspace_outcome(id, s, owner)) == Some(ValidationError::EmptyDescription),
        refusal(goal_table_outcome(id, s, other, owner, parent)) == Some(
            ValidationError::EmptyTitle,
        ),
        !is_blank(other) ==> refusal(goal_table_outcome(id, other, s, owner, parent)) == Some(
            ValidationError::EmptyDescription,
        ),
        refusal(goal_outcome(id, owner, s, parent)) == Some(ValidationError::EmptyText),
{
}

/// An email address without an `@`, or without a `.`, is refused as
/// `InvalidEmail`, whatever else it holds.
///
/// The username is checked first, so this is stated of usernames that pass.
pub proof fn lemma_email_without_at_or_dot_is_refused(
    id: u32,
    username: Seq<char>,
    email: Seq<char>,
    role: UserRole,
)
    requires
        !is_blank(username),
        !email.contains('@') || !email.contains('.'),
    ensures
        refusal(user_outcome(id, username, email, role)) == Some(ValidationError::InvalidEmail),
{
}

/// An entity carries the id that its factory was given: no factory changes
/// an id or hands out another.
pub proof fn lemma_factories_keep_the_id(
    id: u32,
    first: Seq<char>,
    second: Seq<char>,
    owner: UserView,
    role: UserRole,
    parent: u32,
)
    ensures
        user_outcome(id, first, second, role) matches Ok(u) ==> u.id == id,
        workspace_outcome(id, first, owner) matches Ok(w) ==> w.id == id,
        goal_table_outcome(id, first, second, owner, parent) matches Ok(t) ==> t.id == id,
        goal_outcome(id, owner, first, parent) matches Ok(g) ==> g.id == id,
{
}

/// A factory may be asked again: with texts that pass, every call succeeds,
/// whatever was made before, and two calls give entities that agree in every
/// field but, where the ids given differ, the id.
pub proof fn lemma_factories_may_be_asked_again(
    id: u32,
    again: u32,
    first: Seq<char>,
    second: Seq<char>,
    owner: UserView,
    role: UserRole,
    parent: u32,
)
    ensures
        !is_blank(first) && is_email(second) ==> {
            &&& user_outcome(id, first, second, role) matches Ok(a)
            &&& user_outcome(again, first, second, role) matches Ok(b)
            &&& a == (UserView { id, ..b })
        },
        !is_blank(first) ==> {
            &&& workspace_outcome(id, first, owner) matches Ok(a)
            &&& workspace_outcome(again, first, owner) matches Ok(b)
            &&& a == (WorkSpaceView { id, ..b })
        },
        !is_blank(first) && !is_blank(second) ==> {
            &&& goal_table_outcome(id, first, second, owner, parent) matches Ok(a)
            &&& goal_table_outcome(again, first, second, owner, parent) matches Ok(b)
            &&& a == (GoalTableView { id, ..b })
        },
        !is_blank(first) ==> {
            &&& goal_outcome(id, owner, first, parent) matches Ok(a)
            &&& goal_outcome(again, owner, first, parent) matches Ok(b)
            &&& a == (GoalView { id, ..b })
        },
{
}

/// A factory reports an empty field exactly when nothing is left of the
/// text once it is trimmed, the earlier fields having passed.
pub proof fn lemma_refused_exactly_when_trimmed_is_empty(
    id: u32,
    first: Seq<char>,
    second: Seq<char>,
    owner: UserView,
    role: UserRole,
    parent: u32,
)
    ensures
        refusal(user_outcome(id, first, second, role)) == Some(ValidationError::EmptyUsername)
            <==> trimmed(first).len() == 0,
        refusal(workspace_outcome(id, first, owner)) == Some(ValidationError::EmptyDescription)
            <==> trimmed(first).len() == 0,
        refusal(goal_table_outcome(id, first, second, owner, parent)) == Some(
            ValidationError::EmptyTitle,
        ) <==> trimmed(first).len() == 0,
        refusal(goal_table_outcome(id, first, second, owner, parent)) == Some(
            ValidationError::EmptyDescription,
        ) <==> trimmed(first).len() != 0 && trimmed(second).len() == 0,
        refusal(goal_outcome(id, owner, first, parent)) == Some(ValidationError::EmptyText)
            <==> trimmed(first).len() == 0,
{
    lemma_trimmed_empty_iff_blank(first);
    lemma_trimmed_empty_iff_blank(second);
}

/// The counters of a session only ever go up, one id at a time, and only the
/// counter of the kind that was made. A step that fails leaves the session as
/// it was and uses no id up. A step that succeeds hands the value of its
/// counter to the new entity, moves that counter by one, and leaves the other
/// counters and the other current entities alone. Every step keeps the
/// session well-formed.
///
/// Each step is spoken of where its counter has an id left to hand out.
pub proof fn lemma_session_steps(
    s: SessionView,
    first: Seq<char>,
    second: Seq<char>,
    third: Seq<char>,
)
    requires
        s.well_formed(),
    ensures
        s.next_user_id < u32::MAX ==> ({
            let (next, r) = s.create_user(first, second, third);
            &&& next.well_formed()
            &&& r is Err ==> next == s
            &&& r is Ok ==> next.user is Some && next.user.unwrap().id == s.next_user_id
            &&& r is Ok ==> next == (SessionView {
                next_user_id: (s.next_user_id + 1) as u32,
                user: next.user,
                ..s
            })
        }),
        s.next_workspace_id < u32::MAX ==> ({
            let (next, r) = s.create_workspace(first);
            &&& next.well_formed()
            &&& r is Err ==> next == s
            &&& r is Ok ==> next.workspace is Some && next.workspace.unwrap().id
                == s.next_workspace_id
            &&& r is Ok ==> next == (SessionView {
                next_workspace_id: (s.next_workspace_id + 1) as u32,
                workspace: next.workspace,
                ..s
            })
        }),
        s.next_goal_table_id < u32::MAX ==> ({
            let (next, r) = s.create_goal_table(first, second);
            &&& next.well_formed()
            &&& r is Err ==> next == s
            &&& r is Ok ==> next.goal_table is Some && next.goal_table.unwrap().id
                == s.next_goal_table_id
            &&& r is Ok ==> next == (SessionView {
                next_goal_table_id: (s.next_goal_table_id + 1) as u32,
                goal_table: next.goal_table,
                ..s
            })
        }),
        s.next_goal_id < u32::MAX ==> ({
            let (next, r) = s.create_goal(first);
            &&& next.well_formed()
            &&& r is Err ==> next == s
            &&& r is Ok ==> next.goal is Some && next.goal.unwrap().id == s.next_goal_id
            &&& r is Ok ==> next == (SessionView {
                next_goal_id: (s.next_goal_id + 1) as u32,
                goal: next.goal,
                ..s
            })
        }),
{
}

} // verus!
