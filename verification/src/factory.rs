//! The validating factories: the only way to an entity that is known to be
//! valid. Each checks its texts in a fixed order and reports the first rule
//! that is broken; nothing is built unless every check passes.

use crate::error::ValidationError;
use crate::goal::{Goal, GoalView};
use crate::role::UserRole;
use crate::table::{GoalTable, GoalTableView};
use crate::text::{is_blank, is_blank_text};
use crate::user::{is_email, is_email_text, User, UserView};
use crate::workspace::{WorkSpace, WorkSpaceView};
use vstd::prelude::*;

verus! {

/// What a factory returned, with the entity seen through its view.
pub open spec fn outcome_view<T: View>(r: Result<T, ValidationError>) -> Result<
    T::V,
    ValidationError,
> {
    match r {
        Ok(entity) => Ok(entity@),
        Err(e) => Err(e),
    }
}

/// The error with which a factory refused, if it did.
pub open spec fn refusal<T>(r: Result<T, ValidationError>) -> Option<ValidationError> {
    match r {
        Ok(_) => None,
        Err(e) => Some(e),
    }
}

/// What `try_create_user` returns: the username is checked first, then the
/// email address.
pub open spec fn user_outcome(id: u32, username: Seq<char>, email: Seq<char>, role: UserRole)
    -> Result<UserView, ValidationError> {
    if is_blank(username) {
        Err(ValidationError::EmptyUsername)
    } else if !is_email(email) {
        Err(ValidationError::InvalidEmail)
    } else {
        Ok(UserView { id, username, email, is_active: true, role })
    }
}

/// What `try_create_workspace` returns.
pub open spec fn workspace_outcome(id: u32, description: Seq<char>, owner: UserView) -> Result<
    WorkSpaceView,
    ValidationError,
> {
    if is_blank(description) {
        Err(ValidationError::EmptyDescription)
    } else {
        Ok(WorkSpaceView { id, description, owner, created_at: 0, tables: Seq::empty() })
    }
}

/// What `try_create_goal_table` returns: the title is checked first, then the
/// description.
pub open spec fn goal_table_outcome(
    id: u32,
    title: Seq<char>,
    description: Seq<char>,
    owner: UserView,
    workspace: u32,
) -> Result<GoalTableView, ValidationError> {
    if is_blank(title) {
        Err(ValidationError::EmptyTitle)
    } else if is_blank(description) {
        Err(ValidationError::EmptyDescription)
    } else {
        Ok(
            GoalTableView {
                id,
                title,
                description,
                owner,
                workspace,
                created_at: 0,
                goals: Seq::empty(),
                is_active: true,
            },
        )
    }
}

/// What `try_create_goal` returns.
pub open spec fn goal_outcome(id: u32, owner: UserView, text: Seq<char>, table: u32) -> Result<
    GoalView,
    ValidationError,
> {
    if is_blank(text) {
        Err(ValidationError::EmptyText)
    } else {
        Ok(GoalView { id, owner, text, table, created_at: 0, is_active: true })
    }
}

/// Makes an active user, or says which rule the input broke.
///
/// The username must hold something visible, else `EmptyUsername`; the email
/// address must hold an `@` and a `.`, else `InvalidEmail`. The username is
/// checked first. The id is taken as it is.
pub fn try_create_user(id: u32, username: String, email: String, user_role: UserRole) -> (r: Result<
    User,
    ValidationError,
>)
    ensures
        outcome_view(r) == user_outcome(id, username@, email@, user_role),
        is_blank(username@) ==> refusal(r) == Some(ValidationError::EmptyUsername),
        !is_blank(username@) && !(email@.contains('@') && email@.contains('.')) ==> refusal(r)
            == Some(ValidationError::InvalidEmail),
        !is_blank(username@) && email@.contains('@') && email@.contains('.') ==> r is Ok,
        r matches Ok(user) ==> user@.is_valid() && user@ == (UserView {
            id,
            username: username@,
            email: email@,
            is_active: true,
            role: user_role,
        }),
{
    if is_blank_text(username.as_str()) {
        return Err(ValidationError::EmptyUsername);
    }
    if !is_email_text(email.as_str()) {
        return Err(ValidationError::InvalidEmail);
    }
    Ok(User::new(id, username, email, user_role))
}

/// Makes a goal, or says which rule the input broke.
///
/// The text must hold something visible, else `EmptyText`. The ids are taken
/// as they are: nothing holds `table` to a table that exists.
pub fn try_create_goal(id: u32, owner: User, text: String, table: u32) -> (r: Result<
    Goal,
    ValidationError,
>)
    ensures
        outcome_view(r) == goal_outcome(id, owner@, text@, table),
        is_blank(text@) ==> refusal(r) == Some(ValidationError::EmptyText),
        !is_blank(text@) ==> r is Ok,
        r matches Ok(goal) ==> goal@.is_valid() && goal@ == (GoalView {
            id,
            owner: owner@,
            text: text@,
            table,
            created_at: 0,
            is_active: true,
        }),
{
    if is_blank_text(text.as_str()) {
        return Err(ValidationError::EmptyText);
    }
    Ok(Goal::new(id, owner, text, table))
}

/// Makes an active goal table without goals, or says which rule the input
/// broke.
///
/// The title must hold something visible, else `EmptyTitle`; so must the
/// description, else `EmptyDescription`. The title is checked first. The ids
/// are taken as they are: nothing holds `workspace` to a workspace that
/// exists.
pub fn try_create_goal_table(
    id: u32,
    title: String,
    description: String,
    owner: User,
    workspace: u32,
) -> (r: Result<GoalTable, ValidationError>)
    ensures
        outcome_view(r) == goal_table_outcome(id, title@, description@, owner@, workspace),
        is_blank(title@) ==> refusal(r) == Some(ValidationError::EmptyTitle),
        !is_blank(title@) && is_blank(description@) ==> refusal(r) == Some(
            ValidationError::EmptyDescription,
        ),
        !is_blank(title@) && !is_blank(description@) ==> r is Ok,
        r matches Ok(table) ==> table@.is_valid() && table@ == (GoalTableView {
            id,
            title: title@,
            description: description@,
            owner: owner@,
            workspace,
            created_at: 0,
            goals: Seq::empty(),
            is_active: true,
        }),
{
    if is_blank_text(title.as_str()) {
        return Err(ValidationError::EmptyTitle);
    } else if is_blank_text(description.as_str()) {
        return Err(ValidationError::EmptyDescription);
    }
    Ok(GoalTable::new(id, title, description, owner, workspace))
}

/// Makes a workspace without tables, or says which rule the input broke.
///
/// The description must hold something visible, else `EmptyDescription`. The
/// id is taken as it is.
pub fn try_create_workspace(id: u32, description: String, owner: User) -> (r: Result<
    WorkSpace,
    ValidationError,
>)
    ensures
        outcome_view(r) == workspace_outcome(id, description@, owner@),
        is_blank(description@) ==> refusal(r) == Some(ValidationError::EmptyDescription),
        !is_blank(description@) ==> r is Ok,
        r matches Ok(workspace) ==> workspace@.is_valid() && workspace@ == (WorkSpaceView {
            id,
            description: description@,
            owner: owner@,
            created_at: 0,
            tables: Seq::empty(),
        }),
{
    if is_blank_text(description.as_str()) {
        return Err(ValidationError::EmptyDescription);
    }
    Ok(WorkSpace::new(id, description, owner))
}

} // verus!
