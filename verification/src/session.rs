//! The interactive session: one current entity of each kind, and the
//! counters that hand out ids.
//!
//! The session decides; it neither reads nor prints. Its caller gathers the
//! texts, hands them over, and shows what comes back.

use crate::display::{line, push_line};
use crate::error::ValidationError;
use crate::factory::{
    goal_outcome, goal_table_outcome, try_create_goal, try_create_goal_table, try_create_user,
    try_create_workspace, user_outcome, workspace_outcome,
};
use crate::goal::{Goal, GoalView};
use crate::menu::MenuChoice;
use crate::role::UserRole;
use crate::table::{GoalTable, GoalTableView};
use crate::user::{User, UserView};
use crate::workspace::{WorkSpace, WorkSpaceView};
use vstd::prelude::*;

verus! {

/// Why the session did not do what was asked.
#[derive(Clone, Copy, Debug, PartialEq, Eq, Structural)]
pub enum SessionError {
    /// The action needs a current user, and there is none yet.
    NoCurrentUser,
    /// The action needs a current workspace, and there is none yet.
    NoCurrentWorkspace,
    /// The action needs a current goal table, and there is none yet.
    NoCurrentGoalTable,
    /// The factory refused the input.
    Invalid(ValidationError),
}

impl SessionError {
    /// The message shown to the user for this error.
    pub open spec fn message_text(self) -> Seq<char> {
        match self {
            SessionError::NoCurrentUser => "Please create a user first."@,
            SessionError::NoCurrentWorkspace => "Please create a WorkSpace first."@,
            SessionError::NoCurrentGoalTable => "Please create a Goal Table first."@,
            SessionError::Invalid(e) => e.message_text(),
        }
    }

    /// The message shown to the user for this error.
    pub fn message(&self) -> (r: &'static str)
        ensures
            r@ == self.message_text(),
    {
        match self {
            SessionError::NoCurrentUser => "Please create a user first.",
            SessionError::NoCurrentWorkspace => "Please create a WorkSpace first.",
            SessionError::NoCurrentGoalTable => "Please create a Goal Table first.",
            SessionError::Invalid(e) => e.message(),
        }
    }
}

/// What a session is, as the contracts see it.
pub struct SessionView {
    /// The id that the next user gets.
    pub next_user_id: u32,
    /// The id that the next workspace gets.
    pub next_workspace_id: u32,
    /// The id that the next goal table gets.
    pub next_goal_table_id: u32,
    /// The id that the next goal gets.
    pub next_goal_id: u32,
    pub user: Option<UserView>,
    pub workspace: Option<WorkSpaceView>,
    pub goal_table: Option<GoalTableView>,
    pub goal: Option<GoalView>,
}

impl SessionView {
    /// A session in which nothing has been made yet: every counter at 1.
    pub open spec fn initial() -> SessionView {
        SessionView {
            next_user_id: 1,
            next_workspace_id: 1,
            next_goal_table_id: 1,
            next_goal_id: 1,
            user: None,
            workspace: None,
            goal_table: None,
            goal: None,
        }
    }

    /// What holds of every session: ids start at 1; each current entity is
    /// valid, was made by a valid user, and has an id that its counter has
    /// passed; a table names a workspace id, and a goal a table id, that has
    /// been handed out.
    pub open spec fn well_formed(self) -> bool {
        &&& self.next_user_id >= 1
        &&& self.next_workspace_id >= 1
        &&& self.next_goal_table_id >= 1
        &&& self.next_goal_id >= 1
        &&& self.user matches Some(u) ==> self.made_here(u)
        &&& self.workspace matches Some(w) ==> {
            &&& w.is_valid()
            &&& self.made_here(w.owner)
            &&& 1 <= w.id < self.next_workspace_id
        }
        &&& self.goal_table matches Some(t) ==> {
            &&& t.is_valid()
            &&& self.made_here(t.owner)
            &&& 1 <= t.id < self.next_goal_table_id
            &&& 1 <= t.workspace < self.next_workspace_id
        }
        &&& self.goal matches Some(g) ==> {
            &&& g.is_valid()
            &&& self.made_here(g.owner)
            &&& 1 <= g.id < self.next_goal_id
            &&& 1 <= g.table < self.next_goal_table_id
        }
    }

    /// Whether `u` is a valid user with an id that this session has handed out.
    pub open spec fn made_here(self, u: UserView) -> bool {
        u.is_valid() && 1 <= u.id < self.next_user_id
    }

    /// What stands in the way of the menu entry `choice`, if anything. A
    /// missing user is named before a missing workspace or table.
    pub open spec fn missing(self, choice: MenuChoice) -> Option<SessionError> {
        match choice {
            MenuChoice::CreateWorkspace => if self.user is None {
                Some(SessionError::NoCurrentUser)
            } else {
                None
            },
            MenuChoice::CreateGoalTable => if self.user is None {
                Some(SessionError::NoCurrentUser)
            } else if self.workspace is None {
                Some(SessionError::NoCurrentWorkspace)
            } else {
                None
            },
            MenuChoice::CreateGoal => if self.user is None {
                Some(SessionError::NoCurrentUser)
            } else if self.goal_table is None {
                Some(SessionError::NoCurrentGoalTable)
            } else {
                None
            },
            _ => None,
        }
    }

    /// The session after an attempt to make a user, and what the attempt
    /// returns. The role is read from `role_text`.
    pub open spec fn create_user(self, username: Seq<char>, email: Seq<char>, role_text: Seq<char>)
        -> (SessionView, Result<(), SessionError>) {
        match user_outcome(self.next_user_id, username, email, UserRole::named_by(role_text)) {
            Ok(u) => (
                SessionView {
                    next_user_id: (self.next_user_id + 1) as u32,
                    user: Some(u),
                    ..self
                },
                Ok(()),
            ),
            Err(e) => (self, Err(SessionError::Invalid(e))),
        }
    }

    /// The session after an attempt to make a workspace for the current user,
    /// and what the attempt returns.
    pub open spec fn create_workspace(self, description: Seq<char>) -> (
        SessionView,
        Result<(), SessionError>,
    ) {
        match self.missing(MenuChoice::CreateWorkspace) {
            Some(e) => (self, Err(e)),
            None => match workspace_outcome(
                self.next_workspace_id,
                description,
                self.user.unwrap(),
            ) {
                Ok(w) => (
                    SessionView {
                        next_workspace_id: (self.next_workspace_id + 1) as u32,
                        workspace: Some(w),
                        ..self
                    },
                    Ok(()),
                ),
                Err(e) => (self, Err(SessionError::Invalid(e))),
            },
        }
    }

    /// The session after an attempt to make a goal table for the current user
    /// in the current workspace, and what the attempt returns.
    pub open spec fn create_goal_table(self, title: Seq<char>, description: Seq<char>) -> (
        SessionView,
        Result<(), SessionError>,
    ) {
        match self.missing(MenuChoice::CreateGoalTable) {
            Some(e) => (self, Err(e)),
            None => match goal_table_outcome(
                self.next_goal_table_id,
                title,
                description,
                self.user.unwrap(),
                self.workspace.unwrap().id,
            ) {
                Ok(t) => (
                    SessionView {
                        next_goal_table_id: (self.next_goal_table_id + 1) as u32,
                        goal_table: Some(t),
                        ..self
                    },
                    Ok(()),
                ),
                Err(e) => (self, Err(SessionError::Invalid(e))),
            },
        }
    }

    /// The session after an attempt to make a goal for the current user in
    /// the current goal table, and what the attempt returns.
    pub open spec fn create_goal(self, text: Seq<char>) -> (
        SessionView,
        Result<(), SessionError>,
    ) {
        match self.missing(MenuChoice::CreateGoal) {
            Some(e) => (self, Err(e)),
            None => match goal_outcome(
                self.next_goal_id,
                self.user.unwrap(),
                text,
                self.goal_table.unwrap().id,
            ) {
                Ok(g) => (
                    SessionView {
                        next_goal_id: (self.next_goal_id + 1) as u32,
                        goal: Some(g),
                        ..self
                    },
                    Ok(()),
                ),
                Err(e) => (self, Err(SessionError::Invalid(e))),
            },
        }
    }

    /// The summaries of the current entities: user, workspace, goal table,
    /// goal, in this order, with one line in place of each that is missing.
    pub open spec fn report(self) -> Seq<char> {
        (match self.user {
            Some(u) => u.summary(),
            None => line("No user created."@, Seq::empty()),
        }) + (match self.workspace {
            Some(w) => w.summary(),
            None => line("No workspace created."@, Seq::empty()),
        }) + (match self.goal_table {
            Some(t) => t.summary(),
            None => line("No goal table created."@, Seq::empty()),
        }) + (match self.goal {
            Some(g) => g.summary(),
            None => line("No goal created."@, Seq::empty()),
        })
    }
}

/// One entity of each kind, made to try the model out.
#[derive(Debug)]
pub struct TestEnvironment {
    pub user: User,
    pub goal: Goal,
    pub goal_table: GoalTable,
    pub workspace: WorkSpace,
}

/// Makes the test environment: a user, and a goal, a goal table and a
/// workspace of that user, each with the id 1.
///
/// The workspace holds the table as it was before the goal was added to it;
/// the table that is handed back holds the goal. The session is not touched.
pub fn test_environment() -> (r: TestEnvironment)
    ensures
        r.user@ == (UserView {
            id: 1,
            username: "test_user"@,
            email: "test_user@gmail.com"@,
            is_active: true,
            role: UserRole::Classic,
        }),
        r.goal@ == (GoalView {
            id: 1,
            owner: r.user@,
            text: "Test Goal"@,
            table: 1,
            created_at: 0,
            is_active: true,
        }),
        r.goal_table@ == (GoalTableView {
            id: 1,
            title: "Test Table"@,
            description: "Test Description"@,
            owner: r.user@,
            workspace: 1,
            created_at: 0,
            goals: seq![r.goal@],
            is_active: true,
        }),
        r.workspace@ == (WorkSpaceView {
            id: 1,
            description: "Test Workspace"@,
            owner: r.user@,
            created_at: 0,
            tables: seq![(GoalTableView { goals: Seq::empty(), ..r.goal_table@ })],
        }),
        r.user@.is_valid(),
        r.goal@.is_valid(),
        r.goal_table@.is_valid(),
        r.workspace@.is_valid(),
{
    let user = User::new(
        1,
        String::from_str("test_user"),
        String::from_str("test_user@gmail.com"),
        UserRole::Classic,
    );
    let goal = Goal::new(1, user.clone(), String::from_str("Test Goal"), 1);
    let mut goal_table = GoalTable::new(
        1,
        String::from_str("Test Table"),
        String::from_str("Test Description"),
        user.clone(),
        1,
    );
    let mut workspace = WorkSpace::new(1, String::from_str("Test Workspace"), user.clone());
    workspace.add_table(goal_table.clone());
    goal_table.add_goal(goal.clone());
    proof {
        reveal_strlit("test_user");
        reveal_strlit("test_user@gmail.com");
        reveal_strlit("Test Goal");
        reveal_strlit("Test Table");
        reveal_strlit("Test Description");
        reveal_strlit("Test Workspace");
        assert("test_user"@[0] == 't');
        assert("test_user@gmail.com"@[9] == '@');
        assert("test_user@gmail.com"@[15] == '.');
        assert("Test Goal"@[0] == 'T');
        assert("Test Table"@[0] == 'T');
        assert("Test Description"@[0] == 'T');
        assert("Test Workspace"@[0] == 'T');
        assert(goal_table@.goals =~= seq![goal@]);
        let bare = GoalTableView { goals: Seq::empty(), ..goal_table@ };
        assert(workspace@.tables =~= seq![bare]);
    }
    TestEnvironment { user, goal, goal_table, workspace }
}

/// The view of an entity that may be missing.
pub open spec fn option_view<T: View>(o: Option<T>) -> Option<T::V> {
    match o {
        Some(entity) => Some(entity@),
        None => None,
    }
}

/// The state of one interactive session.
#[derive(Debug)]
pub struct Session {
    next_user_id: u32,
    next_workspace_id: u32,
    next_goal_table_id: u32,
    next_goal_id: u32,
    current_user: Option<User>,
    current_workspace: Option<WorkSpace>,
    current_goal_table: Option<GoalTable>,
    current_goal: Option<Goal>,
}

impl View for Session {
    type V = SessionView;

    closed spec fn view(&self) -> SessionView {
        SessionView {
            next_user_id: self.next_user_id,
            next_workspace_id: self.next_workspace_id,
            next_goal_table_id: self.next_goal_table_id,
            next_goal_id: self.next_goal_id,
            user: option_view(self.current_user),
            workspace: option_view(self.current_workspace),
            goal_table: option_view(self.current_goal_table),
            goal: option_view(self.current_goal),
        }
    }
}

impl Session {
    #[verifier::type_invariant]
    spec fn holds_together(self) -> bool {
        self@.well_formed()
    }

    /// A session in which nothing has been made yet.
    pub fn new() -> (r: Session)
        ensures
            r@ == SessionView::initial(),
            r@.well_formed(),
    {
        Session {
            next_user_id: 1,
            next_workspace_id: 1,
            next_goal_table_id: 1,
            next_goal_id: 1,
            current_user: None,
            current_workspace: None,
            current_goal_table: None,
            current_goal: None,
        }
    }

    /// The id that the next user gets.
    pub fn next_user_id(&self) -> (r: u32)
        ensures
            r == self@.next_user_id,
            r >= 1,
    {
        proof {
            use_type_invariant(self);
        }
        self.next_user_id
    }

    /// The id that the next workspace gets.
    pub fn next_workspace_id(&self) -> (r: u32)
        ensures
            r == self@.next_workspace_id,
            r >= 1,
    {
        proof {
            use_type_invariant(self);
        }
        self.next_workspace_id
    }

    /// The id that the next goal table gets.
    pub fn next_goal_table_id(&self) -> (r: u32)
        ensures
            r == self@.next_goal_table_id,
            r >= 1,
    {
        proof {
            use_type_invariant(self);
        }
        self.next_goal_table_id
    }

    /// The id that the next goal gets.
    pub fn next_goal_id(&self) -> (r: u32)
        ensures
            r == self@.next_goal_id,
            r >= 1,
    {
        proof {
            use_type_invariant(self);
        }
        self.next_goal_id
    }

    /// The user made last, if any.
    pub fn current_user(&self) -> (r: Option<&User>)
        ensures
            option_view(r) == self@.user,
            self@.well_formed(),
    {
        proof {
            use_type_invariant(self);
        }
        self.current_user.as_ref()
    }

    /// The workspace made last, if any.
    pub fn current_workspace(&self) -> (r: Option<&WorkSpace>)
        ensures
            option_view(r) == self@.workspace,
            self@.well_formed(),
    {
        proof {
            use_type_invariant(self);
        }
        self.current_workspace.as_ref()
    }

    /// The goal table made last, if any.
    pub fn current_goal_table(&self) -> (r: Option<&GoalTable>)
        ensures
            option_view(r) == self@.goal_table,
            self@.well_formed(),
    {
        proof {
            use_type_invariant(self);
        }
        self.current_goal_table.as_ref()
    }

    /// The goal made last, if any.
    pub fn current_goal(&self) -> (r: Option<&Goal>)
        ensures
            option_view(r) == self@.goal,
            self@.well_formed(),
    {
        proof {
            use_type_invariant(self);
        }
        self.current_goal.as_ref()
    }

    /// Says what stands in the way of the menu entry `choice`, if anything,
    /// so that the caller need not ask for input that cannot be used.
    pub fn missing_for(&self, choice: MenuChoice) -> (r: Option<SessionError>)
        ensures
            r == self@.missing(choice),
    {
        match choice {
            MenuChoice::CreateWorkspace => {
                if self.current_user.is_none() {
                    Some(SessionError::NoCurrentUser)
                } else {
                    None
                }
            },
            MenuChoice::CreateGoalTable => {
                if self.current_user.is_none() {
                    Some(SessionError::NoCurrentUser)
                } else if self.current_workspace.is_none() {
                    Some(SessionError::NoCurrentWorkspace)
                } else {
                    None
                }
            },
            MenuChoice::CreateGoal => {
                if self.current_user.is_none() {
                    Some(SessionError::NoCurrentUser)
                } else if self.current_goal_table.is_none() {
                    Some(SessionError::NoCurrentGoalTable)
                } else {
                    None
                }
            },
            _ => None,
        }
    }

    /// Makes a user with the next user id and the role that `role_text`
    /// names, and keeps it as the current user.
    ///
    /// Where the factory refuses the input, the session stays as it was: no
    /// id is used up.
    pub fn create_user(&mut self, username: String, email: String, role_text: &str) -> (r: Result<
        (),
        SessionError,
    >)
        requires
            old(self)@.next_user_id < u32::MAX,
        ensures
            (final(self)@, r) == old(self)@.create_user(username@, email@, role_text@),
            final(self)@.well_formed(),
            r is Err ==> final(self)@ == old(self)@,
            r is Ok ==> final(self)@.next_user_id == old(self)@.next_user_id + 1,
            r is Ok ==> final(self)@.user is Some && final(self)@.user.unwrap().id
                == old(self)@.next_user_id,
    {
        proof {
            use_type_invariant(&*self);
        }
        let role = UserRole::parse(role_text);
        match try_create_user(self.next_user_id, username, email, role) {
            Ok(user) => {
                self.next_user_id = self.next_user_id + 1;
                self.current_user = Some(user);
                Ok(())
            },
            Err(e) => Err(SessionError::Invalid(e)),
        }
    }

    /// Makes a workspace with the next workspace id for the current user, and
    /// keeps it as the current workspace.
    ///
    /// Without a current user, or where the factory refuses the input, the
    /// session stays as it was: no id is used up.
    pub fn create_workspace(&mut self, description: String) -> (r: Result<(), SessionError>)
        requires
            old(self)@.next_workspace_id < u32::MAX,
        ensures
            (final(self)@, r) == old(self)@.create_workspace(description@),
            final(self)@.well_formed(),
            r is Err ==> final(self)@ == old(self)@,
            r is Ok ==> final(self)@.next_workspace_id == old(self)@.next_workspace_id + 1,
            r is Ok ==> final(self)@.workspace is Some && final(self)@.workspace.unwrap().id
                == old(self)@.next_workspace_id,
            r is Ok ==> Some(final(self)@.workspace.unwrap().owner) == old(self)@.user,
    {
        proof {
            use_type_invariant(&*self);
        }
        let owner = match &self.current_user {
            Some(user) => user.clone(),
            None => {
                return Err(SessionError::NoCurrentUser);
            },
        };
        match try_create_workspace(self.next_workspace_id, description, owner) {
            Ok(workspace) => {
                self.next_workspace_id = self.next_workspace_id + 1;
                self.current_workspace = Some(workspace);
                Ok(())
            },
            Err(e) => Err(SessionError::Invalid(e)),
        }
    }

    /// Makes a goal table with the next table id for the current user, tagged
    /// with the id of the current workspace, and keeps it as the current
    /// goal table. The workspace itself is left as it is.
    ///
    /// Without a current user or workspace, or where the factory refuses the
    /// input, the session stays as it was: no id is used up.
    pub fn create_goal_table(&mut self, title: String, description: String) -> (r: Result<
        (),
        SessionError,
    >)
        requires
            old(self)@.next_goal_table_id < u32::MAX,
        ensures
            (final(self)@, r) == old(self)@.create_goal_table(title@, description@),
            final(self)@.well_formed(),
            r is Err ==> final(self)@ == old(self)@,
            r is Ok ==> final(self)@.next_goal_table_id == old(self)@.next_goal_table_id + 1,
            r is Ok ==> final(self)@.goal_table is Some && final(self)@.goal_table.unwrap().id
                == old(self)@.next_goal_table_id,
            r is Ok ==> Some(final(self)@.goal_table.unwrap().owner) == old(self)@.user,
            r is Ok ==> old(self)@.workspace is Some && final(self)@.goal_table.unwrap().workspace
                == old(self)@.workspace.unwrap().id,
    {
        proof {
            use_type_invariant(&*self);
        }
        let owner = match &self.current_user {
            Some(user) => user.clone(),
            None => {
                return Err(SessionError::NoCurrentUser);
            },
        };
        let workspace_id = match &self.current_workspace {
            Some(workspace) => workspace.id(),
            None => {
                return Err(SessionError::NoCurrentWorkspace);
            },
        };
        let id = self.next_goal_table_id;
        match try_create_goal_table(id, title, description, owner, workspace_id) {
            Ok(table) => {
                self.next_goal_table_id = self.next_goal_table_id + 1;
                self.current_goal_table = Some(table);
                Ok(())
            },
            Err(e) => Err(SessionError::Invalid(e)),
        }
    }

    /// Makes a goal with the next goal id for the current user, tagged with
    /// the id of the current goal table, and keeps it as the current goal.
    /// The table itself is left as it is.
    ///
    /// Without a current user or goal table, or where the factory refuses the
    /// input, the session stays as it was: no id is used up.
    pub fn create_goal(&mut self, text: String) -> (r: Result<(), SessionError>)
        requires
            old(self)@.next_goal_id < u32::MAX,
        ensures
            (final(self)@, r) == old(self)@.create_goal(text@),
            final(self)@.well_formed(),
            r is Err ==> final(self)@ == old(self)@,
            r is Ok ==> final(self)@.next_goal_id == old(self)@.next_goal_id + 1,
            r is Ok ==> final(self)@.goal is Some && final(self)@.goal.unwrap().id
                == old(self)@.next_goal_id,
            r is Ok ==> Some(final(self)@.goal.unwrap().owner) == old(self)@.user,
            r is Ok ==> old(self)@.goal_table is Some && final(self)@.goal.unwrap().table
                == old(self)@.goal_table.unwrap().id,
    {
        proof {
            use_type_invariant(&*self);
        }
        let owner = match &self.current_user {
            Some(user) => user.clone(),
            None => {
                return Err(SessionError::NoCurrentUser);
            },
        };
        let table_id = match &self.current_goal_table {
            Some(table) => table.id(),
            None => {
                return Err(SessionError::NoCurrentGoalTable);
            },
        };
        match try_create_goal(self.next_goal_id, owner, text, table_id) {
            Ok(goal) => {
                self.next_goal_id = self.next_goal_id + 1;
                self.current_goal = Some(goal);
                Ok(())
            },
            Err(e) => Err(SessionError::Invalid(e)),
        }
    }

    /// Renders the summaries of the current entities, with one line in place
    /// of each that is missing.
    pub fn print_all(&self) -> (r: String)
        ensures
            r@ == self@.report(),
    {
        proof {
            reveal_strlit("");
            assert(""@ =~= Seq::<char>::empty());
        }
        let mut out = String::new();
        match &self.current_user {
            Some(user) => {
                let text = user.display_info();
                out.append(text.as_str());
            },
            None => {
                push_line(&mut out, "No user created.", "");
            },
        }
        match &self.current_workspace {
            Some(workspace) => {
                let text = workspace.display_info();
                out.append(text.as_str());
            },
            None => {
                push_line(&mut out, "No workspace created.", "");
            },
        }
        match &self.current_goal_table {
            Some(table) => {
                let text = table.display_info();
                out.append(text.as_str());
            },
            None => {
                push_line(&mut out, "No goal table created.", "");
            },
        }
        match &self.current_goal {
            Some(goal) => {
                let text = goal.display_info();
                out.append(text.as_str());
            },
            None => {
                push_line(&mut out, "No goal created.", "");
            },
        }
        assert(out@ =~= self@.report());
        out
    }
}

} // verus!
