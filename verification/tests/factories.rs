use goal_tracker::clock::TimeOfDay;
use goal_tracker::error::ValidationError;
use goal_tracker::factory::{
    try_create_goal, try_create_goal_table, try_create_user, try_create_workspace,
};
use goal_tracker::role::UserRole;
use goal_tracker::user::User;

const BLANKS: [&str; 6] = ["", " ", "   ", "\t", " \r\n ", "\u{a0}\u{2003}\u{3000}"];

fn owner() -> User {
    User::new(7, "owner".to_string(), "owner@example.org".to_string(), UserRole::Owner)
}

fn same_user(a: &User, b: &User) -> bool {
    a.id() == b.id()
        && a.username() == b.username()
        && a.email() == b.email()
        && a.is_active() == b.is_active()
        && a.role() == b.role()
}

#[test]
fn user_with_valid_fields_is_created() {
    let user = try_create_user(1, "alice".to_string(), "a@b.com".to_string(), UserRole::Classic)
        .unwrap();
    assert_eq!(user.id(), 1);
    assert_eq!(user.username(), "alice");
    assert_eq!(user.email(), "a@b.com");
    assert!(user.is_active());
    assert_eq!(user.role(), UserRole::Classic);
}

#[test]
fn user_with_blank_username_is_refused() {
    let r = try_create_user(1, "  ".to_string(), "a@b.com".to_string(), UserRole::Classic);
    assert_eq!(r.err(), Some(ValidationError::EmptyUsername));
}

#[test]
fn goal_added_to_table_is_its_first_goal() {
    let mut table =
        try_create_goal_table(1, "T".to_string(), "D".to_string(), owner(), 5).unwrap();
    let goal = try_create_goal(1, owner(), "text".to_string(), 1).unwrap();
    table.add_goal(goal);
    assert_eq!(table.goals().len(), 1);
    assert_eq!(table.goals()[0].text(), "text");
}

#[test]
fn blank_text_is_refused_by_every_factory() {
    for s in BLANKS {
        let user = try_create_user(1, s.to_string(), "a@b.com".to_string(), UserRole::Vip);
        assert_eq!(user.err(), Some(ValidationError::EmptyUsername));
        let workspace = try_create_workspace(1, s.to_string(), owner());
        assert_eq!(workspace.err(), Some(ValidationError::EmptyDescription));
        let by_title = try_create_goal_table(1, s.to_string(), "D".to_string(), owner(), 1);
        assert_eq!(by_title.err(), Some(ValidationError::EmptyTitle));
        let by_description = try_create_goal_table(1, "T".to_string(), s.to_string(), owner(), 1);
        assert_eq!(by_description.err(), Some(ValidationError::EmptyDescription));
        let goal = try_create_goal(1, owner(), s.to_string(), 1);
        assert_eq!(goal.err(), Some(ValidationError::EmptyText));
    }
}

#[test]
fn username_is_checked_before_email() {
    let r = try_create_user(1, " ".to_string(), "nowhere".to_string(), UserRole::Classic);
    assert_eq!(r.err(), Some(ValidationError::EmptyUsername));
}

#[test]
fn title_is_checked_before_description() {
    let r = try_create_goal_table(1, "".to_string(), "".to_string(), owner(), 1);
    assert_eq!(r.err(), Some(ValidationError::EmptyTitle));
}

#[test]
fn email_without_at_or_dot_is_refused() {
    for email in ["", "a", "a@b", "a.b", "ab.com", "a@bcom", "@", ".", "a b"] {
        let r = try_create_user(1, "alice".to_string(), email.to_string(), UserRole::Classic);
        assert_eq!(r.err(), Some(ValidationError::InvalidEmail), "{:?}", email);
    }
}

#[test]
fn email_with_at_and_dot_is_accepted_whatever_else_it_holds() {
    for email in ["a@b.com", ".@", "@.", "x.y@z", " @ . "] {
        let r = try_create_user(1, "alice".to_string(), email.to_string(), UserRole::Classic);
        assert_eq!(r.unwrap().email(), email);
    }
}

#[test]
fn factories_keep_the_id() {
    for id in [0_u32, 1, 2, 41, u32::MAX] {
        let user =
            try_create_user(id, "u".to_string(), "a@b.c".to_string(), UserRole::Admin).unwrap();
        assert_eq!(user.id(), id);
        assert_eq!(try_create_workspace(id, "d".to_string(), owner()).unwrap().id(), id);
        let table = try_create_goal_table(id, "t".to_string(), "d".to_string(), owner(), 9);
        assert_eq!(table.unwrap().id(), id);
        assert_eq!(try_create_goal(id, owner(), "g".to_string(), 9).unwrap().id(), id);
    }
}

#[test]
fn texts_are_kept_as_they_were_given() {
    let user = try_create_user(1, "  alice ".to_string(), " a@b.com\n".to_string(), UserRole::Vip)
        .unwrap();
    assert_eq!(user.username(), "  alice ");
    assert_eq!(user.email(), " a@b.com\n");
    assert_eq!(user.role(), UserRole::Vip);
    let goal = try_create_goal(1, owner(), " read more ".to_string(), 1).unwrap();
    assert_eq!(goal.text(), " read more ");
}

#[test]
fn workspace_starts_without_tables() {
    let workspace = try_create_workspace(3, "home".to_string(), owner()).unwrap();
    assert_eq!(workspace.id(), 3);
    assert_eq!(workspace.description(), "home");
    assert!(same_user(workspace.owner(), &owner()));
    assert_eq!(workspace.created_at(), TimeOfDay::midnight());
    assert!(workspace.tables().is_empty());
}

#[test]
fn goal_table_starts_active_and_without_goals() {
    let table =
        try_create_goal_table(4, "T".to_string(), "D".to_string(), owner(), 5).unwrap();
    assert_eq!(table.id(), 4);
    assert_eq!(table.title(), "T");
    assert_eq!(table.description(), "D");
    assert!(same_user(table.owner(), &owner()));
    assert_eq!(table.workspace(), 5);
    assert_eq!(table.created_at(), TimeOfDay::midnight());
    assert!(table.is_active());
    assert!(table.goals().is_empty());
}

#[test]
fn goal_starts_active() {
    let goal = try_create_goal(6, owner(), "text".to_string(), 77).unwrap();
    assert_eq!(goal.id(), 6);
    assert_eq!(goal.text(), "text");
    assert!(same_user(goal.owner(), &owner()));
    assert_eq!(goal.table(), 77);
    assert_eq!(goal.created_at(), TimeOfDay::midnight());
    assert_eq!(goal.created_at().seconds_from_midnight(), 0);
    assert!(goal.is_active());
}

#[test]
fn parent_ids_are_not_checked() {
    let table = try_create_goal_table(1, "T".to_string(), "D".to_string(), owner(), 4000);
    assert_eq!(table.unwrap().workspace(), 4000);
    let goal = try_create_goal(1, owner(), "g".to_string(), 0);
    assert_eq!(goal.unwrap().table(), 0);
}

#[test]
fn asking_twice_gives_two_entities_with_the_same_fields() {
    let a = try_create_user(1, "alice".to_string(), "a@b.com".to_string(), UserRole::Classic)
        .unwrap();
    let b = try_create_user(1, "alice".to_string(), "a@b.com".to_string(), UserRole::Classic)
        .unwrap();
    assert!(same_user(&a, &b));

    let mut first =
        try_create_goal_table(1, "T".to_string(), "D".to_string(), owner(), 5).unwrap();
    let second =
        try_create_goal_table(1, "T".to_string(), "D".to_string(), owner(), 5).unwrap();
    assert_eq!(first.display_info(), second.display_info());
    // The two are apart: what is added to one is not in the other.
    first.add_goal(try_create_goal(1, owner(), "g".to_string(), 1).unwrap());
    assert_eq!(first.goals().len(), 1);
    assert_eq!(second.goals().len(), 0);

    let g1 = try_create_goal(2, owner(), "g".to_string(), 1).unwrap();
    let g2 = try_create_goal(3, owner(), "g".to_string(), 1).unwrap();
    assert_eq!((g1.id(), g2.id()), (2, 3));
    assert_eq!(g1.text(), g2.text());
    assert_eq!(g1.display_info(), g2.display_info());

    let w1 = try_create_workspace(1, "w".to_string(), owner()).unwrap();
    let w2 = try_create_workspace(1, "w".to_string(), owner()).unwrap();
    assert_eq!(w1.display_info(), w2.display_info());
}

#[test]
fn new_takes_the_fields_unchecked() {
    let user = User::new(0, "".to_string(), "nowhere".to_string(), UserRole::Owner);
    assert_eq!(user.id(), 0);
    assert_eq!(user.username(), "");
    assert_eq!(user.email(), "nowhere");
    assert!(user.is_active());
    assert_eq!(user.role(), UserRole::Owner);
}

#[test]
fn every_error_has_its_message() {
    assert_eq!(ValidationError::EmptyUsername.message(), "Kullanıcı adı boş olamaz.");
    assert_eq!(ValidationError::InvalidEmail.message(), "Geçerli bir e-posta giriniz.");
    assert_eq!(ValidationError::EmptyText.message(), "Hedef metni boş olamaz.");
    assert_eq!(ValidationError::EmptyTitle.message(), "Target Title is not be empty");
    assert_eq!(
        ValidationError::EmptyDescription.message(),
        "Target description is not be empty"
    );
}
