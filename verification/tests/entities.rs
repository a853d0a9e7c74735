use goal_tracker::goal::Goal;
use goal_tracker::role::UserRole;
use goal_tracker::table::GoalTable;
use goal_tracker::user::User;
use goal_tracker::workspace::WorkSpace;

fn owner() -> User {
    User::new(7, "owner".to_string(), "owner@example.org".to_string(), UserRole::Owner)
}

fn goal(id: u32, text: &str) -> Goal {
    Goal::new(id, owner(), text.to_string(), 1)
}

fn table(id: u32, title: &str) -> GoalTable {
    GoalTable::new(id, title.to_string(), "about".to_string(), owner(), 1)
}

#[test]
fn add_goal_appends_and_keeps_the_order() {
    let mut t = table(1, "T");
    for (n, text) in ["one", "two", "three"].iter().enumerate() {
        let before: Vec<String> = t.goals().iter().map(|g| g.text().to_string()).collect();
        t.add_goal(goal(n as u32, text));
        assert_eq!(t.goals().len(), before.len() + 1);
        for (i, old) in before.iter().enumerate() {
            assert_eq!(t.goals()[i].text(), old);
        }
        assert_eq!(t.goals().last().unwrap().text(), *text);
    }
    let texts: Vec<&str> = t.goals().iter().map(|g| g.text()).collect();
    assert_eq!(texts, vec!["one", "two", "three"]);
    let ids: Vec<u32> = t.goals().iter().map(|g| g.id()).collect();
    assert_eq!(ids, vec![0, 1, 2]);
}

#[test]
fn add_table_appends_and_keeps_the_order() {
    let mut w = WorkSpace::new(1, "home".to_string(), owner());
    for (n, title) in ["a", "b", "c"].iter().enumerate() {
        let before = w.tables().len();
        w.add_table(table(n as u32 + 10, title));
        assert_eq!(w.tables().len(), before + 1);
        assert_eq!(w.tables().last().unwrap().title(), *title);
    }
    let titles: Vec<&str> = w.tables().iter().map(|t| t.title()).collect();
    assert_eq!(titles, vec!["a", "b", "c"]);
    let ids: Vec<u32> = w.tables().iter().map(|t| t.id()).collect();
    assert_eq!(ids, vec![10, 11, 12]);
}

#[test]
fn the_same_id_may_be_added_twice() {
    let mut t = table(1, "T");
    t.add_goal(goal(5, "first"));
    t.add_goal(goal(5, "second"));
    assert_eq!(t.goals().len(), 2);
    assert_eq!(t.goals()[0].text(), "first");
    assert_eq!(t.goals()[1].text(), "second");
    let mut w = WorkSpace::new(1, "home".to_string(), owner());
    w.add_table(table(1, "x"));
    w.add_table(table(1, "x"));
    assert_eq!(w.tables().len(), 2);
}

#[test]
fn adding_changes_nothing_else() {
    let mut t = GoalTable::new(3, "T".to_string(), "D".to_string(), owner(), 8);
    t.add_goal(goal(1, "g"));
    assert_eq!(t.id(), 3);
    assert_eq!(t.title(), "T");
    assert_eq!(t.description(), "D");
    assert_eq!(t.workspace(), 8);
    assert_eq!(t.owner().username(), "owner");
    assert!(t.is_active());
    let mut w = WorkSpace::new(2, "home".to_string(), owner());
    w.add_table(t);
    assert_eq!(w.id(), 2);
    assert_eq!(w.description(), "home");
    assert_eq!(w.owner().id(), 7);
    assert_eq!(w.tables()[0].goals().len(), 1);
}

#[test]
fn user_summary_lists_its_fields() {
    let user = User::new(12, "alice".to_string(), "a@b.com".to_string(), UserRole::Vip);
    assert_eq!(
        user.display_info(),
        "User ID: 12\nUsername: alice\nEmail: a@b.com\nIs Active: true\n"
    );
}

#[test]
fn goal_summary_lists_its_fields() {
    assert_eq!(
        goal(1, "read more").display_info(),
        "Goal Text: read more\nOwner: owner\nIs Active: true\n"
    );
}

#[test]
fn table_summary_lists_its_goals() {
    let mut t = GoalTable::new(3, "Reading".to_string(), "books".to_string(), owner(), 8);
    assert_eq!(
        t.display_info(),
        "Table Title: Reading\nDescription: books\nOwner: owner\nIs Active: true\nGoals:\n"
    );
    t.add_goal(goal(1, "one"));
    t.add_goal(goal(2, "two"));
    assert_eq!(
        t.display_info(),
        "Table Title: Reading\nDescription: books\nOwner: owner\nIs Active: true\nGoals:\n- one\n- two\n"
    );
}

#[test]
fn workspace_summary_lists_its_tables_by_title_only() {
    let mut w = WorkSpace::new(4294967295, "home".to_string(), owner());
    assert_eq!(
        w.display_info(),
        "Workspace ID: 4294967295\nDescription: home\nOwner: owner\nTables:\n"
    );
    let mut t = table(1, "first");
    t.add_goal(goal(1, "hidden"));
    w.add_table(t);
    w.add_table(table(2, "second"));
    assert_eq!(
        w.display_info(),
        "Workspace ID: 4294967295\nDescription: home\nOwner: owner\nTables:\n- first\n- second\n"
    );
}

#[test]
fn clones_hold_the_same_fields_and_are_apart() {
    let mut t = table(1, "T");
    t.add_goal(goal(1, "g"));
    let mut copy = t.clone();
    assert_eq!(copy.display_info(), t.display_info());
    assert_eq!(copy.goals()[0].id(), 1);
    copy.add_goal(goal(2, "h"));
    assert_eq!(t.goals().len(), 1);
    assert_eq!(copy.goals().len(), 2);

    let mut w = WorkSpace::new(1, "home".to_string(), owner());
    w.add_table(t);
    let other = w.clone();
    assert_eq!(other.display_info(), w.display_info());
    assert_eq!(other.tables()[0].goals()[0].text(), "g");

    let u = owner();
    let v = u.clone();
    assert_eq!(u.display_info(), v.display_info());
    assert_eq!(v.role(), UserRole::Owner);
    let g = goal(9, "x");
    let h = g.clone();
    assert_eq!((h.id(), h.text(), h.table()), (9, "x", 1));
}
