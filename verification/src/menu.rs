//! The menu of the interactive session: what a typed line selects.

use crate::numeral::{parse_u32, parsed_u32};
use crate::text::{trim, trimmed};
use vstd::prelude::*;

verus! {

/// An entry of the menu. The entries are numbered from 1 in this order.
#[derive(Clone, Copy, Debug, PartialEq, Eq, Structural)]
pub enum MenuChoice {
    TestEnvironment,
    CreateUser,
    CreateGoal,
    CreateGoalTable,
    CreateWorkspace,
    PrintAll,
    Exit,
}

/// What a typed line selects.
#[derive(Clone, Copy, Debug, PartialEq, Eq, Structural)]
pub enum Selection {
    /// The line holds the number of an entry.
    Entry(MenuChoice),
    /// The line holds a number that no entry has.
    Unknown(u32),
    /// The line holds no number.
    NotANumber,
}

impl MenuChoice {
    /// The entry with the number `n`, if there is one.
    pub open spec fn numbered(n: u32) -> Option<MenuChoice> {
        if n == 1 {
            Some(MenuChoice::TestEnvironment)
        } else if n == 2 {
            Some(MenuChoice::CreateUser)
        } else if n == 3 {
            Some(MenuChoice::CreateGoal)
        } else if n == 4 {
            Some(MenuChoice::CreateGoalTable)
        } else if n == 5 {
            Some(MenuChoice::CreateWorkspace)
        } else if n == 6 {
            Some(MenuChoice::PrintAll)
        } else if n == 7 {
            Some(MenuChoice::Exit)
        } else {
            None
        }
    }

    /// The words with which the menu lists this entry.
    pub open spec fn label_text(self) -> Seq<char> {
        match self {
            MenuChoice::TestEnvironment => "Test Environment"@,
            MenuChoice::CreateUser => "Create User"@,
            MenuChoice::CreateGoal => "Create Goal"@,
            MenuChoice::CreateGoalTable => "Create Goal Table"@,
            MenuChoice::CreateWorkspace => "Create Workspace"@,
            MenuChoice::PrintAll => "Print All"@,
            MenuChoice::Exit => "Exit"@,
        }
    }

    /// The entry with the number `n`, if there is one.
    pub fn from_number(n: u32) -> (r: Option<MenuChoice>)
        ensures
            r == MenuChoice::numbered(n),
    {
        match n {
            1 => Some(MenuChoice::TestEnvironment),
            2 => Some(MenuChoice::CreateUser),
            3 => Some(MenuChoice::CreateGoal),
            4 => Some(MenuChoice::CreateGoalTable),
            5 => Some(MenuChoice::CreateWorkspace),
            6 => Some(MenuChoice::PrintAll),
            7 => Some(MenuChoice::Exit),
            _ => None,
        }
    }

    /// The words with which the menu lists this entry.
    pub fn label(&self) -> (r: &'static str)
        ensures
            r@ == self.label_text(),
    {
        match self {
            MenuChoice::TestEnvironment => "Test Environment",
            MenuChoice::CreateUser => "Create User",
            MenuChoice::CreateGoal => "Create Goal",
            MenuChoice::CreateGoalTable => "Create Goal Table",
            MenuChoice::CreateWorkspace => "Create Workspace",
            MenuChoice::PrintAll => "Print All",
            MenuChoice::Exit => "Exit",
        }
    }
}

impl Selection {
    /// What the line `line` selects: the number that is left once the line is
    /// trimmed, looked up among the entries.
    pub open spec fn of_line(line: Seq<char>) -> Selection {
        match parsed_u32(trimmed(line)) {
            None => Selection::NotANumber,
            Some(n) => match MenuChoice::numbered(n) {
                Some(choice) => Selection::Entry(choice),
                None => Selection::Unknown(n),
            },
        }
    }

    /// Reads a selection from a typed line. White space around the number,
    /// the line feed at its end included, counts for nothing.
    pub fn read(line: &str) -> (r: Selection)
        ensures
            r == Selection::of_line(line@),
    {
        match parse_u32(trim(line)) {
            None => Selection::NotANumber,
            Some(n) => match MenuChoice::from_number(n) {
                Some(choice) => Selection::Entry(choice),
                None => Selection::Unknown(n),
            },
        }
    }
}

/// A typed line as a field takes it: without the white space around it.
pub fn read_field(line: &str) -> (r: String)
    ensures
        r@ == trimmed(line@),
{
    String::from_str(trim(line))
}

} // verus!
