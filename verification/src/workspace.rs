//! Workspaces: the top of the hierarchy, each holding goal tables.

use crate::clock::TimeOfDay;
use crate::display::{bullets, line, push_bullet, push_line};
use crate::numeral::{decimal_digits, render_decimal};
use crate::table::{GoalTable, GoalTableView};
use crate::text::is_blank;
use crate::user::{User, UserView};
use vstd::prelude::*;

verus! {

/// What a workspace is, as the contracts see it.
pub struct WorkSpaceView {
    pub id: u32,
    pub description: Seq<char>,
    pub owner: UserView,
    /// Seconds after midnight.
    pub created_at: nat,
    /// The tables of the workspace, in the order in which they were added.
    pub tables: Seq<GoalTableView>,
}

impl WorkSpaceView {
    /// A workspace as the validating factory makes it: its description has
    /// something visible in it.
    pub open spec fn is_valid(self) -> bool {
        !is_blank(self.description)
    }

    /// The titles of the tables, in their order.
    pub open spec fn table_titles(self) -> Seq<Seq<char>> {
        self.tables.map_values(|t: GoalTableView| t.title)
    }

    /// The summary of a workspace: id, description and owner, one line each,
    /// then the heading `Tables:` and one bulleted line for the title of each
    /// table.
    pub open spec fn summary(self) -> Seq<char> {
        line("Workspace ID: "@, decimal_digits(self.id as nat)) + line(
            "Description: "@,
            self.description,
        ) + line("Owner: "@, self.owner.username) + line("Tables:"@, Seq::empty()) + bullets(
            self.table_titles(),
        )
    }
}

/// The views of a list of tables, in their order.
pub open spec fn table_views(tables: Seq<GoalTable>) -> Seq<GoalTableView> {
    tables.map_values(|t: GoalTable| t@)
}

/// A workspace.
#[derive(Debug)]
pub struct WorkSpace {
    id: u32,
    description: String,
    owner: User,
    create_at: TimeOfDay,
    tables: Vec<GoalTable>,
}

impl View for WorkSpace {
    type V = WorkSpaceView;

    closed spec fn view(&self) -> WorkSpaceView {
        WorkSpaceView {
            id: self.id,
            description: self.description@,
            owner: self.owner@,
            created_at: self.create_at@,
            tables: table_views(self.tables@),
        }
    }
}

impl Clone for WorkSpace {
    fn clone(&self) -> (r: Self)
        ensures
            r@ == self@,
    {
        let mut tables: Vec<GoalTable> = Vec::new();
        for i in 0..self.tables.len()
            invariant
                tables@.len() == i,
                table_views(tables@) == table_views(self.tables@.take(i as int)),
        {
            let ghost before = tables@;
            let copy = self.tables[i].clone();
            tables.push(copy);
            proof {
                let source = self.tables@.take(i + 1);
                assert forall|j: int| 0 <= j < i + 1 implies table_views(tables@)[j]
                    == table_views(source)[j] by {
                    if j < i {
                        assert(table_views(before)[j] == table_views(
                            self.tables@.take(i as int),
                        )[j]);
                    }
                }
                assert(table_views(tables@) =~= table_views(source));
            }
        }
        assert(self.tables@.take(self.tables@.len() as int) == self.tables@);
        WorkSpace {
            id: self.id,
            description: self.description.clone(),
            owner: self.owner.clone(),
            create_at: self.create_at,
            tables,
        }
    }
}

impl WorkSpace {
    /// A workspace without tables, with the given fields taken as they are,
    /// stamped with the start of the day.
    pub fn new(id: u32, description: String, owner: User) -> (r: WorkSpace)
        ensures
            r@ == (WorkSpaceView {
                id,
                description: description@,
                owner: owner@,
                created_at: 0,
                tables: Seq::empty(),
            }),
    {
        let r = WorkSpace {
            id,
            description,
            owner,
            create_at: TimeOfDay::midnight(),
            tables: Vec::new(),
        };
        assert(r@.tables =~= Seq::empty());
        r
    }

    /// Adds `table` behind the tables that the workspace holds: there is one
    /// table more, the new one last, and those before it keep their places.
    /// Nothing else changes, and no table is refused.
    pub fn add_table(&mut self, table: GoalTable)
        ensures
            final(self)@ == (WorkSpaceView {
                tables: old(self)@.tables.push(table@),
                ..old(self)@
            }),
            final(self)@.tables.len() == old(self)@.tables.len() + 1,
            final(self)@.tables.last() == table@,
            forall|i: int|
                0 <= i < old(self)@.tables.len() ==> final(self)@.tables[i] == old(self)@.tables[i],
    {
        self.tables.push(table);
        assert(self@.tables =~= old(self)@.tables.push(table@));
    }

    /// The id of this workspace.
    pub fn id(&self) -> (r: u32)
        ensures
            r == self@.id,
    {
        self.id
    }

    /// The description, as it was given.
    pub fn description(&self) -> (r: &str)
        ensures
            r@ == self@.description,
    {
        self.description.as_str()
    }

    /// The user who owns this workspace.
    pub fn owner(&self) -> (r: &User)
        ensures
            r@ == self@.owner,
    {
        &self.owner
    }

    /// When this workspace was made.
    pub fn created_at(&self) -> (r: TimeOfDay)
        ensures
            r@ == self@.created_at,
    {
        self.create_at
    }

    /// The tables of this workspace, in the order in which they were added.
    pub fn tables(&self) -> (r: &Vec<GoalTable>)
        ensures
            table_views(r@) == self@.tables,
    {
        &self.tables
    }

    /// Renders the summary of this workspace.
    pub fn display_info(&self) -> (r: String)
        ensures
            r@ == self@.summary(),
    {
        let mut out = String::new();
        let id = render_decimal(self.id);
        push_line(&mut out, "Workspace ID: ", id.as_str());
        push_line(&mut out, "Description: ", self.description.as_str());
        push_line(&mut out, "Owner: ", self.owner.username());
        push_line(&mut out, "Tables:", "");
        let ghost head = out@;
        let ghost titles = self@.table_titles();
        proof {
            reveal_strlit("");
            assert(""@ =~= Seq::<char>::empty());
            assert(titles.take(0) =~= Seq::<Seq<char>>::empty());
        }
        for i in 0..self.tables.len()
            invariant
                titles == self@.table_titles(),
                out@ == head + bullets(titles.take(i as int)),
        {
            push_bullet(&mut out, self.tables[i].title());
            proof {
                let upto = titles.take(i + 1);
                assert(upto.drop_last() == titles.take(i as int));
                assert(upto.last() == self.tables@[i as int]@.title);
                assert(out@ =~= head + bullets(upto));
            }
        }
        assert(titles.take(titles.len() as int) == titles);
        assert(out@ =~= self@.summary());
        out
    }
}

} // verus!
