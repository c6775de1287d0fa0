use vstd::prelude::*;
use vstd::string::*;

verus! {

/// One entry of the todo list.
#[derive(Clone, Debug)]
pub struct Todo {
    /// Identifier of the entry; it does not change and no two entries of one
    /// list share it.
    pub id: String,
    pub text: String,
    pub completed: bool,
    /// When the entry was made, in seconds since the Unix epoch.
    pub created_at: i64,
    /// When the entry was completed, in seconds since the Unix epoch.
    pub completed_at: Option<i64>,
    /// When the entry is due, in seconds since the Unix epoch.
    pub deadline: Option<i64>,
    /// Rank of the entry within its group.
    pub order: i32,
    /// Identifier of the group that the entry belongs to.
    pub group_id: String,
    /// Priority of the entry; 1 marks a high priority.
    pub priority: Option<i32>,
}

/// The todo list as two lists: what is still to do, and what is done.
#[derive(Clone, Debug)]
pub struct TodoData {
    pub pending_todos: Vec<Todo>,
    pub completed_todos: Vec<Todo>,
}

/// A named group of entries.
#[derive(Clone, Debug)]
pub struct TodoGroup {
    pub id: String,
    pub name: String,
    pub order: i32,
    pub collapsed: bool,
}

/// The todo list as one list, each entry with its `completed` flag and its
/// group.
#[derive(Clone, Debug)]
pub struct TodoDataWithGroups {
    pub todos: Vec<Todo>,
}

/// The groups of the todo list.
#[derive(Clone, Debug)]
pub struct GroupData {
    pub groups: Vec<TodoGroup>,
}

/// The group of an entry that names none.
pub fn default_group_id() -> (id: String)
    ensures
        id@ == "default"@,
{
    String::from_str("default")
}

} // verus!
