use crate::models::todo::{Todo, TodoData};
use vstd::prelude::*;
use vstd::string::*;

verus! {

/// Whether some entry of a list has the identifier.
pub open spec fn holds_id(todos: Seq<Todo>, id: Seq<char>) -> bool {
    exists|i: int| 0 <= i < todos.len() && (#[trigger] todos[i]).id@ == id
}

/// Whether `i` is the place of the first entry of a list with the identifier.
pub open spec fn is_first_with_id(todos: Seq<Todo>, id: Seq<char>, i: int) -> bool {
    &&& 0 <= i < todos.len()
    &&& todos[i].id@ == id
    &&& forall|j: int| 0 <= j < i ==> (#[trigger] todos[j]).id@ != id
}

/// The list in which an entry is looked for: the completed entries or the
/// pending ones.
pub open spec fn searched_list(data: TodoData, is_completed: bool) -> Seq<Todo> {
    if is_completed {
        data.completed_todos@
    } else {
        data.pending_todos@
    }
}

/// The list in which an entry is not looked for.
pub open spec fn other_list(data: TodoData, is_completed: bool) -> Seq<Todo> {
    if is_completed {
        data.pending_todos@
    } else {
        data.completed_todos@
    }
}

/// An entry with another text.
pub open spec fn with_text(todo: Todo, text: String) -> Todo {
    Todo {
        id: todo.id,
        text: text,
        completed: todo.completed,
        created_at: todo.created_at,
        completed_at: todo.completed_at,
        deadline: todo.deadline,
        order: todo.order,
        group_id: todo.group_id,
        priority: todo.priority,
    }
}

/// An entry with another deadline, or with none.
pub open spec fn with_deadline(todo: Todo, deadline: Option<i64>) -> Todo {
    Todo {
        id: todo.id,
        text: todo.text,
        completed: todo.completed,
        created_at: todo.created_at,
        completed_at: todo.completed_at,
        deadline: deadline,
        order: todo.order,
        group_id: todo.group_id,
        priority: todo.priority,
    }
}

/// The message for an entry that was looked for and not found.
pub open spec fn not_found_text(id: Seq<char>, is_completed: bool) -> Seq<char> {
    "未找到指定的todo项: id='"@ + id + "', completed="@ + (if is_completed {
        "true"@
    } else {
        "false"@
    })
}

/// The data that is worked with after the store was read: what was read, or
/// no entries at all where the store could not be read or understood.
pub fn loaded_or_empty(loaded: Option<TodoData>) -> (data: TodoData)
    ensures
        match loaded {
            Some(read) => data == read,
            None => data.pending_todos@.len() == 0 && data.completed_todos@.len() == 0,
        },
{
    match loaded {
        Some(read) => read,
        None => TodoData { pending_todos: Vec::new(), completed_todos: Vec::new() },
    }
}

/// The place of the first entry with the identifier, if there is one.
pub fn find_todo(todos: &Vec<Todo>, todo_id: &str) -> (found: Option<usize>)
    ensures
        match found {
            Some(i) => is_first_with_id(todos@, todo_id@, i as int),
            None => !holds_id(todos@, todo_id@),
        },
{
    let wanted = String::from_str(todo_id);
    let mut i: usize = 0;
    while i < todos.len()
        invariant
            i <= todos.len(),
            wanted@ == todo_id@,
            forall|j: int| 0 <= j < i ==> (#[trigger] todos@[j]).id@ != todo_id@,
        decreases todos.len() - i,
    {
        if todos[i].id == wanted {
            return Some(i);
        }
        i += 1;
    }
    None
}

fn not_found_message(todo_id: &str, is_completed: bool) -> (message: String)
    ensures
        message@ == not_found_text(todo_id@, is_completed),
{
    let mut message = String::from_str("未找到指定的todo项: id='");
    message.append(todo_id);
    message.append("', completed=");
    if is_completed {
        message.append("true");
    } else {
        message.append("false");
    }
    message
}

/// Gives the entry with the identifier `todo_id` the text `new_text`.
///
/// The entry is looked for among the completed entries where `is_completed`
/// holds, else among the pending ones, and the first entry with the
/// identifier is taken. Where there is none, the data stays as it is and the
/// error says what was looked for.
pub fn update_todo_text(
    data: &mut TodoData,
    todo_id: &str,
    is_completed: bool,
    new_text: String,
) -> (result: Result<(), String>)
    ensures
        match result {
            Ok(_) => exists|i: int|
                {
                    &&& is_first_with_id(searched_list(*old(data), is_completed), todo_id@, i)
                    &&& searched_list(*final(data), is_completed) == searched_list(
                        *old(data),
                        is_completed,
                    ).update(
                        i,
                        with_text(#[trigger] searched_list(*old(data), is_completed)[i], new_text),
                    )
                    &&& other_list(*final(data), is_completed) == other_list(
                        *old(data),
                        is_completed,
                    )
                },
            Err(message) => {
                &&& !holds_id(searched_list(*old(data), is_completed), todo_id@)
                &&& *final(data) == *old(data)
                &&& message@ == not_found_text(todo_id@, is_completed)
            },
        },
{
    let found = if is_completed {
        find_todo(&data.completed_todos, todo_id)
    } else {
        find_todo(&data.pending_todos, todo_id)
    };
    match found {
        Some(i) => {
            if is_completed {
                data.completed_todos[i].text = new_text;
            } else {
                data.pending_todos[i].text = new_text;
            }
            assert(searched_list(*data, is_completed) =~= searched_list(
                *old(data),
                is_completed,
            ).update(i as int, with_text(searched_list(*old(data), is_completed)[i as int], new_text)));
            Ok(())
        },
        None => Err(not_found_message(todo_id, is_completed)),
    }
}

/// Gives the entry with the identifier `todo_id` the deadline `deadline`, or
/// takes its deadline away where `deadline` is `None`.
///
/// The entry is looked for as [`update_todo_text`] does. Where there is
/// none, the data stays as it is and the error says what was looked for.
pub fn set_todo_deadline(
    data: &mut TodoData,
    todo_id: &str,
    is_completed: bool,
    deadline: Option<i64>,
) -> (result: Result<(), String>)
    ensures
        match result {
            Ok(_) => exists|i: int|
                {
                    &&& is_first_with_id(searched_list(*old(data), is_completed), todo_id@, i)
                    &&& searched_list(*final(data), is_completed) == searched_list(
                        *old(data),
                        is_completed,
                    ).update(
                        i,
                        with_deadline(
                            #[trigger] searched_list(*old(data), is_completed)[i],
                            deadline,
                        ),
                    )
                    &&& other_list(*final(data), is_completed) == other_list(
                        *old(data),
                        is_completed,
                    )
                },
            Err(message) => {
                &&& !holds_id(searched_list(*old(data), is_completed), todo_id@)
                &&& *final(data) == *old(data)
                &&& message@ == not_found_text(todo_id@, is_completed)
            },
        },
{
    let found = if is_completed {
        find_todo(&data.completed_todos, todo_id)
    } else {
        find_todo(&data.pending_todos, todo_id)
    };
    match found {
        Some(i) => {
            if is_completed {
                data.completed_todos[i].deadline = deadline;
            } else {
                data.pending_todos[i].deadline = deadline;
            }
            assert(searched_list(*data, is_completed) =~= searched_list(
                *old(data),
                is_completed,
            ).update(
                i as int,
                with_deadline(searched_list(*old(data), is_completed)[i as int], deadline),
            ));
            Ok(())
        },
        None => Err(not_found_message(todo_id, is_completed)),
    }
}

} // verus!
