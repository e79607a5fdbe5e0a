//! The ordered task list and the operations on it.

use vstd::prelude::*;
use vstd::string::StringExecFns;
use crate::task::Task;
use crate::text::{decimal, decimal_text};

verus! {

/// An ordered list of tasks. Position `i` (0-based) is shown to the user as `i + 1`.
#[derive(Debug)]
pub struct TodoList {
    pub tasks: Vec<Task>,
}

/// The descriptions of a sequence of tasks, in order.
pub open spec fn descriptions_of(tasks: Seq<Task>) -> Seq<Seq<char>> {
    tasks.map_values(|t: Task| t@)
}

/// The texts held by a sequence of strings, in order.
pub open spec fn texts_of(strings: Seq<String>) -> Seq<Seq<char>> {
    strings.map_values(|s: String| s@)
}

impl View for TodoList {
    type V = Seq<Seq<char>>;

    open spec fn view(&self) -> Seq<Seq<char>> {
        descriptions_of(self.tasks@)
    }
}

/// Whether `index` names a task of a list of `len` tasks, counting from 1.
pub open spec fn valid_position(index: int, len: int) -> bool {
    1 <= index <= len
}

/// The message given when `index` names no task of a list of `len` tasks.
pub open spec fn invalid_index_text(index: nat, len: nat) -> Seq<char> {
    "Invalid index "@ + decimal_text(index) + ". Please use a number between 1 and "@
        + decimal_text(len)
}

/// The line that shows the task at 0-based position `i`.
pub open spec fn task_line(i: nat, description: Seq<char>) -> Seq<char> {
    decimal_text(i + 1) + ". "@ + description
}

/// The lines that show a list: one line that says there is nothing, or a
/// heading followed by one numbered line per task.
pub open spec fn listing(tasks: Seq<Seq<char>>) -> Seq<Seq<char>> {
    if tasks.len() == 0 {
        seq!["No tasks found."@]
    } else {
        seq!["Your tasks:"@] + Seq::new(tasks.len(), |i: int| task_line(i as nat, tasks[i]))
    }
}

/// Builds the message for an index that names no task.
pub fn invalid_index_message(index: usize, len: usize) -> (r: String)
    ensures
        r@ == invalid_index_text(index as nat, len as nat),
{
    let mut s = String::from_str("Invalid index ");
    let i = decimal(index);
    s.append(i.as_str());
    s.append(". Please use a number between 1 and ");
    let n = decimal(len);
    s.append(n.as_str());
    s
}

impl TodoList {
    /// An empty list.
    pub fn new() -> (r: TodoList)
        ensures
            r@ == Seq::<Seq<char>>::empty(),
    {
        let r = TodoList { tasks: Vec::new() };
        assert(r@ =~= Seq::<Seq<char>>::empty());
        r
    }

    /// The number of tasks.
    pub fn len(&self) -> (r: usize)
        ensures
            r == self@.len(),
    {
        self.tasks.len()
    }

    /// Whether the list holds no task.
    pub fn is_empty(&self) -> (r: bool)
        ensures
            r == (self@.len() == 0),
    {
        self.tasks.len() == 0
    }

    /// Appends `task` at the end; this always succeeds.
    pub fn add_task(&mut self, task: Task)
        ensures
            final(self)@ == old(self)@.push(task@),
    {
        self.tasks.push(task);
        assert(self@ =~= old(self)@.push(task@));
    }

    /// Removes the task at 1-based position `index`. The later tasks move up by
    /// one. An index outside `1..=len` is refused with a message that gives the
    /// valid range, and the list is left as it was.
    pub fn remove_task(&mut self, index: usize) -> (r: Result<(), String>)
        ensures
            valid_position(index as int, old(self)@.len() as int) ==> r is Ok && final(self)@
                == old(self)@.remove(index - 1),
            !valid_position(index as int, old(self)@.len() as int) ==> r is Err
                && r->Err_0@ == invalid_index_text(index as nat, old(self)@.len())
                && final(self)@ == old(self)@,
    {
        if index == 0 || index > self.tasks.len() {
            return Err(invalid_index_message(index, self.tasks.len()));
        }
        self.tasks.remove(index - 1);
        assert(self@ =~= old(self)@.remove(index - 1));
        Ok(())
    }

    /// The lines that show the list to the user.
    pub fn list_tasks(&self) -> (r: Vec<String>)
        ensures
            texts_of(r@) == listing(self@),
    {
        let mut lines: Vec<String> = Vec::new();
        if self.tasks.len() == 0 {
            lines.push(String::from_str("No tasks found."));
            assert(texts_of(lines@) =~= listing(self@));
            return lines;
        }
        lines.push(String::from_str("Your tasks:"));
        let mut i: usize = 0;
        while i < self.tasks.len()
            invariant
                i <= self.tasks.len(),
                lines@.len() == i + 1,
                texts_of(lines@)[0] == "Your tasks:"@,
                forall|k: int| 0 <= k < i ==> #[trigger] lines@[k + 1]@ == task_line(k as nat, self@[k]),
            decreases self.tasks.len() - i,
        {
            let mut line = decimal(i + 1);
            line.append(". ");
            line.append(self.tasks[i].description.as_str());
            lines.push(line);
            i = i + 1;
        }
        assert(texts_of(lines@) =~= listing(self@));
        lines
    }

    /// The descriptions, in order.
    pub fn descriptions(&self) -> (r: Vec<String>)
        ensures
            texts_of(r@) == self@,
    {
        let mut r: Vec<String> = Vec::new();
        let mut i: usize = 0;
        while i < self.tasks.len()
            invariant
                i <= self.tasks.len(),
                r@.len() == i,
                forall|k: int| 0 <= k < i ==> #[trigger] r@[k]@ == self@[k],
            decreases self.tasks.len() - i,
        {
            r.push(self.tasks[i].description.clone());
            i = i + 1;
        }
        assert(texts_of(r@) =~= self@);
        r
    }

    /// A list whose tasks have the given descriptions, in order.
    pub fn from_descriptions(descriptions: Vec<String>) -> (r: TodoList)
        ensures
            r@ == texts_of(descriptions@),
    {
        let mut tasks: Vec<Task> = Vec::new();
        let mut i: usize = 0;
        while i < descriptions.len()
            invariant
                i <= descriptions.len(),
                tasks@.len() == i,
                forall|k: int| 0 <= k < i ==> #[trigger] tasks@[k]@ == descriptions@[k]@,
            decreases descriptions.len() - i,
        {
            tasks.push(Task::new(descriptions[i].clone()));
            i = i + 1;
        }
        let r = TodoList { tasks };
        assert(r@ =~= texts_of(descriptions@));
        r
    }
}

/// Removing the task at a valid 1-based `index` from `before` leaves one task
/// fewer: the tasks ahead of it keep their positions, each later task moves up
/// by one, and so their order is kept.
pub proof fn removal_shifts_later_tasks(before: Seq<Seq<char>>, index: int)
    requires
        valid_position(index, before.len() as int),
    ensures
        before.remove(index - 1).len() == before.len() - 1,
        forall|k: int| 0 <= k < index - 1 ==> #[trigger] before.remove(index - 1)[k] == before[k],
        forall|k: int|
            index - 1 <= k < before.len() - 1 ==> #[trigger] before.remove(index - 1)[k] == before[k
                + 1],
{
}

} // verus!
