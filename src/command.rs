//! One invocation's command and what carrying it out does to the list.

use vstd::prelude::*;
use vstd::string::StringExecFns;
use crate::list::{TodoList, invalid_index_text, listing, texts_of, valid_position};
use crate::task::Task;
use crate::text::{decimal, decimal_text};

verus! {

/// What the user asked for.
pub enum Command {
    /// Append a task with this description.
    Add { task: String },
    /// Show the tasks.
    List,
    /// Remove the task at this 1-based position.
    Remove { index: usize },
}

/// What carrying out a command came to. Where `changed` holds, the list must
/// be stored before `output` is shown. Where `error` is set, the command
/// failed, the list is unchanged and nothing is to be stored.
pub struct Outcome {
    pub changed: bool,
    pub output: Vec<String>,
    pub error: Option<String>,
}

/// The confirmation shown after adding a task.
pub open spec fn added_text(task: Seq<char>) -> Seq<char> {
    "Added task: \""@ + task + "\""@
}

/// The confirmation shown after removing the task at `index`.
pub open spec fn removed_text(index: nat) -> Seq<char> {
    "Removed task at index "@ + decimal_text(index)
}

/// The error text for an index that names no task of a list of `len` tasks.
pub open spec fn remove_error_text(index: nat, len: nat) -> Seq<char> {
    "Error: "@ + invalid_index_text(index, len)
}

/// The view of an optional message.
pub open spec fn opt_message(m: Option<String>) -> Option<Seq<char>> {
    match m {
        Some(s) => Some(s@),
        None => None,
    }
}

/// Carries out `command` on `list`.
pub fn run_command(list: &mut TodoList, command: Command) -> (r: Outcome)
    ensures
        match command {
            Command::Add { task } => final(list)@ == old(list)@.push(task@) && r.changed
                && texts_of(r.output@) == seq![added_text(task@)] && r.error is None,
            Command::List => final(list)@ == old(list)@ && !r.changed && texts_of(r.output@)
                == listing(old(list)@) && r.error is None,
            Command::Remove { index } => if valid_position(index as int, old(list)@.len() as int) {
                final(list)@ == old(list)@.remove(index - 1) && r.changed && texts_of(r.output@)
                    == seq![removed_text(index as nat)] && r.error is None
            } else {
                final(list)@ == old(list)@ && !r.changed && r.output@.len() == 0
                    && opt_message(r.error) == Some(remove_error_text(index as nat, old(list)@.len()))
            },
        },
{
    match command {
        Command::Add { task } => {
            let mut line = String::from_str("Added task: \"");
            line.append(task.as_str());
            line.append("\"");
            list.add_task(Task::new(task));
            let mut output: Vec<String> = Vec::new();
            output.push(line);
            assert(texts_of(output@) =~= seq![added_text(task@)]);
            Outcome { changed: true, output, error: None }
        },
        Command::List => {
            let output = list.list_tasks();
            Outcome { changed: false, output, error: None }
        },
        Command::Remove { index } => {
            match list.remove_task(index) {
                Ok(()) => {
                    let mut line = String::from_str("Removed task at index ");
                    let n = decimal(index);
                    line.append(n.as_str());
                    let mut output: Vec<String> = Vec::new();
                    output.push(line);
                    assert(texts_of(output@) =~= seq![removed_text(index as nat)]);
                    Outcome { changed: true, output, error: None }
                },
                Err(e) => {
                    let mut m = String::from_str("Error: ");
                    m.append(e.as_str());
                    Outcome { changed: false, output: Vec::new(), error: Some(m) }
                },
            }
        },
    }
}

} // verus!
