//! A single to-do entry.

use vstd::prelude::*;

verus! {

/// One to-do entry: its description text. Its identity is its position in a list.
#[derive(Clone, Debug)]
pub struct Task {
    pub description: String,
}

impl View for Task {
    type V = Seq<char>;

    open spec fn view(&self) -> Seq<char> {
        self.description@
    }
}

impl Task {
    /// A task with the given description, which may be empty.
    pub fn new(description: String) -> (t: Task)
        ensures
            t@ == description@,
    {
        Task { description }
    }

    /// The description text.
    pub fn description(&self) -> (r: &str)
        ensures
            r@ == self@,
    {
        self.description.as_str()
    }
}

} // verus!
