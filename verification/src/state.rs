//! The state of the editor: the tasks entered so far, the text being typed,
//! and the mode that decides how a key press is read.

use vstd::prelude::*;

verus! {

/// How key presses are read: as commands, or as text for a new task.
#[derive(Clone, Copy, Debug, PartialEq, Eq, Structural)]
pub enum Mode {
    Editing,
    Normal,
}

/// The whole state of the editor. There is one for the lifetime of the
/// program; it starts as `Task::default()` and is never stored.
#[derive(Clone, Debug, PartialEq, Eq)]
pub struct Task {
    /// The tasks, oldest first. Entries are only ever appended.
    pub tasks: Vec<String>,
    /// The text of the task being typed.
    pub input: String,
    pub mode: Mode,
}

/// A `Task` as mathematics: texts are sequences of characters.
pub struct TaskView {
    pub tasks: Seq<Seq<char>>,
    pub input: Seq<char>,
    pub mode: Mode,
}

/// The texts that a vector of strings holds, in order.
pub open spec fn texts(strings: Seq<String>) -> Seq<Seq<char>> {
    Seq::new(strings.len(), |i: int| strings[i]@)
}

impl View for Task {
    type V = TaskView;

    open spec fn view(&self) -> TaskView {
        TaskView { tasks: texts(self.tasks@), input: self.input@, mode: self.mode }
    }
}

impl TaskView {
    /// The state at startup: no task, no text, commands expected.
    pub open spec fn initial() -> TaskView {
        TaskView { tasks: Seq::empty(), input: Seq::empty(), mode: Mode::Normal }
    }
}

impl Default for Task {
    fn default() -> (task: Task)
        ensures
            task@ == TaskView::initial(),
    {
        let task = Task { tasks: Vec::new(), input: String::new(), mode: Mode::Normal };
        assert(task@.tasks =~= Seq::<Seq<char>>::empty());
        task
    }
}

} // verus!
