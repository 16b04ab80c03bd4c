use vstd::prelude::*;

use crate::render::{decimal, decimal_text, display_lines, listing, texts};
use crate::task::{
    add_spec, edit_spec, id_in_range, remove_spec, valid_priority, TaskModel, TodoList,
};
use crate::views::{is_creation_order, priority_order};

verus! {

/// The available commands of the task tracker.
pub enum Command {
    /// Add a task with a description and a priority.
    Add { task: String, priority: u64 },
    /// Remove a task by its id.
    Remove { id: u64 },
    /// List the tasks in store order.
    List,
    /// Show usage information.
    Help,
    /// Remove every task.
    Clear,
    /// List the tasks by priority, highest first.
    Prioritize,
    /// List the tasks by creation time, earliest first.
    Schedule,
    /// Replace the description of the task with this id.
    Edit { task: String, id: u64 },
}

/// Whether the store is written back after this command.
pub open spec fn mutates(c: Command) -> bool {
    match c {
        Command::Add { .. } | Command::Remove { .. } | Command::Clear | Command::Edit { .. } => true,
        _ => false,
    }
}

/// The notice for a task refused for its priority.
pub open spec fn priority_notice(priority: u64, task: Seq<char>) -> Seq<char> {
    "Invalid priority: "@ + decimal(priority as nat) + " for task: "@ + task + ". Not Added"@
}

/// What a command leaves for the caller: whether to save the store, and the
/// lines to print.
pub struct Outcome {
    pub save: bool,
    pub lines: Vec<String>,
}

impl Command {
    /// Whether the store is written back after this command.
    pub fn mutates_store(&self) -> (r: bool)
        ensures
            r == mutates(*self),
    {
        match self {
            Command::Add { .. } | Command::Remove { .. } | Command::Clear | Command::Edit {
                ..
            } => true,
            _ => false,
        }
    }
}

/// The notice for a task refused for its priority.
pub fn priority_notice_text(priority: u64, task: &str) -> (r: String)
    ensures
        r@ == priority_notice(priority, task@),
{
    let mut s = String::from_str("Invalid priority: ");
    let digits = decimal_text(priority);
    s.append(digits.as_str());
    s.append(" for task: ");
    s.append(task);
    s.append(". Not Added");
    s
}

/// Applies one command to the store. A mutating command is saved afterwards
/// even when it was refused; a refusal leaves a notice. `Help` touches no
/// store and leaves its text to the caller.
pub fn execute(list: &mut TodoList, command: &Command) -> (r: Outcome)
    requires
        old(list).wf(),
        command is Add ==> old(list)@.len() < u64::MAX,
    ensures
        final(list).wf(),
        r.save == mutates(*command),
        match *command {
            Command::Add { task, priority } => if valid_priority(priority) {
                &&& final(list)@ == add_spec(
                    old(list)@,
                    task@,
                    priority,
                    final(list)@.last().created,
                )
                &&& texts(r.lines@) == Seq::<Seq<char>>::empty()
            } else {
                &&& final(list)@ == old(list)@
                &&& texts(r.lines@) == seq![priority_notice(priority, task@)]
            },
            Command::Remove { id } => {
                &&& final(list)@ == remove_spec(old(list)@, id)
                &&& texts(r.lines@) == if id_in_range(old(list)@, id) {
                    Seq::<Seq<char>>::empty()
                } else {
                    seq!["Invalid ID. Nothing deleted."@]
                }
            },
            Command::Edit { task, id } => {
                &&& final(list)@ == edit_spec(old(list)@, task@, id)
                &&& texts(r.lines@) == if id_in_range(old(list)@, id) {
                    Seq::<Seq<char>>::empty()
                } else {
                    seq!["Invalid ID"@]
                }
            },
            Command::Clear => {
                &&& final(list)@.len() == 0
                &&& texts(r.lines@) == Seq::<Seq<char>>::empty()
            },
            Command::List => {
                &&& final(list)@ == old(list)@
                &&& texts(r.lines@) == listing(old(list)@)
            },
            Command::Prioritize => {
                &&& final(list)@ == old(list)@
                &&& texts(r.lines@) == listing(priority_order(old(list)@))
            },
            Command::Schedule => {
                &&& final(list)@ == old(list)@
                &&& exists|v: Seq<TaskModel>|
                    is_creation_order(old(list)@, v) && texts(r.lines@) == listing(v)
            },
            Command::Help => {
                &&& final(list)@ == old(list)@
                &&& texts(r.lines@) == Seq::<Seq<char>>::empty()
            },
        },
{
    let save = command.mutates_store();
    let mut lines: Vec<String> = Vec::new();
    match command {
        Command::Add { task, priority } => {
            if !list.add_todo(task.as_str(), *priority) {
                lines.push(priority_notice_text(*priority, task.as_str()));
            }
        },
        Command::Remove { id } => {
            if !list.remove_todo(*id) {
                lines.push(String::from_str("Invalid ID. Nothing deleted."));
            }
        },
        Command::Edit { task, id } => {
            if !list.edit_todo(task.as_str(), *id) {
                lines.push(String::from_str("Invalid ID"));
            }
        },
        Command::Clear => {
            list.clear_todo();
        },
        Command::List => {
            lines = list.display_todos();
        },
        Command::Prioritize => {
            let view = list.order_by_priority();
            lines = display_lines(&view);
        },
        Command::Schedule => {
            let view = list.order_by_creation();
            lines = display_lines(&view);
        },
        Command::Help => {},
    }
    Outcome { save, lines }
}

} // verus!
