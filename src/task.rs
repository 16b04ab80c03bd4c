use vstd::prelude::*;

use crate::clock::{now_seconds, valid_stamp, MAX_STAMP};

verus! {

/// One tracked item.
pub struct Todo {
    /// Position of the task in the store, counted from one.
    pub id: u64,
    /// Free-form description.
    pub task: String,
    /// Priority from 1 (lowest) to 5 (highest).
    pub priority: u64,
    /// Creation time, seconds since the Unix epoch (UTC).
    pub created: i64,
}

/// The mathematical value of a `Todo`.
pub struct TaskModel {
    pub id: u64,
    pub task: Seq<char>,
    pub priority: u64,
    pub created: i64,
}

impl View for Todo {
    type V = TaskModel;

    open spec fn view(&self) -> TaskModel {
        TaskModel { id: self.id, task: self.task@, priority: self.priority, created: self.created }
    }
}

impl Todo {
    /// A new task with the same id, description, priority and creation time.
    pub fn duplicate(&self) -> (r: Todo)
        ensures
            r@ == self@,
    {
        Todo { id: self.id, task: self.task.clone(), priority: self.priority, created: self.created }
    }
}

/// The models of a vector of tasks, in order.
pub open spec fn models(v: Seq<Todo>) -> Seq<TaskModel> {
    v.map_values(|t: Todo| t@)
}

pub open spec fn valid_priority(p: u64) -> bool {
    1 <= p <= 5
}

/// The ids are exactly `1..=len`, in order.
pub open spec fn ids_dense(s: Seq<TaskModel>) -> bool {
    forall|i: int| 0 <= i < s.len() ==> #[trigger] s[i].id == i + 1
}

/// Every creation time in `s` is one the store accepts.
pub open spec fn stamps_valid(s: Seq<TaskModel>) -> bool {
    forall|i: int| 0 <= i < s.len() ==> valid_stamp(#[trigger] s[i].created)
}

/// The store's invariant: dense ids, and priority and creation time in range.
pub open spec fn well_formed(s: Seq<TaskModel>) -> bool {
    &&& ids_dense(s)
    &&& forall|i: int| 0 <= i < s.len() ==> valid_priority(#[trigger] s[i].priority)
    &&& stamps_valid(s)
}

/// The store after `add`: the new task is appended with the next id when its
/// priority is valid; otherwise nothing changes.
pub open spec fn add_spec(s: Seq<TaskModel>, task: Seq<char>, priority: u64, created: i64) -> Seq<
    TaskModel,
> {
    if valid_priority(priority) {
        s.push(TaskModel { id: (s.len() + 1) as u64, task, priority, created })
    } else {
        s
    }
}

/// The same tasks with ids reassigned to their positions, counted from one.
pub open spec fn renumber(s: Seq<TaskModel>) -> Seq<TaskModel> {
    Seq::new(s.len(), |i: int| TaskModel { id: (i + 1) as u64, ..s[i] })
}

pub open spec fn id_in_range(s: Seq<TaskModel>, id: u64) -> bool {
    1 <= id <= s.len()
}

/// The store after `remove(id)`: the task with that id is deleted and the
/// rest are renumbered; an id that names no task changes nothing.
pub open spec fn remove_spec(s: Seq<TaskModel>, id: u64) -> Seq<TaskModel> {
    if id_in_range(s, id) {
        renumber(s.remove(id - 1))
    } else {
        s
    }
}

/// The store after `edit(text, id)`: only that task's description changes.
pub open spec fn edit_spec(s: Seq<TaskModel>, text: Seq<char>, id: u64) -> Seq<TaskModel> {
    if id_in_range(s, id) {
        s.update(id - 1, TaskModel { task: text, ..s[id - 1] })
    } else {
        s
    }
}

/// The store after `clear`.
pub open spec fn clear_spec(s: Seq<TaskModel>) -> Seq<TaskModel> {
    Seq::empty()
}

/// The ordered collection of tasks.
pub struct TodoList {
    pub todos: Vec<Todo>,
}

impl View for TodoList {
    type V = Seq<TaskModel>;

    open spec fn view(&self) -> Seq<TaskModel> {
        models(self.todos@)
    }
}

impl TodoList {
    pub open spec fn wf(&self) -> bool {
        well_formed(self@)
    }

    /// An empty store.
    pub fn new() -> (r: TodoList)
        ensures
            r@ == Seq::<TaskModel>::empty(),
            r.wf(),
    {
        let r = TodoList { todos: Vec::new() };
        assert(r@ =~= Seq::<TaskModel>::empty());
        r
    }

    /// Appends a task created at `created` when `priority` is in `1..=5`, and
    /// reports whether it did; a rejected task consumes no id.
    pub fn add_todo_at(&mut self, task: &str, priority: u64, created: i64) -> (added: bool)
        requires
            old(self).wf(),
            old(self)@.len() < u64::MAX,
            valid_stamp(created),
        ensures
            added == valid_priority(priority),
            final(self)@ == add_spec(old(self)@, task@, priority, created),
            final(self).wf(),
    {
        if priority <= 5 && priority > 0 {
            let id = self.todos.len() as u64 + 1;
            let todo = Todo { id, task: task.to_owned(), priority, created };
            self.todos.push(todo);
            assert(self@ =~= add_spec(old(self)@, task@, priority, created));
            true
        } else {
            false
        }
    }

    /// Appends a task stamped with the current time when `priority` is in
    /// `1..=5`, and reports whether it did.
    pub fn add_todo(&mut self, task: &str, priority: u64) -> (added: bool)
        requires
            old(self).wf(),
            old(self)@.len() < u64::MAX,
        ensures
            added == valid_priority(priority),
            final(self).wf(),
            added ==> final(self)@ == add_spec(
                old(self)@,
                task@,
                priority,
                final(self)@.last().created,
            ),
            !added ==> final(self)@ == old(self)@,
    {
        let created = now_seconds();
        self.add_todo_at(task, priority, created)
    }

    /// Deletes the task with this id and renumbers the rest in order; reports
    /// whether a task was deleted.
    pub fn remove_todo(&mut self, id: u64) -> (removed: bool)
        requires
            old(self).wf(),
        ensures
            removed == id_in_range(old(self)@, id),
            final(self)@ == remove_spec(old(self)@, id),
            final(self).wf(),
    {
        let size = self.todos.len();
        if id == 0 || id > size as u64 {
            return false;
        }
        let skip = (id - 1) as usize;
        let ghost kept = old(self)@.remove(skip as int);
        let mut out: Vec<Todo> = Vec::new();
        let mut i: usize = 0;
        while i < size
            invariant
                size == self.todos.len(),
                self@ == old(self)@,
                skip < size,
                kept == self@.remove(skip as int),
                0 <= i <= size,
                out@.len() == if i <= skip { i as int } else { i - 1 },
                models(out@) =~= renumber(kept).take(out@.len() as int),
            decreases size - i,
        {
            if i != skip {
                let t = &self.todos[i];
                let n = out.len() as u64 + 1;
                out.push(Todo { id: n, task: t.task.clone(), priority: t.priority, created: t.created });
            }
            i += 1;
        }
        self.todos = out;
        assert(self@ =~= remove_spec(old(self)@, id));
        true
    }

    /// Empties the store.
    pub fn clear_todo(&mut self)
        ensures
            final(self)@ == clear_spec(old(self)@),
            final(self).wf(),
    {
        self.todos.clear();
        assert(self@ =~= clear_spec(old(self)@));
    }

    /// Replaces the description of the task with this id; reports whether the
    /// id named a task. Id 0 names none.
    pub fn edit_todo(&mut self, new_task: &str, id: u64) -> (edited: bool)
        requires
            old(self).wf(),
        ensures
            edited == id_in_range(old(self)@, id),
            final(self)@ == edit_spec(old(self)@, new_task@, id),
            final(self).wf(),
    {
        if id == 0 || id > self.todos.len() as u64 {
            return false;
        }
        let idx = (id - 1) as usize;
        let t = self.todos.remove(idx);
        let edited = Todo { id: t.id, task: new_task.to_owned(), priority: t.priority, created: t.created };
        self.todos.insert(idx, edited);
        assert(self@ =~= edit_spec(old(self)@, new_task@, id));
        true
    }

    /// Accepts decoded records as a store when they meet the store's
    /// invariant (ids `1..=len` in order, priorities in `1..=5`, creation
    /// times in range); any other content is refused.
    pub fn from_todos(todos: Vec<Todo>) -> (r: Option<TodoList>)
        ensures
            r is Some <==> well_formed(models(todos@)),
            r matches Some(l) ==> l@ == models(todos@),
    {
        let n = todos.len();
        let mut i: usize = 0;
        while i < n
            invariant
                n == todos@.len(),
                0 <= i <= n,
                well_formed(models(todos@).take(i as int)),
            decreases n - i,
        {
            let t = &todos[i];
            if t.id != i as u64 + 1 || !(t.priority <= 5 && t.priority > 0) || t.created < 0
                || t.created > MAX_STAMP {
                assert(models(todos@)[i as int].id == t.id);
                assert(models(todos@)[i as int].priority == t.priority);
                assert(models(todos@)[i as int].created == t.created);
                return None;
            }
            assert(models(todos@).take(i + 1) =~= models(todos@).take(i as int).push(t@));
            i += 1;
        }
        assert(models(todos@).take(n as int) =~= models(todos@));
        Some(TodoList { todos })
    }

    /// The store at start-up: empty where nothing was saved before, else the
    /// saved records when they form a valid store.
    pub fn restore(saved: Option<Vec<Todo>>) -> (r: Option<TodoList>)
        ensures
            saved is None ==> (r matches Some(l) && l@ == Seq::<TaskModel>::empty()),
            saved matches Some(v) ==> (r is Some <==> well_formed(models(v@))),
            saved matches Some(v) ==> (r matches Some(l) ==> l@ == models(v@)),
    {
        match saved {
            None => Some(TodoList::new()),
            Some(v) => TodoList::from_todos(v),
        }
    }

    /// The records to be saved, in canonical order.
    pub fn into_todos(self) -> (r: Vec<Todo>)
        ensures
            models(r@) == self@,
    {
        self.todos
    }
}

} // verus!
