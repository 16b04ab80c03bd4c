use vstd::prelude::*;

use crate::clock::valid_stamp;
use crate::task::{models, stamps_valid, TaskModel, Todo, TodoList};

verus! {

/// What chrono prints for a UTC time given in seconds since the epoch, in the
/// form `%Y-%m-%d %H:%M:%S.%f`.
pub uninterp spec fn utc_stamp_text(secs: i64) -> Seq<char>;

/// Relies on chrono: `DateTime::<Utc>::from` a `SystemTime` and its `format`
/// with `%Y-%m-%d %H:%M:%S.%f`, a function of the seconds alone. The range in
/// `requires` keeps `UNIX_EPOCH + Duration` from overflowing and chrono's
/// `timestamp_opt(..).unwrap()` inside `from` from failing.
#[verifier::external_body]
fn utc_stamp(secs: i64) -> (r: String)
    requires
        valid_stamp(secs),
    ensures
        r@ == utc_stamp_text(secs),
{
    let d = std::time::UNIX_EPOCH + std::time::Duration::from_secs(secs as u64);
    let datetime = chrono::DateTime::<chrono::Utc>::from(d);
    datetime.format("%Y-%m-%d %H:%M:%S.%f").to_string()
}

pub open spec fn digit_char(d: nat) -> char {
    if d == 0 {
        '0'
    } else if d == 1 {
        '1'
    } else if d == 2 {
        '2'
    } else if d == 3 {
        '3'
    } else if d == 4 {
        '4'
    } else if d == 5 {
        '5'
    } else if d == 6 {
        '6'
    } else if d == 7 {
        '7'
    } else if d == 8 {
        '8'
    } else {
        '9'
    }
}

/// The decimal digits of `n`, most significant first, without leading zeros.
pub open spec fn decimal(n: nat) -> Seq<char>
    decreases n,
{
    if n < 10 {
        seq![digit_char(n)]
    } else {
        decimal(n / 10).push(digit_char(n % 10))
    }
}

/// The listing line of one task: its id, description and creation time.
pub open spec fn line_spec(t: TaskModel, stamp: Seq<char>) -> Seq<char> {
    decimal(t.id as nat) + ": "@ + t.task + ", created: "@ + stamp
}

fn digit_str(d: u64) -> (r: &'static str)
    requires
        d < 10,
    ensures
        r@ == seq![digit_char(d as nat)],
{
    proof {
        reveal_strlit("0");
        reveal_strlit("1");
        reveal_strlit("2");
        reveal_strlit("3");
        reveal_strlit("4");
        reveal_strlit("5");
        reveal_strlit("6");
        reveal_strlit("7");
        reveal_strlit("8");
        reveal_strlit("9");
    }
    let r = if d == 0 {
        "0"
    } else if d == 1 {
        "1"
    } else if d == 2 {
        "2"
    } else if d == 3 {
        "3"
    } else if d == 4 {
        "4"
    } else if d == 5 {
        "5"
    } else if d == 6 {
        "6"
    } else if d == 7 {
        "7"
    } else if d == 8 {
        "8"
    } else {
        "9"
    };
    assert(r@ =~= seq![digit_char(d as nat)]);
    r
}

/// The decimal text of `n`.
pub fn decimal_text(n: u64) -> (r: String)
    ensures
        r@ == decimal(n as nat),
    decreases n,
{
    if n < 10 {
        String::from_str(digit_str(n))
    } else {
        let mut s = decimal_text(n / 10);
        let ghost before = s@;
        s.append(digit_str(n % 10));
        assert(s@ =~= before.push(digit_char((n % 10) as nat)));
        s
    }
}

/// The listing line of a task with this id and description, created at the
/// time that `stamp` shows.
pub fn line_text(id: u64, task: &str, stamp: &str) -> (r: String)
    ensures
        r@ == decimal(id as nat) + ": "@ + task@ + ", created: "@ + stamp@,
{
    let mut s = decimal_text(id);
    s.append(": ");
    s.append(task);
    s.append(", created: ");
    s.append(stamp);
    s
}

/// The report of a listing of `s`, in that order: a notice when `s` is empty,
/// else one line per task.
pub open spec fn listing(s: Seq<TaskModel>) -> Seq<Seq<char>> {
    if s.len() == 0 {
        seq!["No tasks left!"@]
    } else {
        s.map_values(|t: TaskModel| line_spec(t, utc_stamp_text(t.created)))
    }
}

/// The text of each line of a report.
pub open spec fn texts(v: Seq<String>) -> Seq<Seq<char>> {
    v.map_values(|l: String| l@)
}

/// The listing line of one task.
pub fn display_line(t: &Todo) -> (r: String)
    requires
        valid_stamp(t.created),
    ensures
        r@ == line_spec(t@, utc_stamp_text(t.created)),
{
    let stamp = utc_stamp(t.created);
    line_text(t.id, t.task.as_str(), stamp.as_str())
}

/// The report printed for a listing: one line per task in the given order,
/// or a single notice when there are none.
pub fn display_lines(todos: &Vec<Todo>) -> (r: Vec<String>)
    requires
        stamps_valid(models(todos@)),
    ensures
        texts(r@) == listing(models(todos@)),
{
    let mut out: Vec<String> = Vec::new();
    if todos.len() == 0 {
        out.push(String::from_str("No tasks left!"));
        assert(texts(out@) =~= listing(models(todos@)));
        return out;
    }
    let n = todos.len();
    let mut i: usize = 0;
    while i < n
        invariant
            n == todos@.len(),
            0 <= i <= n,
            out@.len() == i,
            stamps_valid(models(todos@)),
            forall|j: int|
                0 <= j < i ==> #[trigger] out@[j]@ == line_spec(
                    models(todos@)[j],
                    utc_stamp_text(todos@[j].created),
                ),
        decreases n - i,
    {
        assert(models(todos@)[i as int].created == todos@[i as int].created);
        let line = display_line(&todos[i]);
        out.push(line);
        i += 1;
    }
    assert(texts(out@) =~= listing(models(todos@)));
    out
}

impl TodoList {
    /// The report of a listing of the store in its canonical order.
    pub fn display_todos(&self) -> (r: Vec<String>)
        requires
            self.wf(),
        ensures
            texts(r@) == listing(self@),
    {
        display_lines(&self.todos)
    }
}

} // verus!
