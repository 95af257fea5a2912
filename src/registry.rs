use vstd::prelude::*;

use crate::storage::{cause_message, cause_message_exec, result_view, LoadOutcome};
use crate::task::{describe_text, Task, TaskView};

verus! {

/// The views of a vector of tasks, in order.
pub open spec fn views(v: Seq<Task>) -> Seq<TaskView> {
    v.map_values(|t: Task| t@)
}

/// Position `i` holds a task called `n`.
pub open spec fn named_at(s: Seq<TaskView>, n: Seq<char>, i: int) -> bool {
    0 <= i < s.len() && s[i].name == n
}

/// Position `i` holds the first task called `n`.
pub open spec fn first_named_at(s: Seq<TaskView>, n: Seq<char>, i: int) -> bool {
    &&& named_at(s, n, i)
    &&& forall|j: int| 0 <= j < i ==> s[j].name != n
}

/// Some task is called `n`.
pub open spec fn has_named(s: Seq<TaskView>, n: Seq<char>) -> bool {
    exists|i: int| first_named_at(s, n, i)
}

/// The position of the first task called `n`.
pub open spec fn first_index(s: Seq<TaskView>, n: Seq<char>) -> int
    recommends
        has_named(s, n),
{
    choose|i: int| first_named_at(s, n, i)
}

/// `r` is what a lookup of `n` in `s` answers: the first match, or none.
pub open spec fn found(s: Seq<TaskView>, n: Seq<char>, r: Option<usize>) -> bool {
    match r {
        Some(i) => first_named_at(s, n, i as int),
        None => forall|j: int| 0 <= j < s.len() ==> s[j].name != n,
    }
}

/// The sequence after the first task called `n` is replaced by `t`.
pub open spec fn edited(s: Seq<TaskView>, n: Seq<char>, t: TaskView) -> Seq<TaskView> {
    if has_named(s, n) {
        s.update(first_index(s, n), t)
    } else {
        s
    }
}

/// The sequence after the first task called `n` is taken out.
pub open spec fn removed(s: Seq<TaskView>, n: Seq<char>) -> Seq<TaskView> {
    if has_named(s, n) {
        s.remove(first_index(s, n))
    } else {
        s
    }
}

/// `Task "n"` followed by `tail`.
pub open spec fn task_message(n: Seq<char>, tail: Seq<char>) -> Seq<char> {
    "Task \""@ + n + tail
}

fn task_message_exec(n: &str, tail: &str) -> (r: String)
    ensures
        r@ == task_message(n@, tail@),
{
    let mut m = String::from_str("Task \"");
    m.append(n);
    m.append(tail);
    m
}

/// The message that a load reports, by outcome; `filename` is the bare name.
pub open spec fn load_message(filename: Seq<char>, o: LoadOutcome) -> Result<
    Seq<char>,
    Seq<char>,
> {
    match o {
        LoadOutcome::Missing => Err("File \""@ + filename + "\" does not exist"@),
        LoadOutcome::OpenFailed(e) => Err(cause_message("Error opening file: "@, e@)),
        LoadOutcome::ParseFailed(e) => Err(cause_message("Error loading data: "@, e@)),
        LoadOutcome::Parsed(_) => Ok("Data loaded"@),
    }
}

/// The tasks after a load: those read, or the old ones where reading failed.
pub open spec fn loaded(s: Seq<TaskView>, o: LoadOutcome) -> Seq<TaskView> {
    match o {
        LoadOutcome::Parsed(v) => views(v@),
        _ => s,
    }
}

/// An ordered collection of tasks, looked up by name.
pub struct TasksManager {
    tasks: Vec<Task>,
}

impl View for TasksManager {
    type V = Seq<TaskView>;

    closed spec fn view(&self) -> Seq<TaskView> {
        views(self.tasks@)
    }
}

impl TasksManager {
    /// An empty registry.
    pub fn new() -> (r: TasksManager)
        ensures
            r@ == Seq::<TaskView>::empty(),
    {
        let r = TasksManager { tasks: Vec::new() };
        assert(r@ =~= Seq::<TaskView>::empty());
        r
    }

    /// The number of tasks.
    pub fn len(&self) -> (r: usize)
        ensures
            r == self@.len(),
    {
        self.tasks.len()
    }

    /// The tasks, in order.
    pub fn tasks(&self) -> (r: &Vec<Task>)
        ensures
            views(r@) == self@,
    {
        &self.tasks
    }

    /// The task at position `i`, if there is one.
    pub fn get(&self, i: usize) -> (r: Option<&Task>)
        ensures
            match r {
                Some(t) => i < self@.len() && t@ == self@[i as int],
                None => i >= self@.len(),
            },
    {
        if i < self.tasks.len() {
            Some(&self.tasks[i])
        } else {
            None
        }
    }

    /// Appends a task at the end.
    pub fn add_task(&mut self, task: Task)
        ensures
            final(self)@ == old(self)@.push(task@),
    {
        self.tasks.push(task);
        assert(final(self)@ =~= old(self)@.push(task@));
    }

    /// The position of the first task called `name`.
    pub fn find_task(&self, name: &str) -> (r: Option<usize>)
        ensures
            found(self@, name@, r),
    {
        let target = String::from_str(name);
        let mut i: usize = 0;
        while i < self.tasks.len()
            invariant
                i <= self.tasks@.len(),
                target@ == name@,
                forall|j: int| 0 <= j < i ==> self@[j].name != name@,
            decreases self.tasks@.len() - i,
        {
            assert(self@[i as int] == self.tasks@[i as int]@);
            if self.tasks[i].name().eq(&target) {
                return Some(i);
            }
            i += 1;
        }
        None
    }

    /// What looking up `name` reports: `Task "name" found`, a line break and
    /// the first such task rendered; or that no task has that name.
    pub fn find_report(&self, name: &str) -> (r: Result<String, String>)
        ensures
            match r {
                Ok(m) => has_named(self@, name@) && m@ == task_message(name@, "\" found\n"@)
                    + describe_text(self@[first_index(self@, name@)]),
                Err(m) => !has_named(self@, name@) && m@ == task_message(
                    name@,
                    "\" does not exist"@,
                ),
            },
    {
        match self.find_task(name) {
            Some(i) => {
                proof {
                    assert(first_named_at(self@, name@, i as int));
                    assert(first_index(self@, name@) == i as int);
                    assert(self@[i as int] == self.tasks@[i as int]@);
                }
                let mut m = task_message_exec(name, "\" found\n");
                m.append(self.tasks[i].describe().as_str());
                Ok(m)
            },
            None => {
                assert(!has_named(self@, name@));
                Err(task_message_exec(name, "\" does not exist"))
            },
        }
    }

    /// Replaces the first task called `name` by `updated`, keeping its position.
    pub fn edit_task(&mut self, name: &str, updated: Task) -> (r: Result<String, String>)
        ensures
            final(self)@ == edited(old(self)@, name@, updated@),
            match r {
                Ok(m) => has_named(old(self)@, name@) && m@ == task_message(
                    name@,
                    "\" updated successfully"@,
                ),
                Err(m) => !has_named(old(self)@, name@) && m@ == task_message(
                    name@,
                    "\" does not exist"@,
                ),
            },
    {
        match self.find_task(name) {
            Some(i) => {
                proof {
                    assert(first_named_at(self@, name@, i as int));
                    assert(first_index(self@, name@) == i as int);
                }
                self.tasks.set(i, updated);
                assert(self@ =~= edited(old(self)@, name@, updated@));
                Ok(task_message_exec(name, "\" updated successfully"))
            },
            None => {
                assert(!has_named(self@, name@));
                Err(task_message_exec(name, "\" does not exist"))
            },
        }
    }

    /// Takes out the first task called `name`; later tasks move up by one.
    pub fn remove_task(&mut self, name: &str) -> (r: Result<String, String>)
        ensures
            final(self)@ == removed(old(self)@, name@),
            match r {
                Ok(m) => has_named(old(self)@, name@) && m@ == task_message(
                    name@,
                    "\" removed successfully"@,
                ),
                Err(m) => !has_named(old(self)@, name@) && m@ == task_message(
                    name@,
                    "\" does not exist"@,
                ),
            },
    {
        match self.find_task(name) {
            Some(i) => {
                proof {
                    assert(first_named_at(self@, name@, i as int));
                    assert(first_index(self@, name@) == i as int);
                }
                self.tasks.remove(i);
                assert(self@ =~= removed(old(self)@, name@));
                Ok(task_message_exec(name, "\" removed successfully"))
            },
            None => {
                assert(!has_named(self@, name@));
                Err(task_message_exec(name, "\" does not exist"))
            },
        }
    }

    /// Takes in what reading `filename` gave: on success the tasks read replace
    /// the current ones wholesale; on any failure the current ones stay.
    pub fn apply_load(&mut self, filename: &str, outcome: LoadOutcome) -> (r: Result<
        String,
        String,
    >)
        ensures
            final(self)@ == loaded(old(self)@, outcome),
            result_view(r) == load_message(filename@, outcome),
    {
        match outcome {
            LoadOutcome::Missing => {
                let mut m = String::from_str("File \"");
                m.append(filename);
                m.append("\" does not exist");
                Err(m)
            },
            LoadOutcome::OpenFailed(e) => Err(cause_message_exec("Error opening file: ", &e)),
            LoadOutcome::ParseFailed(e) => Err(cause_message_exec("Error loading data: ", &e)),
            LoadOutcome::Parsed(v) => {
                self.tasks = v;
                Ok(String::from_str("Data loaded"))
            },
        }
    }

    /// Every task rendered for display, in order.
    pub fn list(&self) -> (r: Vec<String>)
        ensures
            r@.len() == self@.len(),
            forall|i: int| 0 <= i < r@.len() ==> r@[i]@ == describe_text(self@[i]),
    {
        let mut out: Vec<String> = Vec::new();
        let mut i: usize = 0;
        while i < self.tasks.len()
            invariant
                i <= self.tasks@.len(),
                out@.len() == i,
                forall|j: int| 0 <= j < i ==> out@[j]@ == describe_text(self@[j]),
            decreases self.tasks@.len() - i,
        {
            assert(self@[i as int] == self.tasks@[i as int]@);
            out.push(self.tasks[i].describe());
            i += 1;
        }
        out
    }
}

} // verus!
