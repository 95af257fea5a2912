use vstd::prelude::*;

use crate::timestamp::{timestamp_text, Timestamp};

verus! {

/// How urgent a task is.
#[derive(Clone, Copy, Debug, PartialEq, Eq, Structural)]
pub enum Priority {
    Low,
    Medium,
    High,
}

/// The human-readable label of a priority.
pub open spec fn priority_label(p: Priority) -> Seq<char> {
    match p {
        Priority::Low => "Low"@,
        Priority::Medium => "Medium"@,
        Priority::High => "High"@,
    }
}

/// The priority that lower-case input names: "medium" and "high" name theirs,
/// anything else falls back to `Low`.
pub open spec fn priority_of_lowered(l: Seq<char>) -> Priority {
    if l == "medium"@ {
        Priority::Medium
    } else if l == "high"@ {
        Priority::High
    } else {
        Priority::Low
    }
}

/// What `str::to_lowercase` makes of a string.
pub uninterp spec fn lower_of(s: Seq<char>) -> Seq<char>;

/// Relies on `str::to_lowercase`: its result depends on the characters alone.
#[verifier::external_body]
fn lowercase(s: &str) -> (r: String)
    ensures
        r@ == lower_of(s@),
{
    s.to_lowercase()
}

impl Priority {
    /// The label shown for this priority.
    pub fn to_string(&self) -> (r: String)
        ensures
            r@ == priority_label(*self),
    {
        match self {
            Priority::Low => String::from_str("Low"),
            Priority::Medium => String::from_str("Medium"),
            Priority::High => String::from_str("High"),
        }
    }

    /// Reads a priority from text that is already lower case.
    pub fn from_lowered(l: &str) -> (r: Priority)
        ensures
            r == priority_of_lowered(l@),
    {
        let l = String::from_str(l);
        if l == String::from_str("medium") {
            Priority::Medium
        } else if l == String::from_str("high") {
            Priority::High
        } else {
            Priority::Low
        }
    }

    /// Reads a priority from user text, ignoring case; unknown text gives `Low`.
    pub fn parse(s: &str) -> (r: Priority)
        ensures
            r == priority_of_lowered(lower_of(s@)),
    {
        let l = lowercase(s);
        Priority::from_lowered(l.as_str())
    }
}

/// A task as a mathematical value.
pub ghost struct TaskView {
    pub name: Seq<char>,
    pub description: Seq<char>,
    pub priority: Priority,
    pub created_at: Timestamp,
}

/// A named, described, prioritised record with the time it was made.
#[derive(Debug)]
pub struct Task {
    name: String,
    description: String,
    priority: Priority,
    created_at: Timestamp,
}

impl View for Task {
    type V = TaskView;

    closed spec fn view(&self) -> TaskView {
        TaskView {
            name: self.name@,
            description: self.description@,
            priority: self.priority,
            created_at: self.created_at,
        }
    }
}

/// `Name: N | Priority: P | Added: T`, a line break, `Description: D`, a line break.
pub open spec fn describe_text(t: TaskView) -> Seq<char> {
    "Name: "@ + t.name + " | Priority: "@ + priority_label(t.priority) + " | Added: "@
        + timestamp_text(t.created_at) + "\nDescription: "@ + t.description + "\n"@
}

impl Clone for Task {
    fn clone(&self) -> (r: Task)
        ensures
            r == *self,
    {
        proof {
            use_type_invariant(self);
        }
        Task {
            name: self.name.clone(),
            description: self.description.clone(),
            priority: self.priority,
            created_at: self.created_at,
        }
    }
}

impl Task {
    /// Every task's creation time keeps its fields within their ranges.
    #[verifier::type_invariant]
    spec fn created_at_valid(self) -> bool {
        self.created_at.wf()
    }

    /// A new task stamped with the current local time.
    pub fn new(name: String, description: String, priority: Priority) -> (r: Task)
        ensures
            r@.created_at.wf(),
            r@.name == name@,
            r@.description == description@,
            r@.priority == priority,
    {
        Task::with_created_at(name, description, priority, Timestamp::now())
    }

    /// A new task from the answers to the three prompts, stamped with the
    /// current local time. An answer that could not be read falls back: the
    /// name to `task`, the description to `description`, the priority to `Low`.
    pub fn from_answers(
        name: Option<String>,
        description: Option<String>,
        priority: Option<String>,
    ) -> (r: Task)
        ensures
            r@.created_at.wf(),
            r@.name == match name {
                Some(n) => n@,
                None => "task"@,
            },
            r@.description == match description {
                Some(d) => d@,
                None => "description"@,
            },
            r@.priority == match priority {
                Some(p) => priority_of_lowered(lower_of(p@)),
                None => Priority::Low,
            },
    {
        let name = match name {
            Some(n) => n,
            None => String::from_str("task"),
        };
        let description = match description {
            Some(d) => d,
            None => String::from_str("description"),
        };
        let priority = match priority {
            Some(p) => Priority::parse(p.as_str()),
            None => Priority::Low,
        };
        Task::new(name, description, priority)
    }

    /// A task with a given creation time, as when it is read back from storage.
    pub fn with_created_at(
        name: String,
        description: String,
        priority: Priority,
        created_at: Timestamp,
    ) -> (r: Task)
        requires
            created_at.wf(),
        ensures
            r@ == (TaskView { name: name@, description: description@, priority, created_at }),
    {
        Task { name, description, priority, created_at }
    }

    pub fn name(&self) -> (r: &String)
        ensures
            r@ == self@.name,
    {
        &self.name
    }

    pub fn description(&self) -> (r: &String)
        ensures
            r@ == self@.description,
    {
        &self.description
    }

    pub fn priority(&self) -> (r: Priority)
        ensures
            r == self@.priority,
    {
        self.priority
    }

    pub fn created_at(&self) -> (r: Timestamp)
        ensures
            r == self@.created_at,
            r.wf(),
    {
        proof {
            use_type_invariant(self);
        }
        self.created_at
    }

    /// The task rendered for display.
    pub fn describe(&self) -> (r: String)
        ensures
            r@ == describe_text(self@),
    {
        proof {
            use_type_invariant(self);
        }
        let mut out = String::from_str("Name: ");
        out.append(self.name.as_str());
        out.append(" | Priority: ");
        out.append(self.priority.to_string().as_str());
        out.append(" | Added: ");
        out.append(self.created_at.format().as_str());
        out.append("\nDescription: ");
        out.append(self.description.as_str());
        out.append("\n");
        assert(out@ =~= describe_text(self@));
        out
    }
}

} // verus!
