use vstd::prelude::*;

verus! {

/// One of the seven operations that the console menu offers.
#[derive(Clone, Copy, Debug, PartialEq, Eq, Structural)]
pub enum Command {
    Add,
    Find,
    Edit,
    Remove,
    List,
    Save,
    Load,
}

/// The command that typed text selects: its menu number, `1` to `7`.
pub open spec fn command_of(s: Seq<char>) -> Option<Command> {
    if s == "1"@ {
        Some(Command::Add)
    } else if s == "2"@ {
        Some(Command::Find)
    } else if s == "3"@ {
        Some(Command::Edit)
    } else if s == "4"@ {
        Some(Command::Remove)
    } else if s == "5"@ {
        Some(Command::List)
    } else if s == "6"@ {
        Some(Command::Save)
    } else if s == "7"@ {
        Some(Command::Load)
    } else {
        None
    }
}

/// The commands in menu order.
pub open spec fn menu_order() -> Seq<Command> {
    seq![
        Command::Add,
        Command::Find,
        Command::Edit,
        Command::Remove,
        Command::List,
        Command::Save,
        Command::Load,
    ]
}

/// The menu text of a command.
pub open spec fn command_label(c: Command) -> Seq<char> {
    match c {
        Command::Add => "Add task"@,
        Command::Find => "Find task"@,
        Command::Edit => "Edit task"@,
        Command::Remove => "Remove task"@,
        Command::List => "Print tasks"@,
        Command::Save => "Store tasks to file"@,
        Command::Load => "Load tasks from file"@,
    }
}

/// The message for text that selects no command.
pub open spec fn invalid_command_text() -> Seq<char> {
    "Invalid command"@
}

impl Command {
    /// Reads a command from its menu number; any other text selects none.
    pub fn parse(s: &str) -> (r: Option<Command>)
        ensures
            r == command_of(s@),
    {
        let s = String::from_str(s);
        if s == String::from_str("1") {
            Some(Command::Add)
        } else if s == String::from_str("2") {
            Some(Command::Find)
        } else if s == String::from_str("3") {
            Some(Command::Edit)
        } else if s == String::from_str("4") {
            Some(Command::Remove)
        } else if s == String::from_str("5") {
            Some(Command::List)
        } else if s == String::from_str("6") {
            Some(Command::Save)
        } else if s == String::from_str("7") {
            Some(Command::Load)
        } else {
            None
        }
    }

    /// The menu text of this command.
    pub fn label(&self) -> (r: String)
        ensures
            r@ == command_label(*self),
    {
        match self {
            Command::Add => String::from_str("Add task"),
            Command::Find => String::from_str("Find task"),
            Command::Edit => String::from_str("Edit task"),
            Command::Remove => String::from_str("Remove task"),
            Command::List => String::from_str("Print tasks"),
            Command::Save => String::from_str("Store tasks to file"),
            Command::Load => String::from_str("Load tasks from file"),
        }
    }

    /// All commands, in the order the menu numbers them.
    pub fn menu() -> (r: Vec<Command>)
        ensures
            r@ == menu_order(),
    {
        let r = vec![
            Command::Add,
            Command::Find,
            Command::Edit,
            Command::Remove,
            Command::List,
            Command::Save,
            Command::Load,
        ];
        assert(r@ =~= menu_order());
        r
    }

    /// The message shown for text that selects no command.
    pub fn invalid_message() -> (r: String)
        ensures
            r@ == invalid_command_text(),
    {
        String::from_str("Invalid command")
    }
}

} // verus!
