//! The command line, as parsed options, and the command it selects.
use vstd::prelude::*;

verus! {

/// The parsed command-line options.
pub struct Cli {
    /// Create a launcher, with an optional name.
    pub new: Option<Option<String>>,
    /// Edit the named launcher.
    pub edit: Option<String>,
    /// List the launchers.
    pub list: bool,
    /// Remove the named launcher.
    pub remove: Option<String>,
}

/// What the program is asked to do.
pub enum Command {
    List,
    Remove(String),
    NewDefault,
    New(String),
    Edit(String),
    /// No command was given.
    Help,
}

/// `r` is the command the options `c` select: listing first, then
/// removal, creation and editing; with none of them, help.
pub open spec fn selects(c: Cli, r: Command) -> bool {
    if c.list {
        r is List
    } else if c.remove is Some {
        r matches Command::Remove(n) && n@ == c.remove.unwrap()@
    } else if c.new is Some {
        match c.new.unwrap() {
            None => r is NewDefault,
            Some(m) => r matches Command::New(n) && n@ == m@,
        }
    } else if c.edit is Some {
        r matches Command::Edit(n) && n@ == c.edit.unwrap()@
    } else {
        r is Help
    }
}

impl Cli {
    /// The command the options select: listing first, then removal,
    /// creation and editing.
    pub fn command(self) -> (r: Command)
        ensures
            selects(self, r),
    {
        if self.list {
            return Command::List;
        }
        match self.remove {
            Some(n) => {
                return Command::Remove(n);
            },
            None => {},
        }
        match self.new {
            Some(None) => {
                return Command::NewDefault;
            },
            Some(Some(n)) => {
                return Command::New(n);
            },
            None => {},
        }
        match self.edit {
            Some(n) => Command::Edit(n),
            None => Command::Help,
        }
    }
}

} // verus!
