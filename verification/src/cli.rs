//! The commands of the command line, and what each says once it is done.

use vstd::prelude::*;

verus! {

/// One command, with the name of the watcher it is about.
#[derive(Debug, Clone, PartialEq, Eq)]
pub enum Commands {
    /// Start the watcher's service.
    Start { name: String },
    /// Stop the watcher's service.
    Stop { name: String },
    /// Create a watcher.
    Create { name: String },
    /// Delete a watcher.
    Delete { name: String },
    /// Show where the watcher's log is found.
    Logs { name: String },
    /// List the watchers.
    List {},
    /// Run the watcher in the foreground, as its service does.
    Daemon { name: String },
}

/// A parsed command line.
#[derive(Debug, Clone, PartialEq, Eq)]
pub struct Cli {
    pub command: Commands,
}

impl Commands {
    /// What the command reports when it has succeeded, if anything.
    pub open spec fn announcement(self) -> Option<Seq<char>> {
        match self {
            Commands::Start { name } => Some(
                "Successfully started watcher '"@ + name@ + "'"@,
            ),
            Commands::Stop { name } => Some("Successfully stopped watcher '"@ + name@ + "'"@),
            Commands::Create { name } => Some(
                "Successfully created watcher '"@ + name@
                    + "', start it with: 'watchers start "@ + name@,
            ),
            Commands::Delete { name } => Some("Successfully deleted watcher '"@ + name@ + "'"@),
            _ => None,
        }
    }

    /// The line to print when the command has succeeded, if it prints one.
    pub fn success_message(&self) -> (message: Option<String>)
        ensures
            match message {
                Some(text) => self.announcement() == Some(text@),
                None => self.announcement() is None,
            },
    {
        match self {
            Commands::Start { name } => {
                let mut text = String::from_str("Successfully started watcher '");
                text.append(name.as_str());
                text.append("'");
                Some(text)
            },
            Commands::Stop { name } => {
                let mut text = String::from_str("Successfully stopped watcher '");
                text.append(name.as_str());
                text.append("'");
                Some(text)
            },
            Commands::Create { name } => {
                let mut text = String::from_str("Successfully created watcher '");
                text.append(name.as_str());
                text.append("', start it with: 'watchers start ");
                text.append(name.as_str());
                Some(text)
            },
            Commands::Delete { name } => {
                let mut text = String::from_str("Successfully deleted watcher '");
                text.append(name.as_str());
                text.append("'");
                Some(text)
            },
            _ => None,
        }
    }
}

} // verus!
