//! What the monitor asks of the operating system about a process, and what
//! it makes of the answers of the tools it runs.

use vstd::prelude::*;

pub mod linux;
pub mod macos;
pub mod windows;

verus! {

/// Looks up a process by its id. An implementation asks the operating
/// system; an `Err` carries the reason why nothing was found.
pub trait PlatformUtils {
    /// The name of the process with this id.
    fn get_process_name(pid: u32) -> Result<String, String>;

    /// The title of a window of the process with this id.
    fn get_window_title(pid: u32) -> Result<String, String>;
}

/// The operating system that the monitor runs on.
#[derive(Debug, Clone, Copy, PartialEq, Eq, Structural)]
pub enum TargetOs {
    Windows,
    Linux,
    MacOs,
    /// Any other system; the monitors do not support it.
    Other,
}

impl TargetOs {
    /// Whether the monitors support the system.
    pub open spec fn is_supported(self) -> bool {
        self != TargetOs::Other
    }

    /// Whether the monitors support the system.
    pub fn supported(self) -> (r: bool)
        ensures
            r == self.is_supported(),
    {
        match self {
            TargetOs::Other => false,
            _ => true,
        }
    }
}

/// What became of running a command.
#[derive(Debug)]
pub enum CommandOutcome {
    /// The command could not be started; the reason.
    NotRun(String),
    /// The command ran: whether it reported success, and what it wrote to
    /// its standard output.
    Ran { success: bool, stdout: String },
}

/// What a `CommandOutcome` holds, with its texts as character sequences.
pub enum CommandOutcomeView {
    NotRun(Seq<char>),
    Ran { success: bool, stdout: Seq<char> },
}

impl View for CommandOutcome {
    type V = CommandOutcomeView;

    open spec fn view(&self) -> CommandOutcomeView {
        match self {
            CommandOutcome::NotRun(e) => CommandOutcomeView::NotRun(e@),
            CommandOutcome::Ran { success, stdout } => CommandOutcomeView::Ran {
                success: *success,
                stdout: stdout@,
            },
        }
    }
}

/// The view of a result whose value and error are both texts.
pub open spec fn result_view(r: Result<String, String>) -> Result<Seq<char>, Seq<char>> {
    match r {
        Ok(s) => Ok(s@),
        Err(e) => Err(e@),
    }
}

/// What a command that ran with success wrote, if it did.
pub open spec fn successful_output(outcome: CommandOutcomeView) -> Option<Seq<char>> {
    match outcome {
        CommandOutcomeView::Ran { success, stdout } => if success {
            Some(stdout)
        } else {
            None
        },
        CommandOutcomeView::NotRun(_) => None,
    }
}

/// What a command wrote, whether or not it reported success.
pub open spec fn any_output(outcome: CommandOutcomeView) -> Option<Seq<char>> {
    match outcome {
        CommandOutcomeView::Ran { success, stdout } => Some(stdout),
        CommandOutcomeView::NotRun(_) => None,
    }
}

impl CommandOutcome {
    /// What the command wrote, if it ran with success.
    pub fn successful_stdout(&self) -> (r: Option<&str>)
        ensures
            match r {
                Some(s) => successful_output(self@) == Some(s@),
                None => successful_output(self@) is None,
            },
    {
        match self {
            CommandOutcome::Ran { success, stdout } => if *success {
                Some(stdout.as_str())
            } else {
                None
            },
            CommandOutcome::NotRun(_) => None,
        }
    }

    /// What the command wrote, if it ran at all.
    pub fn stdout(&self) -> (r: Option<&str>)
        ensures
            match r {
                Some(s) => any_output(self@) == Some(s@),
                None => any_output(self@) is None,
            },
    {
        match self {
            CommandOutcome::Ran { success, stdout } => Some(stdout.as_str()),
            CommandOutcome::NotRun(_) => None,
        }
    }
}

} // verus!
