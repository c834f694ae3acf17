//! Commands behind placeholders: an abstraction over "execute this command
//! line and capture its output", and a command value that memoizes the
//! output of its single execution.

use vstd::prelude::*;

verus! {

/// The mathematical content of a `CommandOutput`.
pub struct CommandOutputView {
    pub stdout: Seq<char>,
    pub stderr: Option<Seq<char>>,
}

/// What a command produced: its standard output, and its standard error
/// when there was any.
#[derive(Debug)]
pub struct CommandOutput {
    stdout: String,
    stderr: Option<String>,
}

impl View for CommandOutput {
    type V = CommandOutputView;

    closed spec fn view(&self) -> CommandOutputView {
        CommandOutputView {
            stdout: self.stdout@,
            stderr: match self.stderr {
                Some(e) => Some(e@),
                None => None,
            },
        }
    }
}

impl CommandOutput {
    pub fn new(stdout: String, stderr: Option<String>) -> (r: Self)
        ensures
            r@.stdout == stdout@,
            (r@.stderr is Some <==> stderr is Some),
            stderr matches Some(e) ==> r@.stderr == Some(e@),
    {
        Self { stdout, stderr }
    }

    pub fn stdout(&self) -> (r: &String)
        ensures
            r@ == self@.stdout,
    {
        &self.stdout
    }

    pub fn stderr(&self) -> (r: &Option<String>)
        ensures
            (*r is Some <==> self@.stderr is Some),
            *r matches Some(e) ==> self@.stderr == Some(e@),
    {
        &self.stderr
    }
}

/// Executes a command line and captures its output.  The application wires
/// in a process-spawning implementation; tests script the answers.  Nothing
/// is assumed of the result: callers state what holds whatever comes back.
pub trait CommandProcessor {
    fn process(&self, command_text: &str) -> CommandOutput;
}

/// The mathematical content of a `CommandToExecute`: the command line and
/// the memoized output of its execution, absent until the first use.
pub struct CommandView {
    pub command: Seq<char>,
    pub output: Option<CommandOutputView>,
}

/// A command with its memoized output.  The command runs at most once, on
/// first use; later uses reuse the captured output unchanged.
#[derive(Debug)]
pub struct CommandToExecute {
    provided_command: String,
    output_of_executed: Option<CommandOutput>,
}

impl View for CommandToExecute {
    type V = CommandView;

    closed spec fn view(&self) -> CommandView {
        CommandView {
            command: self.provided_command@,
            output: match self.output_of_executed {
                Some(ref o) => Some(o@),
                None => None,
            },
        }
    }
}

impl CommandToExecute {
    /// How one use may change the memoized state: the command never changes,
    /// a captured output never changes, only an absent output may be filled.
    pub open spec fn runs_to(pre: CommandView, post: CommandView) -> bool {
        &&& post.command == pre.command
        &&& (match pre.output {
            Some(o) => post.output == Some(o),
            None => true,
        })
    }

    pub fn new(provided_command: String) -> (r: Self)
        ensures
            r@.command == provided_command@,
            r@.output is None,
    {
        Self { provided_command, output_of_executed: None }
    }

    pub fn command(&self) -> (r: &String)
        ensures
            r@ == self@.command,
    {
        &self.provided_command
    }

    /// Runs the command through the processor unless an output is already
    /// memoized; afterwards an output is present either way.
    fn ensure_execution_only_once<T: CommandProcessor>(&mut self, processor: &T)
        ensures
            Self::runs_to(old(self)@, final(self)@),
            final(self)@.output is Some,
    {
        if self.output_of_executed.is_none() {
            let output = processor.process(self.provided_command.as_str());
            self.output_of_executed = Some(output);
        }
    }

    /// The command's standard output, captured on first use.
    pub fn get_std_out<T: CommandProcessor>(&mut self, processor: &T) -> (r: String)
        ensures
            Self::runs_to(old(self)@, final(self)@),
            final(self)@.output matches Some(o) && r@ == o.stdout,
    {
        self.ensure_execution_only_once(processor);
        match &self.output_of_executed {
            Some(o) => o.stdout().clone(),
            None => {
                proof {
                    assert(false);
                }
                String::new()
            },
        }
    }

    /// The command's standard error, captured on first use; `None` when the
    /// command reported none.
    pub fn get_std_err<T: CommandProcessor>(&mut self, processor: &T) -> (r: Option<String>)
        ensures
            Self::runs_to(old(self)@, final(self)@),
            final(self)@.output matches Some(o) && ((r is Some <==> o.stderr is Some) && (
            r matches Some(e) ==> o.stderr == Some(e@))),
    {
        self.ensure_execution_only_once(processor);
        match &self.output_of_executed {
            Some(o) => match o.stderr() {
                Some(e) => Some(e.clone()),
                None => None,
            },
            None => {
                proof {
                    assert(false);
                }
                None
            },
        }
    }
}

} // verus!
