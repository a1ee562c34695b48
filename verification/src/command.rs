//! Child-process commands and how they ended.

use crate::env::Environment;
use crate::path::{clone_texts, text_views, FsPath, PathModel};
use vstd::prelude::*;

verus! {

/// What becomes of a child's standard output and standard error.
#[derive(Clone, Copy, Debug, PartialEq, Eq, Structural)]
pub enum OutputPolicy {
    /// Captured, and shown on no console.
    Piped,
    /// Streamed to the standard streams of the host process.
    Inherited,
}

/// How a child process that ran to its end left: with an exit code, or
/// without one when a signal ended it.
#[derive(Clone, Copy, Debug, PartialEq, Eq)]
pub struct ExitStatus {
    pub code: Option<i32>,
}

impl ExitStatus {
    /// The process left with exit code zero.
    pub open spec fn succeeded(self) -> bool {
        self.code == Some(0i32)
    }

    /// An exit with the given code.
    pub fn from_code(code: i32) -> (status: ExitStatus)
        ensures
            status.code == Some(code),
    {
        ExitStatus { code: Some(code) }
    }

    /// Whether the process left with exit code zero.
    pub fn success(&self) -> (ok: bool)
        ensures
            ok == self.succeeded(),
    {
        match self.code {
            Some(code) => code == 0,
            None => false,
        }
    }
}

/// A program and its arguments, as texts.
pub struct CommandModel {
    pub program: Seq<char>,
    pub args: Seq<Seq<char>>,
}

/// A program and its arguments.
#[derive(Debug, PartialEq, Eq)]
pub struct CommandLine {
    pub program: String,
    pub args: Vec<String>,
}

impl View for CommandLine {
    type V = CommandModel;

    open spec fn view(&self) -> CommandModel {
        CommandModel { program: self.program@, args: text_views(self.args@) }
    }
}

impl CommandLine {
    /// The command that runs `program` without arguments.
    pub fn new(program: &str) -> (command: CommandLine)
        ensures
            command@ == (CommandModel { program: program@, args: Seq::empty() }),
    {
        let command = CommandLine { program: String::from_str(program), args: Vec::new() };
        assert(text_views(command.args@) =~= Seq::<Seq<char>>::empty());
        command
    }

    /// This command with one more argument at the end.
    pub fn arg(self, arg: &str) -> (command: CommandLine)
        ensures
            command@ == (CommandModel { program: self@.program, args: self@.args.push(arg@) }),
    {
        let mut command = self;
        let ghost before = text_views(command.args@);
        command.args.push(String::from_str(arg));
        assert(text_views(command.args@) =~= before.push(arg@));
        command
    }
}

impl Clone for CommandLine {
    fn clone(&self) -> (copy: Self)
        ensures
            copy@ == self@,
    {
        CommandLine { program: self.program.clone(), args: clone_texts(&self.args) }
    }
}

/// What an invocation is: the command, the directory it runs in, the
/// variables added to the environment it inherits, and its output policy.
pub struct InvocationModel {
    pub command: CommandModel,
    pub cwd: PathModel,
    pub env: Map<Seq<char>, Seq<char>>,
    pub output: OutputPolicy,
}

/// One start of a child process.
#[derive(Debug)]
pub struct Invocation {
    pub command: CommandLine,
    pub cwd: FsPath,
    pub env: Environment,
    pub output: OutputPolicy,
}

impl View for Invocation {
    type V = InvocationModel;

    open spec fn view(&self) -> InvocationModel {
        InvocationModel {
            command: self.command@,
            cwd: self.cwd@,
            env: self.env@,
            output: self.output,
        }
    }
}

impl Clone for Invocation {
    fn clone(&self) -> (copy: Self)
        ensures
            copy@ == self@,
    {
        Invocation {
            command: self.command.clone(),
            cwd: self.cwd.clone(),
            env: self.env.clone(),
            output: self.output,
        }
    }
}

} // verus!
