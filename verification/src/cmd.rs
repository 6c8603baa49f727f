//! Commands as data: which program to run, with which arguments and under
//! which time limit. Running them is the caller's business.

use crate::workspace::Workspace;
use vstd::prelude::*;

verus! {

/// The program that a command runs.
#[derive(Clone, Debug, PartialEq, Eq)]
pub enum Binary {
    /// A program that is expected to be found on the machine as it is.
    Global(String),
    /// A program that the execution layer installs and locates itself,
    /// below the workspace's binary directory.
    ManagedByRustwide(String),
}

/// Mathematical model of a [`Binary`].
pub enum BinaryView {
    Global(Seq<char>),
    ManagedByRustwide(Seq<char>),
}

impl View for Binary {
    type V = BinaryView;

    open spec fn view(&self) -> BinaryView {
        match self {
            Binary::Global(name) => BinaryView::Global(name@),
            Binary::ManagedByRustwide(name) => BinaryView::ManagedByRustwide(name@),
        }
    }
}

/// A command that is ready to be run.
#[derive(Clone, Debug, PartialEq, Eq)]
pub struct Command {
    /// The program to run.
    pub binary: Binary,
    /// Its arguments, in order.
    pub args: Vec<String>,
    /// Seconds after which the command is to be stopped; `None` lets it run
    /// for as long as it takes.
    pub timeout: Option<u64>,
}

/// Mathematical model of a [`Command`].
pub struct CommandView {
    pub binary: BinaryView,
    pub args: Seq<Seq<char>>,
    pub timeout: Option<u64>,
}

impl CommandView {
    /// The command with `args` put in front of its arguments.
    pub open spec fn with_leading_args(self, args: Seq<Seq<char>>) -> CommandView {
        CommandView { args: args + self.args, ..self }
    }

    /// The command with `args` added behind its arguments.
    pub open spec fn with_args(self, args: Seq<Seq<char>>) -> CommandView {
        CommandView { args: self.args + args, ..self }
    }

    /// The command with its time limit replaced.
    pub open spec fn with_timeout(self, timeout: Option<u64>) -> CommandView {
        CommandView { timeout, ..self }
    }
}

/// The texts of a list of owned strings.
pub open spec fn texts(strings: Seq<String>) -> Seq<Seq<char>> {
    strings.map_values(|s: String| s@)
}

/// The texts of a list of string slices.
pub open spec fn slice_texts(strings: Seq<&str>) -> Seq<Seq<char>> {
    strings.map_values(|s: &str| s@)
}

impl View for Command {
    type V = CommandView;

    open spec fn view(&self) -> CommandView {
        CommandView { binary: self.binary@, args: texts(self.args@), timeout: self.timeout }
    }
}

/// Something that can be run as a command.
pub trait Runnable {
    /// The program that [`Runnable::name`] reports.
    spec fn binary(&self) -> BinaryView;

    /// The arguments that [`Runnable::prepare_command`] puts in front of a
    /// command's own.
    spec fn leading_args(&self) -> Seq<Seq<char>>;

    /// The program to invoke.
    fn name(&self) -> (binary: Binary)
        ensures
            binary@ == self.binary(),
    ;

    /// Shapes a command that runs this runnable: the arguments that the
    /// runnable always needs come first, the rest of the command stays.
    fn prepare_command(&self, cmd: Command) -> (prepared: Command)
        ensures
            prepared@ == cmd@.with_leading_args(self.leading_args()),
    ;
}

impl Command {
    /// The command that runs `runnable` in `workspace`: the runnable's
    /// program, the arguments it always needs, and the workspace's time limit.
    pub fn new<R: Runnable>(workspace: &Workspace, runnable: &R) -> (cmd: Command)
        ensures
            cmd@ == (CommandView {
                binary: runnable.binary(),
                args: runnable.leading_args(),
                timeout: workspace@.command_timeout,
            }),
    {
        let bare = Command {
            binary: runnable.name(),
            args: Vec::new(),
            timeout: workspace.command_timeout,
        };
        let prepared = runnable.prepare_command(bare);
        assert(prepared@.args =~= runnable.leading_args());
        prepared
    }

    /// Adds `args` behind the arguments that the command already has.
    pub fn args(self, args: &[&str]) -> (cmd: Command)
        ensures
            cmd@ == self@.with_args(slice_texts(args@)),
    {
        let mut cmd = self;
        let mut i: usize = 0;
        while i < args.len()
            invariant
                i <= args.len(),
                cmd.binary == self.binary,
                cmd.timeout == self.timeout,
                texts(cmd.args@) == texts(self.args@) + slice_texts(args@.take(i as int)),
            decreases args.len() - i,
        {
            let ghost before = cmd.args@;
            let arg: String = args[i].to_owned();
            cmd.args.push(arg);
            proof {
                assert(texts(cmd.args@) =~= texts(before).push(args@[i as int]@));
                assert(args@.take(i + 1) =~= args@.take(i as int).push(args@[i as int]));
                assert(slice_texts(args@.take(i + 1)) =~= slice_texts(args@.take(i as int)).push(
                    args@[i as int]@,
                ));
            }
            i = i + 1;
        }
        proof {
            assert(args@.take(i as int) =~= args@);
        }
        cmd
    }

    /// Replaces the command's time limit; `None` removes it.
    pub fn timeout(self, timeout: Option<u64>) -> (cmd: Command)
        ensures
            cmd@ == self@.with_timeout(timeout),
    {
        Command { timeout, ..self }
    }
}

} // verus!
