//! What every provisionable tool can do, and the protocol by which its
//! operations are carried out.
//!
//! An operation never touches the machine. It starts as a step that either
//! names what the caller must find out or run, or is already done. The caller
//! does the work, reports what it found, and gets the next step.

use crate::cmd::{Binary, BinaryView, Command, CommandView, Runnable};
use crate::workspace::{joined_path, Workspace, WorkspaceView};
use vstd::prelude::*;

verus! {

/// How a command ended.
#[derive(Clone, Debug, PartialEq, Eq)]
pub enum Exit {
    /// The process ran and returned this exit code.
    Code(i32),
    /// The process was stopped from outside and returned no exit code.
    Killed,
    /// The process could not be started; the text says why.
    NotStarted(String),
}

/// Mathematical model of an [`Exit`].
pub enum ExitView {
    Code(i32),
    Killed,
    NotStarted(Seq<char>),
}

impl ExitView {
    /// A command succeeded if it ran and returned exit code zero.
    pub open spec fn success(self) -> bool {
        self == ExitView::Code(0)
    }
}

impl View for Exit {
    type V = ExitView;

    open spec fn view(&self) -> ExitView {
        match self {
            Exit::Code(code) => ExitView::Code(*code),
            Exit::Killed => ExitView::Killed,
            Exit::NotStarted(reason) => ExitView::NotStarted(reason@),
        }
    }
}

impl Exit {
    /// Whether the command succeeded.
    pub fn success(&self) -> (ok: bool)
        ensures
            ok == self@.success(),
    {
        match self {
            Exit::Code(code) => *code == 0,
            _ => false,
        }
    }
}

/// Why an operation on a tool failed.
#[derive(Clone, Debug, PartialEq, Eq)]
pub enum ToolError {
    /// The file system could not say whether the binary is executable. The
    /// text is the caller's report, unchanged.
    Filesystem(String),
    /// The package manager could not be started or did not end successfully.
    Process {
        /// The command that was to run.
        command: Command,
        /// How it ended.
        exit: Exit,
    },
}

/// Mathematical model of a [`ToolError`].
pub enum ToolErrorView {
    Filesystem(Seq<char>),
    Process { command: CommandView, exit: ExitView },
}

impl View for ToolError {
    type V = ToolErrorView;

    open spec fn view(&self) -> ToolErrorView {
        match self {
            ToolError::Filesystem(reason) => ToolErrorView::Filesystem(reason@),
            ToolError::Process { command, exit } => ToolErrorView::Process {
                command: command@,
                exit: exit@,
            },
        }
    }
}

/// What the caller found out about a path.
#[derive(Debug, PartialEq, Eq)]
pub enum Probe {
    /// Whether a regular file exists at the path.
    File(bool),
    /// Whether the file at the path is executable, or why the file system
    /// would not say.
    Executable(Result<bool, String>),
}

/// Mathematical model of a [`Probe`].
pub enum ProbeView {
    File(bool),
    Executable(Result<bool, Seq<char>>),
}

impl View for Probe {
    type V = ProbeView;

    open spec fn view(&self) -> ProbeView {
        match self {
            Probe::File(found) => ProbeView::File(*found),
            Probe::Executable(Ok(executable)) => ProbeView::Executable(Ok(*executable)),
            Probe::Executable(Err(reason)) => ProbeView::Executable(Err(reason@)),
        }
    }
}

/// A step of finding out whether a tool is installed.
#[derive(Debug, PartialEq, Eq)]
pub enum InstalledCheck {
    /// The caller is to report whether a regular file exists at this path.
    IsFile(String),
    /// The caller is to report whether the file at this path is executable.
    IsExecutable(String),
    /// The check is over: the tool is installed or not, or the check failed.
    Done(Result<bool, ToolError>),
}

/// Mathematical model of an [`InstalledCheck`].
pub enum InstalledCheckView {
    IsFile(Seq<char>),
    IsExecutable(Seq<char>),
    Done(Result<bool, ToolErrorView>),
}

impl InstalledCheckView {
    /// The step that follows this one once the caller has reported `probe`.
    ///
    /// Without a regular file the tool is not installed, and executability is
    /// never asked. With one, the tool is installed exactly if the file is
    /// executable, and a failure to find that out fails the check. A report
    /// that the step did not ask for changes nothing.
    pub open spec fn resume(self, probe: ProbeView) -> InstalledCheckView {
        match (self, probe) {
            (InstalledCheckView::IsFile(_), ProbeView::File(false)) => InstalledCheckView::Done(
                Ok(false),
            ),
            (InstalledCheckView::IsFile(path), ProbeView::File(true)) => {
                InstalledCheckView::IsExecutable(path)
            },
            (
                InstalledCheckView::IsExecutable(_),
                ProbeView::Executable(Ok(executable)),
            ) => InstalledCheckView::Done(Ok(executable)),
            (
                InstalledCheckView::IsExecutable(_),
                ProbeView::Executable(Err(reason)),
            ) => InstalledCheckView::Done(Err(ToolErrorView::Filesystem(reason))),
            _ => self,
        }
    }

    /// The step reached from this one once the caller has made the reports
    /// `probes`, one after the other.
    pub open spec fn resume_all(self, probes: Seq<ProbeView>) -> InstalledCheckView
        decreases probes.len(),
    {
        if probes.len() == 0 {
            self
        } else {
            self.resume_all(probes.drop_last()).resume(probes.last())
        }
    }
}

impl View for InstalledCheck {
    type V = InstalledCheckView;

    open spec fn view(&self) -> InstalledCheckView {
        match self {
            InstalledCheck::IsFile(path) => InstalledCheckView::IsFile(path@),
            InstalledCheck::IsExecutable(path) => InstalledCheckView::IsExecutable(path@),
            InstalledCheck::Done(Ok(installed)) => InstalledCheckView::Done(Ok(*installed)),
            InstalledCheck::Done(Err(error)) => InstalledCheckView::Done(Err(error@)),
        }
    }
}

impl InstalledCheck {
    /// Goes on with the check after the caller has reported `probe`.
    pub fn resume(self, probe: Probe) -> (next: InstalledCheck)
        ensures
            next@ == self@.resume(probe@),
    {
        match (self, probe) {
            (InstalledCheck::IsFile(path), Probe::File(found)) => {
                if found {
                    InstalledCheck::IsExecutable(path)
                } else {
                    InstalledCheck::Done(Ok(false))
                }
            },
            (InstalledCheck::IsExecutable(_), Probe::Executable(Ok(executable))) => {
                InstalledCheck::Done(Ok(executable))
            },
            (InstalledCheck::IsExecutable(_), Probe::Executable(Err(reason))) => {
                InstalledCheck::Done(Err(ToolError::Filesystem(reason)))
            },
            (step, _) => step,
        }
    }
}

/// A step of installing or updating a tool.
#[derive(Debug, PartialEq, Eq)]
pub enum Provisioning {
    /// The caller is to run this command to its end and report how it ended.
    Run(Command),
    /// The operation is over.
    Done(Result<(), ToolError>),
}

/// Mathematical model of a [`Provisioning`].
pub enum ProvisioningView {
    Run(CommandView),
    Done(Result<(), ToolErrorView>),
}

impl ProvisioningView {
    /// The step that follows this one once the caller has reported `exit`.
    ///
    /// The operation succeeds exactly if the command did; any other end fails
    /// it with the command and its end. Nothing is tried again. Once the
    /// operation is over, a report changes nothing.
    pub open spec fn resume(self, exit: ExitView) -> ProvisioningView {
        match self {
            ProvisioningView::Run(command) => if exit.success() {
                ProvisioningView::Done(Ok(()))
            } else {
                ProvisioningView::Done(Err(ToolErrorView::Process { command, exit }))
            },
            ProvisioningView::Done(_) => self,
        }
    }

    /// How many commands the caller is asked to run from this step on.
    pub open spec fn invocations(self) -> nat {
        match self {
            ProvisioningView::Run(_) => 1,
            ProvisioningView::Done(_) => 0,
        }
    }
}

impl View for Provisioning {
    type V = ProvisioningView;

    open spec fn view(&self) -> ProvisioningView {
        match self {
            Provisioning::Run(command) => ProvisioningView::Run(command@),
            Provisioning::Done(Ok(_)) => ProvisioningView::Done(Ok(())),
            Provisioning::Done(Err(error)) => ProvisioningView::Done(Err(error@)),
        }
    }
}

impl Provisioning {
    /// Goes on with the operation after the caller has reported `exit`.
    pub fn resume(self, exit: Exit) -> (next: Provisioning)
        ensures
            next@ == self@.resume(exit@),
    {
        match self {
            Provisioning::Run(command) => {
                if exit.success() {
                    Provisioning::Done(Ok(()))
                } else {
                    Provisioning::Done(Err(ToolError::Process { command, exit }))
                }
            },
            Provisioning::Done(result) => Provisioning::Done(result),
        }
    }
}

/// A tool whose binary is not there as a regular file is not installed, and
/// that is an answer, not an error: the check that asks about `path` ends
/// with `false` as soon as the caller reports that no regular file is there.
pub proof fn lemma_missing_file_is_not_installed(path: Seq<char>)
    ensures
        InstalledCheckView::IsFile(path).resume(ProbeView::File(false))
            == InstalledCheckView::Done(Ok(false)),
{
}

/// Where a regular file is there, the tool is installed exactly if the file
/// is executable; a file that is there but not executable gives `false`. If
/// the file system cannot say, the check fails with the caller's reason.
pub proof fn lemma_present_file_is_installed_iff_executable(
    path: Seq<char>,
    executable: Result<bool, Seq<char>>,
)
    ensures
        InstalledCheckView::IsFile(path).resume(ProbeView::File(true))
            == InstalledCheckView::IsExecutable(path),
        InstalledCheckView::IsExecutable(path).resume(ProbeView::Executable(executable)) == (
        match executable {
            Ok(yes) => InstalledCheckView::Done(Ok(yes)),
            Err(reason) => InstalledCheckView::Done(Err(ToolErrorView::Filesystem(reason))),
        }),
{
}

/// Whatever the caller reports, and in whatever order: a check that starts by
/// asking about `path` and ends with `true` has been told that a regular file
/// is there and, after that, that the file is executable.
pub proof fn lemma_installed_only_if_executable_file(path: Seq<char>, probes: Seq<ProbeView>)
    requires
        InstalledCheckView::IsFile(path).resume_all(probes) == InstalledCheckView::Done(Ok(true)),
    ensures
        exists|i: int, j: int|
            0 <= i < j < probes.len() && probes[i] == ProbeView::File(true) && probes[j]
                == ProbeView::Executable(Ok(true)),
{
    lemma_check_history(path, probes);
}

/// What each step of a check that started by asking about `path` says of
/// the reports that led to it.
proof fn lemma_check_history(path: Seq<char>, probes: Seq<ProbeView>)
    ensures
        ({
            let reached = InstalledCheckView::IsFile(path).resume_all(probes);
            &&& reached is IsExecutable ==> exists|i: int|
                0 <= i < probes.len() && probes[i] == ProbeView::File(true)
            &&& reached == InstalledCheckView::Done(Ok(true)) ==> exists|i: int, j: int|
                0 <= i < j < probes.len() && probes[i] == ProbeView::File(true) && probes[j]
                    == ProbeView::Executable(Ok(true))
        }),
    decreases probes.len(),
{
    if probes.len() > 0 {
        let earlier = probes.drop_last();
        let before = InstalledCheckView::IsFile(path).resume_all(earlier);
        let reached = before.resume(probes.last());
        lemma_check_history(path, earlier);
        let last = probes.len() - 1;
        if reached is IsExecutable {
            if before is IsExecutable {
                let i = choose|i: int| 0 <= i < earlier.len() && earlier[i] == ProbeView::File(true);
                assert(probes[i] == ProbeView::File(true));
            } else {
                assert(probes[last] == ProbeView::File(true));
            }
        }
        if reached == InstalledCheckView::Done(Ok(true)) {
            if before == InstalledCheckView::Done(Ok(true)) {
                let (i, j) = choose|i: int, j: int|
                    0 <= i < j < earlier.len() && earlier[i] == ProbeView::File(true) && earlier[j]
                        == ProbeView::Executable(Ok(true));
                assert(probes[i] == ProbeView::File(true) && probes[j] == ProbeView::Executable(
                    Ok(true),
                ));
            } else {
                assert(before is IsExecutable);
                let i = choose|i: int| 0 <= i < earlier.len() && earlier[i] == ProbeView::File(true);
                assert(probes[i] == ProbeView::File(true) && probes[last]
                    == ProbeView::Executable(Ok(true)));
            }
        }
    }
}

/// An operation asks for one command at most and never tries again: after
/// the caller's report it is over, successfully exactly if the command ran
/// and returned exit code zero.
pub proof fn lemma_provisioning_ends_after_report(step: ProvisioningView, exit: ExitView)
    ensures
        step.resume(exit) is Done,
        step.resume(exit).invocations() == 0,
        step is Run ==> (step.resume(exit) == ProvisioningView::Done(Ok(())) <==> exit
            == ExitView::Code(0)),
{
}

/// Any end of the command but exit code zero, a nonzero exit code above all,
/// fails the operation with a process error that holds the command and how
/// it ended.
pub proof fn lemma_failed_command_is_process_error(command: CommandView, exit: ExitView)
    requires
        exit != ExitView::Code(0),
    ensures
        ProvisioningView::Run(command).resume(exit) == ProvisioningView::Done(
            Err(ToolErrorView::Process { command, exit }),
        ),
{
}

/// The package manager of the main toolchain. The execution layer locates it.
#[derive(Clone, Copy, Debug, PartialEq, Eq)]
pub struct Cargo;

/// The name under which the package manager is invoked.
pub open spec fn package_manager() -> Seq<char> {
    "cargo"@
}

impl Runnable for Cargo {
    open spec fn binary(&self) -> BinaryView {
        BinaryView::ManagedByRustwide(package_manager())
    }

    open spec fn leading_args(&self) -> Seq<Seq<char>> {
        Seq::empty()
    }

    fn name(&self) -> (binary: Binary) {
        Binary::ManagedByRustwide("cargo".to_owned())
    }

    fn prepare_command(&self, cmd: Command) -> (prepared: Command) {
        assert(Seq::<Seq<char>>::empty() + cmd@.args =~= cmd@.args);
        cmd
    }
}

/// An external tool that a workspace can be provisioned with.
pub trait Tool {
    /// The name of the tool's binary.
    spec fn binary_name(&self) -> Seq<char>;

    /// The first step of installing the tool.
    spec fn install_plan(&self, workspace: WorkspaceView, fast_install: bool) -> ProvisioningView;

    /// The first step of updating the tool.
    spec fn update_plan(&self, workspace: WorkspaceView) -> ProvisioningView;

    /// The name of the tool's binary, by which the tool is shown and looked
    /// up. It depends on the tool alone.
    fn name(&self) -> (name: &'static str)
        ensures
            name@ == self.binary_name(),
    ;

    /// Starts finding out whether the tool is installed in `workspace`: the
    /// caller is asked about the file that the binary's name makes with the
    /// workspace's binary directory. [`InstalledCheck::resume`] tells how
    /// the check goes on.
    fn is_installed(&self, workspace: &Workspace) -> (check: InstalledCheck)
        ensures
            check@ == InstalledCheckView::IsFile(
                joined_path(workspace@.binary_dir, self.binary_name()),
            ),
    ;

    /// Starts installing the tool in `workspace`. With `fast_install` the
    /// tool is built faster and runs slower.
    fn install(&self, workspace: &Workspace, fast_install: bool) -> (step: Provisioning)
        ensures
            step@ == self.install_plan(workspace@, fast_install),
    ;

    /// Starts bringing the tool in `workspace` up to date. `fast_install`
    /// has no part in it.
    fn update(&self, workspace: &Workspace, fast_install: bool) -> (step: Provisioning)
        ensures
            step@ == self.update_plan(workspace@),
    ;
}

} // verus!
