//! Tools that come as a package with a binary, from a registry or straight
//! from a repository, and that the package manager installs.

use crate::cmd::{slice_texts, Binary, BinaryView, Command, CommandView, Runnable};
use crate::tools::{
    package_manager, Cargo, ExitView, InstalledCheck, InstalledCheckView, Provisioning,
    ProvisioningView, Tool, ToolErrorView,
};
use crate::workspace::{binary_path, joined_path, Workspace, WorkspaceView};
use vstd::prelude::*;

verus! {

/// Where a tool's package comes from.
#[derive(Clone, Copy, Debug, PartialEq, Eq)]
pub enum CrateName {
    /// A package of this name in the central registry.
    Registry(&'static str),
    /// A package fetched from the repository at this address.
    Git(&'static str),
}

/// Mathematical model of a [`CrateName`].
pub enum CrateNameView {
    Registry(Seq<char>),
    Git(Seq<char>),
}

impl View for CrateName {
    type V = CrateNameView;

    open spec fn view(&self) -> CrateNameView {
        match self {
            CrateName::Registry(name) => CrateNameView::Registry(name@),
            CrateName::Git(url) => CrateNameView::Git(url@),
        }
    }
}

impl CrateNameView {
    /// The arguments that tell the package manager's `install` which package
    /// is meant.
    pub open spec fn install_source(self) -> Seq<Seq<char>> {
        match self {
            CrateNameView::Registry(name) => seq![name],
            CrateNameView::Git(url) => seq!["--git"@, url],
        }
    }
}

/// A tool that the package manager installs from a package.
#[derive(Clone, Copy, Debug, PartialEq, Eq)]
pub struct BinaryCrate {
    /// Where the package comes from.
    pub crate_name: CrateName,
    /// The name of the binary that the package installs.
    pub binary: &'static str,
    /// The package manager's subcommand through which the tool is invoked,
    /// for a tool that is a plugin of the package manager. A tool without
    /// one is invoked by its own binary.
    pub cargo_subcommand: Option<&'static str>,
}

/// Mathematical model of a [`BinaryCrate`].
pub struct BinaryCrateView {
    pub crate_name: CrateNameView,
    pub binary: Seq<char>,
    pub cargo_subcommand: Option<Seq<char>>,
}

impl View for BinaryCrate {
    type V = BinaryCrateView;

    open spec fn view(&self) -> BinaryCrateView {
        BinaryCrateView {
            crate_name: self.crate_name@,
            binary: self.binary@,
            cargo_subcommand: match self.cargo_subcommand {
                Some(subcommand) => Some(subcommand@),
                None => None,
            },
        }
    }
}

/// The subcommand of the package manager that updates installed packages.
pub open spec fn install_update() -> Seq<char> {
    "install-update"@
}

impl BinaryCrateView {
    /// The arguments with which the package manager installs the tool:
    /// `install`, then the package's source, then `--debug` for a fast
    /// install.
    pub open spec fn install_args(self, fast_install: bool) -> Seq<Seq<char>> {
        seq!["install"@] + self.crate_name.install_source() + if fast_install {
            seq!["--debug"@]
        } else {
            Seq::empty()
        }
    }

    /// The command that installs the tool. It has no time limit, whatever the
    /// workspace's own is.
    pub open spec fn install_command(self, fast_install: bool) -> CommandView {
        CommandView {
            binary: BinaryView::ManagedByRustwide(package_manager()),
            args: self.install_args(fast_install),
            timeout: None,
        }
    }

    /// The command that updates the package called `name`. It has no time
    /// limit either.
    pub open spec fn update_command(name: Seq<char>) -> CommandView {
        CommandView {
            binary: BinaryView::ManagedByRustwide(package_manager()),
            args: seq![install_update(), name],
            timeout: None,
        }
    }

    /// The program by which the tool is invoked once it is installed: the
    /// package manager for a plugin, else the tool's own binary.
    pub open spec fn invoked_binary(self) -> BinaryView {
        match self.cargo_subcommand {
            Some(_) => BinaryView::ManagedByRustwide(package_manager()),
            None => BinaryView::ManagedByRustwide(self.binary),
        }
    }

    /// The arguments that every invocation of the tool starts with: the
    /// subcommand for a plugin, else none.
    pub open spec fn invoked_args(self) -> Seq<Seq<char>> {
        match self.cargo_subcommand {
            Some(subcommand) => seq![subcommand],
            None => Seq::empty(),
        }
    }
}

/// The tool through which the package manager updates installed packages.
pub fn cargo_install_update() -> (tool: BinaryCrate)
    ensures
        tool@ == (BinaryCrateView {
            crate_name: CrateNameView::Registry("cargo-update"@),
            binary: "cargo-install-update"@,
            cargo_subcommand: Some(install_update()),
        }),
{
    BinaryCrate {
        crate_name: CrateName::Registry("cargo-update"),
        binary: "cargo-install-update",
        cargo_subcommand: Some("install-update"),
    }
}

impl BinaryCrate {
    /// Where the tool's binary lives once it is installed in `workspace`.
    /// Nothing is looked up.
    pub fn path(&self, workspace: &Workspace) -> (path: String)
        ensures
            path@ == joined_path(workspace@.binary_dir, self@.binary),
    {
        binary_path(workspace, self.binary)
    }
}

impl Runnable for BinaryCrate {
    open spec fn binary(&self) -> BinaryView {
        self@.invoked_binary()
    }

    open spec fn leading_args(&self) -> Seq<Seq<char>> {
        self@.invoked_args()
    }

    /// The package manager for a plugin, else the tool's own binary; the
    /// execution layer locates either.
    fn name(&self) -> (binary: Binary) {
        Binary::ManagedByRustwide(
            if self.cargo_subcommand.is_some() {
                "cargo".to_owned()
            } else {
                self.binary.to_owned()
            },
        )
    }

    /// Puts a plugin's subcommand in front of the command's arguments; for
    /// any other tool the command stays as it is.
    fn prepare_command(&self, cmd: Command) -> (prepared: Command)
        ensures
            prepared@ == cmd@.with_leading_args(self@.invoked_args()),
    {
        let mut cmd = cmd;
        if let Some(subcommand) = self.cargo_subcommand {
            let ghost before = cmd@;
            cmd.args.insert(0, subcommand.to_owned());
            assert(cmd@.args =~= seq![subcommand@] + before.args);
        } else {
            assert(Seq::<Seq<char>>::empty() + cmd@.args =~= cmd@.args);
        }
        cmd
    }
}

impl Tool for BinaryCrate {
    open spec fn binary_name(&self) -> Seq<char> {
        self@.binary
    }

    open spec fn install_plan(
        &self,
        workspace: WorkspaceView,
        fast_install: bool,
    ) -> ProvisioningView {
        ProvisioningView::Run(self@.install_command(fast_install))
    }

    open spec fn update_plan(&self, workspace: WorkspaceView) -> ProvisioningView {
        match self@.crate_name {
            CrateNameView::Registry(name) => ProvisioningView::Run(
                BinaryCrateView::update_command(name),
            ),
            CrateNameView::Git(_) => ProvisioningView::Done(Ok(())),
        }
    }

    /// The descriptor's binary name, whatever the workspace.
    fn name(&self) -> (name: &'static str) {
        self.binary
    }

    /// Asks whether a regular file is at the tool's path in `workspace`.
    fn is_installed(&self, workspace: &Workspace) -> (check: InstalledCheck)
        ensures
            check@ == InstalledCheckView::IsFile(
                joined_path(workspace@.binary_dir, self@.binary),
            ),
    {
        InstalledCheck::IsFile(self.path(workspace))
    }

    /// Asks for the package manager's `install` of the tool's package, with
    /// `--debug` for a fast install and without a time limit.
    fn install(&self, workspace: &Workspace, fast_install: bool) -> (step: Provisioning)
        ensures
            step@ == ProvisioningView::Run(self@.install_command(fast_install)),
    {
        let install: [&str; 1] = ["install"];
        let mut cmd = Command::new(workspace, &Cargo).timeout(None).args(&install);
        assert(cmd@.args =~= seq!["install"@]);
        cmd = match &self.crate_name {
            CrateName::Registry(name) => {
                let source: [&str; 1] = [name];
                assert(slice_texts(source@) =~= self@.crate_name.install_source());
                cmd.args(&source)
            },
            CrateName::Git(url) => {
                let source: [&str; 2] = ["--git", url];
                assert(slice_texts(source@) =~= self@.crate_name.install_source());
                cmd.args(&source)
            },
        };
        if fast_install {
            let debug: [&str; 1] = ["--debug"];
            assert(slice_texts(debug@) =~= seq!["--debug"@]);
            cmd = cmd.args(&debug);
        }
        assert(cmd@.args =~= self@.install_args(fast_install));
        Provisioning::Run(cmd)
    }

    /// For a tool from the registry, asks for the package manager's
    /// `install-update` of the tool's package, without a time limit. A tool
    /// from a repository is taken to be up to date: nothing is run, and the
    /// update has succeeded.
    fn update(&self, workspace: &Workspace, fast_install: bool) -> (step: Provisioning)
        ensures
            step@ == match self@.crate_name {
                CrateNameView::Registry(name) => ProvisioningView::Run(
                    BinaryCrateView::update_command(name),
                ),
                CrateNameView::Git(_) => ProvisioningView::Done(Ok(())),
            },
    {
        if let CrateName::Registry(crate_name) = &self.crate_name {
            let updater = cargo_install_update();
            let package: [&str; 1] = [crate_name];
            let cmd = Command::new(workspace, &updater).args(&package).timeout(None);
            assert(cmd@.args =~= seq![install_update(), crate_name@]);
            Provisioning::Run(cmd)
        } else {
            Provisioning::Done(Ok(()))
        }
    }
}

/// A tool's binary name is one and the same wherever it is used: the name
/// that is shown is the descriptor's binary and, for a tool that is no
/// plugin, the program that is invoked. The file that an installed-check
/// asks about is named by it too, as the contracts of [`BinaryCrate::path`]
/// and of [`Tool::is_installed`] say.
pub proof fn lemma_binary_name_is_used_throughout(tool: BinaryCrate)
    ensures
        tool.binary_name() == tool@.binary,
        tool@.cargo_subcommand is None ==> tool.binary() == BinaryView::ManagedByRustwide(
            tool.binary_name(),
        ),
{
}

/// A plugin of the package manager is invoked as the package manager, with
/// its subcommand in front of the command's other arguments. Any other tool
/// is invoked by its own binary, and a command for it stays as it is.
pub proof fn lemma_invoked_through_package_manager(tool: BinaryCrate, cmd: CommandView)
    ensures
        match tool@.cargo_subcommand {
            Some(subcommand) => {
                &&& tool.binary() == BinaryView::ManagedByRustwide(package_manager())
                &&& cmd.with_leading_args(tool.leading_args()).args == seq![subcommand] + cmd.args
                &&& cmd.with_leading_args(tool.leading_args()).args[0] == subcommand
            },
            None => {
                &&& tool.binary() == BinaryView::ManagedByRustwide(tool@.binary)
                &&& cmd.with_leading_args(tool.leading_args()) == cmd
            },
        },
{
    if tool@.cargo_subcommand is None {
        assert(Seq::<Seq<char>>::empty() + cmd.args =~= cmd.args);
    }
}

/// Installing asks for one command: the package manager's `install` with the
/// package's source and, for a fast install only, `--debug`; it runs without
/// a time limit in every workspace.
pub proof fn lemma_install_runs_package_manager_once(
    tool: BinaryCrate,
    workspace: Workspace,
    fast_install: bool,
)
    ensures
        tool.install_plan(workspace@, fast_install) matches ProvisioningView::Run(command) && {
            &&& command.binary == BinaryView::ManagedByRustwide(package_manager())
            &&& command.timeout is None
            &&& command.args[0] == "install"@
            &&& command.args == match tool@.crate_name {
                CrateNameView::Registry(name) => if fast_install {
                    seq!["install"@, name, "--debug"@]
                } else {
                    seq!["install"@, name]
                },
                CrateNameView::Git(url) => if fast_install {
                    seq!["install"@, "--git"@, url, "--debug"@]
                } else {
                    seq!["install"@, "--git"@, url]
                },
            }
        },
        tool.install_plan(workspace@, fast_install).invocations() == 1,
{
    let args = tool@.install_args(fast_install);
    match tool@.crate_name {
        CrateNameView::Registry(name) => {
            if fast_install {
                assert(args =~= seq!["install"@, name, "--debug"@]);
            } else {
                assert(args =~= seq!["install"@, name]);
            }
        },
        CrateNameView::Git(url) => {
            if fast_install {
                assert(args =~= seq!["install"@, "--git"@, url, "--debug"@]);
            } else {
                assert(args =~= seq!["install"@, "--git"@, url]);
            }
        },
    }
}

/// An install whose command ends in any way but with exit code zero fails
/// with a process error that holds the install command and how it ended.
/// The operation is then over: nothing else was asked of the caller, and
/// nothing is tried again.
pub proof fn lemma_failed_install_is_process_error(
    tool: BinaryCrate,
    workspace: Workspace,
    fast_install: bool,
    exit: ExitView,
)
    requires
        exit != ExitView::Code(0),
    ensures
        tool.install_plan(workspace@, fast_install).resume(exit) == ProvisioningView::Done(
            Err(
                ToolErrorView::Process { command: tool@.install_command(fast_install), exit },
            ),
        ),
        tool.install_plan(workspace@, fast_install).resume(exit).invocations() == 0,
{
}

/// Updating a tool from the registry asks for exactly one command, the
/// package manager's `install-update` for the tool's package, without a time
/// limit. After the caller's report no further command is asked for.
pub proof fn lemma_registry_update_runs_install_update_once(
    tool: BinaryCrate,
    workspace: Workspace,
    exit: ExitView,
)
    requires
        tool@.crate_name is Registry,
    ensures
        tool.update_plan(workspace@) == ProvisioningView::Run(
            CommandView {
                binary: BinaryView::ManagedByRustwide(package_manager()),
                args: seq![install_update(), tool@.crate_name->Registry_0],
                timeout: None,
            },
        ),
        tool.update_plan(workspace@).invocations() == 1,
        tool.update_plan(workspace@).resume(exit).invocations() == 0,
{
}

/// Updating a tool that comes from a repository asks for no command and has
/// succeeded from the start; no report can make it fail.
pub proof fn lemma_repository_update_does_nothing(
    tool: BinaryCrate,
    workspace: Workspace,
    exit: ExitView,
)
    requires
        tool@.crate_name is Git,
    ensures
        tool.update_plan(workspace@) == ProvisioningView::Done(Ok(())),
        tool.update_plan(workspace@).invocations() == 0,
        tool.update_plan(workspace@).resume(exit) == ProvisioningView::Done(Ok(())),
{
}

} // verus!
