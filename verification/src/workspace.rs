//! The workspace: the root context that says where installed binaries live.

use vstd::prelude::*;

verus! {

/// The part of a workspace that tool provisioning reads.
#[derive(Clone, Debug, PartialEq, Eq)]
pub struct Workspace {
    /// Directory into which the package manager installs binaries.
    pub binary_dir: String,
    /// Time limit, in seconds, that commands run in this workspace get unless
    /// they set their own; `None` lets them run without limit.
    pub command_timeout: Option<u64>,
}

/// Mathematical model of a [`Workspace`].
pub struct WorkspaceView {
    pub binary_dir: Seq<char>,
    pub command_timeout: Option<u64>,
}

impl View for Workspace {
    type V = WorkspaceView;

    open spec fn view(&self) -> WorkspaceView {
        WorkspaceView { binary_dir: self.binary_dir@, command_timeout: self.command_timeout }
    }
}

/// What `std::path::Path::join` makes of a base path and a path adjoined to it.
pub uninterp spec fn joined_path(base: Seq<char>, name: Seq<char>) -> Seq<char>;

/// Calls `std::path::Path::join` on `base` with `name` and hands the joined
/// path back as text. The contract only gives the result its name,
/// [`joined_path`]: the same two texts always join to the same path.
#[verifier::external_body]
fn join_path(base: &str, name: &str) -> (joined: String)
    ensures
        joined@ == joined_path(base@, name@),
{
    std::path::Path::new(base).join(name).to_string_lossy().into_owned()
}

impl Workspace {
    /// A workspace that installs binaries into `binary_dir` and limits
    /// commands to `command_timeout` seconds.
    pub fn new(binary_dir: &str, command_timeout: Option<u64>) -> (workspace: Workspace)
        ensures
            workspace@.binary_dir == binary_dir@,
            workspace@.command_timeout == command_timeout,
    {
        Workspace { binary_dir: binary_dir.to_owned(), command_timeout }
    }
}

/// Where the binary called `name` lives once it is installed in `workspace`:
/// the workspace's binary directory joined with `name`. Nothing is looked up.
pub fn binary_path(workspace: &Workspace, name: &str) -> (path: String)
    ensures
        path@ == joined_path(workspace@.binary_dir, name@),
{
    join_path(workspace.binary_dir.as_str(), name)
}

} // verus!
