//! Provisioning of external command-line tools that are distributed as
//! packages with a binary: where such a tool lives in a workspace, how the
//! package manager is told to install or update it, and how the tool itself
//! is invoked afterwards.
//!
//! The library performs no I/O. Whatever needs the file system or a
//! subprocess is handed to the caller as a request, and the caller's report
//! decides how the operation goes on.

pub mod binary_crates;
pub mod cmd;
pub mod tools;
pub mod workspace;
