use std::io;
use std::path::PathBuf;
use vstd::prelude::*;

verus! {

/// Declares std's `PathBuf`, carried through as an opaque value: the library stores,
/// compares and hands back paths without looking inside them.
#[verifier::external_type_specification]
#[verifier::external_body]
pub struct ExPathBuf(PathBuf);

/// Declares std's `io::Error`, carried through as an opaque value from the accessor to
/// the caller.
#[verifier::external_type_specification]
#[verifier::external_body]
pub struct ExIoError(io::Error);

/// Relies on `<PathBuf as Clone>::clone`: the copy holds the same path.
pub assume_specification[ <PathBuf as Clone>::clone ](path: &PathBuf) -> (copy: PathBuf)
    ensures
        copy == *path,
;

/// The operating system's current-directory primitives.
///
/// Nothing is assumed of an implementation: every contract of this library holds
/// whatever these calls return, so the library is verified for any operating system
/// behaviour, including a directory that disappears between two calls. What the library
/// hands to `set_current_dir` is stated instead over its own ghost record,
/// [`Cwd::handed`](crate::Cwd::handed).
pub trait CurrentWorkingDirectoryAccessor {
    /// Reads the process's current working directory.
    fn current_dir(&self) -> io::Result<PathBuf>;

    /// Changes the process's current working directory to `path`.
    fn set_current_dir(&mut self, path: &PathBuf) -> io::Result<()>;
}

} // verus!
