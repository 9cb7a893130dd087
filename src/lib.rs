//! Process-wide, race-free temporary changes of the current working directory.
//!
//! All reads and writes of the current directory go through a [`Cwd`], which a
//! program keeps behind one process-wide lock. Scopes opened on it save the
//! directory of the moment on a stack and restore it, in last-in first-out
//! order, when they are reset.
use std::fmt;
use std::io;
use std::path::PathBuf;
use vstd::prelude::*;

pub mod accessor;
pub mod aliases;
mod sealed;
pub mod scoped;

pub use accessor::CurrentWorkingDirectoryAccessor;

verus! {

/// Declares std's `fmt::Formatter`, which [`HandedDirs`]'s `Debug` impl writes to.
#[verifier::external_type_specification]
#[verifier::external_body]
pub struct ExFormatter<'a>(fmt::Formatter<'a>);

/// Declares std's `fmt::Error`, the error of a `Debug` impl.
#[verifier::external_type_specification]
#[verifier::external_body]
pub struct ExFmtError(fmt::Error);

/// The directories that a [`Cwd`] has handed to its accessor to become current, in
/// order: a ghost record, with no run-time content.
pub struct HandedDirs {
    dirs: Ghost<Seq<PathBuf>>,
}

impl fmt::Debug for HandedDirs {
    /// Relies on `fmt::Formatter::write_str`; the record has nothing to show at run time.
    #[verifier::external_body]
    fn fmt(&self, f: &mut fmt::Formatter<'_>) -> fmt::Result {
        f.write_str("HandedDirs")
    }
}

/// The locked state behind the process-wide lock: the accessor of the operating
/// system's current directory, the directory a failed restore left owed, and the
/// stack of directories that open scopes will restore.
#[derive(Debug)]
pub struct Cwd<A> {
    accessor: A,
    expected_cwd: Option<PathBuf>,
    scope_stack: Vec<PathBuf>,
    handed: HandedDirs,
}

impl<A: CurrentWorkingDirectoryAccessor> Cwd<A> {
    /// The accessor through which the directory is read and written.
    pub closed spec fn accessor(&self) -> A {
        self.accessor
    }

    /// The directory recorded as expected, if any.
    pub closed spec fn expected(&self) -> Option<PathBuf> {
        self.expected_cwd
    }

    /// The directories still to be restored, most recent last.
    pub closed spec fn stack(&self) -> Seq<PathBuf> {
        self.scope_stack@
    }

    /// The directories handed to the accessor to become current, oldest first: each
    /// call of [`set`](Self::set), and so each restore, adds the path it hands over.
    pub closed spec fn handed(&self) -> Seq<PathBuf> {
        self.handed.dirs@
    }

    /// Creates the locked state around `accessor`, with nothing expected and no open scope.
    pub fn new(accessor: A) -> (cwd: Self)
        ensures
            cwd.accessor() == accessor,
            cwd.expected() is None,
            cwd.stack() == Seq::<PathBuf>::empty(),
            cwd.handed() == Seq::<PathBuf>::empty(),
    {
        Cwd {
            accessor,
            expected_cwd: None,
            scope_stack: Vec::new(),
            handed: HandedDirs { dirs: Ghost(Seq::empty()) },
        }
    }

    /// Returns the expected current working directory, if any.
    /// The only expectation ever set is the directory that a guard failed to restore.
    pub fn get_expected(&self) -> (expected: Option<PathBuf>)
        ensures
            expected == self.expected(),
    {
        match &self.expected_cwd {
            Some(path) => Some(path.clone()),
            None => None,
        }
    }

    /// Reads the current working directory through the accessor.
    pub fn get(&self) -> io::Result<PathBuf> {
        self.accessor.current_dir()
    }

    /// Changes the current working directory through the accessor, handing it `path`.
    /// The scope stack and the expected directory are left as they are.
    pub fn set(&mut self, path: &PathBuf) -> (r: io::Result<()>)
        ensures
            final(self).handed() == old(self).handed().push(*path),
            final(self).stack() == old(self).stack(),
            final(self).expected() == old(self).expected(),
    {
        self.handed.dirs = Ghost(self.handed.dirs@.push(*path));
        self.accessor.set_current_dir(path)
    }
}

/// A guard that restores the current working directory it found when it was made.
///
/// [`reset`](Self::reset) may be called any number of times; each call sets the
/// directory back to the one saved at creation.
pub struct CwdGuard<'lock, A> {
    cwd: &'lock mut Cwd<A>,
    initial_cwd: PathBuf,
}

impl<'lock, A: CurrentWorkingDirectoryAccessor> CwdGuard<'lock, A> {
    /// The locked state that this guard works on.
    pub closed spec fn locked(&self) -> Cwd<A> {
        *self.cwd
    }

    /// The directory that this guard restores.
    pub closed spec fn initial(&self) -> PathBuf {
        self.initial_cwd
    }

    /// Makes a guard on the locked state, saving the current working directory.
    ///
    /// When the directory cannot be read no guard is made and nothing changes.
    pub fn new(cwd: &'lock mut Cwd<A>) -> (r: io::Result<Self>)
        ensures
            r is Ok ==> r->Ok_0.locked() == *old(cwd),
            r is Err ==> *final(cwd) == *old(cwd),
    {
        let read = cwd.get();
        CwdGuard::with_initial(cwd, read)
    }

    /// Makes a guard on the locked state from `read`, the outcome of reading the current
    /// working directory: a directory read becomes the one the guard restores, and a
    /// failed read is handed back with nothing changed.
    pub fn with_initial(cwd: &'lock mut Cwd<A>, read: io::Result<PathBuf>) -> (r: io::Result<Self>)
        ensures
            read is Ok ==> r is Ok && r->Ok_0.initial() == read->Ok_0 && r->Ok_0.locked()
                == *old(cwd),
            read is Err ==> r is Err && r->Err_0 == read->Err_0 && *final(cwd) == *old(cwd),
    {
        match read {
            Ok(initial_cwd) => Ok(CwdGuard { cwd, initial_cwd }),
            Err(err) => Err(err),
        }
    }

    /// Makes a guard nested in this one, saving the current working directory.
    /// This guard is unchanged while the nested guard is in use.
    pub fn nested(&mut self) -> (r: io::Result<CwdGuard<'_, A>>)
        ensures
            r is Ok ==> r->Ok_0.locked() == old(self).locked(),
            r is Err ==> final(self).locked() == old(self).locked(),
            final(self).initial() == old(self).initial(),
    {
        let read = self.cwd.get();
        CwdGuard::with_initial(&mut *self.cwd, read)
    }

    /// Sets the current working directory back to the one saved at creation, handing that
    /// directory to the accessor. The scope stack and the expected directory are left as
    /// they are.
    pub fn reset(&mut self) -> (r: io::Result<()>)
        ensures
            final(self).locked().handed() == old(self).locked().handed().push(old(self).initial()),
            final(self).locked().stack() == old(self).locked().stack(),
            final(self).locked().expected() == old(self).locked().expected(),
            final(self).initial() == old(self).initial(),
    {
        self.cwd.set(&self.initial_cwd)
    }

    /// Restores the saved directory as the guard goes out of use.
    ///
    /// When the restore fails, the saved directory is recorded as the expected one, for
    /// whoever recovers the locked state, and the error is returned.
    pub fn finish(&mut self) -> (r: io::Result<()>)
        ensures
            final(self).locked().handed() == old(self).locked().handed().push(old(self).initial()),
            r is Err ==> final(self).locked().expected() == Some(old(self).initial()),
            r is Ok ==> final(self).locked().expected() == old(self).locked().expected(),
            final(self).locked().stack() == old(self).locked().stack(),
            final(self).initial() == old(self).initial(),
    {
        let outcome = self.reset();
        self.settle_finish(outcome)
    }

    /// Settles the end of the guard from `outcome`, the result of restoring the saved
    /// directory: success is passed on with nothing changed, and a failure records the
    /// saved directory as the expected one and is passed on.
    pub fn settle_finish(&mut self, outcome: io::Result<()>) -> (r: io::Result<()>)
        ensures
            outcome is Ok ==> r is Ok && final(self).locked() == old(self).locked(),
            outcome is Err ==> r is Err && r->Err_0 == outcome->Err_0
                && final(self).locked().expected() == Some(old(self).initial())
                && final(self).locked().stack() == old(self).locked().stack()
                && final(self).locked().accessor() == old(self).locked().accessor()
                && final(self).locked().handed() == old(self).locked().handed(),
            final(self).initial() == old(self).initial(),
    {
        match outcome {
            Ok(()) => Ok(()),
            Err(err) => {
                self.cwd.expected_cwd = Some(self.initial_cwd.clone());
                Err(err)
            },
        }
    }

    /// Reads the current working directory.
    pub fn get(&self) -> io::Result<PathBuf> {
        self.cwd.get()
    }

    /// Changes the current working directory while the guard is held, handing `path` to the
    /// accessor. The saved directory, the scope stack and the expected directory are left as
    /// they are.
    pub fn set(&mut self, path: &PathBuf) -> (r: io::Result<()>)
        ensures
            final(self).locked().handed() == old(self).locked().handed().push(*path),
            final(self).locked().stack() == old(self).locked().stack(),
            final(self).locked().expected() == old(self).locked().expected(),
            final(self).initial() == old(self).initial(),
    {
        self.cwd.set(path)
    }
}

} // verus!
