//! The stack of directories that open scopes owe a restore.
use crate::{CurrentWorkingDirectoryAccessor, Cwd};
use std::io;
use std::path::PathBuf;
use vstd::prelude::*;

verus! {

/// Access to the stack of saved directories of a locked [`Cwd`].
///
/// Scopes push onto it when they open and pop from it when they reset. Obtained
/// directly, it serves to inspect and drain what a failed restore left behind.
pub struct Stack<'locked_cwd, A> {
    pub(crate) locked_cwd: &'locked_cwd mut Cwd<A>,
}

impl<'locked_cwd, A: CurrentWorkingDirectoryAccessor> Stack<'locked_cwd, A> {
    /// The locked state whose stack this is.
    pub open(crate) spec fn locked(&self) -> Cwd<A> {
        *self.locked_cwd
    }

    /// The saved directories, most recent last.
    pub open spec fn stack(&self) -> Seq<PathBuf> {
        self.locked().stack()
    }

    /// Gives access to the stack of `locked_cwd`.
    pub fn new(locked_cwd: &'locked_cwd mut Cwd<A>) -> (scope_stack: Self)
        ensures
            scope_stack.locked() == *old(locked_cwd),
    {
        Stack { locked_cwd }
    }

    /// Pushes the current working directory onto the stack.
    ///
    /// The directory read goes on top of the old entries (see
    /// [`settle_push`](Self::settle_push)); when it cannot be read nothing changes.
    pub fn push_scope(&mut self) -> (r: io::Result<()>)
        ensures
            r is Ok ==> final(self).stack().len() == old(self).stack().len() + 1
                && final(self).stack().drop_last() == old(self).stack(),
            r is Err ==> final(self).locked() == old(self).locked(),
            final(self).locked().accessor() == old(self).locked().accessor(),
            final(self).locked().expected() == old(self).locked().expected(),
            final(self).locked().handed() == old(self).locked().handed(),
    {
        let read = self.locked_cwd.get();
        self.settle_push(read)
    }

    /// Settles a push from `read`, the outcome of reading the current working directory:
    /// a directory read goes on top of the stack, and a failed read is handed back with
    /// nothing changed.
    pub fn settle_push(&mut self, read: io::Result<PathBuf>) -> (r: io::Result<()>)
        ensures
            read is Ok ==> r is Ok && final(self).stack() == old(self).stack().push(read->Ok_0),
            read is Err ==> r is Err && r->Err_0 == read->Err_0 && final(self).locked() == old(
                self,
            ).locked(),
            final(self).locked().accessor() == old(self).locked().accessor(),
            final(self).locked().expected() == old(self).locked().expected(),
            final(self).locked().handed() == old(self).locked().handed(),
    {
        match read {
            Ok(cwd) => {
                self.as_mut_vec().push(cwd);
                Ok(())
            },
            Err(err) => Err(err),
        }
    }

    /// Pops the most recently saved directory and makes it the current working directory.
    ///
    /// An empty stack gives `Ok(None)` and changes nothing. Otherwise the top entry is
    /// handed to the accessor and the outcome settled by
    /// [`settle_pop`](Self::settle_pop): restored, it is returned and stays removed;
    /// refused, it goes back on the stack, which is then as it was, and the error is
    /// returned.
    pub fn pop_scope(&mut self) -> (r: io::Result<Option<PathBuf>>)
        ensures
            old(self).stack().len() == 0 ==> r is Ok && r->Ok_0 is None && final(self).locked()
                == old(self).locked(),
            old(self).stack().len() > 0 ==> (r is Ok && r->Ok_0 == Some(old(self).stack().last())
                && final(self).stack() == old(self).stack().drop_last()) || (r is Err
                && final(self).stack() == old(self).stack()),
            final(self).locked().expected() == old(self).locked().expected(),
            old(self).stack().len() > 0 ==> final(self).locked().handed() == old(
                self,
            ).locked().handed().push(old(self).stack().last()),
    {
        if self.as_vec().len() == 0 {
            return Ok(None);
        }
        let previous = self.as_mut_vec().pop().unwrap();
        let outcome = self.locked_cwd.set(&previous);
        self.settle_pop(previous, outcome)
    }

    /// Settles a pop of `previous` from `outcome`, the result of making it the current
    /// working directory: on success `previous` is returned and the stack left as it is;
    /// on failure `previous` goes back on top of the stack and the error is returned.
    pub fn settle_pop(&mut self, previous: PathBuf, outcome: io::Result<()>) -> (r: io::Result<
        Option<PathBuf>,
    >)
        ensures
            outcome is Ok ==> r is Ok && r->Ok_0 == Some(previous) && final(self).stack() == old(
                self,
            ).stack(),
            outcome is Err ==> r is Err && r->Err_0 == outcome->Err_0 && final(self).stack()
                == old(self).stack().push(previous),
            final(self).locked().accessor() == old(self).locked().accessor(),
            final(self).locked().expected() == old(self).locked().expected(),
            final(self).locked().handed() == old(self).locked().handed(),
    {
        match outcome {
            Ok(()) => Ok(Some(previous)),
            Err(err) => {
                self.as_mut_vec().push(previous);
                Err(err)
            },
        }
    }

    /// Gets a reference to the saved directories.
    pub fn as_vec(&self) -> (dirs: &Vec<PathBuf>)
        ensures
            dirs@ == self.stack(),
    {
        &self.locked_cwd.scope_stack
    }

    /// Gets a mutable reference to the saved directories.
    pub fn as_mut_vec(&mut self) -> (dirs: &mut Vec<PathBuf>)
        ensures
            dirs@ == old(self).stack(),
            final(self).stack() == final(dirs)@,
            final(self).locked().accessor() == old(self).locked().accessor(),
            final(self).locked().expected() == old(self).locked().expected(),
            final(self).locked().handed() == old(self).locked().handed(),
    {
        &mut self.locked_cwd.scope_stack
    }

    /// Reads the current working directory.
    pub fn get(&self) -> io::Result<PathBuf> {
        self.locked_cwd.get()
    }

    /// Changes the current working directory; the stack is left as it is.
    pub fn set(&mut self, path: &PathBuf) -> (r: io::Result<()>)
        ensures
            final(self).stack() == old(self).stack(),
            final(self).locked().expected() == old(self).locked().expected(),
            final(self).locked().handed() == old(self).locked().handed().push(*path),
    {
        self.locked_cwd.set(path)
    }
}

} // verus!
