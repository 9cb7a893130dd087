//! Scopes that restore the current working directory through the shared stack.
use crate::{CurrentWorkingDirectoryAccessor, Cwd};
use std::io;
use std::path::PathBuf;
use vstd::prelude::*;

pub mod stack;

use stack::Stack;

verus! {

/// A scope of the current working directory: opening it saves the directory of the
/// moment on the shared stack, and [`reset`](Self::reset) restores it, once.
///
/// Scopes nest: a scope opened from another borrows it, so only the innermost one
/// can act until it is gone, and restores happen in last-in first-out order.
pub struct CurrentWorkingDirectory<'locked_cwd, A> {
    scope_stack: Stack<'locked_cwd, A>,
    has_reset: bool,
}

impl<'locked_cwd, A: CurrentWorkingDirectoryAccessor> CurrentWorkingDirectory<'locked_cwd, A> {
    /// The locked state that this scope works on.
    pub closed spec fn locked(&self) -> Cwd<A> {
        self.scope_stack.locked()
    }

    /// The saved directories of the shared stack, most recent last.
    pub open spec fn stack(&self) -> Seq<PathBuf> {
        self.locked().stack()
    }

    /// Whether this scope has already restored its directory.
    pub closed spec fn is_reset(&self) -> bool {
        self.has_reset
    }

    /// What one call of [`reset`](Self::reset) does, from scope `pre` to scope `post`
    /// with result `r`.
    pub open spec fn reset_post(pre: Self, post: Self, r: io::Result<Option<PathBuf>>) -> bool {
        if pre.is_reset() || pre.stack().len() == 0 {
            &&& r is Ok && r->Ok_0 is None
            &&& post.locked() == pre.locked()
            &&& post.is_reset() == pre.is_reset()
        } else {
            &&& post.locked().expected() == pre.locked().expected()
            &&& post.locked().handed() == pre.locked().handed().push(pre.stack().last())
            &&& r is Ok ==> r->Ok_0 == Some(pre.stack().last()) && post.stack()
                == pre.stack().drop_last() && post.is_reset()
            &&& r is Err ==> post.stack() == pre.stack() && !post.is_reset()
        }
    }

    /// Resetting is idempotent: when a scope that has not reset yet and has its entry on the
    /// stack is reset twice, and the first call succeeds, that call returns the directory
    /// it restored and the second returns `None` and changes nothing.
    pub proof fn lemma_reset_idempotent(
        scope: Self,
        once: Self,
        twice: Self,
        first: io::Result<Option<PathBuf>>,
        second: io::Result<Option<PathBuf>>,
    )
        requires
            !scope.is_reset(),
            scope.stack().len() > 0,
            Self::reset_post(scope, once, first),
            Self::reset_post(once, twice, second),
            first is Ok,
        ensures
            first->Ok_0 == Some(scope.stack().last()),
            second is Ok && second->Ok_0 is None,
            twice.locked() == once.locked(),
            twice.is_reset(),
    {
    }

    /// Whether `pres[i]`, `posts[i]` and `results[i]` are the scopes before and after a
    /// successful reset and its result, for nested scopes reset from the innermost out:
    /// the scopes opened on the stack `base` and saved `dirs`, outermost first, and each
    /// outer scope resets on the state that the inner one left.
    pub open spec fn nested_resets(
        base: Seq<PathBuf>,
        dirs: Seq<PathBuf>,
        pres: Seq<Self>,
        posts: Seq<Self>,
        results: Seq<io::Result<Option<PathBuf>>>,
    ) -> bool {
        &&& pres.len() == dirs.len() && posts.len() == dirs.len() && results.len() == dirs.len()
        &&& dirs.len() > 0 ==> pres[0].stack() == base + dirs
        &&& forall|i: int|
            0 <= i < dirs.len() ==> !#[trigger] pres[i].is_reset() && Self::reset_post(
                pres[i],
                posts[i],
                results[i],
            ) && results[i] is Ok
        &&& forall|i: int|
            0 <= i < dirs.len() - 1 ==> #[trigger] pres[i + 1].locked() == posts[i].locked()
    }

    /// Opening scopes and resetting them balance: when nested scopes open on the stack
    /// `base`, saving `dirs`, and are then reset from the innermost out, each reset removes
    /// exactly one entry, and after the last one the stack is `base` again.
    pub proof fn lemma_push_pop_symmetry(
        base: Seq<PathBuf>,
        dirs: Seq<PathBuf>,
        pres: Seq<Self>,
        posts: Seq<Self>,
        results: Seq<io::Result<Option<PathBuf>>>,
    )
        requires
            dirs.len() > 0,
            Self::nested_resets(base, dirs, pres, posts, results),
        ensures
            forall|i: int|
                0 <= i < dirs.len() ==> (#[trigger] posts[i]).stack().len() == pres[i].stack().len()
                    - 1,
            forall|i: int|
                0 <= i < dirs.len() ==> (#[trigger] posts[i]).stack() == base + dirs.take(
                    dirs.len() - 1 - i,
                ),
            posts.last().stack() == base,
    {
        Self::lemma_unwind(base, dirs, pres, posts, results, dirs.len() - 1);
        assert(base + dirs.take(0) =~= base);
    }

    /// Restores come in last-in first-out order: when nested scopes open on the stack
    /// `base`, saving `dirs`, and are then reset from the innermost out, the `i`-th reset
    /// hands the accessor and returns `dirs[dirs.len() - 1 - i]`: the innermost scope's
    /// directory first and the outermost scope's last.
    pub proof fn lemma_lifo_restore_order(
        base: Seq<PathBuf>,
        dirs: Seq<PathBuf>,
        pres: Seq<Self>,
        posts: Seq<Self>,
        results: Seq<io::Result<Option<PathBuf>>>,
    )
        requires
            dirs.len() > 0,
            Self::nested_resets(base, dirs, pres, posts, results),
        ensures
            forall|i: int|
                0 <= i < dirs.len() ==> (#[trigger] results[i])->Ok_0 == Some(
                    dirs[dirs.len() - 1 - i],
                ) && posts[i].locked().handed() == pres[i].locked().handed().push(
                    dirs[dirs.len() - 1 - i],
                ),
    {
        Self::lemma_unwind(base, dirs, pres, posts, results, dirs.len() - 1);
    }

    proof fn lemma_unwind(
        base: Seq<PathBuf>,
        dirs: Seq<PathBuf>,
        pres: Seq<Self>,
        posts: Seq<Self>,
        results: Seq<io::Result<Option<PathBuf>>>,
        k: int,
    )
        requires
            0 <= k < dirs.len(),
            Self::nested_resets(base, dirs, pres, posts, results),
        ensures
            forall|i: int|
                0 <= i <= k ==> pres[i].stack() == base + dirs.take(dirs.len() - i) && (
                #[trigger] posts[i]).stack() == base + dirs.take(dirs.len() - 1 - i)
                    && posts[i].stack().len() == pres[i].stack().len() - 1
                    && results[i]->Ok_0 == Some(dirs[dirs.len() - 1 - i])
                    && posts[i].locked().handed() == pres[i].locked().handed().push(
                    dirs[dirs.len() - 1 - i],
                ),
        decreases k,
    {
        let n = dirs.len();
        if k > 0 {
            Self::lemma_unwind(base, dirs, pres, posts, results, k - 1);
            let j = k - 1;
            assert(0 <= j < dirs.len() - 1);
            assert(pres[j + 1].locked() == posts[j].locked());
            assert(pres[k].stack() == posts[k - 1].stack());
        } else {
            assert(dirs.take(n as int) =~= dirs);
        }
        let m = n - k;
        assert(pres[k].stack() == base + dirs.take(m));
        assert(!pres[k].is_reset() && Self::reset_post(pres[k], posts[k], results[k]));
        assert((base + dirs.take(m)).last() == dirs[m - 1]);
        assert((base + dirs.take(m)).drop_last() =~= base + dirs.take(m - 1));
        assert(posts[k].stack() == base + dirs.take(n - 1 - k));
    }

    /// Opens a scope on the locked state, saving the current working directory.
    ///
    /// When the directory cannot be read no scope is opened and the locked state is
    /// left as it was.
    pub fn new(locked_cwd: &'locked_cwd mut Cwd<A>) -> (r: io::Result<Self>)
        ensures
            r is Ok ==> {
                &&& !r->Ok_0.is_reset()
                &&& r->Ok_0.stack().len() == old(locked_cwd).stack().len() + 1
                &&& r->Ok_0.stack().drop_last() == old(locked_cwd).stack()
                &&& r->Ok_0.locked().expected() == old(locked_cwd).expected()
                &&& r->Ok_0.locked().handed() == old(locked_cwd).handed()
            },
            r is Err ==> *final(locked_cwd) == *old(locked_cwd),
    {
        let read = locked_cwd.get();
        CurrentWorkingDirectory::open_at(locked_cwd, read)
    }

    /// Opens a scope on the locked state from `read`, the outcome of reading the current
    /// working directory: a directory read is pushed as the one this scope restores, and
    /// a failed read is handed back with nothing changed.
    pub fn open_at(locked_cwd: &'locked_cwd mut Cwd<A>, read: io::Result<PathBuf>) -> (r:
        io::Result<Self>)
        ensures
            read is Ok ==> {
                &&& r is Ok
                &&& !r->Ok_0.is_reset()
                &&& r->Ok_0.stack() == old(locked_cwd).stack().push(read->Ok_0)
                &&& r->Ok_0.locked().expected() == old(locked_cwd).expected()
                &&& r->Ok_0.locked().accessor() == old(locked_cwd).accessor()
                &&& r->Ok_0.locked().handed() == old(locked_cwd).handed()
            },
            read is Err ==> r is Err && r->Err_0 == read->Err_0 && *final(locked_cwd) == *old(
                locked_cwd,
            ),
    {
        match read {
            Ok(cwd) => {
                let mut scope_stack = Stack::new(locked_cwd);
                scope_stack.as_mut_vec().push(cwd);
                Ok(CurrentWorkingDirectory { scope_stack, has_reset: false })
            },
            Err(err) => Err(err),
        }
    }

    /// Opens a scope nested in this one, saving the current working directory.
    /// This scope is unchanged while the nested scope is in use.
    pub fn nested(&mut self) -> (r: io::Result<CurrentWorkingDirectory<'_, A>>)
        ensures
            r is Ok ==> {
                &&& !r->Ok_0.is_reset()
                &&& r->Ok_0.stack().len() == old(self).stack().len() + 1
                &&& r->Ok_0.stack().drop_last() == old(self).stack()
                &&& r->Ok_0.locked().expected() == old(self).locked().expected()
                &&& r->Ok_0.locked().handed() == old(self).locked().handed()
            },
            r is Err ==> final(self).locked() == old(self).locked(),
            final(self).is_reset() == old(self).is_reset(),
    {
        let read = self.scope_stack.get();
        CurrentWorkingDirectory::open_at(&mut *self.scope_stack.locked_cwd, read)
    }

    /// Restores the directory saved when this scope opened, and returns it.
    ///
    /// A scope restores once: later calls return `Ok(None)` and change nothing. When the
    /// operating system refuses the directory, the error is returned and the entry stays
    /// on the stack, so that the restore is still owed.
    pub fn reset(&mut self) -> (r: io::Result<Option<PathBuf>>)
        ensures
            Self::reset_post(*old(self), *final(self), r),
    {
        if !self.has_reset {
            if let Some(reset_to) = self.scope_stack.pop_scope()? {
                self.has_reset = true;
                return Ok(Some(reset_to));
            }
        }
        Ok(None)
    }

    /// Whether this scope has already restored its directory.
    pub fn has_reset(&self) -> (r: bool)
        ensures
            r == self.is_reset(),
    {
        self.has_reset
    }

    /// Gets a reference to the saved directories of the shared stack.
    pub fn as_vec(&self) -> (dirs: &Vec<PathBuf>)
        ensures
            dirs@ == self.stack(),
    {
        self.scope_stack.as_vec()
    }

    /// Reads the current working directory.
    pub fn get(&self) -> io::Result<PathBuf> {
        self.scope_stack.get()
    }

    /// Changes the current working directory within this scope, handing `path` to the
    /// accessor. The stack and this scope's state are left as they are.
    pub fn set(&mut self, path: &PathBuf) -> (r: io::Result<()>)
        ensures
            final(self).locked().handed() == old(self).locked().handed().push(*path),
            final(self).stack() == old(self).stack(),
            final(self).locked().expected() == old(self).locked().expected(),
            final(self).is_reset() == old(self).is_reset(),
    {
        self.scope_stack.set(path)
    }
}

} // verus!
