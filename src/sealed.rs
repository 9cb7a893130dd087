//! The [`Sealed`] trait, which keeps the library's own types from being imitated.
use crate::{CurrentWorkingDirectoryAccessor, Cwd, CwdGuard};
use vstd::prelude::*;

verus! {

/// Implemented only by the types of this library.
pub trait Sealed {}

impl<A: CurrentWorkingDirectoryAccessor> Sealed for Cwd<A> {}

impl<'lock, A: CurrentWorkingDirectoryAccessor> Sealed for CwdGuard<'lock, A> {}

} // verus!
