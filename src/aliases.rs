//! Shorter names for the types of this library.
pub use crate::accessor::CurrentWorkingDirectoryAccessor as CwdAccessor;
pub use crate::scoped::stack::Stack as ScopeStack;
pub use crate::scoped::CurrentWorkingDirectory as ScopedCwd;
pub use crate::Cwd;
pub use crate::CwdGuard;
