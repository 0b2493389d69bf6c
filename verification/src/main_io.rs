//! Finding the process's main I/O handle, which a handle registers for
//! itself and which lives as long as that handle.

use vstd::prelude::*;

verus! {

/// Why the main I/O handle is not available.
#[derive(Debug, Clone, Copy, PartialEq, Eq, Structural)]
pub enum MainIoError {
    /// No handle was registered as the main one.
    NotSet,
    /// The registered handle was dropped.
    Dropped,
}

impl MainIoError {
    /// The message that the error carries.
    pub fn message(&self) -> (r: &'static str)
        ensures
            *self == MainIoError::NotSet ==> r@
                == "IO::main() is not available (call set_main first)"@,
            *self == MainIoError::Dropped ==> r@ == "IO::main() is not available (dropped)"@,
    {
        match self {
            MainIoError::NotSet => "IO::main() is not available (call set_main first)",
            MainIoError::Dropped => "IO::main() is not available (dropped)",
        }
    }
}

/// Whether the main handle can be had: `registered` says whether a handle
/// was registered, `alive` whether it still lives.
pub fn resolve_main(registered: bool, alive: bool) -> (r: Result<(), MainIoError>)
    ensures
        r == if !registered {
            Err(MainIoError::NotSet)
        } else if !alive {
            Err(MainIoError::Dropped)
        } else {
            Ok::<(), MainIoError>(())
        },
{
    if !registered {
        Err(MainIoError::NotSet)
    } else if !alive {
        Err(MainIoError::Dropped)
    } else {
        Ok(())
    }
}

} // verus!
