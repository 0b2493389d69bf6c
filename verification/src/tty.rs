//! What a stream says of itself: whether it is a terminal, and which of the
//! standard streams it is.

use vstd::prelude::*;

verus! {

/// Whether a stream is a terminal, and whether it is one of the standard
/// streams.
pub trait IsTty {
    /// Whether the stream is a terminal.
    fn is_tty(&self) -> bool;

    /// Whether the stream is the standard input; by default not.
    fn is_stdin(&self) -> (r: bool)
        default_ensures
            !r,
    {
        false
    }

    /// Whether the stream is the standard output; by default not.
    fn is_stdout(&self) -> (r: bool)
        default_ensures
            !r,
    {
        false
    }

    /// Whether the stream is the standard error; by default not.
    fn is_stderr(&self) -> (r: bool)
        default_ensures
            !r,
    {
        false
    }

    /// Whether a pager shows the stream; by default not.
    fn pager_active(&self) -> (r: bool)
        default_ensures
            !r,
    {
        false
    }
}

} // verus!
