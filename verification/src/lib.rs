//! Terminal I/O state for a version-control command line: which stream a
//! write goes to, when the progress area must be cleared or redrawn, how the
//! pager is configured and when it is running, and the parameter block of
//! the xdiff bindings.
//!
//! The streams, the terminal and the pager themselves are driven by the
//! caller: each operation is a script of I/O actions (see `Script`), and
//! every script is proved against its contract.

pub mod behaviour;
pub mod laws;
mod main_io;
mod ops;
mod pager;
mod script;
mod state;
mod tty;
mod xdiff;

pub use main_io::{resolve_main, MainIoError};
pub use ops::{separate_stderr, ProgressError};
pub use pager::{
    interface_mode_of, lowercase, pager_error_is_tty, wrapping_kind_of, wrapping_mode_for,
    InterfaceKind, PagerSettings, WrappingKind,
};
pub use script::{Action, ProgressTarget, Script, ScriptView, Step, StepView, Stream};
pub use state::{
    ends_line, ends_with_newline, IOState, IOStateView, DEFAULT_TERM_HEIGHT, DEFAULT_TERM_WIDTH,
};
pub use tty::IsTty;
pub use xdiff::{s_xpparam, xpparam_t, XDF_INDENT_HEURISTIC, XDF_NEED_MINIMAL, XDL_EMIT_BDIFFHUNK};
