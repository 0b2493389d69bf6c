//! The parameter block that the xdiff library takes, with the flags that it
//! understands.

use vstd::prelude::*;

verus! {

/// Ask xdiff for a minimal diff.
pub const XDF_NEED_MINIMAL: u32 = 1;

/// Let xdiff shift hunks by the indentation heuristic.
pub const XDF_INDENT_HEURISTIC: u32 = 8388608;

/// Emit hunks through the hunk callback of the emit configuration.
pub const XDL_EMIT_BDIFFHUNK: u32 = 16;

/// Diff parameters: a bit set of the `XDF_*` flags.
#[allow(non_camel_case_types)]
#[derive(Debug, Copy, Clone)]
pub struct s_xpparam {
    pub flags: u64,
}

#[allow(non_camel_case_types)]
pub type xpparam_t = s_xpparam;

} // verus!
