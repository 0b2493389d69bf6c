//! The state behind an I/O handle: which streams exist, whether each stream
//! ended its last write with a newline, whether a progress area is on screen,
//! and whether a pager runs.
//!
//! What each operation on the state does is in `ops`.

use vstd::prelude::*;

verus! {

/// Columns assumed when the terminal size cannot be measured.
pub const DEFAULT_TERM_WIDTH: usize = 80;

/// Rows assumed when the terminal size cannot be measured.
pub const DEFAULT_TERM_HEIGHT: usize = 25;

/// The state of an I/O handle, as plain values.
#[derive(Clone, Copy)]
pub struct IOState {
    has_error: bool,
    has_term: bool,
    has_pager_progress: bool,
    pager_active: bool,
    output_on_new_line: bool,
    error_on_new_line: bool,
    progress_has_content: bool,
    progress_conflict_with_output: bool,
    redirect_err_to_out: bool,
    progress_disabled: usize,
}

/// The mathematical model of an `IOState`.
pub struct IOStateView {
    /// An error stream exists.
    pub has_error: bool,
    /// A terminal for the progress area exists.
    pub has_term: bool,
    /// Progress goes to a pager's progress stream.
    pub has_pager_progress: bool,
    /// A pager runs and has not been waited for.
    pub pager_active: bool,
    /// The last write to the output stream ended a line.
    pub output_on_new_line: bool,
    /// The last write to the error stream ended a line.
    pub error_on_new_line: bool,
    /// The progress area on the terminal is not empty.
    pub progress_has_content: bool,
    /// Progress (on the error stream) and the output share a terminal.
    pub progress_conflict_with_output: bool,
    /// Writes to the error stream go to the output stream.
    pub redirect_err_to_out: bool,
    /// How many nested `disable_progress(true)` are in force.
    pub progress_disabled: nat,
}

impl View for IOState {
    type V = IOStateView;

    closed spec fn view(&self) -> IOStateView {
        IOStateView {
            has_error: self.has_error,
            has_term: self.has_term,
            has_pager_progress: self.has_pager_progress,
            pager_active: self.pager_active,
            output_on_new_line: self.output_on_new_line,
            error_on_new_line: self.error_on_new_line,
            progress_has_content: self.progress_has_content,
            progress_conflict_with_output: self.progress_conflict_with_output,
            redirect_err_to_out: self.redirect_err_to_out,
            progress_disabled: self.progress_disabled as nat,
        }
    }
}

/// Whether the bytes end with a line feed.
pub open spec fn ends_line(data: Seq<u8>) -> bool {
    data.len() > 0 && data.last() == 10u8
}

/// Whether written bytes end with a line feed.
pub fn ends_with_newline(data: &[u8]) -> (r: bool)
    ensures
        r == ends_line(data@),
{
    let n = data.len();
    n > 0 && data[n - 1] == 10u8
}

impl IOStateView {
    /// The state of a fresh handle. Progress conflicts with the output when
    /// both the error stream and the output stream are terminals.
    pub open spec fn initial(output_is_tty: bool, error_is_tty: Option<bool>) -> IOStateView {
        IOStateView {
            has_error: error_is_tty is Some,
            has_term: false,
            has_pager_progress: false,
            pager_active: false,
            output_on_new_line: true,
            error_on_new_line: true,
            progress_has_content: false,
            progress_conflict_with_output: match error_is_tty {
                Some(e) => e && output_is_tty,
                None => false,
            },
            redirect_err_to_out: false,
            progress_disabled: 0,
        }
    }

    /// Progress on screen implies a terminal that shows it.
    pub open spec fn wf(self) -> bool {
        self.progress_has_content ==> self.has_term
    }

    /// The terminal size, given what measuring the terminal gave (`None`
    /// when it failed).
    pub open spec fn term_size_given(self, measured: Option<(usize, usize)>) -> (usize, usize) {
        if self.has_term && measured is Some {
            measured.unwrap()
        } else {
            (DEFAULT_TERM_WIDTH, DEFAULT_TERM_HEIGHT)
        }
    }

    pub open spec fn with_progress_content(self, content: bool) -> IOStateView {
        IOStateView { progress_has_content: content, ..self }
    }

    pub open spec fn with_output_line(self, ended: bool) -> IOStateView {
        IOStateView { output_on_new_line: ended, ..self }
    }

    pub open spec fn with_error_line(self, ended: bool) -> IOStateView {
        IOStateView { error_on_new_line: ended, ..self }
    }

    pub open spec fn with_progress_disabled(self, n: nat) -> IOStateView {
        IOStateView { progress_disabled: n, ..self }
    }

    pub open spec fn with_pager_active(self, active: bool) -> IOStateView {
        IOStateView { pager_active: active, ..self }
    }

    pub open spec fn with_term(self) -> IOStateView {
        IOStateView { has_term: true, ..self }
    }

    pub open spec fn with_pager_progress(self, present: bool) -> IOStateView {
        IOStateView { has_pager_progress: present, ..self }
    }

    /// The streams are the standard ones again: an error stream exists,
    /// errors are not sent to the output, and there is no pager progress
    /// stream.
    pub open spec fn after_restore_stdio(self) -> IOStateView {
        IOStateView {
            has_error: true,
            redirect_err_to_out: false,
            has_pager_progress: false,
            ..self
        }
    }

    /// The error stream and the pager's progress stream are dropped.
    pub open spec fn after_release(self) -> IOStateView {
        IOStateView { has_error: false, has_pager_progress: false, ..self }
    }

    /// The error stream goes to the pager; errors are sent to the output
    /// unless the pager shows them apart.
    pub open spec fn after_pager_error(self, separate: bool) -> IOStateView {
        IOStateView { has_error: true, redirect_err_to_out: !separate, ..self }
    }
}

impl IOState {
    /// A fresh state, for an output stream that is a terminal when
    /// `output_is_tty` holds and an error stream that is absent (`None`) or
    /// is a terminal when it holds `true`.
    pub fn new(output_is_tty: bool, error_is_tty: Option<bool>) -> (r: IOState)
        ensures
            r@ == IOStateView::initial(output_is_tty, error_is_tty),
    {
        let progress_conflict_with_output = match error_is_tty {
            None => false,
            Some(e) => e && output_is_tty,
        };
        IOState {
            has_error: error_is_tty.is_some(),
            has_term: false,
            has_pager_progress: false,
            pager_active: false,
            output_on_new_line: true,
            error_on_new_line: true,
            progress_has_content: false,
            progress_conflict_with_output,
            redirect_err_to_out: false,
            progress_disabled: 0,
        }
    }

    /// The terminal size as (columns, rows), given what measuring the
    /// terminal gave: `None` when it failed. Without a terminal, or when the
    /// measurement failed, the default size.
    pub fn term_size(&self, measured: Option<(usize, usize)>) -> (r: (usize, usize))
        ensures
            r == self@.term_size_given(measured),
    {
        if self.has_term {
            if let Some(size) = measured {
                return size;
            }
        }
        (DEFAULT_TERM_WIDTH, DEFAULT_TERM_HEIGHT)
    }

    /// Whether a pager runs.
    pub fn is_pager_active(&self) -> (r: bool)
        ensures
            r == self@.pager_active,
    {
        self.pager_active
    }

    pub(crate) fn with_progress_content(self, content: bool) -> (r: IOState)
        ensures
            r@ == self@.with_progress_content(content),
    {
        IOState { progress_has_content: content, ..self }
    }

    pub(crate) fn with_output_line(self, ended: bool) -> (r: IOState)
        ensures
            r@ == self@.with_output_line(ended),
    {
        IOState { output_on_new_line: ended, ..self }
    }

    pub(crate) fn with_error_line(self, ended: bool) -> (r: IOState)
        ensures
            r@ == self@.with_error_line(ended),
    {
        IOState { error_on_new_line: ended, ..self }
    }

    pub(crate) fn with_progress_disabled(self, n: usize) -> (r: IOState)
        ensures
            r@ == self@.with_progress_disabled(n as nat),
    {
        IOState { progress_disabled: n, ..self }
    }

    pub(crate) fn with_pager_active(self, active: bool) -> (r: IOState)
        ensures
            r@ == self@.with_pager_active(active),
    {
        IOState { pager_active: active, ..self }
    }

    pub(crate) fn with_term(self) -> (r: IOState)
        ensures
            r@ == self@.with_term(),
    {
        IOState { has_term: true, ..self }
    }

    pub(crate) fn with_pager_progress(self, present: bool) -> (r: IOState)
        ensures
            r@ == self@.with_pager_progress(present),
    {
        IOState { has_pager_progress: present, ..self }
    }

    pub(crate) fn after_restore_stdio(self) -> (r: IOState)
        ensures
            r@ == self@.after_restore_stdio(),
    {
        IOState { has_error: true, redirect_err_to_out: false, has_pager_progress: false, ..self }
    }

    pub(crate) fn after_release(self) -> (r: IOState)
        ensures
            r@ == self@.after_release(),
    {
        IOState { has_error: false, has_pager_progress: false, ..self }
    }

    pub(crate) fn after_pager_error(self, separate: bool) -> (r: IOState)
        ensures
            r@ == self@.after_pager_error(separate),
    {
        IOState { has_error: true, redirect_err_to_out: !separate, ..self }
    }

    /// Whether an error stream exists.
    pub fn has_error(&self) -> (r: bool)
        ensures
            r == self@.has_error,
    {
        self.has_error
    }

    /// Whether a terminal for the progress area exists.
    pub fn has_term(&self) -> (r: bool)
        ensures
            r == self@.has_term,
    {
        self.has_term
    }

    /// Whether progress goes to a pager's progress stream.
    pub fn has_pager_progress(&self) -> (r: bool)
        ensures
            r == self@.has_pager_progress,
    {
        self.has_pager_progress
    }

    /// Whether the last write to the output stream ended a line.
    pub fn output_on_new_line(&self) -> (r: bool)
        ensures
            r == self@.output_on_new_line,
    {
        self.output_on_new_line
    }

    /// Whether the last write to the error stream ended a line.
    pub fn error_on_new_line(&self) -> (r: bool)
        ensures
            r == self@.error_on_new_line,
    {
        self.error_on_new_line
    }

    /// Whether the terminal's progress area is not empty.
    pub fn progress_has_content(&self) -> (r: bool)
        ensures
            r == self@.progress_has_content,
    {
        self.progress_has_content
    }

    /// Whether progress and output share a terminal.
    pub fn progress_conflict_with_output(&self) -> (r: bool)
        ensures
            r == self@.progress_conflict_with_output,
    {
        self.progress_conflict_with_output
    }

    /// Whether writes to the error stream go to the output stream.
    pub fn redirect_err_to_out(&self) -> (r: bool)
        ensures
            r == self@.redirect_err_to_out,
    {
        self.redirect_err_to_out
    }

    /// How many nested `disable_progress(true)` are in force.
    pub fn progress_disabled(&self) -> (r: usize)
        ensures
            r == self@.progress_disabled,
    {
        self.progress_disabled
    }
}

} // verus!
