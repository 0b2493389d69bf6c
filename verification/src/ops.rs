//! The operations on an I/O handle's state, each as a script of I/O actions
//! (see `script`).

use vstd::prelude::*;

use crate::pager::{pager_error_is_tty, PagerSettings};
use crate::script::{Action, ProgressTarget, Script, ScriptView, Stream};
use crate::state::{ends_line, ends_with_newline, IOState, IOStateView};

verus! {

/// The refusal of `disable_progress(false)` when nothing is disabled.
#[derive(Debug, Clone, Copy, PartialEq, Eq, Structural)]
pub enum ProgressError {
    UnbalancedEnable,
}

impl ProgressError {
    /// The message that the refusal carries.
    pub fn message(&self) -> (r: &'static str)
        ensures
            r@ == "disable_progress(false) called without matching disable_progress(true)"@,
    {
        "disable_progress(false) called without matching disable_progress(true)"
    }
}

/// Whether the pager shows the error stream apart from the output, given
/// the configured `pager.separate-stderr`.
pub open spec fn separate_stderr(configured: Option<bool>) -> bool {
    configured == Some(true)
}

impl IOStateView {
    /// Clear the progress (temporarily) for a write to the error stream:
    /// when the terminal's progress area has content and progress does not
    /// go to a pager, mark it empty, then draw it empty.
    pub open spec fn clear_for_error_script(self) -> ScriptView {
        if self.progress_has_content && !self.has_pager_progress {
            let cleared = ScriptView::done(self.with_progress_content(false));
            if self.has_term {
                cleared.perform(Action::DrawProgress { target: ProgressTarget::Term, clear: true })
            } else {
                cleared
            }
        } else {
            ScriptView::done(self)
        }
    }

    /// Clear the progress (temporarily) for a write to the output stream,
    /// when the two share a terminal and progress does not go to a pager.
    pub open spec fn clear_for_output_script(self) -> ScriptView {
        if self.progress_conflict_with_output && !self.has_pager_progress {
            self.clear_for_error_script()
        } else {
            ScriptView::done(self)
        }
    }

    /// Write `data` to the output stream.
    pub open spec fn write_script(self, data: Seq<u8>) -> ScriptView {
        let c = self.clear_for_output_script();
        c.becoming(c.on_success.with_output_line(ends_line(data))).perform(
            Action::Write(Stream::Output),
        )
    }

    /// Write `data` to the error stream: to the output when errors are
    /// redirected there, else to the error stream if there is one.
    pub open spec fn write_err_script(self, data: Seq<u8>) -> ScriptView {
        if self.redirect_err_to_out {
            self.write_script(data)
        } else {
            let c = self.clear_for_error_script();
            let w = c.becoming(c.on_success.with_error_line(ends_line(data)));
            if self.has_error {
                w.perform(Action::Write(Stream::Error))
            } else {
                w
            }
        }
    }

    /// Update the progress area; `changes_empty` says whether the update
    /// asks for an empty area. A pager's progress stream gets the update
    /// (empty while progress is disabled). Otherwise the area is only
    /// emptied while progress is disabled or a line is unfinished; an empty
    /// update of an empty area does nothing; conflicting output is flushed
    /// first; and the terminal's area is drawn if there is a terminal.
    pub open spec fn progress_script(self, changes_empty: bool) -> ScriptView {
        let empty = changes_empty || self.progress_disabled > 0;
        if self.has_pager_progress {
            ScriptView::done(self).perform(
                Action::DrawProgress { target: ProgressTarget::Pager, clear: empty },
            )
        } else {
            let empty = empty || !self.output_on_new_line || !self.error_on_new_line;
            if empty && !self.progress_has_content {
                ScriptView::done(self)
            } else {
                let flushed = if self.progress_conflict_with_output {
                    ScriptView::done(self).perform(Action::Flush(Stream::Output))
                } else {
                    ScriptView::done(self)
                };
                if self.has_term {
                    flushed.becoming(self.with_progress_content(!empty)).perform(
                        Action::DrawProgress { target: ProgressTarget::Term, clear: empty },
                    )
                } else {
                    flushed
                }
            }
        }
    }

    /// Flush the output stream, then the error stream if there is one.
    pub open spec fn flush_script(self) -> ScriptView {
        let out = ScriptView::done(self).perform(Action::Flush(Stream::Output));
        if self.has_error {
            out.perform(Action::Flush(Stream::Error))
        } else {
            out
        }
    }

    /// `disable_progress(disabled)`: disabling counts one more nesting level
    /// and then empties the progress area; enabling cancels one level, and
    /// is refused (`None`) when there is none.
    pub open spec fn disable_progress_script(self, disabled: bool) -> Option<ScriptView> {
        if disabled {
            Some(self.with_progress_disabled(self.progress_disabled + 1).progress_script(true))
        } else if self.progress_disabled == 0 {
            None
        } else {
            Some(
                ScriptView::done(
                    self.with_progress_disabled((self.progress_disabled - 1) as nat),
                ),
            )
        }
    }

    /// Take the function that waits for the pager and call it, if a pager
    /// runs.
    pub open spec fn wait_pager_script(self) -> ScriptView {
        if self.pager_active {
            ScriptView::done(self.with_pager_active(false)).perform(Action::WaitPager)
        } else {
            ScriptView::done(self)
        }
    }

    /// Wait for the pager to exit and restore the standard streams: flush,
    /// restore, wait, and drop the function that quits the pager.
    pub open spec fn wait_pager_and_restore_script(self) -> ScriptView {
        let restored = self.after_restore_stdio();
        self.flush_script().becoming(restored).perform(Action::RestoreStdio).and_then(
            restored.wait_pager_script(),
        ).perform(Action::ForgetPagerQuit)
    }

    /// Drop the output and error streams and the pager's progress stream,
    /// then wait for the pager.
    pub open spec fn release_script(self) -> ScriptView {
        let released = self.after_release();
        ScriptView::done(released).perform(Action::ReleaseStreams).and_then(
            released.wait_pager_script(),
        )
    }

    /// Attach a terminal for the progress area: a dumb one in tests.
    pub open spec fn setup_term_script(self, in_tests: bool) -> ScriptView {
        ScriptView::done(self).perform(Action::AttachTerm { dumb: in_tests }).becoming(
            self.with_term(),
        )
    }

    /// Set the pager's progress stream to a given pipe (`present`) or drop
    /// it.
    pub open spec fn progress_pipe_script(self, present: bool) -> ScriptView {
        ScriptView::done(self).perform(Action::SetProgressPipe { present }).becoming(
            self.with_pager_progress(present),
        )
    }

    /// Start a pager, unless one runs: empty the progress area, create and
    /// configure the pager, send the output (and the error stream, if it is
    /// a terminal) through pipes to it, give it the progress stream, and run
    /// it. Errors go to the output unless the pager shows them apart.
    pub open spec fn start_pager_script(
        self,
        settings: PagerSettings,
        output_is_tty: bool,
        output_is_stdout: bool,
        error_is_tty: Option<bool>,
        separate_stderr_configured: Option<bool>,
    ) -> ScriptView {
        if self.pager_active {
            ScriptView::done(self)
        } else {
            let p = self.progress_script(true);
            let s1 = p.on_success;
            let prepared = p.perform(Action::CreatePager).perform(Action::ConfigurePager(settings)).perform(
                Action::CreatePipes,
            ).and_then(s1.flush_script()).perform(
                Action::PipeOutput { is_tty: output_is_tty, pretend_stdout: output_is_stdout },
            ).perform(Action::AddOutputStream);
            let err_is_tty = match error_is_tty {
                Some(e) => e,
                None => output_is_tty,
            };
            let separate = separate_stderr(separate_stderr_configured);
            let with_err = if err_is_tty {
                let e = prepared.becoming(s1.after_pager_error(separate)).perform(Action::PipeError);
                if separate {
                    e.perform(Action::AddErrorStream)
                } else {
                    e
                }
            } else {
                prepared
            };
            let s2 = with_err.on_success.with_pager_progress(true);
            with_err.perform(Action::AttachPagerProgress).becoming(s2).perform(
                Action::RunPager,
            ).becoming(s2.with_pager_active(true))
        }
    }
}

impl IOState {
    /// Clear the progress (temporarily) for a write to the error stream.
    pub fn clear_progress_for_error(&self) -> (r: Script)
        ensures
            r@ =~= self@.clear_for_error_script(),
    {
        if self.progress_has_content() && !self.has_pager_progress() {
            let mut r = Script::done(self.with_progress_content(false));
            if self.has_term() {
                r.perform(Action::DrawProgress { target: ProgressTarget::Term, clear: true });
            }
            r
        } else {
            Script::done(*self)
        }
    }

    /// Clear the progress (temporarily) if it conflicts with a write to the
    /// output stream.
    pub fn clear_progress_for_output(&self) -> (r: Script)
        ensures
            r@ =~= self@.clear_for_output_script(),
    {
        if self.progress_conflict_with_output() && !self.has_pager_progress() {
            self.clear_progress_for_error()
        } else {
            Script::done(*self)
        }
    }

    /// Write `data` to the output stream.
    pub fn write(&self, data: &[u8]) -> (r: Script)
        ensures
            r@ =~= self@.write_script(data@),
    {
        let mut r = self.clear_progress_for_output();
        let ended = ends_with_newline(data);
        r.becoming(r.on_success.with_output_line(ended));
        r.perform(Action::Write(Stream::Output));
        r
    }

    /// Write `data` to the error stream.
    pub fn write_err(&self, data: &[u8]) -> (r: Script)
        ensures
            r@ =~= self@.write_err_script(data@),
    {
        if self.redirect_err_to_out() {
            return self.write(data);
        }
        let mut r = self.clear_progress_for_error();
        let ended = ends_with_newline(data);
        r.becoming(r.on_success.with_error_line(ended));
        if self.has_error() {
            r.perform(Action::Write(Stream::Error));
        }
        r
    }

    /// Update the progress area with changes, empty when `changes_empty`.
    pub fn set_progress(&self, changes_empty: bool) -> (r: Script)
        ensures
            r@ =~= self@.progress_script(changes_empty),
    {
        let mut empty = changes_empty || self.progress_disabled() > 0;
        if self.has_pager_progress() {
            let mut r = Script::done(*self);
            r.perform(Action::DrawProgress { target: ProgressTarget::Pager, clear: empty });
            return r;
        }
        if !self.output_on_new_line() || !self.error_on_new_line() {
            // A line has not ended: not the place for progress bars.
            empty = true;
        }
        if empty && !self.progress_has_content() {
            return Script::done(*self);
        }
        let mut r = Script::done(*self);
        if self.progress_conflict_with_output() {
            r.perform(Action::Flush(Stream::Output));
        }
        if self.has_term() {
            r.becoming(self.with_progress_content(!empty));
            r.perform(Action::DrawProgress { target: ProgressTarget::Term, clear: empty });
        }
        r
    }

    /// Flush the output stream, then the error stream.
    pub fn flush(&self) -> (r: Script)
        ensures
            r@ =~= self@.flush_script(),
    {
        let mut r = Script::done(*self);
        r.perform(Action::Flush(Stream::Output));
        if self.has_error() {
            r.perform(Action::Flush(Stream::Error));
        }
        r
    }

    /// Disable progress rendering (`disabled`), nested, or cancel one such
    /// disabling. Cancelling when nothing is disabled is refused.
    pub fn disable_progress(&self, disabled: bool) -> (r: Result<Script, ProgressError>)
        requires
            disabled ==> self@.progress_disabled < usize::MAX,
        ensures
            match self@.disable_progress_script(disabled) {
                Some(s) => r matches Ok(script) && script@ =~= s,
                None => r matches Err(ProgressError::UnbalancedEnable),
            },
    {
        let n = self.progress_disabled();
        if disabled {
            Ok(self.with_progress_disabled(n + 1).set_progress(true))
        } else {
            if n == 0 {
                return Err(ProgressError::UnbalancedEnable);
            }
            Ok(Script::done(self.with_progress_disabled(n - 1)))
        }
    }

    /// Wait for the pager to exit and clean up, if a pager runs; only the
    /// first call waits.
    pub fn wait_pager(&self) -> (r: Script)
        ensures
            r@ =~= self@.wait_pager_script(),
    {
        if self.is_pager_active() {
            let mut r = Script::done(self.with_pager_active(false));
            r.perform(Action::WaitPager);
            r
        } else {
            Script::done(*self)
        }
    }

    /// Wait for the pager to exit, and set the streams back to the standard
    /// ones.
    pub fn wait_pager_and_restore(&self) -> (r: Script)
        ensures
            r@ =~= self@.wait_pager_and_restore_script(),
    {
        let restored = self.after_restore_stdio();
        let mut r = self.flush();
        r.becoming(restored);
        r.perform(Action::RestoreStdio);
        r.and_then(restored.wait_pager());
        r.perform(Action::ForgetPagerQuit);
        r
    }

    /// Drop the streams and wait for the pager, as a handle does when it
    /// goes away.
    pub fn release(&self) -> (r: Script)
        ensures
            r@ =~= self@.release_script(),
    {
        let released = self.after_release();
        let mut r = Script::done(released);
        r.perform(Action::ReleaseStreams);
        r.and_then(released.wait_pager());
        r
    }

    /// Attach a terminal for the progress area; a dumb one when running
    /// under tests (`in_tests`).
    pub fn setup_term(&self, in_tests: bool) -> (r: Script)
        ensures
            r@ =~= self@.setup_term_script(in_tests),
    {
        let mut r = Script::done(*self);
        r.perform(Action::AttachTerm { dumb: in_tests });
        r.becoming(self.with_term());
        r
    }

    /// Set the pager's progress stream to a given pipe, or drop it.
    pub fn set_progress_pipe(&self, present: bool) -> (r: Script)
        ensures
            r@ =~= self@.progress_pipe_script(present),
    {
        let mut r = Script::done(*self);
        r.perform(Action::SetProgressPipe { present });
        r.becoming(self.with_pager_progress(present));
        r
    }

    /// Start a pager with `settings`, unless one runs. `output_is_tty` and
    /// `output_is_stdout` say what the output stream is, `error_is_tty`
    /// whether the error stream (if any) is a terminal, and
    /// `separate_stderr` is the configured `pager.separate-stderr`.
    pub fn start_pager(
        &self,
        settings: PagerSettings,
        output_is_tty: bool,
        output_is_stdout: bool,
        error_is_tty: Option<bool>,
        separate_stderr: Option<bool>,
    ) -> (r: Script)
        ensures
            r@ =~= self@.start_pager_script(
                settings,
                output_is_tty,
                output_is_stdout,
                error_is_tty,
                separate_stderr,
            ),
    {
        if self.is_pager_active() {
            return Script::done(*self);
        }
        let mut r = self.set_progress(true);
        let s1 = r.on_success;
        r.perform(Action::CreatePager);
        r.perform(Action::ConfigurePager(settings));
        r.perform(Action::CreatePipes);
        r.and_then(s1.flush());
        r.perform(Action::PipeOutput { is_tty: output_is_tty, pretend_stdout: output_is_stdout });
        r.perform(Action::AddOutputStream);
        // Only send the error stream to the pager if it is a terminal.
        if pager_error_is_tty(output_is_tty, error_is_tty) {
            let separate = match separate_stderr {
                Some(b) => b,
                None => false,
            };
            r.becoming(s1.after_pager_error(separate));
            r.perform(Action::PipeError);
            if separate {
                r.perform(Action::AddErrorStream);
            }
        }
        let s2 = r.on_success.with_pager_progress(true);
        r.perform(Action::AttachPagerProgress);
        r.becoming(s2);
        r.perform(Action::RunPager);
        r.becoming(s2.with_pager_active(true));
        r
    }
}

} // verus!
