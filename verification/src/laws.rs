//! What holds of the operations on an I/O handle's state across calls.

use vstd::prelude::*;

use crate::ops::separate_stderr;
use crate::pager::PagerSettings;
use crate::script::{Action, ProgressTarget, ScriptView, Stream};
use crate::state::{ends_line, IOStateView};

verus! {

/// The state after `n` calls of `disable_progress(true)` that all succeed.
pub open spec fn after_disables(v: IOStateView, n: nat) -> IOStateView
    decreases n,
{
    if n == 0 {
        v
    } else {
        after_disables(v.disable_progress_script(true).unwrap().on_success, (n - 1) as nat)
    }
}

/// The state after `n` calls of `disable_progress(false)`; `None` when one
/// of them is refused.
pub open spec fn after_enables(v: IOStateView, n: nat) -> Option<IOStateView>
    decreases n,
{
    if n == 0 {
        Some(v)
    } else {
        match v.disable_progress_script(false) {
            Some(s) => after_enables(s.on_success, (n - 1) as nat),
            None => None,
        }
    }
}

/// Whether every state that the script can leave satisfies `wf`.
pub open spec fn keeps_wf(s: ScriptView) -> bool {
    &&& s.on_success.wf()
    &&& forall|i: int| 0 <= i < s.steps.len() ==> (#[trigger] s.steps[i]).on_failure.wf()
}

proof fn progress_only_touches_content(v: IOStateView, changes_empty: bool)
    ensures
        v.progress_script(changes_empty).on_success == v.with_progress_content(
            v.progress_script(changes_empty).on_success.progress_has_content,
        ),
{
}

proof fn disables_add(v: IOStateView, n: nat)
    ensures
        after_disables(v, n).progress_disabled == v.progress_disabled + n,
        after_disables(v, n).with_progress_content(v.progress_has_content)
            == v.with_progress_disabled(v.progress_disabled + n),
    decreases n,
{
    if n > 0 {
        let w = v.disable_progress_script(true).unwrap().on_success;
        progress_only_touches_content(v.with_progress_disabled(v.progress_disabled + 1), true);
        disables_add(w, (n - 1) as nat);
    }
}

proof fn enables_subtract(v: IOStateView, n: nat)
    requires
        n <= v.progress_disabled,
    ensures
        after_enables(v, n) == Some(v.with_progress_disabled((v.progress_disabled - n) as nat)),
    decreases n,
{
    if n > 0 {
        let w = v.disable_progress_script(false).unwrap().on_success;
        enables_subtract(w, (n - 1) as nat);
    }
}

/// Progress disabling nests: `n` calls of `disable_progress(true)` raise the
/// count by `n`, and `n` calls of `disable_progress(false)` after them are
/// all accepted and give the count back; nothing but the progress area's
/// content differs from the state before.
pub proof fn disable_progress_nests(v: IOStateView, n: nat)
    ensures
        after_disables(v, n).progress_disabled == v.progress_disabled + n,
        after_enables(after_disables(v, n), n) matches Some(w) && w.progress_disabled
            == v.progress_disabled && w.with_progress_content(v.progress_has_content) == v,
{
    disables_add(v, n);
    enables_subtract(after_disables(v, n), n);
}

/// `disable_progress(false)` is refused exactly when no
/// `disable_progress(true)` is left to cancel.
pub proof fn enable_refused_without_disable(v: IOStateView)
    ensures
        v.disable_progress_script(false) is None <==> v.progress_disabled == 0,
{
}

/// Disabling progress empties the terminal's progress area.
pub proof fn disabling_empties_progress(v: IOStateView)
    requires
        v.wf(),
        !v.has_pager_progress,
    ensures
        !v.disable_progress_script(true).unwrap().on_success.progress_has_content,
        !v.disable_progress_script(true).unwrap().draws_content(),
{
}

/// While progress is disabled, an update draws nothing but an empty area,
/// and never makes the terminal's progress area non-empty.
pub proof fn disabled_progress_draws_nothing(v: IOStateView, changes_empty: bool)
    requires
        v.progress_disabled > 0,
    ensures
        !v.progress_script(changes_empty).draws_content(),
        v.progress_script(changes_empty).on_success.progress_has_content
            ==> v.progress_has_content,
{
}

/// While the last write to the output or to the error stream left a line
/// unfinished, a progress update draws nothing but an empty area, and the
/// terminal's area is empty afterwards.
pub proof fn unfinished_line_blocks_progress(v: IOStateView, changes_empty: bool)
    requires
        v.wf(),
        !v.has_pager_progress,
        !v.output_on_new_line || !v.error_on_new_line,
    ensures
        !v.progress_script(changes_empty).draws_content(),
        !v.progress_script(changes_empty).on_success.progress_has_content,
{
}

/// An empty progress update of an empty terminal progress area performs no
/// I/O and changes nothing.
pub proof fn empty_update_of_empty_area_is_noop(v: IOStateView)
    requires
        !v.has_pager_progress,
        !v.progress_has_content,
    ensures
        v.progress_script(true) =~= ScriptView::done(v),
{
}

/// Clearing the progress for a write leaves nothing to clear: a second
/// clearing performs no I/O and changes nothing.
pub proof fn clearing_progress_is_idempotent(v: IOStateView)
    ensures
        v.clear_for_error_script().on_success.clear_for_error_script() =~= ScriptView::done(
            v.clear_for_error_script().on_success,
        ),
        v.clear_for_output_script().on_success.clear_for_output_script() =~= ScriptView::done(
            v.clear_for_output_script().on_success,
        ),
{
}

/// A write to the output stream ends by handing the data to the output
/// stream, draws no progress content on the way, and records whether the
/// data ended a line.
pub proof fn output_write_lands_last(v: IOStateView, data: Seq<u8>)
    ensures
        v.write_script(data).steps.len() > 0,
        v.write_script(data).steps.last().action == Action::Write(Stream::Output),
        !v.write_script(data).draws_content(),
        v.write_script(data).on_success.output_on_new_line == ends_line(data),
        v.write_script(data).on_success.error_on_new_line == v.error_on_new_line,
{
}

/// When output and progress share the terminal, a write to the output first
/// empties a progress area that has content.
pub proof fn conflicting_output_clears_progress_first(v: IOStateView, data: Seq<u8>)
    requires
        v.progress_conflict_with_output,
        !v.has_pager_progress,
        v.progress_has_content,
        v.has_term,
    ensures
        v.write_script(data).steps.len() == 2,
        v.write_script(data).steps[0].action == (Action::DrawProgress {
            target: ProgressTarget::Term,
            clear: true,
        }),
        !v.write_script(data).steps[0].on_failure.progress_has_content,
        !v.write_script(data).on_success.progress_has_content,
{
}

/// Writes to the error stream go to the output stream while errors are
/// redirected, to the error stream when there is one, and nowhere
/// otherwise; the line state of the stream that received them is recorded.
pub proof fn error_writes_follow_redirect(v: IOStateView, data: Seq<u8>)
    ensures
        ({
            let s = v.write_err_script(data);
            let to_output = s.performs(Action::Write(Stream::Output));
            let to_error = s.performs(Action::Write(Stream::Error));
            &&& v.redirect_err_to_out ==> to_output && !to_error
            &&& v.redirect_err_to_out ==> s.on_success.output_on_new_line == ends_line(data)
            &&& !v.redirect_err_to_out && v.has_error ==> to_error && !to_output
            &&& !v.redirect_err_to_out && !v.has_error ==> !to_error && !to_output
            &&& !v.redirect_err_to_out ==> s.on_success.error_on_new_line == ends_line(data)
        }),
{
    let s = v.write_err_script(data);
    if s.steps.len() > 0 {
        assert(s.steps[s.steps.len() - 1].action == s.steps.last().action);
    }
}

/// A flush flushes the output stream, then the error stream if there is
/// one, and changes nothing.
pub proof fn flush_changes_nothing(v: IOStateView)
    ensures
        v.flush_script().on_success == v,
        v.flush_script().steps[0].action == Action::Flush(Stream::Output),
        v.flush_script().steps.len() == (if v.has_error {
            2int
        } else {
            1int
        }),
{
}

/// A started pager is active and receives the progress; starting a pager
/// when one runs does nothing.
pub proof fn start_pager_activates(
    v: IOStateView,
    settings: PagerSettings,
    output_is_tty: bool,
    output_is_stdout: bool,
    error_is_tty: Option<bool>,
    separate: Option<bool>,
)
    ensures
        !v.pager_active ==> v.start_pager_script(
            settings,
            output_is_tty,
            output_is_stdout,
            error_is_tty,
            separate,
        ).on_success.pager_active && v.start_pager_script(
            settings,
            output_is_tty,
            output_is_stdout,
            error_is_tty,
            separate,
        ).on_success.has_pager_progress,
        v.pager_active ==> v.start_pager_script(
            settings,
            output_is_tty,
            output_is_stdout,
            error_is_tty,
            separate,
        ) =~= ScriptView::done(v),
{
}

/// When the pager takes a terminal error stream, errors are written to the
/// output unless the pager shows them apart.
pub proof fn pager_error_redirect(
    v: IOStateView,
    settings: PagerSettings,
    output_is_tty: bool,
    output_is_stdout: bool,
    error_is_tty: Option<bool>,
    separate: Option<bool>,
)
    requires
        !v.pager_active,
        match error_is_tty {
            Some(e) => e,
            None => output_is_tty,
        },
    ensures
        v.start_pager_script(
            settings,
            output_is_tty,
            output_is_stdout,
            error_is_tty,
            separate,
        ).on_success.redirect_err_to_out == !separate_stderr(separate),
        v.start_pager_script(
            settings,
            output_is_tty,
            output_is_stdout,
            error_is_tty,
            separate,
        ).on_success.has_error,
{
}

/// Waiting for the pager leaves no pager running and the standard streams
/// in place; it waits exactly when a pager runs, and a second wait does
/// nothing.
pub proof fn pager_is_waited_for_once(v: IOStateView)
    ensures
        !v.wait_pager_and_restore_script().on_success.pager_active,
        v.wait_pager_and_restore_script().on_success.has_error,
        !v.wait_pager_and_restore_script().on_success.redirect_err_to_out,
        !v.wait_pager_and_restore_script().on_success.has_pager_progress,
        v.wait_pager_and_restore_script().performs(Action::WaitPager) <==> v.pager_active,
        v.wait_pager_script().on_success.wait_pager_script() =~= ScriptView::done(
            v.wait_pager_script().on_success,
        ),
{
    let s = v.wait_pager_and_restore_script();
    if v.pager_active {
        assert(s.steps[s.steps.len() - 2].action == Action::WaitPager);
    }
}

proof fn clears_keep_wf(v: IOStateView)
    requires
        v.wf(),
    ensures
        keeps_wf(v.clear_for_error_script()),
        keeps_wf(v.clear_for_output_script()),
{
}

proof fn writes_keep_wf(v: IOStateView, data: Seq<u8>)
    requires
        v.wf(),
    ensures
        keeps_wf(v.write_script(data)),
        keeps_wf(v.write_err_script(data)),
{
    clears_keep_wf(v);
}

proof fn progress_keeps_wf(v: IOStateView, changes_empty: bool)
    requires
        v.wf(),
    ensures
        keeps_wf(v.progress_script(changes_empty)),
        keeps_wf(v.flush_script()),
{
}

proof fn disable_keeps_wf(v: IOStateView, disabled: bool)
    requires
        v.wf(),
    ensures
        v.disable_progress_script(disabled) matches Some(s) ==> keeps_wf(s),
{
    progress_keeps_wf(v.with_progress_disabled(v.progress_disabled + 1), true);
}

proof fn pager_waits_keep_wf(v: IOStateView)
    requires
        v.wf(),
    ensures
        keeps_wf(v.wait_pager_script()),
        keeps_wf(v.wait_pager_and_restore_script()),
        keeps_wf(v.release_script()),
{
    let restored = v.after_restore_stdio();
    assert(keeps_wf(restored.wait_pager_script()));
    assert(keeps_wf(v.after_release().wait_pager_script()));
}

proof fn streams_keep_wf(v: IOStateView, flag: bool)
    requires
        v.wf(),
    ensures
        keeps_wf(v.setup_term_script(flag)),
        keeps_wf(v.progress_pipe_script(flag)),
{
}

proof fn start_pager_keeps_wf(
    v: IOStateView,
    settings: PagerSettings,
    output_is_tty: bool,
    output_is_stdout: bool,
    error_is_tty: Option<bool>,
    separate: Option<bool>,
)
    requires
        v.wf(),
    ensures
        keeps_wf(v.start_pager_script(settings, output_is_tty, output_is_stdout, error_is_tty, separate)),
{
    progress_keeps_wf(v, true);
    progress_keeps_wf(v.progress_script(true).on_success, true);
}

/// A fresh state shows no progress, and no operation, whether it succeeds
/// or fails at any step, leaves progress on screen without a terminal to
/// show it.
pub proof fn operations_keep_progress_on_a_terminal(
    v: IOStateView,
    output_is_tty: bool,
    output_is_stdout: bool,
    error_is_tty: Option<bool>,
    changes_empty: bool,
    data: Seq<u8>,
    disabled: bool,
    flag: bool,
    settings: PagerSettings,
    separate: Option<bool>,
)
    requires
        v.wf(),
    ensures
        IOStateView::initial(output_is_tty, error_is_tty).wf(),
        keeps_wf(v.clear_for_error_script()),
        keeps_wf(v.clear_for_output_script()),
        keeps_wf(v.write_script(data)),
        keeps_wf(v.write_err_script(data)),
        keeps_wf(v.progress_script(changes_empty)),
        keeps_wf(v.flush_script()),
        v.disable_progress_script(disabled) matches Some(s) ==> keeps_wf(s),
        keeps_wf(v.wait_pager_script()),
        keeps_wf(v.wait_pager_and_restore_script()),
        keeps_wf(v.release_script()),
        keeps_wf(v.setup_term_script(flag)),
        keeps_wf(v.progress_pipe_script(flag)),
        keeps_wf(v.start_pager_script(settings, output_is_tty, output_is_stdout, error_is_tty, separate)),
{
    clears_keep_wf(v);
    writes_keep_wf(v, data);
    progress_keeps_wf(v, changes_empty);
    disable_keeps_wf(v, disabled);
    pager_waits_keep_wf(v);
    streams_keep_wf(v, flag);
    start_pager_keeps_wf(v, settings, output_is_tty, output_is_stdout, error_is_tty, separate);
}

} // verus!
