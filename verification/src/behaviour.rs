//! What each operation does, stated over its inputs: the actions it performs,
//! in order, and the state it leaves.

use vstd::prelude::*;

use crate::ops::separate_stderr;
use crate::pager::{wrapping_kind_of, InterfaceKind, PagerSettings, WrappingKind};
use crate::script::{Action, ProgressTarget, ScriptView, Stream};
use crate::state::{ends_line, IOStateView};

verus! {

/// The actions of a script, in order.
pub open spec fn actions(s: ScriptView) -> Seq<Action> {
    s.steps.map_values(|st: crate::script::StepView| st.action)
}

/// The action that draws an empty progress area on the terminal.
pub open spec fn clear_term() -> Action {
    Action::DrawProgress { target: ProgressTarget::Term, clear: true }
}

/// One action when `cond` holds, else none.
pub open spec fn when(cond: bool, a: Action) -> Seq<Action> {
    if cond {
        seq![a]
    } else {
        seq![]
    }
}

/// Bytes end a line exactly when their last byte is a line feed: appending
/// a line feed ends a line, appending any other byte does not.
pub proof fn line_ending_is_last_byte(data: Seq<u8>, b: u8)
    ensures
        ends_line(data.push(b)) == (b == 10u8),
        !ends_line(Seq::<u8>::empty()),
{
}

/// The wrapping mode: "word" wraps at words, "unwrapped" does not wrap,
/// any other value wraps at graphemes.
pub proof fn wrapping_mode_values(lowered: Seq<char>)
    ensures
        (wrapping_kind_of(lowered) == WrappingKind::WordBoundary) == (lowered == "word"@),
        (wrapping_kind_of(lowered) == WrappingKind::Unwrapped) == (lowered == "unwrapped"@ && lowered != "word"@),
        lowered != "word"@ && lowered != "unwrapped"@ ==> wrapping_kind_of(lowered)
            == WrappingKind::GraphemeBoundary,
{
}

/// Pager settings: each configured part is used as given (the wrapping mode
/// as its value selects); an unconfigured interface is the hybrid one, an
/// unconfigured scroll past the end is off, and unconfigured wrapping is at
/// graphemes.
pub proof fn pager_settings_parts(
    interface_mode: Option<InterfaceKind>,
    scroll_past_eof: Option<bool>,
    wrapping: Option<Seq<char>>,
)
    ensures
        ({
            let r = PagerSettings::spec_from_parts(interface_mode, scroll_past_eof, wrapping);
            &&& r.interface_mode == (match interface_mode {
                Some(m) => m,
                None => InterfaceKind::Hybrid,
            })
            &&& r.scroll_past_eof == (scroll_past_eof == Some(true))
            &&& r.wrapping_mode == (match wrapping {
                Some(w) => wrapping_kind_of(w),
                None => WrappingKind::GraphemeBoundary,
            })
        }),
{
}

/// Without a terminal, or when measuring it failed, the terminal is taken
/// to be 80 columns by 25 rows; otherwise the measured size is used.
pub proof fn term_size_defaults(v: IOStateView, measured: Option<(usize, usize)>)
    ensures
        !v.has_term || measured is None ==> v.term_size_given(measured) == (80usize, 25usize),
        v.has_term && measured is Some ==> v.term_size_given(measured) == measured.unwrap(),
{
}

/// A fresh state: an error stream exactly when one is given, progress in
/// conflict with the output exactly when both are terminals, lines ended,
/// no progress shown, nothing disabled, no terminal, no pager.
pub proof fn new_state_fields(output_is_tty: bool, error_is_tty: Option<bool>)
    ensures
        ({
            let v = IOStateView::initial(output_is_tty, error_is_tty);
            &&& v.has_error == (error_is_tty is Some)
            &&& v.progress_conflict_with_output == (error_is_tty == Some(true) && output_is_tty)
            &&& v.output_on_new_line && v.error_on_new_line
            &&& !v.progress_has_content && v.progress_disabled == 0
            &&& !v.has_term && !v.has_pager_progress && !v.pager_active
            &&& !v.redirect_err_to_out
        }),
{
}

/// A flush flushes the output stream, then the error stream if there is
/// one, and leaves the state as it was whatever happens.
pub proof fn flush_behaviour(v: IOStateView)
    ensures
        actions(v.flush_script()) =~= seq![Action::Flush(Stream::Output)] + when(
            v.has_error,
            Action::Flush(Stream::Error),
        ),
        v.flush_script().on_success == v,
        forall|i: int|
            0 <= i < v.flush_script().steps.len() ==> (#[trigger] v.flush_script().steps[i]).on_failure
                == v,
{
}

/// Clearing for an error write: when the terminal's progress area has
/// content and progress does not go to a pager, it is marked empty (also if
/// drawing then fails) and drawn empty if there is a terminal; otherwise
/// nothing happens.
pub proof fn clear_for_error_behaviour(v: IOStateView)
    ensures
        ({
            let s = v.clear_for_error_script();
            let clears = v.progress_has_content && !v.has_pager_progress;
            &&& actions(s) =~= when(clears && v.has_term, clear_term())
            &&& s.on_success == (if clears {
                IOStateView { progress_has_content: false, ..v }
            } else {
                v
            })
            &&& forall|i: int| 0 <= i < s.steps.len() ==> (#[trigger] s.steps[i]).on_failure
                == s.on_success
        }),
{
}

/// Clearing for an output write: as clearing for an error write when
/// progress and output share a terminal and progress does not go to a
/// pager; otherwise nothing happens.
pub proof fn clear_for_output_behaviour(v: IOStateView)
    ensures
        ({
            let s = v.clear_for_output_script();
            let clears = v.progress_conflict_with_output && v.progress_has_content
                && !v.has_pager_progress;
            &&& actions(s) =~= when(clears && v.has_term, clear_term())
            &&& s.on_success == (if clears {
                IOStateView { progress_has_content: false, ..v }
            } else {
                v
            })
        }),
{
}

/// A write to the output: the progress area is cleared first when it
/// shares the terminal with the output, then the data is written; the
/// output's line state is recorded before the write (so also when the write
/// fails), and nothing else changes.
pub proof fn write_behaviour(v: IOStateView, data: Seq<u8>)
    ensures
        ({
            let s = v.write_script(data);
            let clears = v.progress_conflict_with_output && v.progress_has_content
                && !v.has_pager_progress;
            let after = IOStateView {
                progress_has_content: if clears {
                    false
                } else {
                    v.progress_has_content
                },
                output_on_new_line: ends_line(data),
                ..v
            };
            &&& actions(s) =~= when(clears && v.has_term, clear_term()) + seq![
                Action::Write(Stream::Output),
            ]
            &&& s.on_success == after
            &&& s.steps.last().on_failure == after
        }),
{
}

/// A write to the error stream that is not redirected: the progress area
/// is cleared first whenever it has content and does not go to a pager
/// (whether or not it shares the terminal with the output), then the data is
/// written to the error stream if there is one. The error stream's line
/// state is recorded; nothing else changes.
pub proof fn write_err_behaviour(v: IOStateView, data: Seq<u8>)
    requires
        !v.redirect_err_to_out,
    ensures
        ({
            let s = v.write_err_script(data);
            let clears = v.progress_has_content && !v.has_pager_progress;
            &&& actions(s) =~= when(clears && v.has_term, clear_term()) + when(
                v.has_error,
                Action::Write(Stream::Error),
            )
            &&& s.on_success == IOStateView {
                progress_has_content: if clears {
                    false
                } else {
                    v.progress_has_content
                },
                error_on_new_line: ends_line(data),
                ..v
            }
        }),
{
}

/// A write to the error stream records its line state before writing, so
/// also when the write fails.
pub proof fn write_err_records_line_before_writing(v: IOStateView, data: Seq<u8>)
    requires
        !v.redirect_err_to_out,
        v.has_error,
    ensures
        v.write_err_script(data).steps.last().action == Action::Write(Stream::Error),
        v.write_err_script(data).steps.last().on_failure.error_on_new_line == ends_line(data),
        v.write_err_script(data).steps.last().on_failure == v.write_err_script(data).on_success,
{
}

/// A redirected write to the error stream is a write to the output.
pub proof fn redirected_write_err_is_write(v: IOStateView, data: Seq<u8>)
    requires
        v.redirect_err_to_out,
    ensures
        v.write_err_script(data) == v.write_script(data),
{
}

/// With a pager progress stream, a progress update is one drawing on that
/// stream, empty when the update is empty or progress is disabled, and
/// changes nothing.
pub proof fn pager_progress_behaviour(v: IOStateView, changes_empty: bool)
    requires
        v.has_pager_progress,
    ensures
        actions(v.progress_script(changes_empty)) =~= seq![
            (Action::DrawProgress {
                target: ProgressTarget::Pager,
                clear: changes_empty || v.progress_disabled > 0,
            }),
        ],
        v.progress_script(changes_empty).on_success == v,
{
}

/// Without a pager progress stream, a progress update draws an empty area
/// while disabled, asked to, or while a line is unfinished. It does nothing
/// when the area is to be empty and already is; otherwise it flushes the
/// output when they share the terminal, then draws on the terminal if there
/// is one, which records whether the area now has content.
pub proof fn term_progress_behaviour(v: IOStateView, changes_empty: bool)
    requires
        !v.has_pager_progress,
    ensures
        ({
            let s = v.progress_script(changes_empty);
            let empty = changes_empty || v.progress_disabled > 0 || !v.output_on_new_line
                || !v.error_on_new_line;
            &&& empty && !v.progress_has_content ==> s.steps.len() == 0 && s.on_success == v
            &&& !(empty && !v.progress_has_content) ==> actions(s) =~= when(
                v.progress_conflict_with_output,
                Action::Flush(Stream::Output),
            ) + when(
                v.has_term,
                Action::DrawProgress { target: ProgressTarget::Term, clear: empty },
            )
            &&& !(empty && !v.progress_has_content) ==> s.on_success == IOStateView {
                progress_has_content: if v.has_term {
                    !empty
                } else {
                    v.progress_has_content
                },
                ..v
            }
            &&& v.progress_conflict_with_output && !(empty && !v.progress_has_content)
                ==> s.steps[0].on_failure == v
            &&& v.has_term && !(empty && !v.progress_has_content) ==> s.steps.last().on_failure
                == s.on_success
        }),
{
}

/// Disabling counts one more level, then updates the progress with empty
/// changes; enabling cancels one level and does no I/O.
pub proof fn disable_progress_behaviour(v: IOStateView)
    ensures
        v.disable_progress_script(true) == Some(
            (IOStateView { progress_disabled: v.progress_disabled + 1, ..v }).progress_script(true),
        ),
        v.progress_disabled > 0 ==> v.disable_progress_script(false) == Some(
            ScriptView::done((IOStateView { progress_disabled: (v.progress_disabled - 1) as nat, ..v })),
        ),
{
}

/// Waiting for the pager takes the wait once: it waits exactly when a
/// pager runs, and leaves no pager running.
pub proof fn wait_pager_behaviour(v: IOStateView)
    ensures
        actions(v.wait_pager_script()) =~= when(v.pager_active, Action::WaitPager),
        v.wait_pager_script().on_success == (IOStateView { pager_active: false, ..v }),
{
}

/// Waiting for the pager and restoring the streams always flushes first
/// (output, then error if there is one), then restores the standard
/// streams, waits when a pager runs, and forgets the quit function. A
/// failed flush changes nothing.
pub proof fn wait_pager_and_restore_behaviour(v: IOStateView)
    ensures
        ({
            let s = v.wait_pager_and_restore_script();
            &&& actions(s) =~= seq![Action::Flush(Stream::Output)] + when(
                v.has_error,
                Action::Flush(Stream::Error),
            ) + seq![Action::RestoreStdio] + when(v.pager_active, Action::WaitPager) + seq![
                Action::ForgetPagerQuit,
            ]
            &&& s.steps[0].on_failure == v
            &&& s.on_success == IOStateView {
                has_error: true,
                redirect_err_to_out: false,
                has_pager_progress: false,
                pager_active: false,
                ..v
            }
        }),
{
    let s = v.wait_pager_and_restore_script();
    assert(s.steps[0] == v.flush_script().steps[0]);
}

/// Releasing drops the streams, then waits when a pager runs.
pub proof fn release_behaviour(v: IOStateView)
    ensures
        actions(v.release_script()) =~= seq![Action::ReleaseStreams] + when(
            v.pager_active,
            Action::WaitPager,
        ),
        v.release_script().on_success == (IOStateView {
            has_error: false,
            has_pager_progress: false,
            pager_active: false,
            ..v
        }),
{
}

/// Attaching a terminal asks for a dumb one exactly in tests; on success a
/// terminal exists, on failure nothing changed.
pub proof fn setup_term_behaviour(v: IOStateView, in_tests: bool)
    ensures
        actions(v.setup_term_script(in_tests)) =~= seq![(Action::AttachTerm { dumb: in_tests })],
        v.setup_term_script(in_tests).steps[0].on_failure == v,
        v.setup_term_script(in_tests).on_success == (IOStateView { has_term: true, ..v }),
{
}

/// Setting the pager's progress pipe: on success, progress goes to the
/// pager exactly when a pipe was given; on failure nothing changed.
pub proof fn progress_pipe_behaviour(v: IOStateView, present: bool)
    ensures
        actions(v.progress_pipe_script(present)) =~= seq![(Action::SetProgressPipe { present })],
        v.progress_pipe_script(present).steps[0].on_failure == v,
        v.progress_pipe_script(present).on_success == (IOStateView {
            has_pager_progress: present,
            ..v
        }),
{
}

proof fn actions_perform(s: ScriptView, a: Action)
    ensures
        actions(s.perform(a)) =~= actions(s).push(a),
        s.perform(a).on_success == s.on_success,
        s.perform(a).steps.len() == s.steps.len() + 1,
        forall|i: int| 0 <= i < s.steps.len() ==> s.perform(a).steps[i] == s.steps[i],
{
}

proof fn actions_becoming(s: ScriptView, st: IOStateView)
    ensures
        actions(s.becoming(st)) == actions(s),
        s.becoming(st).steps == s.steps,
{
}

proof fn actions_and_then(s: ScriptView, t: ScriptView)
    ensures
        actions(s.and_then(t)) =~= actions(s) + actions(t),
        s.and_then(t).steps.len() == s.steps.len() + t.steps.len(),
        forall|i: int| 0 <= i < s.steps.len() ==> s.and_then(t).steps[i] == s.steps[i],
{
}

proof fn start_pager_prefix(
    v: IOStateView,
    settings: PagerSettings,
    output_is_tty: bool,
    output_is_stdout: bool,
) -> (a6: ScriptView)
    ensures
        a6 == v.progress_script(true).perform(Action::CreatePager).perform(
            Action::ConfigurePager(settings),
        ).perform(Action::CreatePipes).and_then(v.progress_script(true).on_success.flush_script()).perform(
            Action::PipeOutput { is_tty: output_is_tty, pretend_stdout: output_is_stdout },
        ).perform(Action::AddOutputStream),
        actions(a6) =~= actions(v.progress_script(true)) + seq![Action::CreatePager,
            Action::ConfigurePager(settings), Action::CreatePipes, Action::Flush(Stream::Output)]
            + when(v.has_error, Action::Flush(Stream::Error)) + seq![
            Action::PipeOutput { is_tty: output_is_tty, pretend_stdout: output_is_stdout },
            Action::AddOutputStream,
        ],
        a6.on_success == v.progress_script(true).on_success,
        a6.steps.len() > v.progress_script(true).steps.len(),
        a6.steps[v.progress_script(true).steps.len() as int].on_failure == v.progress_script(
            true,
        ).on_success,
        forall|i: int|
            0 <= i < v.progress_script(true).steps.len() ==> a6.steps[i] == v.progress_script(
                true,
            ).steps[i],
{
    let p = v.progress_script(true);
    let s1 = p.on_success;
    assert(s1.has_error == v.has_error);
    let a1 = p.perform(Action::CreatePager);
    actions_perform(p, Action::CreatePager);
    let a2 = a1.perform(Action::ConfigurePager(settings));
    actions_perform(a1, Action::ConfigurePager(settings));
    let a3 = a2.perform(Action::CreatePipes);
    actions_perform(a2, Action::CreatePipes);
    let f = s1.flush_script();
    flush_behaviour(s1);
    let a4 = a3.and_then(f);
    actions_and_then(a3, f);
    let out = Action::PipeOutput { is_tty: output_is_tty, pretend_stdout: output_is_stdout };
    let a5 = a4.perform(out);
    actions_perform(a4, out);
    let a6 = a5.perform(Action::AddOutputStream);
    actions_perform(a5, Action::AddOutputStream);
    a6
}

proof fn start_pager_suffix(a6: ScriptView, s1: IOStateView, err_is_tty: bool, apart: bool) -> (r: ScriptView)
    requires
        a6.on_success == s1,
    ensures
        r == ({
            let with_err = if err_is_tty {
                let e = a6.becoming(s1.after_pager_error(apart)).perform(Action::PipeError);
                if apart {
                    e.perform(Action::AddErrorStream)
                } else {
                    e
                }
            } else {
                a6
            };
            let s2 = with_err.on_success.with_pager_progress(true);
            with_err.perform(Action::AttachPagerProgress).becoming(s2).perform(
                Action::RunPager,
            ).becoming(s2.with_pager_active(true))
        }),
        actions(r) =~= actions(a6) + when(err_is_tty, Action::PipeError) + when(
            err_is_tty && apart,
            Action::AddErrorStream,
        ) + seq![Action::AttachPagerProgress, Action::RunPager],
        r.on_success == (IOStateView {
            has_pager_progress: true,
            pager_active: true,
            has_error: if err_is_tty {
                true
            } else {
                a6.on_success.has_error
            },
            redirect_err_to_out: if err_is_tty {
                !apart
            } else {
                a6.on_success.redirect_err_to_out
            },
            ..a6.on_success
        }),
        r.steps.len() >= a6.steps.len(),
        forall|i: int| 0 <= i < a6.steps.len() ==> r.steps[i] == a6.steps[i],
{
    let with_err = if err_is_tty {
        let b = a6.becoming(s1.after_pager_error(apart));
        actions_becoming(a6, s1.after_pager_error(apart));
        let e = b.perform(Action::PipeError);
        actions_perform(b, Action::PipeError);
        if apart {
            actions_perform(e, Action::AddErrorStream);
            e.perform(Action::AddErrorStream)
        } else {
            e
        }
    } else {
        a6
    };
    let s2 = with_err.on_success.with_pager_progress(true);
    let g1 = with_err.perform(Action::AttachPagerProgress);
    actions_perform(with_err, Action::AttachPagerProgress);
    let g2 = g1.becoming(s2);
    actions_becoming(g1, s2);
    let g3 = g2.perform(Action::RunPager);
    actions_perform(g2, Action::RunPager);
    actions_becoming(g3, s2.with_pager_active(true));
    g3.becoming(s2.with_pager_active(true))
}

/// Starting a pager when none runs: after emptying the progress area, the
/// pager is created and configured with exactly the given settings, the
/// pipes are created, the streams flushed (output, then error if any), the
/// output piped with what it stands for, the error stream piped when it is
/// (or, lacking one, the output is) a terminal and added apart when
/// configured so, then the progress stream is attached and the pager run.
/// Afterwards a pager runs and receives the progress; errors go to the
/// output when piped and not shown apart.
pub proof fn start_pager_behaviour(
    v: IOStateView,
    settings: PagerSettings,
    output_is_tty: bool,
    output_is_stdout: bool,
    error_is_tty: Option<bool>,
    separate: Option<bool>,
)
    requires
        !v.pager_active,
    ensures
        ({
            let s = v.start_pager_script(
                settings,
                output_is_tty,
                output_is_stdout,
                error_is_tty,
                separate,
            );
            let p = v.progress_script(true);
            let err_is_tty = match error_is_tty {
                Some(e) => e,
                None => output_is_tty,
            };
            let apart = separate == Some(true);
            &&& actions(s) =~= actions(p) + seq![
                Action::CreatePager,
                Action::ConfigurePager(settings),
                Action::CreatePipes,
                Action::Flush(Stream::Output),
            ] + when(v.has_error, Action::Flush(Stream::Error)) + seq![
                Action::PipeOutput { is_tty: output_is_tty, pretend_stdout: output_is_stdout },
                Action::AddOutputStream,
            ] + when(err_is_tty, Action::PipeError) + when(
                err_is_tty && apart,
                Action::AddErrorStream,
            ) + seq![Action::AttachPagerProgress, Action::RunPager]
            &&& s.steps[p.steps.len() as int].action == Action::CreatePager
            &&& s.steps[(p.steps.len() + 1) as int].action == Action::ConfigurePager(settings)
            &&& s.steps[p.steps.len() as int].on_failure == p.on_success
            &&& forall|i: int| 0 <= i < p.steps.len() ==> s.steps[i] == p.steps[i]
            &&& s.on_success == IOStateView {
                has_pager_progress: true,
                pager_active: true,
                has_error: v.has_error || err_is_tty,
                redirect_err_to_out: if err_is_tty {
                    !apart
                } else {
                    v.redirect_err_to_out
                },
                ..p.on_success
            }
        }),
{
    let p = v.progress_script(true);
    let a6 = start_pager_prefix(v, settings, output_is_tty, output_is_stdout);
    let err_is_tty = match error_is_tty {
        Some(e) => e,
        None => output_is_tty,
    };
    let apart = separate_stderr(separate);
    let r = start_pager_suffix(a6, p.on_success, err_is_tty, apart);
    let s = v.start_pager_script(settings, output_is_tty, output_is_stdout, error_is_tty, separate);
    assert(s == r);
    assert(p.on_success.has_error == v.has_error);
    assert(p.on_success.redirect_err_to_out == v.redirect_err_to_out);
    assert(actions(s)[p.steps.len() as int] == Action::CreatePager);
    assert(actions(s)[(p.steps.len() + 1) as int] == Action::ConfigurePager(settings));
}

/// Starting a pager when one runs does nothing.
pub proof fn start_pager_when_running(
    v: IOStateView,
    settings: PagerSettings,
    output_is_tty: bool,
    output_is_stdout: bool,
    error_is_tty: Option<bool>,
    separate: Option<bool>,
)
    requires
        v.pager_active,
    ensures
        v.start_pager_script(settings, output_is_tty, output_is_stdout, error_is_tty, separate)
            =~= ScriptView::done(v),
{
}

} // verus!
