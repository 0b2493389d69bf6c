use sapling_io::{
    ends_with_newline, Action, IOState, PagerSettings, ProgressError, ProgressTarget, Script,
    Stream, DEFAULT_TERM_HEIGHT, DEFAULT_TERM_WIDTH,
};

fn actions(s: &Script) -> Vec<Action> {
    s.steps.iter().map(|st| st.action).collect()
}

fn draw(target: ProgressTarget, clear: bool) -> Action {
    Action::DrawProgress { target, clear }
}

fn term_state() -> IOState {
    IOState::new(true, Some(true)).setup_term(false).on_success
}

fn with_progress(s: IOState) -> IOState {
    s.set_progress(false).on_success
}

#[test]
fn new_state_conflicts_only_when_both_streams_are_terminals() {
    assert!(IOState::new(true, Some(true)).progress_conflict_with_output());
    assert!(!IOState::new(false, Some(true)).progress_conflict_with_output());
    assert!(!IOState::new(true, Some(false)).progress_conflict_with_output());
    assert!(!IOState::new(true, None).progress_conflict_with_output());
    let s = IOState::new(true, None);
    assert!(!s.has_error());
    assert!(s.output_on_new_line());
    assert!(s.error_on_new_line());
    assert!(!s.progress_has_content());
    assert!(!s.is_pager_active());
    assert_eq!(s.progress_disabled(), 0);
    assert!(!s.redirect_err_to_out());
    assert!(!s.has_term());
    assert!(!s.has_pager_progress());
}

#[test]
fn newline_detection() {
    assert!(ends_with_newline(b"abc\n"));
    assert!(!ends_with_newline(b"abc"));
    assert!(!ends_with_newline(b""));
    assert!(!ends_with_newline(b"\nabc"));
}

#[test]
fn term_size_falls_back_to_defaults() {
    let s = IOState::new(true, Some(true));
    assert_eq!(s.term_size(Some((120, 40))), (DEFAULT_TERM_WIDTH, DEFAULT_TERM_HEIGHT));
    let t = term_state();
    assert_eq!(t.term_size(Some((120, 40))), (120, 40));
    assert_eq!(t.term_size(None), (80, 25));
}

#[test]
fn setup_term_attaches_a_terminal() {
    let s = IOState::new(true, Some(true));
    let sc = s.setup_term(true);
    assert_eq!(actions(&sc), vec![Action::AttachTerm { dumb: true }]);
    assert!(!sc.steps[0].on_failure.has_term());
    assert!(sc.on_success.has_term());
    assert_eq!(actions(&s.setup_term(false)), vec![Action::AttachTerm { dumb: false }]);
}

#[test]
fn flush_order_is_output_then_error() {
    let s = IOState::new(false, Some(false));
    assert_eq!(actions(&s.flush()), vec![Action::Flush(Stream::Output), Action::Flush(Stream::Error)]);
    assert_eq!(actions(&IOState::new(false, None).flush()), vec![Action::Flush(Stream::Output)]);
}

#[test]
fn progress_update_flushes_conflicting_output_then_draws() {
    let s = term_state();
    let sc = s.set_progress(false);
    assert_eq!(
        actions(&sc),
        vec![Action::Flush(Stream::Output), draw(ProgressTarget::Term, false)]
    );
    assert!(!sc.steps[0].on_failure.progress_has_content());
    assert!(sc.steps[1].on_failure.progress_has_content());
    assert!(sc.on_success.progress_has_content());
    let cleared = sc.on_success.set_progress(true);
    assert_eq!(
        actions(&cleared),
        vec![Action::Flush(Stream::Output), draw(ProgressTarget::Term, true)]
    );
    assert!(!cleared.on_success.progress_has_content());
}

#[test]
fn progress_without_conflict_does_not_flush() {
    let s = IOState::new(false, Some(true)).setup_term(false).on_success;
    assert_eq!(actions(&s.set_progress(false)), vec![draw(ProgressTarget::Term, false)]);
}

#[test]
fn progress_without_terminal_only_flushes() {
    let s = IOState::new(true, Some(true));
    let sc = s.set_progress(false);
    assert_eq!(actions(&sc), vec![Action::Flush(Stream::Output)]);
    assert!(!sc.on_success.progress_has_content());
}

#[test]
fn progress_goes_to_pager_progress_stream() {
    let s = term_state().set_progress_pipe(true).on_success;
    assert!(s.has_pager_progress());
    assert_eq!(actions(&s.set_progress(false)), vec![draw(ProgressTarget::Pager, false)]);
    let d = s.disable_progress(true).unwrap();
    assert_eq!(actions(&d), vec![draw(ProgressTarget::Pager, true)]);
    assert_eq!(actions(&d.on_success.set_progress(false)), vec![draw(ProgressTarget::Pager, true)]);
    let dropped = s.set_progress_pipe(false);
    assert_eq!(actions(&dropped), vec![Action::SetProgressPipe { present: false }]);
    assert!(!dropped.on_success.has_pager_progress());
}

#[test]
fn unfinished_output_line_suppresses_progress() {
    let s = term_state().write(b"partial").on_success;
    assert!(!s.output_on_new_line());
    assert!(s.set_progress(false).steps.is_empty());
    let s = s.write(b"done\n").on_success;
    assert_eq!(actions(&s.set_progress(false)).last(), Some(&draw(ProgressTarget::Term, false)));
}

#[test]
fn unfinished_error_line_clears_shown_progress() {
    let s = with_progress(term_state());
    let s = s.write_err(b"warning: ").on_success;
    assert!(!s.error_on_new_line());
    let sc = s.set_progress(false);
    assert!(sc.steps.is_empty());
    assert!(!sc.on_success.progress_has_content());
}

#[test]
fn clearing_for_error_draws_once() {
    let s = with_progress(term_state());
    let sc = s.clear_progress_for_error();
    assert_eq!(actions(&sc), vec![draw(ProgressTarget::Term, true)]);
    assert!(!sc.steps[0].on_failure.progress_has_content());
    assert!(!sc.on_success.progress_has_content());
    assert!(sc.on_success.clear_progress_for_error().steps.is_empty());
}

#[test]
fn clearing_for_output_needs_a_conflict() {
    let s = with_progress(IOState::new(false, Some(true)).setup_term(false).on_success);
    assert!(s.progress_has_content());
    let sc = s.clear_progress_for_output();
    assert!(sc.steps.is_empty());
    assert!(sc.on_success.progress_has_content());
    let t = with_progress(term_state());
    assert_eq!(actions(&t.clear_progress_for_output()), vec![draw(ProgressTarget::Term, true)]);
}

#[test]
fn clearing_with_pager_progress_draws_nothing() {
    let s = with_progress(term_state()).set_progress_pipe(true).on_success;
    let sc = s.clear_progress_for_error();
    assert!(sc.steps.is_empty());
    assert!(sc.on_success.progress_has_content());
}

#[test]
fn output_write_clears_progress_then_writes() {
    let s = with_progress(term_state());
    let sc = s.write(b"hello\n");
    assert_eq!(
        actions(&sc),
        vec![draw(ProgressTarget::Term, true), Action::Write(Stream::Output)]
    );
    // When clearing fails, the line state is not yet recorded.
    assert!(!sc.steps[0].on_failure.progress_has_content());
    assert!(sc.on_success.output_on_new_line());
    let partial = s.write(b"hello");
    assert!(!partial.on_success.output_on_new_line());
    assert!(partial.steps[0].on_failure.output_on_new_line());
}

#[test]
fn error_writes_route() {
    let s = IOState::new(true, Some(true));
    assert_eq!(actions(&s.write_err(b"x\n")), vec![Action::Write(Stream::Error)]);
    let n = IOState::new(true, None);
    let sc = n.write_err(b"x");
    assert!(sc.steps.is_empty());
    assert!(!sc.on_success.error_on_new_line());
}

#[test]
fn error_write_clears_progress_first() {
    let s = with_progress(term_state());
    let sc = s.write_err(b"oops\n");
    assert_eq!(actions(&sc), vec![draw(ProgressTarget::Term, true), Action::Write(Stream::Error)]);
    assert!(!sc.on_success.progress_has_content());
    assert!(sc.on_success.error_on_new_line());
}

#[test]
fn disable_progress_nests_and_refuses_unbalanced_enable() {
    let s = term_state();
    assert!(matches!(s.disable_progress(false), Err(ProgressError::UnbalancedEnable)));
    let s = s.disable_progress(true).unwrap().on_success;
    let s = s.disable_progress(true).unwrap().on_success;
    assert_eq!(s.progress_disabled(), 2);
    assert!(s.set_progress(false).steps.is_empty());
    let s = s.disable_progress(false).unwrap().on_success;
    assert!(s.set_progress(false).steps.is_empty());
    let s = s.disable_progress(false).unwrap().on_success;
    assert_eq!(s.progress_disabled(), 0);
    assert_eq!(actions(&s.set_progress(false)).last(), Some(&draw(ProgressTarget::Term, false)));
    assert!(s.disable_progress(false).is_err());
}

#[test]
fn disabling_clears_shown_progress() {
    let s = with_progress(term_state());
    let sc = s.disable_progress(true).unwrap();
    assert_eq!(
        actions(&sc),
        vec![Action::Flush(Stream::Output), draw(ProgressTarget::Term, true)]
    );
    assert_eq!(sc.steps[0].on_failure.progress_disabled(), 1);
    assert!(!sc.on_success.progress_has_content());
}

#[test]
fn unbalanced_enable_message() {
    assert_eq!(
        ProgressError::UnbalancedEnable.message(),
        "disable_progress(false) called without matching disable_progress(true)"
    );
}

#[test]
fn start_pager_sequence_with_separate_stderr() {
    let s = IOState::new(true, Some(true));
    let settings = PagerSettings::from_config(None, None, None);
    let sc = s.start_pager(settings, true, true, Some(true), Some(true));
    assert_eq!(
        actions(&sc),
        vec![
            Action::CreatePager,
            Action::ConfigurePager(settings),
            Action::CreatePipes,
            Action::Flush(Stream::Output),
            Action::Flush(Stream::Error),
            Action::PipeOutput { is_tty: true, pretend_stdout: true },
            Action::AddOutputStream,
            Action::PipeError,
            Action::AddErrorStream,
            Action::AttachPagerProgress,
            Action::RunPager,
        ]
    );
    let t = sc.on_success;
    assert!(t.is_pager_active());
    assert!(t.has_pager_progress());
    assert!(!t.redirect_err_to_out());
    assert!(!sc.steps[9].on_failure.has_pager_progress());
    assert!(sc.steps[10].on_failure.has_pager_progress());
    assert!(s.start_pager(settings, true, true, Some(true), Some(true)).on_success.is_pager_active());
    assert!(t.start_pager(settings, true, true, Some(true), None).steps.is_empty());
}

#[test]
fn start_pager_merges_stderr_by_default() {
    let s = IOState::new(false, None);
    let settings = PagerSettings::from_config(Some("direct"), Some(true), Some("word"));
    let sc = s.start_pager(settings, false, false, None, None);
    assert!(!actions(&sc).contains(&Action::PipeError));
    assert!(!sc.on_success.redirect_err_to_out());
    let tty = IOState::new(true, None);
    let sc = tty.start_pager(settings, true, false, None, Some(false));
    assert!(actions(&sc).contains(&Action::PipeError));
    assert!(!actions(&sc).contains(&Action::AddErrorStream));
    assert!(sc.on_success.redirect_err_to_out());
    assert!(sc.on_success.has_error());
    let w = sc.on_success.write_err(b"e\n");
    assert_eq!(actions(&w), vec![Action::Write(Stream::Output)]);
}

#[test]
fn start_pager_clears_progress_first() {
    let s = with_progress(term_state());
    let settings = PagerSettings::from_config(None, None, None);
    let sc = s.start_pager(settings, true, true, Some(true), None);
    assert_eq!(actions(&sc)[0], Action::Flush(Stream::Output));
    assert_eq!(actions(&sc)[1], draw(ProgressTarget::Term, true));
    assert_eq!(actions(&sc)[2], Action::CreatePager);
    assert!(!sc.steps[2].on_failure.progress_has_content());
}

#[test]
fn wait_pager_restores_and_waits_once() {
    let s = IOState::new(true, Some(true));
    let settings = PagerSettings::from_config(None, None, None);
    let running = s.start_pager(settings, true, true, Some(true), None).on_success;
    let sc = running.wait_pager_and_restore();
    assert_eq!(
        actions(&sc),
        vec![
            Action::Flush(Stream::Output),
            Action::Flush(Stream::Error),
            Action::RestoreStdio,
            Action::WaitPager,
            Action::ForgetPagerQuit,
        ]
    );
    let t = sc.on_success;
    assert!(!t.is_pager_active());
    assert!(t.has_error());
    assert!(!t.redirect_err_to_out());
    assert!(!t.has_pager_progress());
    assert!(!actions(&t.wait_pager_and_restore()).contains(&Action::WaitPager));
    assert!(t.wait_pager().steps.is_empty());
}

#[test]
fn release_drops_streams_and_waits() {
    let s = IOState::new(true, Some(true));
    let settings = PagerSettings::from_config(None, None, None);
    let running = s.start_pager(settings, true, true, Some(true), None).on_success;
    let sc = running.release();
    assert_eq!(actions(&sc), vec![Action::ReleaseStreams, Action::WaitPager]);
    assert!(!sc.on_success.has_error());
    assert!(!sc.on_success.has_pager_progress());
    assert!(!sc.on_success.is_pager_active());
    assert_eq!(actions(&sc.on_success.flush()), vec![Action::Flush(Stream::Output)]);
    assert_eq!(actions(&s.release()), vec![Action::ReleaseStreams]);
}
