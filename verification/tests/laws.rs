use sapling_io::{Action, IOState, ProgressTarget, Script, Stream};

fn actions(s: &Script) -> Vec<Action> {
    s.steps.iter().map(|st| st.action).collect()
}

fn term_state() -> IOState {
    IOState::new(true, Some(true)).setup_term(false).on_success
}

fn draws_content(s: &Script) -> bool {
    actions(s).iter().any(|a| matches!(a, Action::DrawProgress { clear: false, .. }))
}

#[test]
fn three_nested_disables_cancel_out() {
    let mut s = term_state();
    for _ in 0..3 {
        s = s.disable_progress(true).unwrap().on_success;
    }
    assert_eq!(s.progress_disabled(), 3);
    for _ in 0..3 {
        s = s.disable_progress(false).unwrap().on_success;
    }
    assert_eq!(s.progress_disabled(), 0);
    assert!(s.disable_progress(false).is_err());
}

#[test]
fn disabled_progress_never_shows_content() {
    let s = term_state().disable_progress(true).unwrap().on_success;
    let sc = s.set_progress(false);
    assert!(!draws_content(&sc));
    assert!(!sc.on_success.progress_has_content());
}

#[test]
fn unfinished_line_never_shows_content() {
    let s = term_state().write_err(b"no newline").on_success;
    let sc = s.set_progress(false);
    assert!(!draws_content(&sc));
    assert!(!sc.on_success.progress_has_content());
}

#[test]
fn empty_update_of_empty_area_does_nothing() {
    let s = term_state();
    let sc = s.set_progress(true);
    assert!(sc.steps.is_empty());
    assert!(!sc.on_success.progress_has_content());
}

#[test]
fn progress_content_needs_a_terminal() {
    let s = IOState::new(true, Some(true));
    let sc = s.set_progress(false);
    assert!(!draws_content(&sc));
    assert!(!sc.on_success.has_term());
    assert!(!sc.on_success.progress_has_content());
}

#[test]
fn second_clear_for_output_draws_nothing() {
    let s = term_state().set_progress(false).on_success;
    let first = s.clear_progress_for_output();
    assert_eq!(actions(&first), vec![Action::DrawProgress { target: ProgressTarget::Term, clear: true }]);
    assert!(first.on_success.clear_progress_for_output().steps.is_empty());
}

#[test]
fn writes_record_line_endings() {
    let s = term_state();
    let w = s.write(b"line\n");
    assert_eq!(actions(&w).last(), Some(&Action::Write(Stream::Output)));
    assert!(w.on_success.output_on_new_line());
    let w = s.write(b"no end");
    assert!(!w.on_success.output_on_new_line());
    assert!(w.on_success.error_on_new_line());
}

#[test]
fn redirected_errors_go_to_output_and_leave_error_line() {
    let settings = sapling_io::PagerSettings::from_config(None, None, None);
    let s = IOState::new(true, Some(true)).start_pager(settings, true, true, Some(true), None).on_success;
    assert!(s.redirect_err_to_out());
    let w = s.write_err(b"err without newline");
    assert_eq!(actions(&w), vec![Action::Write(Stream::Output)]);
    assert!(!w.on_success.output_on_new_line());
    assert!(w.on_success.error_on_new_line());
}

#[test]
fn pager_is_waited_for_once() {
    let settings = sapling_io::PagerSettings::from_config(None, None, None);
    let s = IOState::new(true, Some(true)).start_pager(settings, true, true, Some(true), None).on_success;
    assert!(s.is_pager_active());
    let w = s.wait_pager();
    assert_eq!(actions(&w), vec![Action::WaitPager]);
    assert!(w.on_success.wait_pager().steps.is_empty());
    assert!(!w.on_success.is_pager_active());
}

#[test]
fn flush_changes_nothing() {
    let s = term_state().set_progress(false).on_success;
    let f = s.flush();
    assert_eq!(f.on_success.progress_has_content(), s.progress_has_content());
    assert_eq!(f.on_success.has_error(), s.has_error());
    assert_eq!(f.steps.len(), 2);
}
