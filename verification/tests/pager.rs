use sapling_io::{
    pager_error_is_tty, resolve_main, wrapping_mode_for, InterfaceKind, MainIoError, PagerSettings,
    WrappingKind,
};

#[test]
fn default_pager_settings() {
    let s = PagerSettings::from_config(None, None, None);
    assert_eq!(s.interface_mode, InterfaceKind::Hybrid);
    assert!(!s.scroll_past_eof);
    assert_eq!(s.wrapping_mode, WrappingKind::GraphemeBoundary);
}

#[test]
fn configured_interface_modes() {
    assert_eq!(PagerSettings::from_config(Some("direct"), None, None).interface_mode, InterfaceKind::Direct);
    assert_eq!(PagerSettings::from_config(Some("FullScreen"), None, None).interface_mode, InterfaceKind::FullScreen);
    assert_eq!(PagerSettings::from_config(Some("hybrid"), None, None).interface_mode, InterfaceKind::Hybrid);
    assert_eq!(
        PagerSettings::from_config(Some("delayed:100ms"), None, None).interface_mode,
        InterfaceKind::Delayed { secs: 0, nanos: 100_000_000 }
    );
    assert_eq!(
        PagerSettings::from_config(Some("delayed:2"), None, None).interface_mode,
        InterfaceKind::Delayed { secs: 2, nanos: 0 }
    );
    assert_eq!(PagerSettings::from_config(Some("bogus"), None, None).interface_mode, InterfaceKind::FullScreen);
}

#[test]
fn configured_wrapping_is_case_insensitive() {
    assert_eq!(PagerSettings::from_config(None, None, Some("WORD")).wrapping_mode, WrappingKind::WordBoundary);
    assert_eq!(PagerSettings::from_config(None, None, Some("Unwrapped")).wrapping_mode, WrappingKind::Unwrapped);
    assert_eq!(PagerSettings::from_config(None, None, Some("line")).wrapping_mode, WrappingKind::GraphemeBoundary);
    assert_eq!(wrapping_mode_for(&"word".to_string()), WrappingKind::WordBoundary);
    assert_eq!(wrapping_mode_for(&"Word".to_string()), WrappingKind::GraphemeBoundary);
}

#[test]
fn configured_scroll_past_eof() {
    assert!(PagerSettings::from_config(None, Some(true), None).scroll_past_eof);
    assert!(!PagerSettings::from_config(None, Some(false), None).scroll_past_eof);
    let p = PagerSettings::from_parts(Some(InterfaceKind::Direct), Some(true), None);
    assert_eq!(p.interface_mode, InterfaceKind::Direct);
    assert!(p.scroll_past_eof);
}

#[test]
fn pager_error_tty_follows_output_without_error_stream() {
    assert!(pager_error_is_tty(true, None));
    assert!(!pager_error_is_tty(false, None));
    assert!(!pager_error_is_tty(true, Some(false)));
    assert!(pager_error_is_tty(false, Some(true)));
}

#[test]
fn main_io_lookup() {
    assert_eq!(resolve_main(false, false), Err(MainIoError::NotSet));
    assert_eq!(resolve_main(true, false), Err(MainIoError::Dropped));
    assert_eq!(resolve_main(true, true), Ok(()));
    assert_eq!(MainIoError::NotSet.message(), "IO::main() is not available (call set_main first)");
    assert_eq!(MainIoError::Dropped.message(), "IO::main() is not available (dropped)");
}
