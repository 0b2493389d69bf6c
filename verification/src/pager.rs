//! How the pager is set up: its interface, whether it scrolls past the end,
//! how it wraps lines, and whether it receives the error stream.

use vstd::prelude::*;

verus! {

/// The pager's interface.
#[derive(Debug, Clone, Copy, PartialEq, Eq, Structural)]
pub enum InterfaceKind {
    /// The full screen interface, with search.
    FullScreen,
    /// Output goes to the terminal as it comes.
    Direct,
    /// `Direct` first, `FullScreen` once the content exceeds one screen.
    Hybrid,
    /// Buffer for the given time before deciding.
    Delayed { secs: u64, nanos: u32 },
}

/// How the pager wraps long lines.
#[derive(Debug, Clone, Copy, PartialEq, Eq, Structural)]
pub enum WrappingKind {
    Unwrapped,
    GraphemeBoundary,
    WordBoundary,
}

/// The settings a pager is started with.
#[derive(Debug, Clone, Copy, PartialEq, Eq, Structural)]
pub struct PagerSettings {
    pub interface_mode: InterfaceKind,
    pub scroll_past_eof: bool,
    pub wrapping_mode: WrappingKind,
}

/// The interface that the pager library reads from a configured name.
pub uninterp spec fn interface_mode_of(name: Seq<char>) -> InterfaceKind;

/// The lower-case form of a string, as the standard library computes it.
pub uninterp spec fn lowercase(s: Seq<char>) -> Seq<char>;

/// Calls `streampager::config::InterfaceMode::from` on the configured name
/// and returns the interface it gives, as `interface_mode_of` names it (a
/// `Delayed` time as whole seconds and nanoseconds). The library's parsing
/// of the name is not stated here.
#[verifier::external_body]
fn interface_mode_from(name: &str) -> (r: InterfaceKind)
    ensures
        r == interface_mode_of(name@),
{
    match streampager::config::InterfaceMode::from(name) {
        streampager::config::InterfaceMode::FullScreen => InterfaceKind::FullScreen,
        streampager::config::InterfaceMode::Direct => InterfaceKind::Direct,
        streampager::config::InterfaceMode::Hybrid => InterfaceKind::Hybrid,
        streampager::config::InterfaceMode::Delayed(d) => InterfaceKind::Delayed {
            secs: d.as_secs(),
            nanos: d.subsec_nanos(),
        },
    }
}

/// Calls `str::to_lowercase`; its result is the string's lower-case form as
/// `lowercase` names it. The Unicode case mapping is not stated here.
#[verifier::external_body]
fn to_lowercase(s: &str) -> (r: String)
    ensures
        r@ == lowercase(s@),
{
    s.to_lowercase()
}

/// The wrapping mode that a lower-cased `pager.wrapping-mode` value selects.
pub open spec fn wrapping_kind_of(lowered: Seq<char>) -> WrappingKind {
    if lowered == "word"@ {
        WrappingKind::WordBoundary
    } else if lowered == "unwrapped"@ {
        WrappingKind::Unwrapped
    } else {
        WrappingKind::GraphemeBoundary
    }
}

/// The wrapping mode for a lower-cased `pager.wrapping-mode` value: "word"
/// wraps at word boundaries, "unwrapped" does not wrap, anything else wraps
/// at grapheme boundaries.
pub fn wrapping_mode_for(lowered: &String) -> (r: WrappingKind)
    ensures
        r == wrapping_kind_of(lowered@),
{
    let word = "word".to_owned();
    let unwrapped = "unwrapped".to_owned();
    if *lowered == word {
        WrappingKind::WordBoundary
    } else if *lowered == unwrapped {
        WrappingKind::Unwrapped
    } else {
        WrappingKind::GraphemeBoundary
    }
}

/// Whether the pager treats the error stream as a terminal: as the error
/// stream says when there is one, else as the output stream says.
pub fn pager_error_is_tty(output_is_tty: bool, error_is_tty: Option<bool>) -> (r: bool)
    ensures
        r == match error_is_tty {
            Some(e) => e,
            None => output_is_tty,
        },
{
    match error_is_tty {
        Some(e) => e,
        None => output_is_tty,
    }
}

impl PagerSettings {
    /// The settings given the interface read from `pager.interface`, the
    /// parsed `pager.scroll-past-eof` and the lower-cased
    /// `pager.wrapping-mode`, each `None` when not configured.
    pub open spec fn spec_from_parts(
        interface_mode: Option<InterfaceKind>,
        scroll_past_eof: Option<bool>,
        wrapping_lowered: Option<Seq<char>>,
    ) -> PagerSettings {
        PagerSettings {
            interface_mode: match interface_mode {
                Some(m) => m,
                None => InterfaceKind::Hybrid,
            },
            scroll_past_eof: match scroll_past_eof {
                Some(b) => b,
                None => false,
            },
            wrapping_mode: match wrapping_lowered {
                Some(w) => wrapping_kind_of(w),
                None => WrappingKind::GraphemeBoundary,
            },
        }
    }

    /// The settings from the parts that the configuration gave. Without
    /// configuration: the hybrid interface, no scrolling past the end, and
    /// wrapping at grapheme boundaries.
    pub fn from_parts(
        interface_mode: Option<InterfaceKind>,
        scroll_past_eof: Option<bool>,
        wrapping_lowered: Option<&String>,
    ) -> (r: PagerSettings)
        ensures
            r == Self::spec_from_parts(
                interface_mode,
                scroll_past_eof,
                match wrapping_lowered {
                    Some(w) => Some(w@),
                    None => None,
                },
            ),
    {
        let interface_mode = match interface_mode {
            Some(m) => m,
            None => InterfaceKind::Hybrid,
        };
        let scroll_past_eof = match scroll_past_eof {
            Some(b) => b,
            None => false,
        };
        let wrapping_mode = match wrapping_lowered {
            Some(w) => wrapping_mode_for(w),
            None => WrappingKind::GraphemeBoundary,
        };
        PagerSettings { interface_mode, scroll_past_eof, wrapping_mode }
    }

    /// The settings from the configured `pager.interface`,
    /// `pager.scroll-past-eof` (parsed) and `pager.wrapping-mode`, each
    /// `None` when not configured or not readable.
    pub fn from_config(
        interface: Option<&str>,
        scroll_past_eof: Option<bool>,
        wrapping: Option<&str>,
    ) -> (r: PagerSettings)
        ensures
            r == Self::spec_from_parts(
                match interface {
                    Some(s) => Some(interface_mode_of(s@)),
                    None => None,
                },
                scroll_past_eof,
                match wrapping {
                    Some(s) => Some(lowercase(s@)),
                    None => None,
                },
            ),
    {
        let interface_mode = match interface {
            Some(s) => Some(interface_mode_from(s)),
            None => None,
        };
        let lowered = match wrapping {
            Some(s) => Some(to_lowercase(s)),
            None => None,
        };
        let wrapping_lowered = match &lowered {
            Some(l) => Some(l),
            None => None,
        };
        Self::from_parts(interface_mode, scroll_past_eof, wrapping_lowered)
    }
}

} // verus!
