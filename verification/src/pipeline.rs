//! Decisions of the background fetch pipeline that do not touch the
//! network or the terminal: failure classification with user-facing wording,
//! and the protocol override for a known quirky terminal.
use crate::sizing::ProtocolTag;
use vstd::prelude::*;
use vstd::string::StringExecFns;

verus! {

/// Why a background fetch task failed. Each task either delivers an image
/// or exactly one of these.
#[derive(Clone, Copy, PartialEq, Eq, Structural, Debug)]
pub enum FetchErrorKind {
    /// The remote metadata or byte download failed.
    Network,
    /// The downloaded bytes could not be decoded into an image.
    Decode,
    /// Writing the downloaded image to disk failed.
    Io,
}

pub open spec fn error_message_spec(kind: FetchErrorKind) -> Seq<char> {
    match kind {
        FetchErrorKind::Network => "unable to retrieve item data"@,
        FetchErrorKind::Decode => "corrupt or unsupported image data"@,
        FetchErrorKind::Io => "unable to write the image data to disk"@,
    }
}

pub open spec fn error_hint_spec(kind: FetchErrorKind) -> Seq<char> {
    match kind {
        FetchErrorKind::Io => "verify the existence of your downloads directory"@,
        _ => "check your internet connectivity"@,
    }
}

/// The human-readable cause shown for a failure kind.
pub fn error_message(kind: FetchErrorKind) -> (r: &'static str)
    ensures
        r@ == error_message_spec(kind),
{
    match kind {
        FetchErrorKind::Network => "unable to retrieve item data",
        FetchErrorKind::Decode => "corrupt or unsupported image data",
        FetchErrorKind::Io => "unable to write the image data to disk",
    }
}

/// The remediation hint shown beside the cause.
pub fn error_hint(kind: FetchErrorKind) -> (r: &'static str)
    ensures
        r@ == error_hint_spec(kind),
{
    match kind {
        FetchErrorKind::Io => "verify the existence of your downloads directory",
        _ => "check your internet connectivity",
    }
}

pub open spec fn opt_string_view(t: &Option<String>) -> Option<Seq<char>> {
    match t {
        Some(s) => Some(s@),
        None => None,
    }
}

/// Protocol choice after the vendor workaround: when the terminal-type
/// signal names exactly the known quirky terminal, force the sixel fallback;
/// otherwise keep what detection produced.
pub open spec fn select_protocol_spec(detected: ProtocolTag, term: Option<Seq<char>>) -> ProtocolTag {
    match term {
        Some(t) => if t == "xterm"@ {
            ProtocolTag::Sixel
        } else {
            detected
        },
        None => detected,
    }
}

/// Applies the documented vendor workaround to the auto-detected protocol:
/// an explicit terminal-type signal of exactly "xterm" forces sixel,
/// anything else leaves the detection result alone.
pub fn select_protocol(detected: ProtocolTag, term: &Option<String>) -> (r: ProtocolTag)
    ensures
        r == select_protocol_spec(detected, opt_string_view(term)),
{
    match term {
        Some(t) => {
            let quirky = String::from_str("xterm");
            if *t == quirky {
                ProtocolTag::Sixel
            } else {
                detected
            }
        },
        None => detected,
    }
}

} // verus!
