//! The pipeline's diagnostic channel.
//!
//! The pad-discovery handler runs on a streaming thread of the
//! framework, so its failures cannot be returned to the caller; they
//! are posted as structured messages on the pipeline's shared bus, and
//! the GUI shell alone decides their user-visible consequences.

use vstd::prelude::*;
use crate::node::NodeKind;

verus! {

/// Severity of a diagnostic message.
#[derive(Clone, Copy, PartialEq, Eq, Structural, Debug)]
pub enum DiagKind {
    Warning,
    Error,
}

/// What went wrong.
#[derive(Clone, Copy, PartialEq, Eq, Structural, Debug)]
pub enum DiagReason {
    /// A pad carried no negotiated capabilities yet; non-fatal.
    Negotiation,
    /// A pad's media type is neither audio nor video; non-fatal, the
    /// pad stays unwired.
    UnsupportedType,
    /// Linking a discovered pad to its sink failed; the stream is
    /// dropped, no retry is attempted.
    LinkFailed,
}

impl DiagReason {
    /// The human-readable description of the reason, as an abstract
    /// value.
    pub open spec fn spec_description(self) -> Seq<char> {
        match self {
            DiagReason::Negotiation => "failed to get the media type from the pad"@,
            DiagReason::UnsupportedType => "the pad's media type is neither audio nor video"@,
            DiagReason::LinkFailed => "failed to link the pad to its sink"@,
        }
    }
}

/// A structured message on the diagnostic bus.
#[derive(Clone, Copy, PartialEq, Eq, Structural, Debug)]
pub struct DiagMessage {
    pub kind: DiagKind,
    /// The node the message originates from.
    pub source: NodeKind,
    pub reason: DiagReason,
}

impl DiagMessage {
    /// The human-readable description of the message.
    pub fn description(&self) -> (d: String)
        ensures
            d@ == self.reason.spec_description(),
    {
        match self.reason {
            DiagReason::Negotiation => "failed to get the media type from the pad".to_owned(),
            DiagReason::UnsupportedType => {
                "the pad's media type is neither audio nor video".to_owned()
            }
            DiagReason::LinkFailed => "failed to link the pad to its sink".to_owned(),
        }
    }
}

/// The warning the handler posts for a pad without capabilities.
pub open spec fn negotiation_warning() -> DiagMessage {
    DiagMessage {
        kind: DiagKind::Warning,
        source: NodeKind::Demuxer,
        reason: DiagReason::Negotiation,
    }
}

/// The warning the handler posts for a pad whose media type is
/// neither audio nor video.
pub open spec fn unsupported_warning() -> DiagMessage {
    DiagMessage {
        kind: DiagKind::Warning,
        source: NodeKind::Demuxer,
        reason: DiagReason::UnsupportedType,
    }
}

/// The error the handler posts when a discovered pad cannot be linked.
pub open spec fn link_failed_error() -> DiagMessage {
    DiagMessage {
        kind: DiagKind::Error,
        source: NodeKind::Demuxer,
        reason: DiagReason::LinkFailed,
    }
}

} // verus!
