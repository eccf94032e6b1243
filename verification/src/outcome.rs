//! What a single pad-discovery event amounted to.

use vstd::prelude::*;

verus! {

/// Result of handling one discovered pad.
#[derive(Clone, Copy, PartialEq, Eq, Structural, Debug)]
pub enum PadOutcome {
    /// The pad carried no capabilities yet; a warning was posted and
    /// nothing else happened.
    Negotiation,
    /// No chain is loaded (or the manager is being torn down), so the
    /// handler did nothing.
    Inactive,
    /// The media type is neither audio nor video; a warning was
    /// posted and the pad stays unwired.
    Unsupported,
    /// The pad had already been consumed; nothing was linked again.
    AlreadyLinked,
    /// The pad was linked to the audio branch.
    AudioLinked,
    /// The sink bin was re-inserted, synchronized, and the pad linked
    /// to it.
    VideoLinked,
    /// Linking failed; an error was posted on the bus and the stream
    /// is dropped.
    LinkFailed,
}

} // verus!
