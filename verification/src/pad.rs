//! Output pads of the demultiplexer.
//!
//! Pads appear dynamically while the demultiplexer inspects the
//! container; each carries the negotiated media-type name once
//! negotiation has happened, and is consumed at most once by linking it
//! to a downstream sink pad.

use vstd::prelude::*;

verus! {

/// Abstract value of a [`Pad`].
pub struct PadModel {
    /// The negotiated media-type name, absent until negotiation.
    pub media_type: Option<Seq<char>>,
    /// Whether the pad has been linked to a sink pad.
    pub linked: bool,
}

/// A dynamically discovered output pad of the demultiplexer.
pub struct Pad {
    /// The negotiated media-type name, absent until negotiation.
    pub media_type: Option<String>,
    /// Whether the pad has been linked to a sink pad.
    pub linked: bool,
}

impl View for Pad {
    type V = PadModel;

    open spec fn view(&self) -> PadModel {
        PadModel {
            media_type: match self.media_type {
                Some(name) => Some(name@),
                None => None,
            },
            linked: self.linked,
        }
    }
}

impl Pad {
    /// A freshly discovered, unlinked pad carrying the given
    /// media-type name (or none, when negotiation has not happened).
    pub fn with_media_type(media_type: Option<String>) -> (pad: Pad)
        ensures
            pad@.media_type == (match media_type {
                Some(name) => Some(name@),
                None => None::<Seq<char>>,
            }),
            !pad@.linked,
    {
        Pad { media_type, linked: false }
    }

    /// Whether the pad has already been consumed by a link.
    pub fn is_linked(&self) -> (r: bool)
        ensures
            r == self@.linked,
    {
        self.linked
    }
}

} // verus!
