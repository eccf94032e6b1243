//! The units of the pipeline graph and their run states.

use vstd::prelude::*;

verus! {

/// Run state of the pipeline or of one of its nodes.
///
/// A node freshly added to a running pipeline keeps its own (stale)
/// state until it is explicitly synchronized with its parent; that gap
/// is what the pad-discovery handler has to close.
#[derive(Clone, Copy, PartialEq, Eq, Structural, Debug)]
pub enum PlayState {
    Null,
    Paused,
    Playing,
}

/// The units whose membership in the pipeline the manager toggles.
///
/// The video sink bin (tee, queue, colour convert, display sink) and
/// the audio branch (queue, convert, resample, output sink) have fixed
/// internal wiring, so each counts as a single addressable unit; only
/// its membership in the pipeline changes.
#[derive(Clone, Copy, PartialEq, Eq, Structural, Debug)]
pub enum NodeKind {
    /// The file source element.
    Source,
    /// The demultiplexer whose output pads appear at stream discovery.
    Demuxer,
    /// The video sink bin, inserted and removed as one unit.
    SinkBin,
    /// The audio branch, built once and kept across loads.
    AudioBranch,
}

/// Handle standing for the renderable surface of the display sink.
///
/// The surface itself belongs to the display sink inside the video sink
/// bin; the handle records that owner and stays valid for the lifetime
/// of the manager.
#[derive(Clone, Copy, PartialEq, Eq, Structural, Debug)]
pub struct VideoSurface {
    /// The unit of the graph that owns the surface.
    pub owner: NodeKind,
}

} // verus!
