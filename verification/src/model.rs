//! Abstract model of the managed pipeline graph.
//!
//! Every lifecycle operation of the manager and every pad-discovery
//! event is mirrored here by a pure transition on [`GraphModel`]; the
//! executable functions promise to land exactly on these transitions,
//! and the laws in [`crate::laws`] are stated and proved over them.

use vstd::prelude::*;
use crate::bus::{link_failed_error, negotiation_warning, unsupported_warning, DiagMessage};
use crate::caps::{spec_classify, MediaClass};
use crate::pad::PadModel;
use crate::node::PlayState;
use crate::outcome::PadOutcome;

verus! {

/// Membership, link and state information of the pipeline graph.
///
/// The counts say how many instances of a unit the pipeline holds;
/// well-formedness ties each to the corresponding lifecycle flag, so
/// that a duplicated node would be a visible violation.
pub struct GraphModel {
    /// The fixed wiring exists: the sink bin is internally wired and
    /// the audio branch is a member of the pipeline.
    pub built: bool,
    /// A source, demultiplexer and sink bin are members of the
    /// pipeline (the loaded flag of the manager).
    pub added: bool,
    /// Requested run state of the pipeline.
    pub pipeline_state: PlayState,
    /// Run state of the video sink bin, possibly stale.
    pub binsink_state: PlayState,
    /// Run state of the audio branch, possibly stale.
    pub audio_state: PlayState,
    /// Source elements in the pipeline.
    pub n_source: nat,
    /// Demultiplexers in the pipeline.
    pub n_demux: nat,
    /// Video sink bins in the pipeline.
    pub n_sinkbin: nat,
    /// Audio branches in the pipeline.
    pub n_audio: nat,
    /// The source's output is linked to the demultiplexer.
    pub src_demux_linked: bool,
    /// The audio branch's first sink pad has a peer (a demuxer pad).
    pub audio_sink_busy: bool,
    /// The sink bin's sink pad has a peer (a demuxer pad).
    pub video_sink_busy: bool,
}

/// Well-formedness of the graph: counts are exactly what the lifecycle
/// flags say, so no unit is ever duplicated, and links only exist
/// between members of the pipeline.
pub open spec fn graph_wf(g: GraphModel) -> bool {
    &&& g.n_source == (if g.added { 1nat } else { 0nat })
    &&& g.n_demux == (if g.added { 1nat } else { 0nat })
    &&& g.n_sinkbin == (if g.added { 1nat } else { 0nat })
    &&& g.n_audio == (if g.built { 1nat } else { 0nat })
    &&& (g.added ==> g.built)
    &&& g.src_demux_linked == g.added
    &&& (g.audio_sink_busy ==> g.added && g.built)
    &&& (g.video_sink_busy ==> g.added)
}

/// Teardown of the loaded source chain. With nothing loaded it is a
/// no-op; otherwise the source, demultiplexer and sink bin leave the
/// pipeline, and the links that ended in the departed nodes' pads fall
/// with them. The audio branch and all recorded states stay.
pub open spec fn reset_step(g: GraphModel) -> GraphModel {
    if !g.added {
        g
    } else {
        GraphModel {
            added: false,
            n_source: (g.n_source - 1) as nat,
            n_demux: (g.n_demux - 1) as nat,
            n_sinkbin: (g.n_sinkbin - 1) as nat,
            src_demux_linked: false,
            audio_sink_busy: false,
            video_sink_busy: false,
            ..g
        }
    }
}

/// Construction of the fixed wiring: the audio branch joins the
/// pipeline and is synchronized with the pipeline's current state.
pub open spec fn build_step(g: GraphModel) -> GraphModel {
    GraphModel {
        built: true,
        n_audio: (g.n_audio + 1) as nat,
        audio_state: g.pipeline_state,
        ..g
    }
}

/// Loading a file: any previously loaded chain is fully detached
/// first, the fixed wiring is built if it does not exist yet, and a
/// fresh source, demultiplexer and sink bin join the pipeline with the
/// source linked to the demultiplexer. The pipeline's run state is not
/// touched, so the re-added sink bin may be left with a stale state.
pub open spec fn load_step(g: GraphModel) -> GraphModel {
    let cleared = reset_step(g);
    let wired = if !cleared.built {
        build_step(cleared)
    } else {
        cleared
    };
    GraphModel {
        added: true,
        n_source: (wired.n_source + 1) as nat,
        n_demux: (wired.n_demux + 1) as nat,
        n_sinkbin: (wired.n_sinkbin + 1) as nat,
        src_demux_linked: true,
        ..wired
    }
}

/// A requested run-state transition: the pipeline takes the state, and
/// so does every unit that is currently a member of it; a unit outside
/// the pipeline keeps its own state.
pub open spec fn state_step(g: GraphModel, s: PlayState) -> GraphModel {
    GraphModel {
        pipeline_state: s,
        binsink_state: if g.n_sinkbin == 1 { s } else { g.binsink_state },
        audio_state: if g.n_audio == 1 { s } else { g.audio_state },
        ..g
    }
}

/// Everything one pad-discovery event produces: the next graph, the
/// pad as the event leaves it, the outcome, and the messages posted on
/// the diagnostic bus.
pub struct PadStep {
    pub graph: GraphModel,
    pub pad: PadModel,
    pub outcome: PadOutcome,
    pub posted: Seq<DiagMessage>,
}

/// A pad-discovery event that leaves everything as it was.
pub open spec fn pad_step_skip(g: GraphModel, p: PadModel, outcome: PadOutcome) -> PadStep {
    PadStep { graph: g, pad: p, outcome, posted: Seq::empty() }
}

/// One pad-discovery event.
///
/// A pad that classifies as neither audio nor video - because it
/// carries no capabilities yet, or a media type of another kind -
/// only draws a warning and mutates nothing. For a classified pad,
/// when no chain is loaded the handler is inert, as it is when its
/// owner is gone. An already consumed pad is never linked again. An
/// audio pad is linked to the audio branch's free sink pad, or draws
/// an error when that pad is taken. A video pad makes the sink bin
/// leave and re-join the pipeline, takes over its sink pad from any
/// earlier stream, and is linked only after the bin's state is
/// synchronized with the pipeline's.
pub open spec fn pad_step(g: GraphModel, p: PadModel) -> PadStep {
    match p.media_type {
        None => PadStep {
            graph: g,
            pad: p,
            outcome: PadOutcome::Negotiation,
            posted: seq![negotiation_warning()],
        },
        Some(name) => {
            match spec_classify(name) {
                MediaClass::Unsupported => PadStep {
                    graph: g,
                    pad: p,
                    outcome: PadOutcome::Unsupported,
                    posted: seq![unsupported_warning()],
                },
                MediaClass::Audio => {
                    if !(g.added && g.built) {
                        pad_step_skip(g, p, PadOutcome::Inactive)
                    } else if p.linked {
                        pad_step_skip(g, p, PadOutcome::AlreadyLinked)
                    } else if g.audio_sink_busy {
                        PadStep {
                            graph: g,
                            pad: p,
                            outcome: PadOutcome::LinkFailed,
                            posted: seq![link_failed_error()],
                        }
                    } else {
                        PadStep {
                            graph: GraphModel { audio_sink_busy: true, ..g },
                            pad: PadModel { linked: true, ..p },
                            outcome: PadOutcome::AudioLinked,
                            posted: Seq::empty(),
                        }
                    }
                }
                MediaClass::Video => {
                    if !(g.added && g.built) {
                        pad_step_skip(g, p, PadOutcome::Inactive)
                    } else if p.linked {
                        pad_step_skip(g, p, PadOutcome::AlreadyLinked)
                    } else {
                        PadStep {
                            graph: GraphModel {
                                binsink_state: g.pipeline_state,
                                video_sink_busy: true,
                                ..g
                            },
                            pad: PadModel { linked: true, ..p },
                            outcome: PadOutcome::VideoLinked,
                            posted: Seq::empty(),
                        }
                    }
                }
            }
        }
    }
}

} // verus!
