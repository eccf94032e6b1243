//! The pipeline manager and its pad-discovery handler.
//!
//! The manager owns the pipeline graph and drives its lifecycle: load
//! a file (tearing any earlier chain down first), play, pause, stop,
//! reset. The pad-discovery handler takes one discovered demuxer pad
//! at a time and performs the deferred wiring: an audio pad is linked
//! to the persistent audio branch, a video pad makes the sink bin
//! leave and re-join the pipeline and is linked only once the bin's
//! state matches the pipeline's. Every operation lands exactly on the
//! corresponding transition of [`crate::model`].
//!
//! Of the two possible audio lifecycles, this manager keeps one audio
//! branch built once and reused across loads, guarded by the loaded
//! flag; a branch per discovery event would duplicate branches on
//! multi-track content.

use vstd::prelude::*;
use crate::bus::{DiagKind, DiagMessage, DiagReason};
use crate::caps::{classify_media_type, MediaClass};
use crate::model::{build_step, load_step, pad_step, reset_step, state_step, GraphModel};
use crate::node::{NodeKind, PlayState, VideoSurface};
use crate::outcome::PadOutcome;
use crate::pad::Pad;
use crate::pipeline::Pipeline;

verus! {

/// Owner of the pipeline graph and of the lifecycle flags.
pub struct GstManager {
    /// The managed pipeline.
    pub pipeline: Pipeline,
    /// The fixed wiring (sink bin internals, audio branch) exists.
    pub built: bool,
    /// A source chain is currently inserted in the pipeline.
    pub added: bool,
    /// Path the source element reads from.
    pub location: Option<String>,
}

impl GstManager {
    /// The abstract graph this manager currently holds.
    pub open spec fn graph(self) -> GraphModel {
        GraphModel {
            built: self.built,
            added: self.added,
            pipeline_state: self.pipeline.state,
            binsink_state: self.pipeline.binsink_state,
            audio_state: self.pipeline.audio_state,
            n_source: self.pipeline.n_source as nat,
            n_demux: self.pipeline.n_demux as nat,
            n_sinkbin: self.pipeline.n_sinkbin as nat,
            n_audio: self.pipeline.n_audio as nat,
            src_demux_linked: self.pipeline.src_demux_linked,
            audio_sink_busy: self.pipeline.audio_sink_busy,
            video_sink_busy: self.pipeline.video_sink_busy,
        }
    }

    /// Well-formedness: the graph is, see [`crate::model::graph_wf`].
    pub open spec fn wf(self) -> bool {
        crate::model::graph_wf(self.graph())
    }

    /// The source path as an abstract value.
    pub open spec fn loc(self) -> Option<Seq<char>> {
        match self.location {
            Some(l) => Some(l@),
            None => None,
        }
    }

    /// A fresh manager: all elements exist but the pipeline is empty,
    /// nothing is wired, everything rests in the null state.
    pub fn new() -> (m: GstManager)
        ensures
            m.wf(),
            !m.built,
            !m.added,
            m.graph() == (GraphModel {
                built: false,
                added: false,
                pipeline_state: PlayState::Null,
                binsink_state: PlayState::Null,
                audio_state: PlayState::Null,
                n_source: 0,
                n_demux: 0,
                n_sinkbin: 0,
                n_audio: 0,
                src_demux_linked: false,
                audio_sink_busy: false,
                video_sink_busy: false,
            }),
            m.loc() is None,
            m.pipeline.bus@ == Seq::<DiagMessage>::empty(),
    {
        GstManager {
            pipeline: Pipeline::new(),
            built: false,
            added: false,
            location: None,
        }
    }

    /// Shared access to the managed pipeline, for state inspection and
    /// bus draining.
    pub fn get_pipeline(&self) -> (p: &Pipeline)
        ensures
            p == &self.pipeline,
    {
        &self.pipeline
    }

    /// The renderable surface the GUI embeds; it is owned by the
    /// display sink inside the video sink bin and stays valid for the
    /// manager's lifetime.
    pub fn get_paintable_sink(&self) -> (s: VideoSurface)
        ensures
            s.owner == NodeKind::SinkBin,
    {
        VideoSurface { owner: NodeKind::SinkBin }
    }

    /// Build the fixed wiring: the sink bin's internal chain, and the
    /// audio branch as a member of the pipeline, synchronized with the
    /// pipeline's current state.
    pub fn build_pipeline(&mut self)
        requires
            old(self).wf(),
            !old(self).built,
        ensures
            final(self).wf(),
            final(self).built,
            final(self).graph() == build_step(old(self).graph()),
            final(self).pipeline.n_audio == 1,
            final(self).pipeline.audio_state == final(self).pipeline.state,
            final(self).pipeline.state == old(self).pipeline.state,
            final(self).pipeline.bus@ == old(self).pipeline.bus@,
            final(self).loc() == old(self).loc(),
    {
        self.pipeline.add_node(NodeKind::AudioBranch);
        self.pipeline.sync_audio_with_parent();
        self.built = true;
    }

    /// Idempotent teardown of the loaded chain. With nothing loaded
    /// this is a no-op and cannot fail; otherwise the source, the
    /// demultiplexer and the sink bin leave the pipeline and the
    /// source is unlinked from the demultiplexer. The audio branch
    /// stays, as does the pipeline's run state.
    pub fn reset(&mut self)
        requires
            old(self).wf(),
        ensures
            final(self).wf(),
            !final(self).added,
            final(self).graph() == reset_step(old(self).graph()),
            !old(self).added ==> *final(self) == *old(self),
            final(self).pipeline.state == old(self).pipeline.state,
            final(self).pipeline.bus@ == old(self).pipeline.bus@,
            final(self).loc() == old(self).loc(),
    {
        if !self.added {
            return;
        }
        self.pipeline.remove_node(NodeKind::Source);
        self.pipeline.remove_node(NodeKind::Demuxer);
        self.pipeline.remove_node(NodeKind::SinkBin);
        self.pipeline.unlink_source_from_demuxer();
        self.added = false;
    }

    /// Load a file: tear down any earlier chain, build the fixed
    /// wiring if it does not exist yet, then insert and link a fresh
    /// source chain bound to `filename`. Discovery events for the new
    /// demultiplexer are handed to [`Self::handle_pad_added`]. The
    /// pipeline's run state is deliberately not touched.
    pub fn set_video_filename(&mut self, filename: Option<&str>)
        requires
            old(self).wf(),
        ensures
            final(self).wf(),
            final(self).added && final(self).built,
            final(self).graph() == load_step(old(self).graph()),
            final(self).pipeline.n_source == 1,
            final(self).pipeline.n_demux == 1,
            final(self).pipeline.n_sinkbin == 1,
            final(self).pipeline.n_audio == 1,
            final(self).pipeline.src_demux_linked,
            !final(self).pipeline.audio_sink_busy,
            !final(self).pipeline.video_sink_busy,
            final(self).pipeline.state == old(self).pipeline.state,
            final(self).pipeline.bus@ == old(self).pipeline.bus@,
            final(self).loc() == (match filename {
                Some(f) => Some(f@),
                None => None::<Seq<char>>,
            }),
    {
        if self.added {
            self.reset();
        }
        if !self.built {
            self.build_pipeline();
        }
        self.run_pipeline(filename);
    }

    /// Insert the source chain: bind the source to `filename`, add
    /// source, demultiplexer and sink bin to the pipeline, link the
    /// source to the demultiplexer, and raise the loaded flag. The
    /// sink bin keeps whatever state it had - the discovery handler
    /// re-synchronizes it before a video pad is linked.
    fn run_pipeline(&mut self, filename: Option<&str>)
        requires
            old(self).wf(),
            !old(self).added,
            old(self).built,
        ensures
            final(self).wf(),
            final(self).added,
            final(self).graph() == (GraphModel {
                added: true,
                n_source: 1,
                n_demux: 1,
                n_sinkbin: 1,
                src_demux_linked: true,
                ..old(self).graph()
            }),
            final(self).pipeline.state == old(self).pipeline.state,
            final(self).pipeline.bus@ == old(self).pipeline.bus@,
            final(self).loc() == (match filename {
                Some(f) => Some(f@),
                None => None::<Seq<char>>,
            }),
    {
        self.location = match filename {
            Some(f) => Some(f.to_owned()),
            None => None,
        };
        self.pipeline.add_node(NodeKind::Source);
        self.pipeline.add_node(NodeKind::Demuxer);
        self.pipeline.add_node(NodeKind::SinkBin);
        self.pipeline.link_source_to_demuxer();
        self.added = true;
    }

    /// Request the playing state.
    pub fn set_play_stream(&mut self)
        ensures
            final(self).graph() == state_step(old(self).graph(), PlayState::Playing),
            final(self).pipeline.state == PlayState::Playing,
            old(self).wf() ==> final(self).wf(),
            final(self).added == old(self).added && final(self).built == old(self).built,
            final(self).pipeline.bus@ == old(self).pipeline.bus@,
            final(self).loc() == old(self).loc(),
    {
        self.pipeline.set_state(PlayState::Playing);
    }

    /// Request the paused state.
    pub fn set_pause_stream(&mut self)
        ensures
            final(self).graph() == state_step(old(self).graph(), PlayState::Paused),
            final(self).pipeline.state == PlayState::Paused,
            old(self).wf() ==> final(self).wf(),
            final(self).added == old(self).added && final(self).built == old(self).built,
            final(self).pipeline.bus@ == old(self).pipeline.bus@,
            final(self).loc() == old(self).loc(),
    {
        self.pipeline.set_state(PlayState::Paused);
    }

    /// Request the null state.
    pub fn set_stop_stream(&mut self)
        ensures
            final(self).graph() == state_step(old(self).graph(), PlayState::Null),
            final(self).pipeline.state == PlayState::Null,
            old(self).wf() ==> final(self).wf(),
            final(self).added == old(self).added && final(self).built == old(self).built,
            final(self).pipeline.bus@ == old(self).pipeline.bus@,
            final(self).loc() == old(self).loc(),
    {
        self.pipeline.set_state(PlayState::Null);
    }

    /// Handle one pad-discovery event, exactly as
    /// [`crate::model::pad_step`] describes it: classify the pad's
    /// media type - a pad that classifies as neither audio nor video
    /// draws a warning and mutates nothing - then wire it
    /// idempotently: a pad is linked at most once, a video pad only
    /// after the sink bin has re-joined the pipeline and taken the
    /// pipeline's state, and failures are posted on the bus instead
    /// of propagating.
    pub fn handle_pad_added(&mut self, pad: &mut Pad) -> (outcome: PadOutcome)
        requires
            old(self).wf(),
        ensures
            final(self).wf(),
            ({
                let step = pad_step(old(self).graph(), old(pad)@);
                &&& final(self).graph() == step.graph
                &&& final(pad)@ == step.pad
                &&& outcome == step.outcome
                &&& final(self).pipeline.bus@ == old(self).pipeline.bus@ + step.posted
            }),
            final(self).pipeline.state == old(self).pipeline.state,
            final(self).loc() == old(self).loc(),
    {
        let class: MediaClass;
        match &pad.media_type {
            None => {
                let warning = DiagMessage {
                    kind: DiagKind::Warning,
                    source: NodeKind::Demuxer,
                    reason: DiagReason::Negotiation,
                };
                self.pipeline.post(warning);
                return PadOutcome::Negotiation;
            }
            Some(name) => {
                class = classify_media_type(name.as_str());
            }
        }
        match class {
            MediaClass::Unsupported => {
                let warning = DiagMessage {
                    kind: DiagKind::Warning,
                    source: NodeKind::Demuxer,
                    reason: DiagReason::UnsupportedType,
                };
                self.pipeline.post(warning);
                PadOutcome::Unsupported
            }
            MediaClass::Audio => {
                if !(self.added && self.built) {
                    return PadOutcome::Inactive;
                }
                if pad.linked {
                    return PadOutcome::AlreadyLinked;
                }
                if self.pipeline.audio_sink_busy {
                    let error = DiagMessage {
                        kind: DiagKind::Error,
                        source: NodeKind::Demuxer,
                        reason: DiagReason::LinkFailed,
                    };
                    self.pipeline.post(error);
                    return PadOutcome::LinkFailed;
                }
                self.pipeline.link_demux_pad_to_audio();
                pad.linked = true;
                PadOutcome::AudioLinked
            }
            MediaClass::Video => {
                if !(self.added && self.built) {
                    return PadOutcome::Inactive;
                }
                if pad.linked {
                    return PadOutcome::AlreadyLinked;
                }
                self.pipeline.remove_node(NodeKind::SinkBin);
                self.pipeline.add_node(NodeKind::SinkBin);
                self.pipeline.sync_binsink_with_parent();
                self.pipeline.link_demux_pad_to_binsink();
                pad.linked = true;
                PadOutcome::VideoLinked
            }
        }
    }
}

} // verus!
