//! The pipeline graph as the manager sees it.
//!
//! The real graph lives inside the multimedia framework; this type
//! keeps the facts the manager's decisions depend on - which units are
//! members, which links exist, which run states the units carry - and
//! offers the same operations the framework does (add, remove, link,
//! unlink, set state, synchronize with parent, post a message).

use vstd::prelude::*;
use crate::bus::DiagMessage;
use crate::node::{NodeKind, PlayState};

verus! {

/// Membership, link and state record of the pipeline, plus its
/// diagnostic bus.
pub struct Pipeline {
    /// Requested run state of the pipeline.
    pub state: PlayState,
    /// Source elements in the pipeline.
    pub n_source: u64,
    /// Demultiplexers in the pipeline.
    pub n_demux: u64,
    /// Video sink bins in the pipeline.
    pub n_sinkbin: u64,
    /// Audio branches in the pipeline.
    pub n_audio: u64,
    /// The source's output is linked to the demultiplexer.
    pub src_demux_linked: bool,
    /// The audio branch's first sink pad has a peer.
    pub audio_sink_busy: bool,
    /// The sink bin's sink pad has a peer.
    pub video_sink_busy: bool,
    /// Run state of the video sink bin, possibly stale.
    pub binsink_state: PlayState,
    /// Run state of the audio branch, possibly stale.
    pub audio_state: PlayState,
    /// Messages posted from the streaming threads.
    pub bus: Vec<DiagMessage>,
}

impl Pipeline {
    /// How many instances of a unit the pipeline holds.
    pub open spec fn spec_count(self, node: NodeKind) -> u64 {
        match node {
            NodeKind::Source => self.n_source,
            NodeKind::Demuxer => self.n_demux,
            NodeKind::SinkBin => self.n_sinkbin,
            NodeKind::AudioBranch => self.n_audio,
        }
    }

    /// An empty pipeline in the null state.
    pub fn new() -> (p: Pipeline)
        ensures
            p.state == PlayState::Null,
            p.n_source == 0 && p.n_demux == 0 && p.n_sinkbin == 0 && p.n_audio == 0,
            !p.src_demux_linked && !p.audio_sink_busy && !p.video_sink_busy,
            p.binsink_state == PlayState::Null,
            p.audio_state == PlayState::Null,
            p.bus@ == Seq::<DiagMessage>::empty(),
    {
        Pipeline {
            state: PlayState::Null,
            n_source: 0,
            n_demux: 0,
            n_sinkbin: 0,
            n_audio: 0,
            src_demux_linked: false,
            audio_sink_busy: false,
            video_sink_busy: false,
            binsink_state: PlayState::Null,
            audio_state: PlayState::Null,
            bus: Vec::new(),
        }
    }

    /// How many instances of a unit the pipeline holds.
    pub fn count(&self, node: NodeKind) -> (n: u64)
        ensures
            n == self.spec_count(node),
    {
        match node {
            NodeKind::Source => self.n_source,
            NodeKind::Demuxer => self.n_demux,
            NodeKind::SinkBin => self.n_sinkbin,
            NodeKind::AudioBranch => self.n_audio,
        }
    }

    /// Add a unit to the pipeline. The framework refuses to add an
    /// element twice, so the unit must not be a member yet. The unit
    /// keeps its own run state until it is synchronized.
    pub fn add_node(&mut self, node: NodeKind)
        requires
            old(self).spec_count(node) == 0,
        ensures
            *final(self) == (Pipeline {
                n_source: if node == NodeKind::Source { 1 } else { old(self).n_source },
                n_demux: if node == NodeKind::Demuxer { 1 } else { old(self).n_demux },
                n_sinkbin: if node == NodeKind::SinkBin { 1 } else { old(self).n_sinkbin },
                n_audio: if node == NodeKind::AudioBranch { 1 } else { old(self).n_audio },
                ..*old(self)
            }),
    {
        match node {
            NodeKind::Source => self.n_source = self.n_source + 1,
            NodeKind::Demuxer => self.n_demux = self.n_demux + 1,
            NodeKind::SinkBin => self.n_sinkbin = self.n_sinkbin + 1,
            NodeKind::AudioBranch => self.n_audio = self.n_audio + 1,
        }
    }

    /// Remove a member unit from the pipeline. Leaving the pipeline
    /// takes the unit's streaming connections with it: the links that
    /// end in one of its pads fall, and the demultiplexer's ephemeral
    /// output pads disappear with their stream, freeing the sink pads
    /// they were linked to.
    pub fn remove_node(&mut self, node: NodeKind)
        requires
            old(self).spec_count(node) == 1,
        ensures
            *final(self) == (Pipeline {
                n_source: if node == NodeKind::Source { 0 } else { old(self).n_source },
                n_demux: if node == NodeKind::Demuxer { 0 } else { old(self).n_demux },
                n_sinkbin: if node == NodeKind::SinkBin { 0 } else { old(self).n_sinkbin },
                n_audio: if node == NodeKind::AudioBranch { 0 } else { old(self).n_audio },
                src_demux_linked: if node == NodeKind::Source || node == NodeKind::Demuxer {
                    false
                } else {
                    old(self).src_demux_linked
                },
                audio_sink_busy: if node == NodeKind::Demuxer || node == NodeKind::AudioBranch {
                    false
                } else {
                    old(self).audio_sink_busy
                },
                video_sink_busy: if node == NodeKind::Demuxer || node == NodeKind::SinkBin {
                    false
                } else {
                    old(self).video_sink_busy
                },
                ..*old(self)
            }),
    {
        match node {
            NodeKind::Source => {
                self.n_source = self.n_source - 1;
                self.src_demux_linked = false;
            }
            NodeKind::Demuxer => {
                self.n_demux = self.n_demux - 1;
                self.src_demux_linked = false;
                self.audio_sink_busy = false;
                self.video_sink_busy = false;
            }
            NodeKind::SinkBin => {
                self.n_sinkbin = self.n_sinkbin - 1;
                self.video_sink_busy = false;
            }
            NodeKind::AudioBranch => {
                self.n_audio = self.n_audio - 1;
                self.audio_sink_busy = false;
            }
        }
    }

    /// Link the source's output to the demultiplexer; both must be
    /// members of the pipeline.
    pub fn link_source_to_demuxer(&mut self)
        requires
            old(self).n_source == 1,
            old(self).n_demux == 1,
        ensures
            *final(self) == (Pipeline { src_demux_linked: true, ..*old(self) }),
    {
        self.src_demux_linked = true;
    }

    /// Unlink the source's output from the demultiplexer.
    pub fn unlink_source_from_demuxer(&mut self)
        ensures
            *final(self) == (Pipeline { src_demux_linked: false, ..*old(self) }),
    {
        self.src_demux_linked = false;
    }

    /// Link a demuxer pad to the audio branch's sink pad, which must
    /// be free; a pad takes at most one peer.
    pub fn link_demux_pad_to_audio(&mut self)
        requires
            old(self).n_audio == 1,
            !old(self).audio_sink_busy,
        ensures
            *final(self) == (Pipeline { audio_sink_busy: true, ..*old(self) }),
    {
        self.audio_sink_busy = true;
    }

    /// Link a demuxer pad to the sink bin's sink pad, which must be
    /// free; a pad takes at most one peer.
    pub fn link_demux_pad_to_binsink(&mut self)
        requires
            old(self).n_sinkbin == 1,
            !old(self).video_sink_busy,
        ensures
            *final(self) == (Pipeline { video_sink_busy: true, ..*old(self) }),
    {
        self.video_sink_busy = true;
    }

    /// Request a run-state transition. The pipeline takes the state
    /// and propagates it to every unit that is currently a member; a
    /// unit outside the pipeline keeps its own state.
    pub fn set_state(&mut self, s: PlayState)
        ensures
            *final(self) == (Pipeline {
                state: s,
                binsink_state: if old(self).n_sinkbin == 1 { s } else { old(self).binsink_state },
                audio_state: if old(self).n_audio == 1 { s } else { old(self).audio_state },
                ..*old(self)
            }),
    {
        self.state = s;
        if self.n_sinkbin == 1 {
            self.binsink_state = s;
        }
        if self.n_audio == 1 {
            self.audio_state = s;
        }
    }

    /// Synchronize the sink bin, a member of the pipeline, with the
    /// pipeline's current state; without this a unit added to a
    /// running pipeline stays unable to process data.
    pub fn sync_binsink_with_parent(&mut self)
        requires
            old(self).n_sinkbin == 1,
        ensures
            *final(self) == (Pipeline { binsink_state: old(self).state, ..*old(self) }),
    {
        self.binsink_state = self.state;
    }

    /// Synchronize the audio branch, a member of the pipeline, with
    /// the pipeline's current state.
    pub fn sync_audio_with_parent(&mut self)
        requires
            old(self).n_audio == 1,
        ensures
            *final(self) == (Pipeline { audio_state: old(self).state, ..*old(self) }),
    {
        self.audio_state = self.state;
    }

    /// Post a message on the diagnostic bus.
    pub fn post(&mut self, msg: DiagMessage)
        ensures
            final(self).bus@ == old(self).bus@.push(msg),
            *final(self) == (Pipeline { bus: final(self).bus, ..*old(self) }),
    {
        self.bus.push(msg);
    }
}

} // verus!
