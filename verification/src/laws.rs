//! The properties the manager guarantees, proved over the model
//! transitions of [`crate::model`]. The executable operations promise
//! to land exactly on those transitions, so each law carries over to
//! any sequence of calls.

use vstd::prelude::*;
use crate::bus::{negotiation_warning, unsupported_warning, DiagKind};
use crate::caps::{spec_classify, MediaClass};
use crate::model::{graph_wf, load_step, pad_step, reset_step, GraphModel};
use crate::outcome::PadOutcome;
use crate::pad::PadModel;

verus! {

/// A pad that classifies as neither audio nor video: it carries no
/// capability information yet, or a media type of another kind.
pub open spec fn unclassifiable_pad(p: PadModel) -> bool {
    match p.media_type {
        None => true,
        Some(name) => spec_classify(name) == MediaClass::Unsupported,
    }
}

/// An unconsumed pad whose negotiated media type is `audio/*`.
pub open spec fn fresh_audio_pad(p: PadModel) -> bool {
    &&& !p.linked
    &&& (match p.media_type {
        Some(name) => spec_classify(name) == MediaClass::Audio,
        None => false,
    })
}

/// An unconsumed pad whose negotiated media type is `video/*`.
pub open spec fn fresh_video_pad(p: PadModel) -> bool {
    &&& !p.linked
    &&& (match p.media_type {
        Some(name) => spec_classify(name) == MediaClass::Video,
        None => false,
    })
}

/// Loading detaches whatever an earlier load attached: a second load
/// lands on exactly the graph the first one produced, and the loaded
/// graph holds exactly one source, one demultiplexer, one sink bin and
/// one audio branch - no duplicate nodes remain.
pub proof fn lemma_second_load_detaches_first(g: GraphModel)
    requires
        graph_wf(g),
    ensures
        graph_wf(load_step(g)),
        load_step(load_step(g)) == load_step(g),
        load_step(g).n_source == 1,
        load_step(g).n_demux == 1,
        load_step(g).n_sinkbin == 1,
        load_step(g).n_audio == 1,
        !load_step(g).audio_sink_busy,
        !load_step(g).video_sink_busy,
{
}

/// A discovered pad is linked at most once: an event for an already
/// consumed pad changes neither the graph nor the pad, however often
/// the callback fires.
pub proof fn lemma_pad_linked_at_most_once(g: GraphModel, p: PadModel)
    requires
        p.linked,
    ensures
        pad_step(g, p).graph == g,
        pad_step(g, p).pad == p,
        (match p.media_type {
            Some(name) => (g.added && g.built && spec_classify(name) != MediaClass::Unsupported)
                ==> pad_step(g, p).outcome == PadOutcome::AlreadyLinked,
            None => true,
        }),
{
}

/// A pad-discovery event never breaks the graph's well-formedness.
pub proof fn lemma_pad_step_preserves_wf(g: GraphModel, p: PadModel)
    requires
        graph_wf(g),
    ensures
        graph_wf(pad_step(g, p).graph),
{
}

/// When a video pad triggers the detach/reattach of the sink bin, the
/// bin's state equals the pipeline's current state before the link is
/// made: no node is left unsynchronized.
pub proof fn lemma_video_pad_synchronized(g: GraphModel, p: PadModel)
    requires
        graph_wf(g),
        g.added,
        g.built,
        fresh_video_pad(p),
    ensures
        pad_step(g, p).outcome == PadOutcome::VideoLinked,
        pad_step(g, p).graph.binsink_state == g.pipeline_state,
        pad_step(g, p).graph.pipeline_state == g.pipeline_state,
        pad_step(g, p).graph.video_sink_busy,
        pad_step(g, p).pad.linked,
{
}

/// Resetting a manager with nothing loaded is a no-op.
pub proof fn lemma_reset_nothing_loaded_noop(g: GraphModel)
    requires
        !g.added,
    ensures
        reset_step(g) == g,
{
}

/// A pad that classifies as neither audio nor video - with no
/// capability information at all, or with a media type of another
/// kind - mutates nothing: the graph and the pad stay as they were,
/// and exactly one warning is recorded.
pub proof fn lemma_unclassifiable_pad_warns_without_mutation(g: GraphModel, p: PadModel)
    requires
        unclassifiable_pad(p),
    ensures
        pad_step(g, p).graph == g,
        pad_step(g, p).pad == p,
        pad_step(g, p).posted.len() == 1,
        pad_step(g, p).posted[0].kind == DiagKind::Warning,
        p.media_type is None ==> pad_step(g, p).outcome == PadOutcome::Negotiation
            && pad_step(g, p).posted == seq![negotiation_warning()],
        p.media_type is Some ==> pad_step(g, p).outcome == PadOutcome::Unsupported
            && pad_step(g, p).posted == seq![unsupported_warning()],
{
}

/// End to end: loading file A, wiring its streams, then loading file B
/// and wiring B's streams leaves exactly one audio branch and one sink
/// bin attached, wired to B's demultiplexer outputs; A's source chain
/// and links are fully gone the moment B is loaded.
pub proof fn lemma_reload_end_to_end(
    g: GraphModel,
    a1: PadModel,
    v1: PadModel,
    a2: PadModel,
    v2: PadModel,
)
    requires
        graph_wf(g),
        fresh_audio_pad(a1),
        fresh_video_pad(v1),
        fresh_audio_pad(a2),
        fresh_video_pad(v2),
    ensures
        ({
            let first = load_step(g);
            let fa = pad_step(first, a1);
            let fv = pad_step(fa.graph, v1);
            let second = load_step(fv.graph);
            let sa = pad_step(second, a2);
            let sv = pad_step(sa.graph, v2);
            &&& fa.outcome == PadOutcome::AudioLinked
            &&& fv.outcome == PadOutcome::VideoLinked
            &&& !second.audio_sink_busy
            &&& !second.video_sink_busy
            &&& second.n_source == 1 && second.n_demux == 1 && second.n_sinkbin == 1
            &&& sa.outcome == PadOutcome::AudioLinked
            &&& sv.outcome == PadOutcome::VideoLinked
            &&& sv.graph.n_source == 1
            &&& sv.graph.n_demux == 1
            &&& sv.graph.n_sinkbin == 1
            &&& sv.graph.n_audio == 1
            &&& sv.graph.audio_sink_busy
            &&& sv.graph.video_sink_busy
            &&& graph_wf(sv.graph)
        }),
{
}

} // verus!
