//! Model of a media-player pipeline manager.
//!
//! The library captures the one piece of genuine protocol logic in a
//! GStreamer/GTK media player: the lifecycle of the pipeline graph
//! (load, play, pause, stop, reset) and the pad-discovery handler that
//! wires newly discovered elementary streams into the graph. The graph
//! itself is modelled as plain data - node membership counts, link
//! flags, and element states - so that every lifecycle decision is a
//! verified function from the old state to the new one. The thin shell
//! that talks to the real multimedia framework and the GUI toolkit
//! performs the corresponding framework calls and feeds discovery
//! events back into the handler.

pub mod bus;
pub mod caps;
pub mod laws;
pub mod manager;
pub mod model;
pub mod node;
pub mod outcome;
pub mod pad;
pub mod pipeline;
