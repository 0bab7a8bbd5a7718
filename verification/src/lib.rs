//! Verified bookkeeping for one optimization handle of a constraint engine.
//!
//! The engine itself is reached by the embedding program. This library decides
//! what is sent to it and what its answers mean: the text of a soft
//! constraint's weight, the stack of backtracking points, the reading of a
//! check's result code, the availability of a model, and the decoding of the
//! engine's textual rendering.

pub mod engine;
pub mod laws;
pub mod optimize;
pub mod state;
pub mod text;
pub mod weight;
