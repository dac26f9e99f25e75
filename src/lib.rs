//! Real-time audio pipeline core: the bounded sample queue between capture
//! and playback, the shared band gain state, and the engine lifecycle.
pub mod engine;
pub mod equalizer;
pub mod gains;
pub mod queue;
