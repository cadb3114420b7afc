//! A real-time audio streaming runtime over a native audio engine: the
//! engine's error codes, the stream lifecycle, the blocking read and write
//! checks, the bridge that the engine's real-time thread calls, and a
//! power-of-two ring buffer. Every call into the engine is handed in by the
//! caller, as a closure or as the engine's answer, so that each decision made
//! around it is verified here.

pub mod rpa_error;
pub mod kit;
pub mod rpa_ringbuffer;
pub mod types;
pub mod device;
pub mod hostapi;
pub mod stream;

pub use stream::Stream;
