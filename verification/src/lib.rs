//! Control plane for a live camera capture session.
//!
//! A session turns a small set of declarative capture parameters into a
//! branching processing graph (camera source, preview branch, record
//! branch), drives that graph through its playback states on a dedicated
//! worker, and hands the caller a start/stop handle whose only link to the
//! worker is a pair of shared flags.
//!
//! The media engine itself (element implementations, negotiation, clocks)
//! is an external collaborator; this crate holds the logic that decides
//! what graph to build, how the worker reacts to each engine event, and
//! when the caller's blocking `start` may return.

pub mod graph;
pub mod params;
pub mod session;

pub use params::CameraCaps;
pub use session::Recorder;
pub use session::start_recording;
pub use session::stop_recording;
