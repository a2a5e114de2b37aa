//! Conversion engine for game-data plugins: the legacy character transcoder,
//! output-path derivation and the staged conversion state machine.
pub mod paths;
pub mod pipeline;
pub mod request;
pub mod transcode;

pub use paths::output_path;
pub use pipeline::{Action, Conversion, Error, Event, Stage};
pub use request::{ConversionRequest, Direction};
pub use transcode::{to_legacy, to_native};
