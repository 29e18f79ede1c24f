//! Client-side driver for a rollup execution environment.
//!
//! The crate models the request-processing state machine of a rollup
//! application: a codec for hex-wrapped UTF-8 payloads, an output-channel
//! framing layer, per-domain dispatchers, and the poll-loop step that
//! carries an accept/reject verdict between successive polls.

pub mod codec;
pub mod driver;
pub mod messages;
pub mod numeric;
pub mod student;
pub mod textutil;
pub mod upper;

pub use codec::CodecError;
pub use messages::Channel;
pub use messages::OutboundMessage;
pub use messages::Verdict;
pub use numeric::is_numeric;
pub use student::Student;
pub use upper::Storage;
pub use upper::UserStructure;
