//! A small file-transfer protocol: typed requests and responses, their byte
//! frames, and the decisions that drive one exchange between a client and a
//! server. Everything here is pure; streams and files are the caller's.

pub mod cli;
pub mod client;
pub mod codec;
pub mod codec_laws;
pub mod dispatch;
pub mod exchange;
pub mod listing;
pub mod message;
pub mod options;
pub mod server;
pub mod store_model;
pub mod transport;
pub mod wire;

pub use codec::deserialize_request;
pub use codec::deserialize_response;
pub use codec::serialize_request;
pub use codec::serialize_response;
pub use message::Operation;
pub use message::ProtocolError;
pub use message::Request;
pub use message::Response;
