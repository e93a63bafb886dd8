//! Decoder and race-state aggregator for the little-endian telemetry
//! datagrams that a racing simulation broadcasts.
//!
//! The crate is a pipeline of three stages: bytes are decoded into a typed
//! [`frame::Frame`] by [`parser`], [`telemetry`] decides what the ingestion
//! loop does with each datagram, and [`race::Race`] folds the frames into the
//! state of a session. [`wire`] says what the bytes mean, and [`reader`]
//! reads the fields that the decoders are made of.
pub mod error;
pub mod frame;
pub mod parser;
pub mod race;
pub mod reader;
pub mod telemetry;
pub mod wire;

pub use crate::frame::event::{EventBody, EventDetails, InfringementType, PenaltyType};
pub use crate::frame::{Header, PacketType};
pub use crate::parser::{event_body, header};
