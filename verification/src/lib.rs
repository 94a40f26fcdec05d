//! A decoder for the line-oriented marine-telemetry sentence protocol:
//! structural validation and checksum verification of one text line, its
//! tokenization into an ordered field list, typed extraction of individual
//! fields, and classification of the decoded record into the closed set of
//! known message kinds.

pub mod clock;
pub mod decimal;
pub mod numbers;
pub mod text;
pub mod sentence;
pub mod catalog;
pub mod classify;

pub use clock::{Date, TimeOfDay, Timestamp};
pub use decimal::Decimal;
pub use sentence::{NmeaBaseSentence, SentenceView, ValueWithUnit};
pub use catalog::{NmeaBaseTrait, OmegaData, SatelliteInfo, TransducerData};
pub use classify::{classify, classify_line, ErrorData, NmeaSentence};
