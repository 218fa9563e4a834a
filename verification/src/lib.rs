//! Core logic of a gate-crossing race timer: the wire protocol of the
//! transponder, the peak detector that turns signal-strength samples into
//! crossing events, the worker's decisions, and the shapes of the persisted
//! records. Everything here works on plain values; the program around it
//! performs the serial, database and network operations.

pub mod control;
pub mod detector;
pub mod error;
pub mod link;
pub mod mock;
pub mod protocol;
pub mod records;
pub mod relay;
pub mod text;
pub mod timestamp;
pub mod worker;
