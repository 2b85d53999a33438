//! Live camera frame distribution: admission-controlled conversion of raw frames,
//! the registry of active streams, latest-value and ordered delivery, the table of
//! peer-to-peer transport sessions, and the encoding bridge that feeds them.

pub mod admission;
pub mod bridge;
pub mod convert;
pub mod distributor;
pub mod error;
mod ids;
pub mod models;
pub mod pipeline;
pub mod session;
pub mod stream;
pub mod table;

pub use error::{Error, ErrorKind, Result};
