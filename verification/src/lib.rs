//! A process-wide, thread-safe, multi-sink, leveled logging core.
//!
//! The library holds the verified logic: the ordered severity type
//! ([`LogLevel`]), the sinks and the byte-sequence model of what each
//! received ([`Sink`]), the [`Logger`] aggregate with its level-filtered
//! fan-out dispatch, and the [`LoggerCell`] holder whose exclusive-access
//! contracts describe the state visible under the process-wide lock. The
//! surrounding program owns the actual lock, the one-time global
//! initialization and the environment lookup, and hands this library
//! plain values.

pub mod cell;
pub mod level;
pub mod logger;
pub mod sink;

pub use cell::{
    debug, error, get_logger, info, set_logger, use_logger, warn, LoggerCell,
};
pub use level::{LevelParseError, LogLevel};
pub use logger::{default_logger, Logger};
pub use sink::{Sink, SinkWriteError};
