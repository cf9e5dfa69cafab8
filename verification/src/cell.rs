//! The holder of the one process-wide logger, and the call-site surface.
//!
//! The process-wide singleton is a lock-guarded cell; this module holds
//! its verified state logic. A [`LoggerCell`] value stands for the
//! guarded contents, and every operation takes the cell by exclusive
//! reference: holding `&mut LoggerCell` models holding the lock, so a
//! replacement is atomic with respect to every dispatch — no reader can
//! observe sinks and level from different generations. The surrounding
//! program owns the actual lock, the one-time initialization, and the
//! poison recovery, and serializes its calls into this module through
//! that lock.

use vstd::prelude::*;
use vstd::string::StringSliceAdditionalSpecFns;

use crate::level::{spec_passes, LogLevel};
use crate::logger::{
    all_buffers, count_failing, fanned_out, line_of, Logger,
};

verus! {

/// The guarded contents of the process-wide holder: exactly one logger.
pub struct LoggerCell {
    /// The active logger. Read by every dispatch, replaced wholesale by
    /// configuration.
    pub logger: Logger,
}

/// The holder's state after `logger` is installed over `pre`:
/// installation replaces the whole contents and keeps nothing of what
/// was there.
pub open spec fn configure_model(pre: LoggerCell, logger: Logger) -> LoggerCell {
    LoggerCell { logger }
}

impl LoggerCell {
    /// A holder whose initial contents are `logger`.
    pub fn new(logger: Logger) -> (c: LoggerCell)
        ensures
            c.logger == logger,
    {
        LoggerCell { logger }
    }
}

/// Replace the holder's logger wholesale. Under the lock that `&mut`
/// models, the swap is atomic: afterwards the cell holds exactly
/// `logger`, whatever it held before.
pub fn set_logger(cell: &mut LoggerCell, logger: Logger)
    ensures
        *final(cell) == configure_model(*old(cell), logger),
        final(cell).logger == logger,
{
    cell.logger = logger;
}

/// Read access to the holder's current logger.
pub fn get_logger(cell: &LoggerCell) -> (r: &Logger)
    ensures
        *r == cell.logger,
{
    &cell.logger
}

/// Write `data`'s bytes, as they are, to every sink of the current
/// logger, ignoring the level filter: every buffer sink receives exactly
/// `data`'s bytes appended, whatever any other sink did.
pub fn use_logger(cell: &mut LoggerCell, data: &str)
    ensures
        final(cell).logger.level == old(cell).logger.level,
        fanned_out(
            old(cell).logger.outputs@,
            final(cell).logger.outputs@,
            data.spec_bytes(),
        ),
        final(cell).logger.write_failures >= old(cell).logger.write_failures,
        all_buffers(old(cell).logger.outputs@) ==> final(cell).logger.write_failures
            == old(cell).logger.write_failures,
        count_failing(old(cell).logger.outputs@) > 0
            ==> (final(cell).logger.write_failures > old(cell).logger.write_failures
            || final(cell).logger.write_failures == u64::MAX),
{
    let _ = cell.logger.write_all(data.as_bytes());
}

/// Log `msg` at the `Debug` level through the holder's current logger.
pub fn debug(cell: &mut LoggerCell, msg: &str)
    ensures
        logged(old(cell).logger, final(cell).logger, LogLevel::Debug, msg.spec_bytes()),
{
    cell.logger.log(LogLevel::Debug, msg);
}

/// Log `msg` at the `Info` level through the holder's current logger.
pub fn info(cell: &mut LoggerCell, msg: &str)
    ensures
        logged(old(cell).logger, final(cell).logger, LogLevel::Info, msg.spec_bytes()),
{
    cell.logger.log(LogLevel::Info, msg);
}

/// Log `msg` at the `Warn` level through the holder's current logger.
pub fn warn(cell: &mut LoggerCell, msg: &str)
    ensures
        logged(old(cell).logger, final(cell).logger, LogLevel::Warn, msg.spec_bytes()),
{
    cell.logger.log(LogLevel::Warn, msg);
}

/// Log `msg` at the `Error` level through the holder's current logger.
pub fn error(cell: &mut LoggerCell, msg: &str)
    ensures
        logged(old(cell).logger, final(cell).logger, LogLevel::Error, msg.spec_bytes()),
{
    cell.logger.log(LogLevel::Error, msg);
}

/// One leveled logging call on the held logger, `pre` before and `post`
/// after: the level and the registry's shape are kept; when `level`
/// reaches the minimum, the message followed by a line terminator fans
/// out to every sink; when it does not, the logger is untouched.
pub open spec fn logged(pre: Logger, post: Logger, level: LogLevel, msg: Seq<u8>) -> bool {
    &&& post.level == pre.level
    &&& !spec_passes(level, pre.level) ==> post == pre
    &&& spec_passes(level, pre.level) ==> fanned_out(
        pre.outputs@,
        post.outputs@,
        line_of(msg),
    )
    &&& post.write_failures >= pre.write_failures
    &&& all_buffers(pre.outputs@) ==> post.write_failures == pre.write_failures
    &&& spec_passes(level, pre.level) && count_failing(pre.outputs@) > 0 ==> (
    post.write_failures > pre.write_failures || post.write_failures == u64::MAX)
}

/// Installing the same logger value twice leaves the holder exactly as
/// installing it once does, so every later dispatch behaves the same:
/// configuration is idempotent.
pub proof fn lemma_configure_idempotent(pre: LoggerCell, logger: Logger)
    ensures
        configure_model(configure_model(pre, logger), logger) == configure_model(
            pre,
            logger,
        ),
{
}

} // verus!
