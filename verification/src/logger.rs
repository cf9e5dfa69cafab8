//! The logger aggregate: a sink registry plus a minimum level, with
//! level-filtered fan-out dispatch and partial-failure isolation.

use vstd::prelude::*;
use vstd::slice::slice_to_vec;
use vstd::string::StringSliceAdditionalSpecFns;

use crate::level::{spec_parse, spec_passes, LogLevel};
use crate::sink::{same_kind, Sink};

verus! {

/// A multi-sink, leveled logger: the aggregate of the active sink list
/// and the minimum level, plus a count of sink write failures.
///
/// Replacing sinks or level happens by installing a whole new `Logger`
/// value into the holder, never by piecemeal field mutation, so no
/// concurrent reader can observe sinks and level from different
/// generations.
pub struct Logger {
    /// The sink registry; registration order is dispatch order.
    pub outputs: Vec<Sink>,
    /// The minimum severity a message needs in order to be dispatched.
    pub level: LogLevel,
    /// How many sink writes or flushes have failed under this logger,
    /// saturating at the largest counter value. Failures are recorded
    /// here and never surface out of a logging call.
    pub write_failures: u64,
}

/// `post` received exactly `pre`'s bytes followed by `data`.
pub open spec fn received(pre: Sink, post: Sink, data: Seq<u8>) -> bool {
    post.recorded() == pre.recorded() + data
}

/// `post` received exactly `pre`'s bytes and nothing more.
pub open spec fn untouched(pre: Sink, post: Sink) -> bool {
    post.recorded() == pre.recorded()
}

/// One fan-out of `data` over a sink registry, `pre` before and `post`
/// after: every sink keeps its kind, every sink either receives the
/// whole of `data` or nothing, every buffer sink receives it — however
/// the other sinks fared — and a failing sink never does.
pub open spec fn fanned_out(pre: Seq<Sink>, post: Seq<Sink>, data: Seq<u8>) -> bool {
    &&& post.len() == pre.len()
    &&& forall|i: int|
        0 <= i < pre.len() ==> same_kind(#[trigger] pre[i], #[trigger] post[i])
    &&& forall|i: int|
        0 <= i < pre.len() ==> (received(#[trigger] pre[i], #[trigger] post[i], data)
            || untouched(pre[i], post[i]))
    &&& forall|i: int|
        0 <= i < pre.len() ==> (pre[i] is Buffer ==> received(
            #[trigger] pre[i],
            #[trigger] post[i],
            data,
        ))
    &&& forall|i: int|
        0 <= i < pre.len() ==> (pre[i] is Failing ==> untouched(
            #[trigger] pre[i],
            #[trigger] post[i],
        ))
}

/// Every sink of `s` is an in-memory buffer, so no write can fail.
pub open spec fn all_buffers(s: Seq<Sink>) -> bool {
    forall|i: int| 0 <= i < s.len() ==> (#[trigger] s[i]) is Buffer
}

/// How many sinks of `s` reject every write.
pub open spec fn count_failing(s: Seq<Sink>) -> int
    decreases s.len(),
{
    if s.len() == 0 {
        0
    } else {
        count_failing(s.drop_last()) + if s.last() is Failing {
            1int
        } else {
            0int
        }
    }
}

/// Addition on the failure counter, saturating at `u64::MAX`.
pub open spec fn sat_add64(a: u64, b: u64) -> u64 {
    if a + b > u64::MAX {
        u64::MAX
    } else {
        (a + b) as u64
    }
}

/// The message bytes with the trailing line terminator a dispatch
/// appends.
pub open spec fn line_of(msg: Seq<u8>) -> Seq<u8> {
    msg.push('\n' as u8)
}

/// The default level for a looked-up `LOG_LEVEL` value: the parsed
/// level, falling back to `Info` when the value is missing or spells no
/// level name.
pub open spec fn default_level(env: Option<Seq<u8>>) -> LogLevel {
    match env {
        Some(s) => match spec_parse(s) {
            Some(l) => l,
            None => LogLevel::Info,
        },
        None => LogLevel::Info,
    }
}

/// The default logger: one console sink that has received nothing, the
/// `Info` level, and no recorded failures.
pub fn default_logger() -> (r: Logger)
    ensures
        r.outputs@.len() == 1,
        r.outputs@[0] is Console,
        r.outputs@[0].recorded() == Seq::<u8>::empty(),
        r.level == LogLevel::Info,
        r.write_failures == 0,
{
    let mut outputs: Vec<Sink> = Vec::new();
    outputs.push(Sink::console());
    Logger { outputs, level: LogLevel::Info, write_failures: 0 }
}

impl Logger {
    /// Construct a logger value from a registry and a minimum level.
    /// Touches no global state.
    pub fn new(outputs: Vec<Sink>, level: LogLevel) -> (r: Logger)
        ensures
            r.outputs == outputs,
            r.level == level,
            r.write_failures == 0,
    {
        Logger { outputs, level, write_failures: 0 }
    }

    /// Build the default logger from a looked-up `LOG_LEVEL` value: one
    /// console sink, and the level the value spells, falling back to
    /// `Info` when the value is missing or unrecognized. The caller owns
    /// the lookup and any bootstrap diagnostic.
    pub fn configure_default(env_value: Option<&str>) -> (r: Logger)
        ensures
            r.outputs@.len() == 1,
            r.outputs@[0] is Console,
            r.outputs@[0].recorded() == Seq::<u8>::empty(),
            r.write_failures == 0,
            env_value is None ==> r.level == LogLevel::Info,
            forall|s: &str|
                env_value == Some(s) ==> r.level == default_level(Some(s.spec_bytes())),
    {
        let level = match env_value {
            Some(s) => match LogLevel::parse(s) {
                Ok(l) => l,
                Err(_) => LogLevel::Info,
            },
            None => LogLevel::Info,
        };
        let mut outputs: Vec<Sink> = Vec::new();
        outputs.push(Sink::console());
        Logger { outputs, level, write_failures: 0 }
    }

    /// Dispatch `data` to every sink in registration order. A failure at
    /// one sink is counted in `write_failures` and does not stop delivery
    /// to the sinks after it. Returns how many sinks failed in this call.
    pub fn write_all(&mut self, data: &[u8]) -> (failed: u64)
        ensures
            final(self).level == old(self).level,
            fanned_out(old(self).outputs@, final(self).outputs@, data@),
            failed as int <= old(self).outputs@.len(),
            count_failing(old(self).outputs@) <= failed as int,
            all_buffers(old(self).outputs@) ==> failed == 0,
            final(self).write_failures == sat_add64(old(self).write_failures, failed),
    {
        let n = self.outputs.len();
        let mut i: usize = 0;
        let mut failed: u64 = 0;
        while i < n
            invariant
                n == self.outputs@.len(),
                self.outputs@.len() == old(self).outputs@.len(),
                i <= n,
                self.level == old(self).level,
                self.write_failures == old(self).write_failures,
                failed as int <= i as int,
                forall|j: int| i <= j < n ==> self.outputs@[j] == #[trigger] old(
                    self,
                ).outputs@[j],
                forall|j: int|
                    0 <= j < i ==> same_kind(
                        #[trigger] old(self).outputs@[j],
                        #[trigger] self.outputs@[j],
                    ),
                forall|j: int|
                    0 <= j < i ==> (received(
                        #[trigger] old(self).outputs@[j],
                        #[trigger] self.outputs@[j],
                        data@,
                    ) || untouched(old(self).outputs@[j], self.outputs@[j])),
                forall|j: int|
                    0 <= j < i ==> (old(self).outputs@[j] is Buffer ==> received(
                        #[trigger] old(self).outputs@[j],
                        #[trigger] self.outputs@[j],
                        data@,
                    )),
                forall|j: int|
                    0 <= j < i ==> (old(self).outputs@[j] is Failing ==> untouched(
                        #[trigger] old(self).outputs@[j],
                        #[trigger] self.outputs@[j],
                    )),
                count_failing(old(self).outputs@.subrange(0, i as int)) <= failed as int,
                all_buffers(old(self).outputs@) ==> failed == 0,
            decreases n - i,
        {
            let sink = &mut self.outputs[i];
            let r = sink.write_all(data);
            if r.is_err() {
                failed = failed + 1;
            }
            proof {
                let pre = old(self).outputs@.subrange(0, i + 1);
                assert(pre.drop_last() =~= old(self).outputs@.subrange(0, i as int));
                assert(pre.last() == old(self).outputs@[i as int]);
            }
            i = i + 1;
        }
        proof {
            assert(old(self).outputs@.subrange(0, n as int) =~= old(self).outputs@);
        }
        self.write_failures = saturating_add64(self.write_failures, failed);
        failed
    }

    /// Flush every sink, best-effort, with the same failure isolation and
    /// counting as a write. No sink's received bytes change.
    pub fn flush_all(&mut self) -> (failed: u64)
        ensures
            final(self).level == old(self).level,
            final(self).outputs@.len() == old(self).outputs@.len(),
            forall|i: int|
                0 <= i < old(self).outputs@.len() ==> same_kind(
                    #[trigger] old(self).outputs@[i],
                    #[trigger] final(self).outputs@[i],
                ),
            forall|i: int|
                0 <= i < old(self).outputs@.len() ==> untouched(
                    #[trigger] old(self).outputs@[i],
                    #[trigger] final(self).outputs@[i],
                ),
            failed as int <= old(self).outputs@.len(),
            count_failing(old(self).outputs@) <= failed as int,
            all_buffers(old(self).outputs@) ==> failed == 0,
            final(self).write_failures == sat_add64(old(self).write_failures, failed),
    {
        let n = self.outputs.len();
        let mut i: usize = 0;
        let mut failed: u64 = 0;
        while i < n
            invariant
                n == self.outputs@.len(),
                self.outputs@.len() == old(self).outputs@.len(),
                i <= n,
                self.level == old(self).level,
                self.write_failures == old(self).write_failures,
                failed as int <= i as int,
                forall|j: int| i <= j < n ==> self.outputs@[j] == #[trigger] old(
                    self,
                ).outputs@[j],
                forall|j: int|
                    0 <= j < i ==> same_kind(
                        #[trigger] old(self).outputs@[j],
                        #[trigger] self.outputs@[j],
                    ),
                forall|j: int|
                    0 <= j < i ==> untouched(
                        #[trigger] old(self).outputs@[j],
                        #[trigger] self.outputs@[j],
                    ),
                count_failing(old(self).outputs@.subrange(0, i as int)) <= failed as int,
                all_buffers(old(self).outputs@) ==> failed == 0,
            decreases n - i,
        {
            proof {
                assert(self.outputs@[i as int] == old(self).outputs@[i as int]);
            }
            let sink = &mut self.outputs[i];
            let r = sink.flush();
            if r.is_err() {
                failed = failed + 1;
            }
            proof {
                let pre = old(self).outputs@.subrange(0, i + 1);
                assert(pre.drop_last() =~= old(self).outputs@.subrange(0, i as int));
                assert(pre.last() == old(self).outputs@[i as int]);
            }
            i = i + 1;
        }
        proof {
            assert(old(self).outputs@.subrange(0, n as int) =~= old(self).outputs@);
        }
        self.write_failures = saturating_add64(self.write_failures, failed);
        failed
    }

    /// The leveled logging call: when `level` reaches this logger's
    /// minimum, the message followed by a line terminator is dispatched
    /// to every sink, with failures isolated and counted; otherwise the
    /// logger is left exactly as it was. Never surfaces an error.
    pub fn log(&mut self, level: LogLevel, msg: &str)
        ensures
            final(self).level == old(self).level,
            !spec_passes(level, old(self).level) ==> *final(self) == *old(self),
            spec_passes(level, old(self).level) ==> fanned_out(
                old(self).outputs@,
                final(self).outputs@,
                line_of(msg.spec_bytes()),
            ),
            final(self).write_failures >= old(self).write_failures,
            all_buffers(old(self).outputs@) ==> final(self).write_failures == old(
                self,
            ).write_failures,
            spec_passes(level, old(self).level) && count_failing(old(self).outputs@) > 0
                ==> (final(self).write_failures > old(self).write_failures
                || final(self).write_failures == u64::MAX),
    {
        if level.passes(&self.level) {
            let mut line: Vec<u8> = slice_to_vec(msg.as_bytes());
            line.push('\n' as u8);
            let _ = self.write_all(line.as_slice());
        }
    }
}

/// Two dispatches in a row append two whole payloads to a buffer sink,
/// the first wholly before the second: under the lock that serializes
/// dispatch, a sink's bytes are the payloads in acquisition order, and
/// no write interleaves with another or is lost or duplicated.
pub proof fn lemma_dispatch_order(
    pre: Seq<Sink>,
    mid: Seq<Sink>,
    post: Seq<Sink>,
    first: Seq<u8>,
    second: Seq<u8>,
    i: int,
)
    requires
        fanned_out(pre, mid, first),
        fanned_out(mid, post, second),
        0 <= i < pre.len(),
        pre[i] is Buffer,
    ensures
        post[i].recorded() == pre[i].recorded() + first + second,
{
    assert(received(pre[i], mid[i], first));
    assert(mid[i] is Buffer);
    assert(received(mid[i], post[i], second));
    assert((pre[i].recorded() + first) + second =~= pre[i].recorded() + first
        + second);
}

/// Addition saturating at `u64::MAX`.
fn saturating_add64(a: u64, b: u64) -> (r: u64)
    ensures
        r == sat_add64(a, b),
{
    if b > u64::MAX - a {
        u64::MAX
    } else {
        a + b
    }
}

} // verus!
