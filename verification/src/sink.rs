//! Output destinations and the byte-sequence model of what each received.

use std::io::Write;
use vstd::prelude::*;

verus! {

/// A sink's write or flush failed. The failure is recorded by the owning
/// logger and never surfaces out of a logging call.
#[derive(Clone, Copy, Debug, PartialEq, Eq, Structural)]
pub struct SinkWriteError;

/// An independent destination that accepts written bytes and supports
/// flushing. The logger exclusively owns every sink in its registry.
///
/// Each variant carries a model of the bytes the destination has
/// successfully received, read back through [`Sink::recorded`]:
/// * `Buffer` keeps the bytes in memory and never fails;
/// * `Console` hands the bytes to the process's standard output and
///   tracks, in ghost state, the bytes confirmed written;
/// * `Failing` rejects every write, for exercising the registry's
///   partial-failure isolation.
pub enum Sink {
    Buffer(Vec<u8>),
    Console(Ghost<Seq<u8>>),
    Failing,
}

/// `a` and `b` are the same kind of destination.
pub open spec fn same_kind(a: Sink, b: Sink) -> bool {
    match (a, b) {
        (Sink::Buffer(_), Sink::Buffer(_)) => true,
        (Sink::Console(_), Sink::Console(_)) => true,
        (Sink::Failing, Sink::Failing) => true,
        _ => false,
    }
}

impl Sink {
    /// The bytes this sink has successfully received since it was
    /// constructed.
    pub open spec fn recorded(&self) -> Seq<u8> {
        match self {
            Sink::Buffer(buf) => buf@,
            Sink::Console(written) => written@,
            Sink::Failing => Seq::empty(),
        }
    }

    /// A fresh in-memory sink that has received nothing.
    pub fn buffer() -> (s: Sink)
        ensures
            s is Buffer,
            s.recorded() == Seq::<u8>::empty(),
    {
        Sink::Buffer(Vec::new())
    }

    /// A fresh console sink that has received nothing.
    pub fn console() -> (s: Sink)
        ensures
            s is Console,
            s.recorded() == Seq::<u8>::empty(),
    {
        Sink::Console(Ghost(Seq::empty()))
    }

    /// A fresh sink that rejects every write.
    pub fn failing() -> (s: Sink)
        ensures
            s is Failing,
            s.recorded() == Seq::<u8>::empty(),
    {
        Sink::Failing
    }

    /// Write `data` to this destination. On success the whole of `data`
    /// is appended to what the sink has received; on failure nothing is.
    /// A buffer sink always succeeds and a failing sink never does.
    pub fn write_all(&mut self, data: &[u8]) -> (r: Result<(), SinkWriteError>)
        ensures
            same_kind(*old(self), *final(self)),
            r is Ok ==> final(self).recorded() == old(self).recorded() + data@,
            r is Err ==> final(self).recorded() == old(self).recorded(),
            *old(self) is Buffer ==> r is Ok,
            *old(self) is Failing ==> r is Err,
    {
        match self {
            Sink::Buffer(buf) => {
                push_bytes(buf, data);
                Ok(())
            }
            Sink::Console(written) => {
                let r = stdout_write_all(data);
                match r {
                    Ok(()) => {
                        *written = Ghost(written@ + data@);
                        Ok(())
                    }
                    Err(e) => Err(e),
                }
            }
            Sink::Failing => Err(SinkWriteError),
        }
    }

    /// Flush this destination, best-effort. What the sink has received is
    /// unchanged either way. A buffer sink always succeeds and a failing
    /// sink never does.
    pub fn flush(&mut self) -> (r: Result<(), SinkWriteError>)
        ensures
            same_kind(*old(self), *final(self)),
            final(self).recorded() == old(self).recorded(),
            *old(self) is Buffer ==> r is Ok,
            *old(self) is Failing ==> r is Err,
    {
        match self {
            Sink::Buffer(_) => Ok(()),
            Sink::Console(_) => stdout_flush(),
            Sink::Failing => Err(SinkWriteError),
        }
    }

    /// The received bytes of an in-memory sink; `None` for every other
    /// kind of destination, whose bytes have left the process.
    pub fn buffered(&self) -> (r: Option<&Vec<u8>>)
        ensures
            match r {
                Some(buf) => *self is Buffer && buf@ == self.recorded(),
                None => !(*self is Buffer),
            },
    {
        match self {
            Sink::Buffer(buf) => Some(buf),
            Sink::Console(_) => None,
            Sink::Failing => None,
        }
    }
}

/// Append every byte of `data` to `v`, in order.
fn push_bytes(v: &mut Vec<u8>, data: &[u8])
    ensures
        final(v)@ == old(v)@ + data@,
{
    let n = data.len();
    let mut i: usize = 0;
    while i < n
        invariant
            n == data@.len(),
            i <= n,
            v@ == old(v)@ + data@.subrange(0, i as int),
        decreases n - i,
    {
        v.push(data[i]);
        i = i + 1;
        proof {
            assert(data@.subrange(0, i as int)
                =~= data@.subrange(0, i - 1).push(data@[i - 1]));
        }
    }
    proof {
        assert(data@.subrange(0, n as int) =~= data@);
    }
}

/// Relies on `std::io::Stdout::write_all`: on `Ok` the whole buffer was
/// handed to standard output; on `Err` the write is treated as not
/// delivered.
#[verifier::external_body]
fn stdout_write_all(data: &[u8]) -> (r: Result<(), SinkWriteError>) {
    match std::io::stdout().write_all(data) {
        Ok(()) => Ok(()),
        Err(_) => Err(SinkWriteError),
    }
}

/// Relies on `std::io::Stdout::flush`: best-effort flush of standard
/// output.
#[verifier::external_body]
fn stdout_flush() -> (r: Result<(), SinkWriteError>) {
    match std::io::stdout().flush() {
        Ok(()) => Ok(()),
        Err(_) => Err(SinkWriteError),
    }
}

} // verus!
