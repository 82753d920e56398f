//! Supervision of one child process whose memory use is sampled at a fixed
//! interval: the decisions of the supervisor and of the sampler, the memory
//! query, the text of a record, and the parsing of the command line and of the
//! accounting text, each with a contract that Verus proves.

pub mod command;
pub mod decimal;
pub mod error;
pub mod platform;
pub mod procfs;
pub mod record;
pub mod sampler;
pub mod supervisor;

use crate::decimal::{as_usize, parse_usize, unsigned_value};
use vstd::prelude::*;
use vstd::std_specs::convert::FromSpecImpl;

verus! {

/// The process that a memory query is about.
#[derive(Clone, Copy, Debug, PartialEq, Eq, Structural)]
pub enum Proc {
    /// The process that asks.
    This,
    /// The process with this identifier.
    Other(usize),
}

impl Proc {
    /// The process that a text of these bytes names: the one whose identifier
    /// the text writes as an unsigned decimal number, and the asking process
    /// where the text is anything else or the number too large.
    pub open spec fn named_by(text: Seq<u8>) -> Proc {
        match as_usize(unsigned_value(text)) {
            Some(id) => Proc::Other(id),
            None => Proc::This,
        }
    }
}

impl From<usize> for Proc {
    fn from(value: usize) -> (r: Self) {
        Self::Other(value)
    }
}

impl FromSpecImpl<usize> for Proc {
    open spec fn obeys_from_spec() -> bool {
        true
    }

    open spec fn from_spec(v: usize) -> Proc {
        Proc::Other(v)
    }
}

impl From<&str> for Proc {
    fn from(value: &str) -> (r: Self) {
        match parse_usize(value.as_bytes()) {
            Some(id) => Proc::Other(id),
            None => Proc::This,
        }
    }
}

impl FromSpecImpl<&str> for Proc {
    open spec fn obeys_from_spec() -> bool {
        true
    }

    open spec fn from_spec(v: &str) -> Proc {
        Proc::named_by(vstd::utf8::encode_utf8(v@))
    }
}

impl From<String> for Proc {
    fn from(value: String) -> (r: Self) {
        match parse_usize(value.as_str().as_bytes()) {
            Some(id) => Proc::Other(id),
            None => Proc::This,
        }
    }
}

impl FromSpecImpl<String> for Proc {
    open spec fn obeys_from_spec() -> bool {
        true
    }

    open spec fn from_spec(v: String) -> Proc {
        Proc::named_by(vstd::utf8::encode_utf8(v@))
    }
}

/// Statistics on the memory used by one process at one instant.
#[derive(Clone, Copy, PartialEq, Eq, Hash, Debug, Structural)]
pub struct MemoryStats {
    /// The "physical" memory used, in bytes.
    pub physical_mem: usize,
    /// The "virtual" memory used, in bytes.
    pub virtual_mem: usize,
}

/// The answer to a query whose read of the accounting text came to `text`:
/// what the text reports, and nothing where there was no text to read.
pub open spec fn stats_of_read(text: Option<Vec<u8>>) -> Option<MemoryStats> {
    match text {
        Some(status) => procfs::stats_in(status@),
        None => None,
    }
}

/// Returns a snapshot of the memory used by the specified process, or `None`
/// where it cannot be queried.
///
/// The library reads nothing from the system itself: `read` is handed the
/// path of the process's `status` file, once, and answers with the content of
/// that file, or with `None` where it cannot be read. The snapshot is what
/// that content reports. It is `None` where nothing was read, as on a
/// platform without memory accounting, and where the content lacks one of the
/// two numbers, is malformed, or reports more than a `usize` can hold.
///
/// All that is asked of `read` is that it can be called with that path; a
/// function without a precondition can.
pub fn memory_stats<P, R>(proc: P, read: R) -> (stats: Option<MemoryStats>)
    where
        P: Into<Proc>,
        R: FnOnce(Vec<u8>) -> Option<Vec<u8>>,
    requires
        forall|target: Proc, path: Vec<u8>|
            call_ensures(<P as Into<Proc>>::into, (proc,), target)
                && path@ == procfs::status_path_of(target)
                ==> call_requires(read, (path,)),
    ensures
        exists|target: Proc, path: Vec<u8>, text: Option<Vec<u8>>|
            call_ensures(<P as Into<Proc>>::into, (proc,), target)
                && path@ == procfs::status_path_of(target)
                && call_ensures(read, (path,), text)
                && stats == stats_of_read(text),
{
    let target: Proc = proc.into();
    let path = procfs::status_path(target);
    let text = read(path);
    match &text {
        Some(status) => procfs::stats_from_status(status.as_slice()),
        None => platform::memory_stats(target),
    }
}

} // verus!
