//! The record that one sample leaves in the output file: the local time of
//! day, a tab, the physical memory in whole mebibytes, and a line feed.

use crate::decimal::{decimal, is_digit, push_decimal};
use crate::MemoryStats;
use vstd::prelude::*;

verus! {

/// The physical memory of `stats` in whole mebibytes: its bytes divided by
/// 1024 and once more by 1024, each time rounded down.
pub open spec fn whole_mebibytes(stats: MemoryStats) -> nat {
    (stats.physical_mem as nat) / 1024 / 1024
}

/// The record of a sample taken at the time of day `when` and holding
/// `mem_mb` mebibytes.
pub open spec fn line(when: Seq<u8>, mem_mb: nat) -> Seq<u8> {
    when + seq![9u8] + decimal(mem_mb) + seq![10u8]
}

/// The number that two digits write.
pub open spec fn two_digits(tens: u8, ones: u8) -> int {
    (tens - 48) * 10 + (ones - 48)
}

/// A time of day written as `HH:MM:SS`: hour, minute and second with two
/// digits each and a colon between them. The second may be 60, on a leap
/// second.
pub open spec fn is_time_of_day(s: Seq<u8>) -> bool {
    &&& s.len() == 8
    &&& is_digit(s[0]) && is_digit(s[1]) && two_digits(s[0], s[1]) <= 23
    &&& s[2] == 58
    &&& is_digit(s[3]) && is_digit(s[4]) && two_digits(s[3], s[4]) <= 59
    &&& s[5] == 58
    &&& is_digit(s[6]) && is_digit(s[7]) && two_digits(s[6], s[7]) <= 60
}

/// Two successive floor divisions by 1024 are one floor division by
/// 1048576: a snapshot of `k` whole mebibytes, and of anything less than one
/// mebibyte more, converts to exactly `k`.
pub proof fn mebibytes_are_exact(stats: MemoryStats, k: nat)
    ensures
        whole_mebibytes(stats) == stats.physical_mem as nat / 1048576,
        k * 1048576 <= stats.physical_mem < (k + 1) * 1048576 ==> whole_mebibytes(stats) == k,
{
    let p = stats.physical_mem as nat;
    assert(p / 1024 / 1024 == p / 1048576) by (nonlinear_arith);
    if k * 1048576 <= p < (k + 1) * 1048576 {
        assert(p / 1048576 == k) by (nonlinear_arith)
            requires
                k * 1048576 <= p < (k + 1) * 1048576,
        ;
    }
}

/// The physical memory of `stats` in whole mebibytes.
pub fn mebibytes(stats: MemoryStats) -> (mem_mb: usize)
    ensures
        mem_mb == whole_mebibytes(stats),
{
    let mem_kb: usize = stats.physical_mem / 1024;
    mem_kb / 1024
}

/// The record of a sample taken at the time of day `when` and holding
/// `mem_mb` mebibytes.
pub fn record_line(when: &[u8], mem_mb: usize) -> (record: Vec<u8>)
    ensures
        record@ == line(when@, mem_mb as nat),
{
    let mut record: Vec<u8> = Vec::new();
    record.extend_from_slice(when);
    record.push(9);
    push_decimal(&mut record, mem_mb);
    record.push(10);
    assert(record@ == line(when@, mem_mb as nat));
    record
}

/// The local time of day, as `chrono::Local::now()` reads it from the system
/// clock and `format("%H:%M:%S")` writes it.
///
/// Trusted: what comes back is eight bytes, `HH:MM:SS`, which is how chrono
/// documents and writes the three items, each zero-padded to two digits, with
/// the hour up to 23, the minute up to 59 and the second up to 60.
#[verifier::external_body]
fn local_time_of_day() -> (when: Vec<u8>)
    ensures
        is_time_of_day(when@),
{
    chrono::Local::now().format("%H:%M:%S").to_string().into_bytes()
}

/// The record for the answer to one probe, stamped with the local time at
/// which it is made: none where the probe had no answer.
pub fn sample_record(snapshot: Option<MemoryStats>) -> (record: Option<Vec<u8>>)
    ensures
        snapshot is None <==> record is None,
        record matches Some(r) ==> is_time_of_day(r@.take(8)) && r@ == line(
            r@.take(8),
            whole_mebibytes(snapshot->0),
        ),
{
    match snapshot {
        None => None,
        Some(stats) => {
            let when = local_time_of_day();
            let record = record_line(when.as_slice(), mebibytes(stats));
            assert(record@.take(8) == when@);
            Some(record)
        },
    }
}

} // verus!
