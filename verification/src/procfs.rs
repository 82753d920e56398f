//! The memory accounting that Linux offers as text, in the `status` file of a
//! process: lines of the form `Key:`, blanks, a number and ` kB`.
//!
//! The resident set, `VmRSS`, is the physical memory of the process and
//! `VmSize` its virtual memory, both in kibibytes.

use crate::decimal::{all_digits, as_usize, decimal, digits_value, is_digit, parse_digits, push_decimal};
use crate::{MemoryStats, Proc};
use vstd::prelude::*;

verus! {

/// A kind of byte that a run is made of.
#[derive(Clone, Copy, Debug, PartialEq, Eq, Structural)]
pub enum ByteClass {
    /// A space or a tab.
    Blank,
    /// An ASCII digit.
    Digit,
    /// Any byte but the line feed.
    InLine,
}

impl ByteClass {
    /// The byte is of this kind.
    pub open spec fn holds(self, b: u8) -> bool {
        match self {
            ByteClass::Blank => b == 32 || b == 9,
            ByteClass::Digit => is_digit(b),
            ByteClass::InLine => b != 10,
        }
    }

    /// Whether the byte is of this kind.
    pub fn test(self, b: u8) -> (holds: bool)
        ensures
            holds == self.holds(b),
    {
        match self {
            ByteClass::Blank => b == 32 || b == 9,
            ByteClass::Digit => 48 <= b && b <= 57,
            ByteClass::InLine => b != 10,
        }
    }
}

/// The bytes `VmRSS:`.
pub open spec fn resident_key() -> Seq<u8> {
    seq![86u8, 109, 82, 83, 83, 58]
}

/// The bytes `VmSize:`.
pub open spec fn virtual_key() -> Seq<u8> {
    seq![86u8, 109, 83, 105, 122, 101, 58]
}

/// The bytes ` kB`.
pub open spec fn unit() -> Seq<u8> {
    seq![32u8, 107, 66]
}

/// Where the run of bytes of kind `class` that starts at `pos` ends: the
/// index of the first byte from `pos` on that is of another kind, or the
/// length of the text.
pub open spec fn run_end(text: Seq<u8>, pos: int, class: ByteClass) -> int
    decreases text.len() - pos,
{
    if 0 <= pos < text.len() && class.holds(text[pos]) {
        run_end(text, pos + 1, class)
    } else {
        pos
    }
}

/// The text holds `word` at index `pos`.
pub open spec fn has_at(text: Seq<u8>, pos: int, word: Seq<u8>) -> bool {
    0 <= pos && pos + word.len() <= text.len() && text.subrange(pos, pos + word.len()) == word
}

/// The number of a field whose key ends just before `pos`: blanks, or none,
/// then digits, then ` kB` and the end of the line. `None` where the rest of
/// the line is anything else.
pub open spec fn field_at(text: Seq<u8>, pos: int) -> Option<nat> {
    let number = run_end(text, pos, ByteClass::Blank);
    let end = run_end(text, number, ByteClass::Digit);
    if number < end && has_at(text, end, unit()) && (end + 3 == text.len() || text[end + 3] == 10) {
        Some(digits_value(text.subrange(number, end)))
    } else {
        None
    }
}

/// The number of the first line, among those that start at `pos` or later,
/// that begins with `key`; `pos` is the start of a line. `None` where no line
/// begins with `key`, and where the first that does is no well-formed field.
pub open spec fn find_field(text: Seq<u8>, key: Seq<u8>, pos: int) -> Option<nat>
    decreases text.len() - pos,
{
    if !(0 <= pos < text.len()) {
        None
    } else if has_at(text, pos, key) {
        field_at(text, pos + key.len())
    } else {
        let end = run_end(text, pos, ByteClass::InLine);
        proof {
            run_end_is_run(text, pos, ByteClass::InLine);
        }
        if end < text.len() {
            find_field(text, key, end + 1)
        } else {
            None
        }
    }
}

/// A number of kibibytes in bytes, where there is one and a `usize` can hold
/// it.
pub open spec fn kib_in_bytes(kib: Option<nat>) -> Option<usize> {
    match kib {
        Some(k) => as_usize(Some(k * 1024)),
        None => None,
    }
}

/// The memory statistics that a `status` text reports: its `VmRSS` as the
/// physical and its `VmSize` as the virtual memory. `None` where one of the
/// two is missing, malformed or too large.
pub open spec fn stats_in(status: Seq<u8>) -> Option<MemoryStats> {
    match (
        kib_in_bytes(find_field(status, resident_key(), 0)),
        kib_in_bytes(find_field(status, virtual_key(), 0)),
    ) {
        (Some(physical_mem), Some(virtual_mem)) => Some(MemoryStats { physical_mem, virtual_mem }),
        _ => None,
    }
}

/// The path of the `status` file of a process: `/proc/self/status` for the
/// asking process, `/proc/<pid>/status` for another.
pub open spec fn status_path_of(proc: Proc) -> Seq<u8> {
    seq![47u8, 112, 114, 111, 99, 47] + match proc {
        Proc::This => seq![115u8, 101, 108, 102],
        Proc::Other(pid) => decimal(pid as nat),
    } + seq![47u8, 115, 116, 97, 116, 117, 115]
}

/// A run ends inside the text, holds only bytes of its kind, and is followed
/// by a byte of another kind or by nothing.
pub proof fn run_end_is_run(text: Seq<u8>, pos: int, class: ByteClass)
    requires
        0 <= pos <= text.len(),
    ensures
        pos <= run_end(text, pos, class) <= text.len(),
        forall|i: int| pos <= i < run_end(text, pos, class) ==> class.holds(#[trigger] text[i]),
        run_end(text, pos, class) < text.len() ==> !class.holds(
            text[run_end(text, pos, class)],
        ),
    decreases text.len() - pos,
{
    if pos < text.len() && class.holds(text[pos]) {
        run_end_is_run(text, pos + 1, class);
    }
}

/// Finds where the run of bytes of kind `class` that starts at `pos` ends.
fn scan(text: &[u8], pos: usize, class: ByteClass) -> (end: usize)
    requires
        pos <= text@.len(),
    ensures
        end == run_end(text@, pos as int, class),
        pos <= end <= text@.len(),
{
    let mut i: usize = pos;
    while i < text.len() && class.test(text[i])
        invariant
            pos <= i <= text@.len(),
            run_end(text@, pos as int, class) == run_end(text@, i as int, class),
        decreases text@.len() - i,
    {
        i += 1;
    }
    i
}

/// Whether the text holds `word` at index `pos`.
pub fn holds_at(text: &[u8], pos: usize, word: &[u8]) -> (found: bool)
    ensures
        found == has_at(text@, pos as int, word@),
{
    if pos > text.len() || word.len() > text.len() - pos {
        return false;
    }
    let mut k: usize = 0;
    while k < word.len()
        invariant
            k <= word@.len(),
            pos + word@.len() <= text@.len() <= usize::MAX,
            forall|j: int| 0 <= j < k ==> text@[pos + j] == word@[j],
        decreases word@.len() - k,
    {
        if text[pos + k] != word[k] {
            assert(text@.subrange(pos as int, pos + word@.len())[k as int] != word@[k as int]);
            return false;
        }
        k += 1;
    }
    assert(text@.subrange(pos as int, pos + word@.len()) =~= word@);
    true
}

/// Reads the number of a field whose key ends just before `pos`.
fn read_field(text: &[u8], pos: usize) -> (value: Option<usize>)
    requires
        pos <= text@.len(),
    ensures
        value == as_usize(field_at(text@, pos as int)),
{
    let number = scan(text, pos, ByteClass::Blank);
    let end = scan(text, number, ByteClass::Digit);
    if number == end {
        return None;
    }
    let unit = vec![32u8, 107, 66];
    assert(unit@ == self::unit());
    if !holds_at(text, end, unit.as_slice()) {
        return None;
    }
    let length: usize = text.len();
    if end + 3 != length && text[end + 3] != 10 {
        return None;
    }
    proof {
        run_end_is_run(text@, number as int, ByteClass::Digit);
        assert(all_digits(text@.subrange(number as int, end as int)));
    }
    parse_digits(text, number, end)
}

/// Finds the first line that begins with `key` and reads its number.
pub fn read_status_field(text: &[u8], key: &[u8]) -> (value: Option<usize>)
    ensures
        value == as_usize(find_field(text@, key@, 0)),
{
    let mut pos: usize = 0;
    while pos < text.len()
        invariant
            pos <= text@.len(),
            find_field(text@, key@, 0) == find_field(text@, key@, pos as int),
        decreases text@.len() - pos,
    {
        if holds_at(text, pos, key) {
            return read_field(text, pos + key.len());
        }
        let end = scan(text, pos, ByteClass::InLine);
        if end >= text.len() {
            return None;
        }
        pos = end + 1;
    }
    None
}

/// The memory statistics that a `status` text reports.
pub fn stats_from_status(status: &[u8]) -> (stats: Option<MemoryStats>)
    ensures
        stats == stats_in(status@),
{
    let resident_key = vec![86u8, 109, 82, 83, 83, 58];
    let virtual_key = vec![86u8, 109, 83, 105, 122, 101, 58];
    assert(resident_key@ == self::resident_key());
    assert(virtual_key@ == self::virtual_key());
    let resident = read_status_field(status, resident_key.as_slice());
    let size = read_status_field(status, virtual_key.as_slice());
    match (resident, size) {
        (Some(resident), Some(size)) => {
            match (resident.checked_mul(1024), size.checked_mul(1024)) {
                (Some(physical_mem), Some(virtual_mem)) => Some(
                    MemoryStats { physical_mem, virtual_mem },
                ),
                _ => None,
            }
        },
        _ => None,
    }
}

/// The path of the `status` file of a process.
pub fn status_path(proc: Proc) -> (path: Vec<u8>)
    ensures
        path@ == status_path_of(proc),
{
    let mut path = vec![47u8, 112, 114, 111, 99, 47];
    match proc {
        Proc::This => {
            let own = vec![115u8, 101, 108, 102];
            path.extend_from_slice(own.as_slice());
        },
        Proc::Other(pid) => {
            push_decimal(&mut path, pid);
        },
    }
    let name = vec![47u8, 115, 116, 97, 116, 117, 115];
    path.extend_from_slice(name.as_slice());
    assert(path@ == status_path_of(proc));
    path
}

/// The line that reports `kib` kibibytes under `key`, as the system writes
/// it: the key, a tab, the number, ` kB` and a line feed.
pub open spec fn field_line(key: Seq<u8>, kib: nat) -> Seq<u8> {
    key + seq![9u8] + decimal(kib) + unit() + seq![10u8]
}

/// A stretch of bytes of one kind that is followed by a byte of another
/// kind, or by nothing, is the run that starts at its first byte.
pub proof fn run_end_is_unique(text: Seq<u8>, pos: int, end: int, class: ByteClass)
    requires
        0 <= pos <= end <= text.len(),
        forall|i: int| pos <= i < end ==> class.holds(#[trigger] text[i]),
        end == text.len() || !class.holds(text[end]),
    ensures
        run_end(text, pos, class) == end,
    decreases end - pos,
{
    if pos < end {
        assert(class.holds(text[pos]));
        run_end_is_unique(text, pos + 1, end, class);
    }
}

/// A well-formed field is read back: where a line starts at `pos` that
/// reports `kib` kibibytes under `key`, that is the number found for `key`
/// from `pos` on.
pub proof fn field_line_is_read(text: Seq<u8>, pos: int, key: Seq<u8>, kib: nat)
    requires
        has_at(text, pos, field_line(key, kib)),
    ensures
        find_field(text, key, pos) == Some(kib),
{
    let line = field_line(key, kib);
    let digits = decimal(kib);
    let number = pos + key.len() + 1;
    let end = number + digits.len();
    crate::decimal::decimal_round_trip(kib);
    assert forall|i: int| 0 <= i < line.len() implies #[trigger] text[pos + i] == line[i] by {
        assert(text.subrange(pos, pos + line.len())[i] == line[i]);
    }
    assert(text.subrange(pos, pos + key.len()) =~= key) by {
        assert forall|i: int| 0 <= i < key.len() implies text.subrange(pos, pos + key.len())[i]
            == key[i] by {
            assert(text[pos + i] == line[i]);
        }
    }
    assert(text[pos + key.len()] == line[key.len() as int]);
    assert(text[number] == line[number - pos] && line[number - pos] == digits[0]);
    assert(is_digit(digits[0]));
    run_end_is_unique(text, pos + key.len(), number, ByteClass::Blank);
    assert forall|i: int| number <= i < end implies ByteClass::Digit.holds(#[trigger] text[i]) by {
        assert(text[pos + (i - pos)] == line[i - pos]);
        assert(line[i - pos] == digits[i - number]);
        assert(is_digit(digits[i - number]));
    }
    assert(text[pos + (end - pos)] == line[end - pos]);
    assert(text[pos + (end + 1 - pos)] == line[end + 1 - pos]);
    assert(text[pos + (end + 2 - pos)] == line[end + 2 - pos]);
    assert(text[pos + (end + 3 - pos)] == line[end + 3 - pos]);
    run_end_is_unique(text, number, end, ByteClass::Digit);
    assert(text.subrange(end, end + 3) =~= unit());
    assert(text.subrange(number, end) =~= digits) by {
        assert forall|i: int| 0 <= i < digits.len() implies text.subrange(number, end)[i]
            == digits[i] by {
            assert(text[pos + (number + i - pos)] == line[number + i - pos]);
        }
    }
}

/// What is written is read back: a `status` text of a `VmSize` line and a
/// `VmRSS` line reports these two numbers of kibibytes, in bytes, unless a
/// `usize` cannot hold one of them.
pub proof fn status_round_trip(resident: nat, size: nat)
    ensures
        stats_in(field_line(virtual_key(), size) + field_line(resident_key(), resident)) == (if resident
            * 1024 <= usize::MAX && size * 1024 <= usize::MAX {
            Some(
                MemoryStats {
                    physical_mem: (resident * 1024) as usize,
                    virtual_mem: (size * 1024) as usize,
                },
            )
        } else {
            None
        }),
{
    let first = field_line(virtual_key(), size);
    let second = field_line(resident_key(), resident);
    let text = first + second;
    crate::decimal::decimal_round_trip(size);
    assert(text.subrange(0, first.len() as int) =~= first);
    assert(text.subrange(first.len() as int, text.len() as int) =~= second);
    field_line_is_read(text, 0, virtual_key(), size);
    field_line_is_read(text, first.len() as int, resident_key(), resident);
    assert(text[2] == first[2] && first[2] == 83);
    assert(!has_at(text, 0, resident_key())) by {
        if has_at(text, 0, resident_key()) {
            assert(text.subrange(0, 6)[2] == resident_key()[2]);
        }
    }
    let last = first.len() - 1;
    assert forall|i: int| 0 <= i < last implies ByteClass::InLine.holds(#[trigger] text[i]) by {
        assert(text[i] == first[i]);
        if 8 <= i < 8 + decimal(size).len() {
            assert(first[i] == decimal(size)[i - 8]);
            assert(is_digit(decimal(size)[i - 8]));
        }
    }
    assert(text[last] == first[last] && first[last] == 10);
    run_end_is_unique(text, 0, last, ByteClass::InLine);
}

} // verus!
