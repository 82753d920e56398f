use dumbmem::decimal::{parse_usize, push_decimal};
use dumbmem::{memory_stats, platform, MemoryStats, Proc};

fn expected(text: &str) -> Proc {
    match text.parse::<usize>() {
        Ok(id) => Proc::Other(id),
        Err(_) => Proc::This,
    }
}

fn written(n: usize) -> Vec<u8> {
    let mut out: Vec<u8> = Vec::new();
    push_decimal(&mut out, n);
    out
}

#[test]
fn number_names_another_process() {
    assert_eq!(Proc::from("123"), Proc::Other(123));
    assert_eq!(Proc::from("0"), Proc::Other(0));
    assert_eq!(Proc::from("007"), Proc::Other(7));
    assert_eq!(Proc::from("+42"), Proc::Other(42));
}

#[test]
fn anything_else_names_this_process() {
    assert_eq!(Proc::from(""), Proc::This);
    assert_eq!(Proc::from("self"), Proc::This);
    assert_eq!(Proc::from("-1"), Proc::This);
    assert_eq!(Proc::from("+"), Proc::This);
    assert_eq!(Proc::from("++1"), Proc::This);
    assert_eq!(Proc::from("12a"), Proc::This);
    assert_eq!(Proc::from(" 12"), Proc::This);
    assert_eq!(Proc::from("12 "), Proc::This);
    assert_eq!(Proc::from("1_000"), Proc::This);
    assert_eq!(Proc::from("١٢٣"), Proc::This);
}

#[test]
fn number_too_large_names_this_process() {
    let max: String = usize::MAX.to_string();
    assert_eq!(Proc::from(max.as_str()), Proc::Other(usize::MAX));
    let mut over: Vec<u8> = max.clone().into_bytes();
    let last: usize = over.len() - 1;
    over[last] += 1;
    let over: String = String::from_utf8(over).unwrap();
    assert_eq!(Proc::from(over.as_str()), Proc::This);
    assert_eq!(Proc::from("99999999999999999999999999999999999999999"), Proc::This);
    let padded: String = format!("{}{}", "0".repeat(40), max);
    assert_eq!(Proc::from(padded.as_str()), Proc::Other(usize::MAX));
}

#[test]
fn text_is_read_as_the_standard_parser_reads_it() {
    let max: String = usize::MAX.to_string();
    let times_ten: String = format!("{}0", max);
    let texts: [&str; 22] = [
        "", "0", "1", "9", "10", "+0", "+", "-", "-0", "00", "4096", "65536", "4294967295",
        "4294967296", "18446744073709551615", "18446744073709551616", "1e3", "0x10", "12\n",
        "\t12", max.as_str(), times_ten.as_str(),
    ];
    for text in texts.iter() {
        assert_eq!(Proc::from(*text), expected(text));
        assert_eq!(Proc::from(text.to_string()), expected(text));
        assert_eq!(parse_usize(text.as_bytes()), text.parse::<usize>().ok());
    }
}

#[test]
fn identifier_names_that_process() {
    assert_eq!(Proc::from(17usize), Proc::Other(17));
    assert_eq!(Proc::from(0usize), Proc::Other(0));
    assert_eq!(Proc::from(usize::MAX), Proc::Other(usize::MAX));
}

#[test]
fn owned_text_is_read_like_borrowed_text() {
    assert_eq!(Proc::from(String::from("31337")), Proc::Other(31337));
    assert_eq!(Proc::from(String::from("pid")), Proc::This);
    assert_eq!(Proc::from(String::new()), Proc::This);
}

#[test]
fn bytes_that_are_no_text_are_no_number() {
    assert_eq!(parse_usize(&[0xff, 0x31]), None);
    assert_eq!(parse_usize(&[0x31, 0x00]), None);
    assert_eq!(parse_usize(b"/0"), None);
    assert_eq!(parse_usize(b":0"), None);
    assert_eq!(parse_usize(b"0123456789"), Some(123456789));
}

#[test]
fn decimal_digits_are_appended() {
    assert_eq!(written(0), b"0".to_vec());
    assert_eq!(written(7), b"7".to_vec());
    assert_eq!(written(10), b"10".to_vec());
    assert_eq!(written(1234567890), b"1234567890".to_vec());
    assert_eq!(written(usize::MAX), usize::MAX.to_string().into_bytes());
    let mut out: Vec<u8> = b"pid=".to_vec();
    push_decimal(&mut out, 305);
    assert_eq!(out, b"pid=305".to_vec());
}

#[test]
fn what_is_written_is_read_back() {
    let numbers: [usize; 9] = [0, 1, 9, 10, 99, 100, 65535, 1048576, usize::MAX];
    for n in numbers.iter() {
        assert_eq!(parse_usize(&written(*n)), Some(*n));
    }
}

const STATUS: &[u8] = b"Name:\tsleep\nPid:\t42\nVmSize:\t    5816 kB\nVmRSS:\t     980 kB\n";

/// Queries `proc` with a reader that answers `content`, and gives back the
/// answer and the paths that the reader was handed.
fn query(proc: impl Into<Proc>, content: Option<&[u8]>) -> (Option<MemoryStats>, Vec<String>) {
    let mut asked: Vec<String> = Vec::new();
    let stats: Option<MemoryStats> = memory_stats(proc, |path: Vec<u8>| {
        asked.push(String::from_utf8(path).unwrap());
        content.map(|c| c.to_vec())
    });
    (stats, asked)
}

#[test]
fn query_reads_the_status_file_of_the_process_once() {
    assert_eq!(query(42usize, None).1, vec!["/proc/42/status".to_string()]);
    assert_eq!(query("4242", None).1, vec!["/proc/4242/status".to_string()]);
    assert_eq!(query(String::from("1"), None).1, vec!["/proc/1/status".to_string()]);
    assert_eq!(query("self", None).1, vec!["/proc/self/status".to_string()]);
    assert_eq!(query(Proc::This, None).1, vec!["/proc/self/status".to_string()]);
    assert_eq!(query(Proc::Other(0), Some(STATUS)).1, vec!["/proc/0/status".to_string()]);
}

#[test]
fn query_answers_what_the_status_file_reports() {
    let expected: MemoryStats = MemoryStats { physical_mem: 980 * 1024, virtual_mem: 5816 * 1024 };
    assert_eq!(query(42usize, Some(STATUS)).0, Some(expected));
    assert_eq!(query("42", Some(STATUS)).0, Some(expected));
    assert_eq!(query(Proc::This, Some(STATUS)).0, Some(expected));
    assert_eq!(
        query(7usize, Some(b"VmRSS: 1 kB\nVmSize: 2 kB\n")).0,
        Some(MemoryStats { physical_mem: 1024, virtual_mem: 2048 })
    );
}

#[test]
fn query_of_a_process_that_cannot_be_read_is_unavailable() {
    assert_eq!(query(42usize, None).0, None);
    assert_eq!(query(Proc::This, None).0, None);
}

#[test]
fn query_of_a_malformed_status_file_is_unavailable() {
    assert_eq!(query(42usize, Some(b"")).0, None);
    assert_eq!(query(42usize, Some(b"Name:\tkthreadd\n")).0, None);
    assert_eq!(query(42usize, Some(b"VmRSS: 1 kB\n")).0, None);
    assert_eq!(query(42usize, Some(b"VmRSS: 1 kB\nVmSize: many kB\n")).0, None);
    assert_eq!(query(42usize, Some(b"VmRSS: 1\nVmSize: 2 kB\n")).0, None);
}

#[test]
fn platform_without_accounting_answers_nothing() {
    assert_eq!(platform::memory_stats(Proc::This), None);
    assert_eq!(platform::memory_stats(Proc::Other(1)), None);
}

#[test]
fn snapshots_are_plain_values() {
    let a: MemoryStats = MemoryStats { physical_mem: 4096, virtual_mem: 8192 };
    let b: MemoryStats = a;
    assert_eq!(a, b);
    assert_ne!(a, MemoryStats { physical_mem: 4096, virtual_mem: 8193 });
    assert_eq!(format!("{:?}", a), "MemoryStats { physical_mem: 4096, virtual_mem: 8192 }");
}
