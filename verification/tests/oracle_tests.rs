use co_tester::log::{GrfLogEntry, LogEntry, MemLogEntry};
use co_tester::oracle::{check_trace, TraceFailure};

fn grf_log() -> Vec<GrfLogEntry> {
    vec![
        GrfLogEntry::new(0x3000, 1, 0),
        GrfLogEntry::new(0x3004, 1, 5),
        GrfLogEntry::new(0x300c, 31, 0x3014),
    ]
}

fn mem_log() -> Vec<MemLogEntry> {
    vec![MemLogEntry::new(0x3008, 0, 5), MemLogEntry::new(0x3010, 4, 0xffff_ffff)]
}

const GOOD: &str = "@00003000: $ 1 <= 00000000\n\
@00003004: $ 1 <= 00000005\n\
@00003008: *00000000 <= 00000005\n\
@0000300c: $31 <= 00003014\n\
@00003010: *00000004 <= ffffffff\n";

#[test]
fn the_expected_trace_passes() {
    assert_eq!(check_trace(&grf_log(), &mem_log(), GOOD.as_bytes()), Ok(()));
    assert_eq!(check_trace(&[], &[], b""), Ok(()));
    assert_eq!(check_trace(&[], &[], b"\n\n"), Ok(()));
}

#[test]
fn the_two_kinds_of_write_are_held_apart() {
    // Register and memory writes may interleave otherwise than in the logs.
    let trace = "@00003008: *00000000 <= 00000005\n\
@00003010: *00000004 <= ffffffff\n\
@00003000: $ 1 <= 00000000\n\
@00003004: $ 1 <= 00000005\n\
@0000300c: $31 <= 00003014";
    assert_eq!(check_trace(&grf_log(), &mem_log(), trace.as_bytes()), Ok(()));
}

#[test]
fn noise_and_writes_to_register_zero_are_passed_over() {
    let trace = "VCD info: dumpfile wave.vcd opened for output.\r\n\
   10@00003000: $ 1 <= 00000000\r\n\
@00003002: $ 0 <= 12345678\n\
\n\
@00003004: $ 1 <= 00000005\r\n\
some text\n\
@00003008: *00000000 <= 00000005\n\
@0000300c: $31 <= 00003014\n\
@00003010: *00000004 <= ffffffff\n\
$finish called at 1000";
    assert_eq!(check_trace(&grf_log(), &mem_log(), trace.as_bytes()), Ok(()));
}

#[test]
fn a_missing_last_memory_write_is_too_few_memory_writes() {
    let trace = "@00003000: $ 1 <= 00000000\n\
@00003004: $ 1 <= 00000005\n\
@00003008: *00000000 <= 00000005\n\
@0000300c: $31 <= 00003014\n";
    let failure = check_trace(&grf_log(), &mem_log(), trace.as_bytes()).unwrap_err();
    assert_eq!(
        failure,
        TraceFailure::TooFewWrites { next: LogEntry::Mem(MemLogEntry::new(0x3010, 4, 0xffff_ffff)) }
    );
    assert_eq!(
        failure.message(),
        "too few memory writes, the next expected line is \"@00003010: *00000004 <= ffffffff\"."
    );
}

#[test]
fn a_missing_register_write_is_too_few_register_writes() {
    let trace = "@00003000: $ 1 <= 00000000\n@00003008: *00000000 <= 00000005\n";
    let failure = check_trace(&grf_log(), &mem_log(), trace.as_bytes()).unwrap_err();
    assert_eq!(
        failure,
        TraceFailure::TooFewWrites { next: LogEntry::Grf(GrfLogEntry::new(0x3004, 1, 5)) }
    );
    assert_eq!(
        failure.message(),
        "too few register writes, the next expected line is \"@00003004: $ 1 <= 00000005\"."
    );
    // The register log is asked before the memory log.
    assert_eq!(
        check_trace(&grf_log(), &mem_log(), b""),
        Err(TraceFailure::TooFewWrites { next: LogEntry::Grf(GrfLogEntry::new(0x3000, 1, 0)) })
    );
}

#[test]
fn a_differing_value_fails_at_its_line() {
    let trace = GOOD.replace("@00003004: $ 1 <= 00000005", "@00003004: $ 1 <= 00000004");
    let failure = check_trace(&grf_log(), &mem_log(), trace.as_bytes()).unwrap_err();
    assert_eq!(
        failure,
        TraceFailure::Mismatch {
            line: 2,
            got: LogEntry::Grf(GrfLogEntry::new(0x3004, 1, 4)),
            expected: LogEntry::Grf(GrfLogEntry::new(0x3004, 1, 5)),
        }
    );
    assert_eq!(
        failure.message(),
        "got \"@00003004: $ 1 <= 00000004\" at line 2, but expected \"@00003004: $ 1 <= 00000005\""
    );
}

#[test]
fn every_single_changed_digit_is_caught_at_its_line() {
    let lines: Vec<&str> = GOOD.lines().collect();
    for (index, line) in lines.iter().enumerate() {
        // Change each digit of the value in turn.
        for position in line.len() - 8..line.len() {
            let mut changed = line.as_bytes().to_vec();
            changed[position] = if changed[position] == b'7' { b'8' } else { b'7' };
            let mut trace = Vec::new();
            for (other, text) in lines.iter().enumerate() {
                if other == index {
                    trace.extend_from_slice(&changed);
                } else {
                    trace.extend_from_slice(text.as_bytes());
                }
                trace.push(b'\n');
            }
            match check_trace(&grf_log(), &mem_log(), &trace) {
                Err(TraceFailure::Mismatch { line, got, expected }) => {
                    assert_eq!(line, index + 1);
                    assert_eq!(Ok(got), LogEntry::parse(&changed));
                    assert_eq!(expected.render_text(), *lines[index]);
                }
                other => panic!("line {} changed at {}: {:?}", index + 1, position, other),
            }
        }
    }
}

#[test]
fn line_numbers_count_noise_lines_too() {
    let trace = "noise\n\n@00003000: $ 1 <= 00000000\nnoise\n@00003004: $ 2 <= 00000005\n";
    assert_eq!(
        check_trace(&grf_log(), &mem_log(), trace.as_bytes()),
        Err(TraceFailure::Mismatch {
            line: 5,
            got: LogEntry::Grf(GrfLogEntry::new(0x3004, 2, 5)),
            expected: LogEntry::Grf(GrfLogEntry::new(0x3004, 1, 5)),
        })
    );
}

#[test]
fn a_write_after_the_end_of_the_log_is_unexpected() {
    let trace = format!("{}@00003014: $ 2 <= 00000001\n", GOOD);
    let failure = check_trace(&grf_log(), &mem_log(), trace.as_bytes()).unwrap_err();
    assert_eq!(
        failure,
        TraceFailure::Unexpected { line: 6, got: LogEntry::Grf(GrfLogEntry::new(0x3014, 2, 1)) }
    );
    assert_eq!(
        failure.message(),
        "got \"@00003014: $ 2 <= 00000001\" at line 6, but standard output has ended."
    );
    let trace = format!("{}@00003014: *00000008 <= 00000001\n", GOOD);
    assert_eq!(
        check_trace(&grf_log(), &mem_log(), trace.as_bytes()),
        Err(TraceFailure::Unexpected {
            line: 6,
            got: LogEntry::Mem(MemLogEntry::new(0x3014, 8, 1)),
        })
    );
    // A write to register 0 is passed over even there.
    let trace = format!("{}@00003014: $ 0 <= 00000001\n", GOOD);
    assert_eq!(check_trace(&grf_log(), &mem_log(), trace.as_bytes()), Ok(()));
}

#[test]
fn a_differing_memory_write_fails_at_its_line() {
    let trace = GOOD.replace("*00000004", "*00000008");
    assert_eq!(
        check_trace(&grf_log(), &mem_log(), trace.as_bytes()),
        Err(TraceFailure::Mismatch {
            line: 5,
            got: LogEntry::Mem(MemLogEntry::new(0x3010, 8, 0xffff_ffff)),
            expected: LogEntry::Mem(MemLogEntry::new(0x3010, 4, 0xffff_ffff)),
        })
    );
}

#[test]
fn a_carriage_return_belongs_to_the_line_ending_only() {
    let log = [GrfLogEntry::new(0x3000, 1, 0)];
    assert_eq!(check_trace(&log, &[], b"@00003000: $ 1 <= 00000000\r\n"), Ok(()));
    assert_eq!(check_trace(&log, &[], b"@00003000: $ 1 <= 00000000"), Ok(()));
    // Without a line feed after it, the carriage return is part of the line.
    assert_eq!(
        check_trace(&log, &[], b"@00003000: $ 1 <= 00000000\r"),
        Err(TraceFailure::TooFewWrites { next: LogEntry::Grf(log[0]) })
    );
    assert_eq!(
        check_trace(&log, &[], b"@00003000: $ 1 <= 00000000\r\r\n"),
        Err(TraceFailure::TooFewWrites { next: LogEntry::Grf(log[0]) })
    );
}
