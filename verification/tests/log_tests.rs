use co_tester::log::{GrfLogEntry, LogEntry, MemLogEntry, NumberError, ParseLogError};

fn grf(pc: u32, addr: u8, data: u32) -> Result<LogEntry, ParseLogError> {
    Ok(LogEntry::Grf(GrfLogEntry::new(pc, addr, data)))
}

fn mem(pc: u32, addr: u32, data: u32) -> Result<LogEntry, ParseLogError> {
    Ok(LogEntry::Mem(MemLogEntry::new(pc, addr, data)))
}

const NOISE: Result<LogEntry, ParseLogError> = Err(ParseLogError { source: None });

#[test]
fn entries_keep_their_fields() {
    let entry = GrfLogEntry::new(0x3000, 7, 0xdead_beef);
    assert_eq!(entry.pc(), 0x3000);
    assert_eq!(entry.addr(), 7);
    assert_eq!(entry.data(), 0xdead_beef);
    let entry = MemLogEntry::new(0x3004, 0x10, 1);
    assert_eq!(entry.addr(), 0x10);
    assert_eq!(entry, MemLogEntry { pc: 0x3004, addr: 0x10, data: 1 });
}

#[test]
fn entries_render_in_the_trace_format() {
    assert_eq!(GrfLogEntry::new(0x3000, 1, 5).render_text(), "@00003000: $ 1 <= 00000005");
    assert_eq!(GrfLogEntry::new(0x3ffc, 31, 0xdead_beef).render_text(), "@00003ffc: $31 <= deadbeef");
    assert_eq!(GrfLogEntry::new(0, 10, 0).render_text(), "@00000000: $10 <= 00000000");
    assert_eq!(GrfLogEntry::new(0xffff_ffff, 255, 0xffff_ffff).render_text(), "@ffffffff: $255 <= ffffffff");
    assert_eq!(MemLogEntry::new(0x3008, 0, 5).render_text(), "@00003008: *00000000 <= 00000005");
    assert_eq!(MemLogEntry::new(0x1234_abcd, 0x2ffc, 0x0a0b_0c0d).render_text(), "@1234abcd: *00002ffc <= 0a0b0c0d");
    assert_eq!(LogEntry::Grf(GrfLogEntry::new(0x3000, 9, 16)).render_text(), "@00003000: $ 9 <= 00000010");
    assert_eq!(LogEntry::Mem(MemLogEntry::new(0x3000, 4, 16)).render_text(), "@00003000: *00000004 <= 00000010");
}

#[test]
fn well_formed_lines_parse() {
    assert_eq!(LogEntry::parse(b"@00003000: $ 1 <= 00000005"), grf(0x3000, 1, 5));
    assert_eq!(LogEntry::parse(b"@00003000: $1 <= 00000005"), grf(0x3000, 1, 5));
    assert_eq!(LogEntry::parse(b"@00003000: $31 <= deadBEEF"), grf(0x3000, 31, 0xdead_beef));
    assert_eq!(LogEntry::parse(b"@00003000: $    12 <= 0000000a"), grf(0x3000, 12, 10));
    assert_eq!(LogEntry::parse(b"@00003000: $007 <= 00000005"), grf(0x3000, 7, 5));
    assert_eq!(LogEntry::parse(b"@00003000: $255 <= 00000005"), grf(0x3000, 255, 5));
    assert_eq!(LogEntry::parse(b"@00003000: $0 <= 00000005"), grf(0x3000, 0, 5));
    assert_eq!(LogEntry::parse(b"@ABCDEF01: $ 2 <= 89abcdef"), grf(0xabcd_ef01, 2, 0x89ab_cdef));
    assert_eq!(LogEntry::parse(b"@00003008: *00000000 <= 00000005"), mem(0x3008, 0, 5));
    assert_eq!(LogEntry::parse(b"@00003008: *00002FFC <= ffffffff"), mem(0x3008, 0x2ffc, 0xffff_ffff));
}

#[test]
fn a_prefix_of_spaces_and_digits_is_passed_over() {
    assert_eq!(LogEntry::parse(b"   @00003000: $ 1 <= 00000005"), grf(0x3000, 1, 5));
    assert_eq!(LogEntry::parse(b"125@00003000: $ 1 <= 00000005"), grf(0x3000, 1, 5));
    assert_eq!(LogEntry::parse(b"       1350@00003008: *00000004 <= 00000005"), mem(0x3008, 4, 5));
    assert_eq!(LogEntry::parse(b"12 @00003000: $ 1 <= 00000005"), NOISE);
    assert_eq!(LogEntry::parse(b" 1 2@00003000: $ 1 <= 00000005"), NOISE);
    assert_eq!(LogEntry::parse(b"x@00003000: $ 1 <= 00000005"), NOISE);
}

#[test]
fn other_lines_are_noise() {
    for line in [
        &b""[..],
        b"VCD info: dumpfile wave.vcd opened for output.",
        b"@00003000",
        b"@00003000: $ 1 <= 0000005",
        b"@00003000: $ 1 <= 000000055",
        b"@00003000: $ 1 <= 00000005 ",
        b"@00003000: $ 1 <= 0000000g",
        b"@0000300: $ 1 <= 00000005",
        b"@0000300g: $ 1 <= 00000005",
        b"@00003000:$ 1 <= 00000005",
        b"@00003000:  $ 1 <= 00000005",
        b"@00003000: $ <= 00000005",
        b"@00003000: $ 1<= 00000005",
        b"@00003000: $ 1  <= 00000005",
        b"@00003000: $ 1 = 00000005",
        b"@00003000: $ 1 <=00000005",
        b"@00003000: $-1 <= 00000005",
        b"@00003000: $1a <= 00000005",
        b"@00003000: # 1 <= 00000005",
        b"@00003000: *0000000 <= 00000005",
        b"@00003000: * 00000000 <= 00000005",
        b"@00003000: *000000000 <= 00000005",
        b"@00003000: *0000000z <= 00000005",
        b"@00003000: *00000000 <= 0000005",
        b"00003000: $ 1 <= 00000005",
        b"@00003000: $ 1 <= 00000005\r",
        b"@00003000: $ 1 <= 00000005\n",
        b"@00003000: $ 1 <= \xff0000005",
        b"\xc3\xa9@00003000: $ 1 <= 00000005",
    ] {
        assert_eq!(LogEntry::parse(line), NOISE, "{:?}", String::from_utf8_lossy(line));
    }
}

#[test]
fn a_register_index_too_large_is_an_error_with_a_source() {
    let overflow = Err(ParseLogError { source: Some(NumberError::PosOverflow) });
    assert_eq!(LogEntry::parse(b"@00003000: $256 <= 00000005"), overflow);
    assert_eq!(LogEntry::parse(b"@00003000: $0000256 <= 00000005"), overflow);
    assert_eq!(LogEntry::parse(b"@00003000: $99999999999999999999999999 <= 00000005"), overflow);
    assert_eq!(LogEntry::parse(b"@00003000: $0000000000000000000000000255 <= 00000005"), grf(0x3000, 255, 5));
    // A line of another shape is noise, however large its number.
    assert_eq!(LogEntry::parse(b"@00003000: $256 <= 0000005"), NOISE);
}

#[test]
fn parse_errors_say_what_they_are() {
    assert_eq!(ParseLogError { source: None }.message(), "invalid log line");
    assert_eq!(
        ParseLogError { source: Some(NumberError::PosOverflow) }.message(),
        "invalid log line, source: number too large to fit in target type"
    );
}

#[test]
fn lines_parse_from_text_as_from_bytes() {
    assert_eq!("@00003000: $ 1 <= 00000005".parse::<LogEntry>(), grf(0x3000, 1, 5));
    assert_eq!("  12@00003008: *00000004 <= deadbeef".parse::<LogEntry>(), mem(0x3008, 4, 0xdead_beef));
    assert_eq!("@00003000: $256 <= 00000005".parse::<LogEntry>(), Err(ParseLogError { source: Some(NumberError::PosOverflow) }));
    assert_eq!("no entry".parse::<LogEntry>(), NOISE);
    assert_eq!("\u{e9}@00003000: $ 1 <= 00000005".parse::<LogEntry>(), NOISE);
    assert_eq!("@00003000: $ 1 <= 0000000\u{ff15}".parse::<LogEntry>(), NOISE);
}

#[test]
fn rendered_entries_parse_back() {
    for pc in [0u32, 0x3000, 0x3ffc, 0xffff_ffff, 0x89ab_cdef] {
        for data in [0u32, 5, 0xdead_beef, 0xffff_ffff] {
            for addr in [0u8, 1, 9, 10, 31, 99, 100, 255] {
                let entry = GrfLogEntry::new(pc, addr, data);
                assert_eq!(LogEntry::parse(entry.render_text().as_bytes()), Ok(LogEntry::Grf(entry)));
            }
            for addr in [0u32, 4, 0x2ffc, 0xffff_fffc] {
                let entry = MemLogEntry::new(pc, addr, data);
                assert_eq!(LogEntry::parse(entry.render_text().as_bytes()), Ok(LogEntry::Mem(entry)));
            }
        }
    }
}
