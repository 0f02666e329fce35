use vstd::arithmetic::div_mod::{lemma_fundamental_div_mod, lemma_fundamental_div_mod_converse};
use vstd::prelude::*;
use vstd::string::*;
use crate::text::{
    decimal,
    decimal_width2,
    digit,
    hex,
    hex8,
    hex_digit,
    push_decimal_width2,
    push_hex8,
};

verus! {

/// One write to the general register file: the address of the instruction
/// that made it, the register index and the word written.
#[derive(Debug, PartialEq, Eq, Clone, Copy, Structural)]
pub struct GrfLogEntry {
    pub pc: u32,
    pub addr: u8,
    pub data: u32,
}

impl GrfLogEntry {
    pub fn new(pc: u32, addr: u8, data: u32) -> (entry: Self)
        ensures
            entry == (GrfLogEntry { pc, addr, data }),
    {
        Self { pc, addr, data }
    }

    pub fn pc(&self) -> (pc: u32)
        ensures
            pc == self.pc,
    {
        self.pc
    }

    pub fn addr(&self) -> (addr: u8)
        ensures
            addr == self.addr,
    {
        self.addr
    }

    pub fn data(&self) -> (data: u32)
        ensures
            data == self.data,
    {
        self.data
    }

    /// The line of the entry: `@pc: $rr <= data`, the words as eight
    /// hexadecimal digits and the register index in decimal on two columns.
    pub open spec fn text(&self) -> Seq<char> {
        "@"@ + hex8(self.pc) + ": $"@ + decimal_width2(self.addr as nat) + " <= "@ + hex8(
            self.data,
        )
    }

    pub fn render_text(&self) -> (s: String)
        ensures
            s@ == self.text(),
    {
        let mut s = String::from_str("@");
        push_hex8(&mut s, self.pc);
        s.append(": $");
        push_decimal_width2(&mut s, self.addr as u32);
        s.append(" <= ");
        push_hex8(&mut s, self.data);
        s
    }
}

/// One write to data memory: the address of the instruction that made it,
/// the byte address of the word and the whole word after the write.
#[derive(Debug, PartialEq, Eq, Clone, Copy, Structural)]
pub struct MemLogEntry {
    pub pc: u32,
    pub addr: u32,
    pub data: u32,
}

impl MemLogEntry {
    pub fn new(pc: u32, addr: u32, data: u32) -> (entry: Self)
        ensures
            entry == (MemLogEntry { pc, addr, data }),
    {
        Self { pc, addr, data }
    }

    pub fn addr(&self) -> (addr: u32)
        ensures
            addr == self.addr,
    {
        self.addr
    }

    /// The line of the entry: `@pc: *addr <= data`, each word as eight
    /// hexadecimal digits.
    pub open spec fn text(&self) -> Seq<char> {
        "@"@ + hex8(self.pc) + ": *"@ + hex8(self.addr) + " <= "@ + hex8(self.data)
    }

    pub fn render_text(&self) -> (s: String)
        ensures
            s@ == self.text(),
    {
        let mut s = String::from_str("@");
        push_hex8(&mut s, self.pc);
        s.append(": *");
        push_hex8(&mut s, self.addr);
        s.append(" <= ");
        push_hex8(&mut s, self.data);
        s
    }
}

/// Why a numeral in a line that has the shape of a log entry could not be
/// read.
#[derive(Debug, PartialEq, Eq, Clone, Copy, Structural)]
pub enum NumberError {
    /// The numeral stands for more than its field can hold.
    PosOverflow,
}

/// A line that is no log entry. `source` is `None` where the line has not
/// the shape of one, and the numeral's fault where it has.
#[derive(Debug, PartialEq, Eq, Clone, Copy)]
pub struct ParseLogError {
    pub source: Option<NumberError>,
}

impl ParseLogError {
    /// The error in words.
    pub open spec fn text(&self) -> Seq<char> {
        match self.source {
            Some(NumberError::PosOverflow) => "invalid log line"@
                + ", source: number too large to fit in target type"@,
            None => "invalid log line"@,
        }
    }

    pub fn message(&self) -> (s: String)
        ensures
            s@ == self.text(),
    {
        let mut s = String::from_str("invalid log line");
        match self.source {
            Some(NumberError::PosOverflow) => {
                s.append(", source: number too large to fit in target type");
            },
            None => {},
        }
        s
    }
}

/// A line of a write trace, once parsed.
#[derive(Debug, PartialEq, Eq, Clone, Copy, Structural)]
pub enum LogEntry {
    Grf(GrfLogEntry),
    Mem(MemLogEntry),
}

/// The characters that a run of bytes stands for, one for one.
pub open spec fn latin1(bytes: Seq<u8>) -> Seq<char> {
    Seq::new(bytes.len(), |i: int| bytes[i] as char)
}

pub open spec fn is_digit(c: char) -> bool {
    '0' <= c <= '9'
}

pub open spec fn digit_value(c: char) -> nat {
    (c as int - '0' as int) as nat
}

pub open spec fn is_hex_digit(c: char) -> bool {
    is_digit(c) || 'a' <= c <= 'f' || 'A' <= c <= 'F'
}

pub open spec fn hex_digit_value(c: char) -> nat {
    if is_digit(c) {
        digit_value(c)
    } else if 'a' <= c <= 'f' {
        (c as int - 'a' as int + 10) as nat
    } else {
        (c as int - 'A' as int + 10) as nat
    }
}

/// The number that a run of decimal digits stands for.
pub open spec fn decimal_value(s: Seq<char>) -> nat
    decreases s.len(),
{
    if s.len() == 0 {
        0
    } else {
        decimal_value(s.drop_last()) * 10 + digit_value(s.last())
    }
}

/// The first position at or after `from` that holds no space.
pub open spec fn skip_spaces(s: Seq<char>, from: int) -> int
    decreases s.len() - from,
{
    if 0 <= from < s.len() && s[from] == ' ' {
        skip_spaces(s, from + 1)
    } else {
        from
    }
}

/// The first position at or after `from` that holds no decimal digit.
pub open spec fn skip_digits(s: Seq<char>, from: int) -> int
    decreases s.len() - from,
{
    if 0 <= from < s.len() && is_digit(s[from]) {
        skip_digits(s, from + 1)
    } else {
        from
    }
}

/// Whether position `at` of the line holds `c`.
pub open spec fn has_char(s: Seq<char>, at: int, c: char) -> bool {
    0 <= at < s.len() && s[at] == c
}

/// The number that a run of hexadecimal digits stands for.
pub open spec fn hex_value(s: Seq<char>) -> nat
    decreases s.len(),
{
    if s.len() == 0 {
        0
    } else {
        hex_value(s.drop_last()) * 16 + hex_digit_value(s.last())
    }
}

pub open spec fn all_hex_digits(s: Seq<char>) -> bool {
    forall|i: int| 0 <= i < s.len() ==> is_hex_digit(#[trigger] s[i])
}

/// 16 to the power `digits`: the first number that needs more hexadecimal
/// digits than that.
pub open spec fn hex_limit(digits: nat) -> nat
    decreases digits,
{
    if digits == 0 {
        1
    } else {
        16 * hex_limit((digits - 1) as nat)
    }
}

/// The word written as eight hexadecimal digits from position `at` on, if
/// eight such digits stand there.
pub open spec fn word_at(s: Seq<char>, at: int) -> Option<u32> {
    if 0 <= at && at + 8 <= s.len() && all_hex_digits(s.subrange(at, at + 8)) {
        Some(hex_value(s.subrange(at, at + 8)) as u32)
    } else {
        None
    }
}

/// The word that ends the line, if ` <= ` and eight hexadecimal digits
/// stand from position `at` to the end of the line.
pub open spec fn data_at_end(s: Seq<char>, at: int) -> Option<u32> {
    if has_char(s, at, ' ') && has_char(s, at + 1, '<') && has_char(s, at + 2, '=') && has_char(
        s,
        at + 3,
        ' ',
    ) && s.len() == at + 12 {
        word_at(s, at + 4)
    } else {
        None
    }
}

/// What a line of a trace says.
///
/// A log entry is: any number of spaces, any number of decimal digits, `@`
/// and the instruction address, `: `, then either `$`, any number of spaces
/// and the register index in decimal, or `*` and the memory address, then
/// ` <= ` and the word written, and nothing more. Addresses and words are
/// eight hexadecimal digits. A line of another shape has no `source` in its
/// error; one of this shape whose register index is above 255 has.
pub open spec fn parse_line(s: Seq<char>) -> Result<LogEntry, ParseLogError> {
    let at = skip_digits(s, skip_spaces(s, 0));
    if has_char(s, at, '@') && word_at(s, at + 1) is Some && has_char(s, at + 9, ':') && has_char(
        s,
        at + 10,
        ' ',
    ) {
        let pc = word_at(s, at + 1)->0;
        if has_char(s, at + 11, '$') {
            let first = skip_spaces(s, at + 12);
            let end = skip_digits(s, first);
            if first < end && data_at_end(s, end) is Some {
                let index = decimal_value(s.subrange(first, end));
                if index <= u8::MAX {
                    Ok(
                        LogEntry::Grf(
                            GrfLogEntry { pc, addr: index as u8, data: data_at_end(s, end)->0 },
                        ),
                    )
                } else {
                    Err(ParseLogError { source: Some(NumberError::PosOverflow) })
                }
            } else {
                Err(ParseLogError { source: None })
            }
        } else if has_char(s, at + 11, '*') {
            if word_at(s, at + 12) is Some && data_at_end(s, at + 20) is Some {
                Ok(
                    LogEntry::Mem(
                        MemLogEntry {
                            pc,
                            addr: word_at(s, at + 12)->0,
                            data: data_at_end(s, at + 20)->0,
                        },
                    ),
                )
            } else {
                Err(ParseLogError { source: None })
            }
        } else {
            Err(ParseLogError { source: None })
        }
    } else {
        Err(ParseLogError { source: None })
    }
}

impl std::str::FromStr for LogEntry {
    type Err = ParseLogError;

    /// Reads one line of a trace, as `parse` does its bytes.
    fn from_str(s: &str) -> (r: Result<Self, Self::Err>)
        ensures
            r == parse_line(latin1(s.spec_bytes())),
    {
        LogEntry::parse(s.as_bytes())
    }
}

fn scan_spaces(line: &[u8], from: usize) -> (to: usize)
    requires
        from <= line.len(),
    ensures
        to == skip_spaces(latin1(line@), from as int),
        from <= to <= line.len(),
{
    let mut i = from;
    while i < line.len() && line[i] == ' ' as u8
        invariant
            from <= i <= line.len(),
            skip_spaces(latin1(line@), from as int) == skip_spaces(latin1(line@), i as int),
        decreases line.len() - i,
    {
        i = i + 1;
    }
    i
}

fn is_digit_byte(b: u8) -> (r: bool)
    ensures
        r == is_digit(b as char),
{
    '0' as u8 <= b && b <= '9' as u8
}

fn scan_digits(line: &[u8], from: usize) -> (to: usize)
    requires
        from <= line.len(),
    ensures
        to == skip_digits(latin1(line@), from as int),
        from <= to <= line.len(),
        forall|i: int| from <= i < to ==> is_digit(#[trigger] latin1(line@)[i]),
{
    let mut i = from;
    while i < line.len() && is_digit_byte(line[i])
        invariant
            from <= i <= line.len(),
            skip_digits(latin1(line@), from as int) == skip_digits(latin1(line@), i as int),
            forall|j: int| from <= j < i ==> is_digit(#[trigger] latin1(line@)[j]),
        decreases line.len() - i,
    {
        i = i + 1;
    }
    i
}

fn hex_digit_of(b: u8) -> (r: Option<u32>)
    ensures
        r is Some <==> is_hex_digit(b as char),
        r is Some ==> r->0 == hex_digit_value(b as char),
{
    if '0' as u8 <= b && b <= '9' as u8 {
        Some((b - '0' as u8) as u32)
    } else if 'a' as u8 <= b && b <= 'f' as u8 {
        Some((b - 'a' as u8 + 10) as u32)
    } else if 'A' as u8 <= b && b <= 'F' as u8 {
        Some((b - 'A' as u8 + 10) as u32)
    } else {
        None
    }
}

/// The value of the hexadecimal digit at position `at`, if one stands there.
fn hex_digit_at(line: &[u8], at: usize) -> (r: Option<u32>)
    requires
        at < line.len(),
    ensures
        r is Some <==> is_hex_digit(latin1(line@)[at as int]),
        r is Some ==> r->0 == hex_digit_value(latin1(line@)[at as int]),
{
    hex_digit_of(line[at])
}

/// A run of hexadecimal digits stands for a number below 16 to the power of
/// its length.
pub proof fn lemma_hex_value_bound(s: Seq<char>)
    requires
        all_hex_digits(s),
    ensures
        hex_value(s) < hex_limit(s.len()),
    decreases s.len(),
{
    if s.len() > 0 {
        lemma_hex_value_bound(s.drop_last());
    }
}

/// More digits reach further.
pub proof fn lemma_hex_limit_grows(fewer: nat, more: nat)
    requires
        fewer <= more,
    ensures
        hex_limit(fewer) <= hex_limit(more),
    decreases more,
{
    if fewer < more {
        lemma_hex_limit_grows(fewer, (more - 1) as nat);
    }
}

/// Eight hexadecimal digits hold exactly the 32-bit words.
pub proof fn lemma_hex_limit_of_word()
    ensures
        hex_limit(8) == 0x1_0000_0000,
{
    reveal_with_fuel(hex_limit, 9);
}

fn read_word(line: &[u8], at: usize) -> (r: Option<u32>)
    ensures
        r == word_at(latin1(line@), at as int),
{
    if at > line.len() || line.len() - at < 8 {
        return None;
    }
    let ghost s = latin1(line@);
    let ghost digits = s.subrange(at as int, at + 8);
    let mut value: u32 = 0;
    let mut k: usize = 0;
    while k < 8
        invariant
            k <= 8,
            at + 8 <= line.len(),
            s == latin1(line@),
            digits == s.subrange(at as int, at + 8),
            all_hex_digits(digits.take(k as int)),
            value == hex_value(digits.take(k as int)),
        decreases 8 - k,
    {
        let ghost before = digits.take(k as int);
        let ghost after = digits.take(k + 1);
        match hex_digit_at(line, at + k) {
            Some(digit) => {
                proof {
                    assert(after.drop_last() =~= before);
                    assert(after.last() == s[at + k]);
                    assert forall|i: int| 0 <= i < after.len() implies is_hex_digit(
                        #[trigger] after[i],
                    ) by {
                        if i < k {
                            assert(after[i] == before[i]);
                        }
                    }
                    lemma_hex_value_bound(after);
                    lemma_hex_limit_of_word();
                    lemma_hex_limit_grows(after.len(), 8);
                }
                value = value * 16 + digit;
            },
            None => {
                assert(digits[k as int] == s[at + k]);
                return None;
            },
        }
        k = k + 1;
    }
    assert(digits.take(8) =~= digits);
    Some(value)
}

fn read_data_at_end(line: &[u8], at: usize) -> (r: Option<u32>)
    requires
        at <= line.len(),
    ensures
        r == data_at_end(latin1(line@), at as int),
{
    if line.len() - at != 12 {
        return None;
    }
    if line[at] == ' ' as u8 && line[at + 1] == '<' as u8 && line[at + 2] == '=' as u8 && line[at
        + 3] == ' ' as u8 {
        read_word(line, at + 4)
    } else {
        None
    }
}

/// Reads the run of decimal digits from `first` to `end` as a register
/// index.
fn read_index(line: &[u8], first: usize, end: usize) -> (r: Option<u8>)
    requires
        first <= end <= line.len(),
        forall|i: int| first <= i < end ==> is_digit(#[trigger] latin1(line@)[i]),
    ensures
        r == (if decimal_value(latin1(line@).subrange(first as int, end as int)) <= u8::MAX {
            Some(decimal_value(latin1(line@).subrange(first as int, end as int)) as u8)
        } else {
            None
        }),
{
    let ghost s = latin1(line@);
    let mut value: u32 = 0;
    let mut i = first;
    while i < end
        invariant
            first <= i <= end <= line.len(),
            s == latin1(line@),
            forall|j: int| first <= j < end ==> is_digit(#[trigger] s[j]),
            value <= 256,
            value == (if decimal_value(s.subrange(first as int, i as int)) <= u8::MAX {
                decimal_value(s.subrange(first as int, i as int))
            } else {
                256
            }),
        decreases end - i,
    {
        assert(is_digit(s[i as int]));
        let digit = (line[i] - '0' as u8) as u32;
        proof {
            let next = s.subrange(first as int, i + 1);
            assert(next.drop_last() =~= s.subrange(first as int, i as int));
            assert(next.last() == s[i as int]);
        }
        value = if value * 10 + digit > 255 {
            256
        } else {
            value * 10 + digit
        };
        i = i + 1;
    }
    if value <= 255 {
        Some(value as u8)
    } else {
        None
    }
}

impl LogEntry {
    /// The line of the entry.
    pub open spec fn text(&self) -> Seq<char> {
        match *self {
            LogEntry::Grf(entry) => entry.text(),
            LogEntry::Mem(entry) => entry.text(),
        }
    }

    pub fn render_text(&self) -> (s: String)
        ensures
            s@ == self.text(),
    {
        match self {
            LogEntry::Grf(entry) => entry.render_text(),
            LogEntry::Mem(entry) => entry.render_text(),
        }
    }

    /// Reads one line of a trace, given without its line ending.
    pub fn parse(line: &[u8]) -> (r: Result<LogEntry, ParseLogError>)
        ensures
            r == parse_line(latin1(line@)),
    {
        let at = scan_digits(line, scan_spaces(line, 0));
        if line.len() - at < 12 {
            return Err(ParseLogError { source: None });
        }
        if line[at] != '@' as u8 || line[at + 9] != ':' as u8 || line[at + 10] != ' ' as u8 {
            return Err(ParseLogError { source: None });
        }
        let pc = match read_word(line, at + 1) {
            Some(pc) => pc,
            None => {
                return Err(ParseLogError { source: None });
            },
        };
        if line[at + 11] == '$' as u8 {
            let first = scan_spaces(line, at + 12);
            let end = scan_digits(line, first);
            if first == end {
                return Err(ParseLogError { source: None });
            }
            let data = match read_data_at_end(line, end) {
                Some(data) => data,
                None => {
                    return Err(ParseLogError { source: None });
                },
            };
            match read_index(line, first, end) {
                Some(addr) => Ok(LogEntry::Grf(GrfLogEntry { pc, addr, data })),
                None => Err(ParseLogError { source: Some(NumberError::PosOverflow) }),
            }
        } else if line[at + 11] == '*' as u8 {
            let addr = match read_word(line, at + 12) {
                Some(addr) => addr,
                None => {
                    return Err(ParseLogError { source: None });
                },
            };
            match read_data_at_end(line, at + 20) {
                Some(data) => Ok(LogEntry::Mem(MemLogEntry { pc, addr, data })),
                None => Err(ParseLogError { source: None }),
            }
        } else {
            Err(ParseLogError { source: None })
        }
    }
}

/// Every decimal digit is read as the number it was written for, and every
/// hexadecimal digit too.
pub proof fn lemma_digits_read_back(d: int)
    requires
        0 <= d < 16,
    ensures
        is_hex_digit(hex_digit(d)),
        hex_digit_value(hex_digit(d)) == d,
        d < 10 ==> is_digit(digit(d)) && digit_value(digit(d)) == d,
{
}

/// The decimal numeral of a number is a run of digits that stands for it.
pub proof fn lemma_decimal_reads_back(n: nat)
    ensures
        decimal(n).len() > 0,
        forall|i: int| 0 <= i < decimal(n).len() ==> is_digit(#[trigger] decimal(n)[i]),
        decimal_value(decimal(n)) == n,
    decreases n,
{
    lemma_digits_read_back((n % 10) as int);
    let numeral = decimal(n);
    assert(numeral.last() == digit((n % 10) as int));
    if n >= 10 {
        lemma_decimal_reads_back(n / 10);
        assert(numeral.drop_last() =~= decimal(n / 10));
        assert forall|i: int| 0 <= i < numeral.len() implies is_digit(#[trigger] numeral[i]) by {
            if i < numeral.len() - 1 {
                assert(numeral[i] == decimal(n / 10)[i]);
            }
        }
    } else {
        assert(numeral.drop_last() =~= Seq::<char>::empty());
        assert(decimal_value(numeral.drop_last()) == 0);
    }
    assert(decimal_value(numeral) == decimal_value(numeral.drop_last()) * 10 + digit_value(
        numeral.last(),
    ));
}

/// The last `count` hexadecimal digits of a number stand for the number
/// modulo 16 to the power `count`.
pub proof fn lemma_hex_reads_back(x: nat, count: nat)
    ensures
        hex(x, count).len() == count,
        all_hex_digits(hex(x, count)),
        hex_value(hex(x, count)) == x % hex_limit(count),
        hex_limit(count) > 0,
    decreases count,
{
    if count > 0 {
        let rest = (count - 1) as nat;
        lemma_hex_reads_back(x / 16, rest);
        lemma_digits_read_back((x % 16) as int);
        assert(hex(x, count).drop_last() =~= hex(x / 16, rest));
        let m = hex_limit(rest) as int;
        let high = (x / 16) as int;
        lemma_fundamental_div_mod(high, m);
        assert(x == (high / m) * (16 * m) + (16 * (high % m) + x % 16)) by (nonlinear_arith)
            requires
                high == m * (high / m) + high % m,
                x == 16 * high + x % 16,
        ;
        lemma_fundamental_div_mod_converse(
            x as int,
            16 * m,
            high / m,
            16 * (high % m) + x % 16,
        );
    }
}

/// A run of digits that ends at a character which is no digit, or at the
/// end of the line, is passed over as a whole.
pub proof fn lemma_skip_digits_run(s: Seq<char>, from: int, to: int)
    requires
        0 <= from <= to <= s.len(),
        forall|i: int| from <= i < to ==> is_digit(#[trigger] s[i]),
        to == s.len() || !is_digit(s[to]),
    ensures
        skip_digits(s, from) == to,
    decreases to - from,
{
    if from < to {
        lemma_skip_digits_run(s, from + 1, to);
    }
}

/// The line of a register write reads back as that write.
pub proof fn lemma_register_write_parses_back(entry: GrfLogEntry)
    ensures
        parse_line(entry.text()) == Ok::<LogEntry, ParseLogError>(LogEntry::Grf(entry)),
{
    reveal_strlit("@");
    reveal_strlit(": $");
    reveal_strlit(" <= ");
    let pc = hex8(entry.pc);
    let numeral = decimal(entry.addr as nat);
    let index = decimal_width2(entry.addr as nat);
    let data = hex8(entry.data);
    let s = entry.text();
    lemma_hex_reads_back(entry.pc as nat, 8);
    lemma_hex_reads_back(entry.data as nat, 8);
    lemma_hex_limit_of_word();
    lemma_decimal_reads_back(entry.addr as nat);
    let first: int = if entry.addr < 10 {
        13
    } else {
        12
    };
    let end: int = 12 + index.len() as int;
    assert(s.len() == end + 12);
    assert(s.subrange(1, 9) =~= pc);
    assert(s.subrange(first, end) =~= numeral);
    assert(s.subrange(end + 4, end + 12) =~= data);
    assert(s[0] == '@' && s[9] == ':' && s[10] == ' ' && s[11] == '$');
    assert(s[end] == ' ' && s[end + 1] == '<' && s[end + 2] == '=' && s[end + 3] == ' ');
    assert(skip_spaces(s, 0) == 0);
    assert(skip_digits(s, 0) == 0);
    assert(skip_spaces(s, 12) == first) by {
        assert(is_digit(numeral[0]));
        assert(s[first] == numeral[0]);
        if entry.addr < 10 {
            assert(s[12] == ' ');
            assert(skip_spaces(s, 13) == 13);
        }
    }
    assert forall|i: int| first <= i < end implies is_digit(#[trigger] s[i]) by {
        assert(s[i] == numeral[i - first]);
    }
    lemma_skip_digits_run(s, first, end);
}

/// The line of a memory write reads back as that write.
pub proof fn lemma_memory_write_parses_back(entry: MemLogEntry)
    ensures
        parse_line(entry.text()) == Ok::<LogEntry, ParseLogError>(LogEntry::Mem(entry)),
{
    reveal_strlit("@");
    reveal_strlit(": *");
    reveal_strlit(" <= ");
    let pc = hex8(entry.pc);
    let addr = hex8(entry.addr);
    let data = hex8(entry.data);
    let s = entry.text();
    lemma_hex_reads_back(entry.pc as nat, 8);
    lemma_hex_reads_back(entry.addr as nat, 8);
    lemma_hex_reads_back(entry.data as nat, 8);
    lemma_hex_limit_of_word();
    assert(s.len() == 32);
    assert(s.subrange(1, 9) =~= pc);
    assert(s.subrange(12, 20) =~= addr);
    assert(s.subrange(24, 32) =~= data);
    assert(s[0] == '@' && s[9] == ':' && s[10] == ' ' && s[11] == '*');
    assert(s[20] == ' ' && s[21] == '<' && s[22] == '=' && s[23] == ' ');
    assert(skip_spaces(s, 0) == 0);
    assert(skip_digits(s, 0) == 0);
}

/// What is rendered is what is parsed: the line of any entry reads back as
/// that entry.
pub proof fn lemma_entry_parses_back(entry: LogEntry)
    ensures
        parse_line(entry.text()) == Ok::<LogEntry, ParseLogError>(entry),
{
    match entry {
        LogEntry::Grf(write) => lemma_register_write_parses_back(write),
        LogEntry::Mem(write) => lemma_memory_write_parses_back(write),
    }
}

} // verus!
