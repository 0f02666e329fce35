use vstd::prelude::*;
use vstd::slice::slice_subrange;
use vstd::string::*;
use crate::log::{
    latin1,
    lemma_entry_parses_back,
    parse_line,
    GrfLogEntry,
    LogEntry,
    MemLogEntry,
};
use crate::text::{decimal, push_decimal};

verus! {

/// Why an observed trace is not the expected one.
#[derive(Debug, PartialEq, Eq, Clone, Copy)]
pub enum TraceFailure {
    /// Line `line` (counted from 1) holds the write `got` where the next
    /// expected write of its kind is `expected`.
    Mismatch { line: usize, got: LogEntry, expected: LogEntry },
    /// Line `line` holds the write `got`, and every expected write of its
    /// kind has been seen already.
    Unexpected { line: usize, got: LogEntry },
    /// The trace ends before the expected write `next` has been seen: the
    /// first missing register write, or where none is missing the first
    /// missing memory write.
    TooFewWrites { next: LogEntry },
}

impl TraceFailure {
    /// The failure in words.
    pub open spec fn text(&self) -> Seq<char> {
        match *self {
            TraceFailure::Mismatch { line, got, expected } => "got \""@ + got.text()
                + "\" at line "@ + decimal(line as nat) + ", but expected \""@ + expected.text()
                + "\""@,
            TraceFailure::Unexpected { line, got } => "got \""@ + got.text() + "\" at line "@
                + decimal(line as nat) + ", but standard output has ended."@,
            TraceFailure::TooFewWrites { next: LogEntry::Grf(next) } =>
                "too few register writes, the next expected line is \""@ + next.text() + "\"."@,
            TraceFailure::TooFewWrites { next: LogEntry::Mem(next) } =>
                "too few memory writes, the next expected line is \""@ + next.text() + "\"."@,
        }
    }

    pub fn message(&self) -> (s: String)
        ensures
            s@ == self.text(),
    {
        match self {
            TraceFailure::Mismatch { line, got, expected } => {
                let mut s = String::from_str("got \"");
                s.append(got.render_text().as_str());
                s.append("\" at line ");
                push_decimal(&mut s, *line as u64);
                s.append(", but expected \"");
                s.append(expected.render_text().as_str());
                s.append("\"");
                s
            },
            TraceFailure::Unexpected { line, got } => {
                let mut s = String::from_str("got \"");
                s.append(got.render_text().as_str());
                s.append("\" at line ");
                push_decimal(&mut s, *line as u64);
                s.append(", but standard output has ended.");
                s
            },
            TraceFailure::TooFewWrites { next: LogEntry::Grf(next) } => {
                let mut s = String::from_str(
                    "too few register writes, the next expected line is \"",
                );
                s.append(next.render_text().as_str());
                s.append("\".");
                s
            },
            TraceFailure::TooFewWrites { next: LogEntry::Mem(next) } => {
                let mut s = String::from_str("too few memory writes, the next expected line is \"");
                s.append(next.render_text().as_str());
                s.append("\".");
                s
            },
        }
    }
}

/// The position of the first line feed at or after `from`, or the length of
/// the text where there is none.
pub open spec fn line_end(text: Seq<char>, from: int) -> int
    decreases text.len() - from,
{
    if 0 <= from < text.len() && text[from] != '\n' {
        line_end(text, from + 1)
    } else {
        from
    }
}

/// A line without the carriage return that stood before its line feed.
pub open spec fn strip_cr(line: Seq<char>) -> Seq<char> {
    if line.len() > 0 && line.last() == '\r' {
        line.drop_last()
    } else {
        line
    }
}

/// The lines of the text from position `from` on. A line ends with a line
/// feed, or a carriage return and a line feed, neither of which belongs to
/// it; the last line may end with the text.
pub open spec fn lines_from(text: Seq<char>, from: int) -> Seq<Seq<char>>
    decreases text.len() - from,
{
    if from < 0 || from >= text.len() {
        Seq::empty()
    } else {
        let end = line_end(text, from);
        if from <= end < text.len() {
            seq![strip_cr(text.subrange(from, end))] + lines_from(text, end + 1)
        } else {
            seq![text.subrange(from, text.len() as int)]
        }
    }
}

/// Whether the oracle compares the entry: a write to register 0 is passed
/// over, as the machine never logs one.
pub open spec fn counts(entry: LogEntry) -> bool {
    entry matches LogEntry::Grf(write) ==> write.addr != 0
}

/// The judgement on the lines of a trace, the first of which has the number
/// `number`, when `g` expected register writes and `m` expected memory
/// writes have been seen.
///
/// Each line that is a register write is held against the next expected
/// register write, each that is a memory write against the next expected
/// memory write; a line that is no log entry, or writes register 0, is
/// passed over. The first line that differs fails the trace, and so does
/// the end of the trace before the end of either log.
pub open spec fn judge(
    grf: Seq<GrfLogEntry>,
    mem: Seq<MemLogEntry>,
    lines: Seq<Seq<char>>,
    number: nat,
    g: nat,
    m: nat,
) -> Result<(), TraceFailure>
    decreases lines.len(),
{
    if lines.len() == 0 {
        if g < grf.len() {
            Err(TraceFailure::TooFewWrites { next: LogEntry::Grf(grf[g as int]) })
        } else if m < mem.len() {
            Err(TraceFailure::TooFewWrites { next: LogEntry::Mem(mem[m as int]) })
        } else {
            Ok(())
        }
    } else {
        let rest = lines.drop_first();
        match parse_line(lines[0]) {
            Ok(LogEntry::Grf(write)) => {
                if write.addr == 0 {
                    judge(grf, mem, rest, number + 1, g, m)
                } else if g >= grf.len() {
                    Err(TraceFailure::Unexpected { line: number as usize, got: LogEntry::Grf(write) })
                } else if write != grf[g as int] {
                    Err(
                        TraceFailure::Mismatch {
                            line: number as usize,
                            got: LogEntry::Grf(write),
                            expected: LogEntry::Grf(grf[g as int]),
                        },
                    )
                } else {
                    judge(grf, mem, rest, number + 1, g + 1, m)
                }
            },
            Ok(LogEntry::Mem(write)) => {
                if m >= mem.len() {
                    Err(TraceFailure::Unexpected { line: number as usize, got: LogEntry::Mem(write) })
                } else if write != mem[m as int] {
                    Err(
                        TraceFailure::Mismatch {
                            line: number as usize,
                            got: LogEntry::Mem(write),
                            expected: LogEntry::Mem(mem[m as int]),
                        },
                    )
                } else {
                    judge(grf, mem, rest, number + 1, g, m + 1)
                }
            },
            Err(_) => judge(grf, mem, rest, number + 1, g, m),
        }
    }
}

/// The judgement on a whole trace against the expected register and memory
/// writes.
pub open spec fn verdict(grf: Seq<GrfLogEntry>, mem: Seq<MemLogEntry>, trace: Seq<char>) -> Result<
    (),
    TraceFailure,
> {
    judge(grf, mem, lines_from(trace, 0), 1, 0, 0)
}

fn find_line_end(trace: &[u8], from: usize) -> (end: usize)
    requires
        from <= trace.len(),
    ensures
        end == line_end(latin1(trace@), from as int),
        from <= end <= trace.len(),
{
    let mut i = from;
    while i < trace.len() && trace[i] != '\n' as u8
        invariant
            from <= i <= trace.len(),
            line_end(latin1(trace@), from as int) == line_end(latin1(trace@), i as int),
        decreases trace.len() - i,
    {
        i = i + 1;
    }
    i
}

/// Holds the trace that an implementation printed against the writes that
/// the reference machine logged.
pub fn check_trace(grf_log: &[GrfLogEntry], mem_log: &[MemLogEntry], trace: &[u8]) -> (r: Result<
    (),
    TraceFailure,
>)
    ensures
        r == verdict(grf_log@, mem_log@, latin1(trace@)),
{
    let ghost text = latin1(trace@);
    let mut pos: usize = 0;
    let mut number: usize = 0;
    let mut g: usize = 0;
    let mut m: usize = 0;
    while pos < trace.len()
        invariant
            pos <= trace.len(),
            number <= pos,
            g <= grf_log.len(),
            m <= mem_log.len(),
            text == latin1(trace@),
            verdict(grf_log@, mem_log@, text) == judge(
                grf_log@,
                mem_log@,
                lines_from(text, pos as int),
                (number + 1) as nat,
                g as nat,
                m as nat,
            ),
        decreases trace.len() - pos,
    {
        let end = find_line_end(trace, pos);
        let terminated = end < trace.len();
        let stop = if terminated && end > pos && trace[end - 1] == '\r' as u8 {
            end - 1
        } else {
            end
        };
        let next = if terminated {
            end + 1
        } else {
            end
        };
        let line = slice_subrange(trace, pos, stop);
        proof {
            let lines = lines_from(text, pos as int);
            assert(latin1(line@) =~= if terminated {
                strip_cr(text.subrange(pos as int, end as int))
            } else {
                text.subrange(pos as int, end as int)
            });
            assert(lines[0] == latin1(line@));
            assert(lines.drop_first() =~= lines_from(text, next as int));
        }
        number = number + 1;
        match LogEntry::parse(line) {
            Ok(LogEntry::Grf(write)) => {
                if write.addr != 0 {
                    if g >= grf_log.len() {
                        return Err(
                            TraceFailure::Unexpected { line: number, got: LogEntry::Grf(write) },
                        );
                    }
                    if write != grf_log[g] {
                        return Err(
                            TraceFailure::Mismatch {
                                line: number,
                                got: LogEntry::Grf(write),
                                expected: LogEntry::Grf(grf_log[g]),
                            },
                        );
                    }
                    g = g + 1;
                }
            },
            Ok(LogEntry::Mem(write)) => {
                if m >= mem_log.len() {
                    return Err(TraceFailure::Unexpected { line: number, got: LogEntry::Mem(write) });
                }
                if write != mem_log[m] {
                    return Err(
                        TraceFailure::Mismatch {
                            line: number,
                            got: LogEntry::Mem(write),
                            expected: LogEntry::Mem(mem_log[m]),
                        },
                    );
                }
                m = m + 1;
            },
            Err(_) => {},
        }
        pos = next;
    }
    if g < grf_log.len() {
        return Err(TraceFailure::TooFewWrites { next: LogEntry::Grf(grf_log[g]) });
    }
    if m < mem_log.len() {
        return Err(TraceFailure::TooFewWrites { next: LogEntry::Mem(mem_log[m]) });
    }
    Ok(())
}

/// A trace that passes fails once one of its lines is changed: where line
/// `k` of a passing trace is a write that the oracle compares, and it is
/// replaced by another write of the same kind that the oracle compares, the
/// trace fails at that very line, with the old write as the expected one.
pub proof fn lemma_changed_line_is_caught(
    grf: Seq<GrfLogEntry>,
    mem: Seq<MemLogEntry>,
    lines: Seq<Seq<char>>,
    number: nat,
    g: nat,
    m: nat,
    k: int,
    changed: Seq<char>,
)
    requires
        judge(grf, mem, lines, number, g, m) is Ok,
        0 <= k < lines.len(),
        parse_line(lines[k]) is Ok,
        parse_line(changed) is Ok,
        parse_line(changed) != parse_line(lines[k]),
        counts(parse_line(lines[k])->Ok_0),
        counts(parse_line(changed)->Ok_0),
        parse_line(changed)->Ok_0 is Grf <==> parse_line(lines[k])->Ok_0 is Grf,
    ensures
        judge(grf, mem, lines.update(k, changed), number, g, m) == Err::<(), TraceFailure>(
            TraceFailure::Mismatch {
                line: (number + k) as usize,
                got: parse_line(changed)->Ok_0,
                expected: parse_line(lines[k])->Ok_0,
            },
        ),
    decreases lines.len(),
{
    let changed_lines = lines.update(k, changed);
    if k > 0 {
        let rest = lines.drop_first();
        assert(changed_lines[0] == lines[0]);
        assert(changed_lines.drop_first() =~= rest.update(k - 1, changed));
        assert(rest[k - 1] == lines[k]);
        match parse_line(lines[0]) {
            Ok(LogEntry::Grf(write)) => {
                if write.addr == 0 {
                    lemma_changed_line_is_caught(grf, mem, rest, number + 1, g, m, k - 1, changed);
                } else {
                    lemma_changed_line_is_caught(
                        grf,
                        mem,
                        rest,
                        number + 1,
                        g + 1,
                        m,
                        k - 1,
                        changed,
                    );
                }
            },
            Ok(LogEntry::Mem(write)) => {
                lemma_changed_line_is_caught(grf, mem, rest, number + 1, g, m + 1, k - 1, changed);
            },
            Err(_) => {
                lemma_changed_line_is_caught(grf, mem, rest, number + 1, g, m, k - 1, changed);
            },
        }
    }
}

/// One changed value fails the trace at its line: where line `k` of a
/// passing trace is the line of the write `was`, and the line of another
/// write `now` of the same kind is put in its place, the oracle reports the
/// mismatch at line `k + 1`, with `now` as what it got and `was` as what it
/// expected.
pub proof fn lemma_changed_value_is_caught(
    grf: Seq<GrfLogEntry>,
    mem: Seq<MemLogEntry>,
    lines: Seq<Seq<char>>,
    k: int,
    was: LogEntry,
    now: LogEntry,
)
    requires
        judge(grf, mem, lines, 1, 0, 0) is Ok,
        0 <= k < lines.len(),
        lines[k] == was.text(),
        now != was,
        counts(was),
        counts(now),
        now is Grf <==> was is Grf,
    ensures
        judge(grf, mem, lines.update(k, now.text()), 1, 0, 0) == Err::<(), TraceFailure>(
            TraceFailure::Mismatch { line: (k + 1) as usize, got: now, expected: was },
        ),
{
    lemma_entry_parses_back(was);
    lemma_entry_parses_back(now);
    lemma_changed_line_is_caught(grf, mem, lines, 1, 0, 0, k, now.text());
}

/// The number, counted from 0, of the line that holds position `p`, among
/// the lines from position `from` on.
pub open spec fn line_index(text: Seq<char>, from: int, p: int) -> int
    decreases text.len() - from,
{
    let end = line_end(text, from);
    if 0 <= from <= end < p && end < text.len() {
        1 + line_index(text, end + 1, p)
    } else {
        0
    }
}

/// A line reaches from its first position to the first line feed after it,
/// or to the end of the text.
pub proof fn lemma_line_end_is_first_line_feed(text: Seq<char>, from: int)
    requires
        0 <= from <= text.len(),
    ensures
        from <= line_end(text, from) <= text.len(),
        forall|i: int| from <= i < line_end(text, from) ==> text[i] != '\n',
        line_end(text, from) < text.len() ==> text[line_end(text, from)] == '\n',
    decreases text.len() - from,
{
    if from < text.len() && text[from] != '\n' {
        lemma_line_end_is_first_line_feed(text, from + 1);
    }
}

/// Where a line ends depends on its own characters and its line feed alone.
pub proof fn lemma_line_end_of_like_text(first: Seq<char>, second: Seq<char>, from: int)
    requires
        first.len() == second.len(),
        0 <= from <= first.len(),
        forall|i: int| from <= i < first.len() ==> (first[i] == '\n' <==> second[i] == '\n'),
    ensures
        line_end(first, from) == line_end(second, from),
    decreases first.len() - from,
{
    if from < first.len() && first[from] != '\n' {
        lemma_line_end_of_like_text(first, second, from + 1);
    }
}

/// The lines from a position on depend on the text from that position on
/// alone.
pub proof fn lemma_lines_of_like_text(first: Seq<char>, second: Seq<char>, from: int)
    requires
        first.len() == second.len(),
        0 <= from <= first.len(),
        forall|i: int| from <= i < first.len() ==> first[i] == second[i],
    ensures
        lines_from(first, from) == lines_from(second, from),
    decreases first.len() - from,
{
    if from < first.len() {
        lemma_line_end_is_first_line_feed(first, from);
        lemma_line_end_of_like_text(first, second, from);
        let end = line_end(first, from);
        if end < first.len() {
            assert(first.subrange(from, end) =~= second.subrange(from, end));
            lemma_lines_of_like_text(first, second, end + 1);
        } else {
            assert(first.subrange(from, first.len() as int) =~= second.subrange(
                from,
                second.len() as int,
            ));
        }
    }
}

/// One changed character changes one line: where the character at position
/// `p` is replaced, and neither it nor its replacement is part of a line
/// ending, the text has the lines it had, but for the line that holds `p`.
pub proof fn lemma_change_stays_in_line(text: Seq<char>, from: int, p: int, c: char)
    requires
        0 <= from <= p < text.len(),
        text[p] != '\n' && text[p] != '\r',
        c != '\n' && c != '\r',
    ensures
        0 <= line_index(text, from, p) < lines_from(text, from).len(),
        lines_from(text.update(p, c), from).len() == lines_from(text, from).len(),
        forall|k: int|
            0 <= k < lines_from(text, from).len() && k != line_index(text, from, p)
                ==> lines_from(text.update(p, c), from)[k] == lines_from(text, from)[k],
    decreases text.len() - from,
{
    let changed = text.update(p, c);
    lemma_line_end_is_first_line_feed(text, from);
    lemma_line_end_of_like_text(text, changed, from);
    let end = line_end(text, from);
    if end < p {
        assert(text.subrange(from, end) =~= changed.subrange(from, end));
        lemma_change_stays_in_line(text, end + 1, p, c);
        let rest = lines_from(text, end + 1);
        let changed_rest = lines_from(changed, end + 1);
        assert forall|k: int|
            0 <= k < lines_from(text, from).len() && k != line_index(text, from, p) implies lines_from(
            changed,
            from,
        )[k] == lines_from(text, from)[k] by {
            if k > 0 {
                assert(lines_from(text, from)[k] == rest[k - 1]);
                assert(lines_from(changed, from)[k] == changed_rest[k - 1]);
            }
        }
    } else if end < text.len() {
        lemma_lines_of_like_text(text, changed, end + 1);
    }
}

/// One changed byte fails the trace at its line: where a trace passes, and
/// one character of a line is replaced so that the line, which was a write
/// that the oracle compares, is another write of the same kind, the oracle
/// reports the mismatch at that line.
pub proof fn lemma_changed_byte_is_caught(
    grf: Seq<GrfLogEntry>,
    mem: Seq<MemLogEntry>,
    trace: Seq<char>,
    p: int,
    c: char,
)
    requires
        verdict(grf, mem, trace) is Ok,
        0 <= p < trace.len(),
        trace[p] != '\n' && trace[p] != '\r',
        c != '\n' && c != '\r',
        ({
            let k = line_index(trace, 0, p);
            let was = parse_line(lines_from(trace, 0)[k]);
            let now = parse_line(lines_from(trace.update(p, c), 0)[k]);
            &&& was is Ok
            &&& now is Ok
            &&& now != was
            &&& counts(was->Ok_0)
            &&& counts(now->Ok_0)
            &&& now->Ok_0 is Grf <==> was->Ok_0 is Grf
        }),
    ensures
        verdict(grf, mem, trace.update(p, c)) == Err::<(), TraceFailure>(
            TraceFailure::Mismatch {
                line: (line_index(trace, 0, p) + 1) as usize,
                got: parse_line(lines_from(trace.update(p, c), 0)[line_index(trace, 0, p)])->Ok_0,
                expected: parse_line(lines_from(trace, 0)[line_index(trace, 0, p)])->Ok_0,
            },
        ),
{
    let k = line_index(trace, 0, p);
    let lines = lines_from(trace, 0);
    let changed = lines_from(trace.update(p, c), 0);
    lemma_change_stays_in_line(trace, 0, p, c);
    assert(changed =~= lines.update(k, changed[k]));
    lemma_changed_line_is_caught(grf, mem, lines, 1, 0, 0, k, changed[k]);
}

} // verus!
