use vstd::prelude::*;

use rletxtconv::Format;

use crate::error::{Error, PatternFormatError};
use crate::pattern::{
    flat_view, lemma_lines_nonempty, lines_of, marks_of, parse_plaintext, plaintext_rows,
    plaintext_view, Pattern, PatternView,
};
use crate::text::{chars_of, is_white, is_whitespace};

verus! {

/// The largest repeat count that a run-length encoded pattern may hold.
pub const MAX_COUNT: u64 = 999_999_999;

/// What rletxtconv's format detection makes of a text: `None` when it finds
/// no line to judge by, `Some(true)` for run-length encoding, `Some(false)`
/// for plaintext.
pub uninterp spec fn detected_rle(text: Seq<char>) -> Option<bool>;

/// What rletxtconv's run-length decoder makes of a text: the width, the
/// height and the cells row after row, or `None` when it refuses the text.
pub uninterp spec fn rle_decoding(text: Seq<char>) -> Option<(nat, nat, Seq<bool>)>;

/// Relies on rletxtconv::detect_format, which judges a text by its first line
/// that is neither blank nor a `#` comment and fails when there is none.
#[verifier::external_body]
fn detect_rle(text: &str) -> (r: Option<bool>)
    ensures
        r == detected_rle(text@),
{
    match rletxtconv::detect_format(text) {
        Ok(Format::Rle) => Some(true),
        Ok(Format::Plaintext) => Some(false),
        Err(_) => None,
    }
}

/// Relies on rletxtconv::formats::rle::parse to decode a run-length encoded
/// pattern. It reserves room for the header's width times height cells, so
/// that product must stay within `isize::MAX`; and it appends each repeat
/// count's cells to the row at once, so a count must stay far below it, which
/// `MAX_COUNT` ensures (`rle_numbers_fit`). Anything else it reads fails
/// without a panic.
#[verifier::external_body]
fn decode_rle(text: &str) -> (r: Result<Pattern, String>)
    requires
        rle_numbers_fit(text@),
    ensures
        match r {
            Ok(p) => rle_decoding(text@) == Some((p.width as nat, p.height as nat, p.cells@)),
            Err(_) => rle_decoding(text@) is None,
        },
{
    match rletxtconv::formats::rle::parse(text) {
        Ok(u) => Ok(Pattern { width: u.width, height: u.height, cells: u.cells }),
        Err(e) => Err(e.to_string()),
    }
}

pub open spec fn is_digit(c: char) -> bool {
    '0' <= c <= '9'
}

pub open spec fn digit_value(c: char) -> nat {
    (c as u32 - '0' as u32) as nat
}

/// A line that the run-length decoder reads: it has a mark, and its first
/// mark is not the comment marker `#`.
pub open spec fn is_rle_line(line: Seq<char>) -> bool {
    marks_of(line).len() > 0 && marks_of(line)[0] != '#'
}

/// The lines that the run-length decoder reads, in order: the header, then
/// the data.
pub open spec fn rle_lines(lines: Seq<Seq<char>>) -> Seq<Seq<char>>
    decreases lines.len(),
{
    if lines.len() == 0 {
        Seq::empty()
    } else if is_rle_line(lines.last()) {
        rle_lines(lines.drop_last()).push(lines.last())
    } else {
        rle_lines(lines.drop_last())
    }
}

/// The number written by the run of digits at the end of `s`.
pub open spec fn trailing_value(s: Seq<char>) -> nat
    decreases s.len(),
{
    if s.len() > 0 && is_digit(s.last()) {
        trailing_value(s.drop_last()) * 10 + digit_value(s.last())
    } else {
        0
    }
}

/// The largest number written by a run of digits in `s`.
pub open spec fn max_number(s: Seq<char>) -> nat
    decreases s.len(),
{
    if s.len() == 0 {
        0
    } else if trailing_value(s) > max_number(s.drop_last()) {
        trailing_value(s)
    } else {
        max_number(s.drop_last())
    }
}

/// No two numbers of the header line multiply to more than `isize::MAX`;
/// the width and the height are two of them.
pub open spec fn header_fits(header: Seq<char>) -> bool {
    max_number(header) * max_number(header) <= isize::MAX
}

/// Where the decoder stands in its data: the number that the digits read
/// since the last cell or row end write, whether the end marker `!` has
/// come, and whether every repeat count so far was at most `MAX_COUNT`.
pub struct RunScan {
    pub pending: nat,
    pub stopped: bool,
    pub fits: bool,
}

pub open spec fn scan_start() -> RunScan {
    RunScan { pending: 0, stopped: false, fits: true }
}

/// `c` ends a repeat count: a live cell `o`/`O`, a dead cell `b`/`B`, or a row end `$`.
pub open spec fn ends_count(c: char) -> bool {
    c == 'o' || c == 'O' || c == 'b' || c == 'B' || c == '$'
}

/// The decoder's data reading after one more character: digits build up a
/// count, the characters that end a count use it up, `!` ends the data and
/// every other character is skipped.
pub open spec fn scan_step(st: RunScan, c: char) -> RunScan {
    if st.stopped {
        st
    } else if c == '!' {
        RunScan { stopped: true, ..st }
    } else if is_digit(c) {
        RunScan { pending: st.pending * 10 + digit_value(c), ..st }
    } else if ends_count(c) {
        RunScan { pending: 0, fits: st.fits && st.pending <= MAX_COUNT, ..st }
    } else {
        st
    }
}

pub open spec fn scan(st: RunScan, s: Seq<char>) -> RunScan
    decreases s.len(),
{
    if s.len() == 0 {
        st
    } else {
        scan_step(scan(st, s.drop_last()), s.last())
    }
}

/// The data lines read one after another, as the decoder joins them.
pub open spec fn scan_lines(st: RunScan, lines: Seq<Seq<char>>) -> RunScan
    decreases lines.len(),
{
    if lines.len() == 0 {
        st
    } else {
        scan(scan_lines(st, lines.drop_last()), lines.last())
    }
}

/// Every number that the run-length decoder reads from `text` is small
/// enough: the header's numbers by `header_fits`, and each repeat count in
/// the data up to `!` by `MAX_COUNT`.
pub open spec fn rle_numbers_fit(text: Seq<char>) -> bool {
    let kept = rle_lines(lines_of(text));
    kept.len() > 0 ==> header_fits(kept[0]) && scan_lines(scan_start(), kept.drop_first()).fits
}

/// Above every number that matters to the header check.
const HEADER_CAP: u64 = 0x1_0000_0000;

/// The data reading of `RunScan`, with the pending count held up to
/// `MAX_COUNT + 1`.
struct RunScanner {
    pending: u64,
    stopped: bool,
    fits: bool,
}

impl RunScanner {
    spec fn matches(&self, st: RunScan) -> bool {
        &&& self.stopped == st.stopped
        &&& self.fits == st.fits
        &&& self.pending == if st.pending > MAX_COUNT {
            MAX_COUNT + 1
        } else {
            st.pending as int
        }
    }

    fn feed_line(&mut self, line: &Vec<char>, Ghost(st): Ghost<RunScan>)
        requires
            old(self).matches(st),
        ensures
            final(self).matches(scan(st, line@)),
    {
        for i in 0..line.len()
            invariant
                self.matches(scan(st, line@.take(i as int))),
        {
            assert(line@.take(i + 1).drop_last() =~= line@.take(i as int));
            let c = line[i];
            if !self.stopped {
                if c == '!' {
                    self.stopped = true;
                } else if '0' <= c && c <= '9' {
                    let d = c as u64 - '0' as u64;
                    if self.pending > MAX_COUNT || self.pending * 10 + d > MAX_COUNT {
                        self.pending = MAX_COUNT + 1;
                    } else {
                        self.pending = self.pending * 10 + d;
                    }
                } else if c == 'o' || c == 'O' || c == 'b' || c == 'B' || c == '$' {
                    self.fits = self.fits && self.pending <= MAX_COUNT;
                    self.pending = 0;
                }
            }
        }
        assert(line@.take(line@.len() as int) =~= line@);
    }
}

/// Whether the numbers of a header line fit (`header_fits`).
fn header_numbers_fit(line: &Vec<char>) -> (r: bool)
    ensures
        r == header_fits(line@),
{
    let mut current: u64 = 0;
    let mut largest: u64 = 0;
    for i in 0..line.len()
        invariant
            current == if trailing_value(line@.take(i as int)) > HEADER_CAP {
                HEADER_CAP as nat
            } else {
                trailing_value(line@.take(i as int))
            },
            largest == if max_number(line@.take(i as int)) > HEADER_CAP {
                HEADER_CAP as nat
            } else {
                max_number(line@.take(i as int))
            },
    {
        assert(line@.take(i + 1).drop_last() =~= line@.take(i as int));
        let c = line[i];
        if '0' <= c && c <= '9' {
            let d = c as u64 - '0' as u64;
            if current >= HEADER_CAP || current * 10 + d > HEADER_CAP {
                current = HEADER_CAP;
            } else {
                current = current * 10 + d;
            }
        } else {
            current = 0;
        }
        if current > largest {
            largest = current;
        }
    }
    assert(line@.take(line@.len() as int) =~= line@);
    proof {
        let m = max_number(line@);
        if m > HEADER_CAP {
            assert(m * m > isize::MAX) by (nonlinear_arith)
                requires
                    m > 0x1_0000_0000,
            ;
        }
    }
    let wide = largest as u128;
    assert(wide * wide <= 0x1_0000_0000u128 * 0x1_0000_0000u128) by (nonlinear_arith)
        requires
            wide <= 0x1_0000_0000u128,
    ;
    wide * wide <= isize::MAX as u128
}

/// Whether every number that the run-length decoder reads from `text` is
/// small enough (`rle_numbers_fit`).
fn rle_numbers_in_range(text: &str) -> (r: bool)
    ensures
        r == rle_numbers_fit(text@),
{
    let chars = chars_of(text);
    let mut line: Vec<char> = Vec::new();
    let mut marks: Vec<char> = Vec::new();
    let mut seen_header = false;
    let mut header_ok = true;
    let mut scanner = RunScanner { pending: 0, stopped: false, fits: true };
    for k in 0..chars.len()
        invariant
            chars@ == text@,
            lines_of(chars@.take(k as int)).len() >= 1,
            line@ == lines_of(chars@.take(k as int)).last(),
            marks@ == marks_of(line@),
            ({
                let kept = rle_lines(lines_of(chars@.take(k as int)).drop_last());
                &&& seen_header == (kept.len() > 0)
                &&& seen_header ==> header_ok == header_fits(kept[0])
                &&& seen_header ==> scanner.matches(scan_lines(scan_start(), kept.drop_first()))
                &&& !seen_header ==> scanner.matches(scan_start())
            }),
    {
        let ghost pre = chars@.take(k as int);
        let ghost lines = lines_of(pre);
        let ghost kept = rle_lines(lines.drop_last());
        let c = chars[k];
        assert(chars@.take(k + 1).drop_last() =~= pre);
        proof {
            lemma_lines_nonempty(chars@.take(k + 1));
        }
        if c == '\n' {
            proof {
                assert(lines_of(chars@.take(k + 1)).drop_last() =~= lines);
                assert(lines.drop_last().push(lines.last()) =~= lines);
            }
            if marks.len() > 0 && marks[0] != '#' {
                if !seen_header {
                    seen_header = true;
                    header_ok = header_numbers_fit(&line);
                    proof {
                        assert(kept.push(line@).drop_first() =~= Seq::<Seq<char>>::empty());
                    }
                } else {
                    scanner.feed_line(&line, Ghost(scan_lines(scan_start(), kept.drop_first())));
                    proof {
                        assert(kept.push(line@).drop_first() =~= kept.drop_first().push(line@));
                        assert(kept.drop_first().push(line@).drop_last() =~= kept.drop_first());
                    }
                }
            }
            line = Vec::new();
            marks = Vec::new();
            proof {
                let next = lines_of(chars@.take(k + 1));
                assert(next.last() =~= Seq::<char>::empty());
                assert(line@ =~= next.last());
                assert(marks@ =~= marks_of(line@));
            }
        } else {
            proof {
                let next = lines_of(chars@.take(k + 1));
                assert(next.drop_last() =~= lines.drop_last());
                assert(next.last() == lines.last().push(c));
                assert(next.last().drop_last() =~= lines.last());
            }
            line.push(c);
            if !is_whitespace(c) {
                marks.push(c);
            }
        }
    }
    proof {
        assert(chars@.take(chars@.len() as int) =~= text@);
        let lines = lines_of(text@);
        assert(lines.drop_last().push(lines.last()) =~= lines);
    }
    let ghost kept = rle_lines(lines_of(text@).drop_last());
    if marks.len() > 0 && marks[0] != '#' {
        if !seen_header {
            seen_header = true;
            header_ok = header_numbers_fit(&line);
            proof {
                assert(kept.push(line@).drop_first() =~= Seq::<Seq<char>>::empty());
            }
        } else {
            scanner.feed_line(&line, Ghost(scan_lines(scan_start(), kept.drop_first())));
            proof {
                assert(kept.push(line@).drop_first() =~= kept.drop_first().push(line@));
                assert(kept.drop_first().push(line@).drop_last() =~= kept.drop_first());
            }
        }
    }
    !seen_header || (header_ok && scanner.fits)
}

/// The pattern that `text` decodes to, or `None` where it is refused.
pub open spec fn decoded(text: Seq<char>) -> Option<PatternView> {
    match detected_rle(text) {
        None => None,
        Some(false) => if plaintext_rows(text).len() > 0 {
            Some(plaintext_view(text))
        } else {
            None
        },
        Some(true) => if !rle_numbers_fit(text) {
            None
        } else {
            match rle_decoding(text) {
                Some(d) => Some(flat_view(d.0, d.1, d.2)),
                None => None,
            }
        },
    }
}

/// Decodes a pattern text, plaintext or run-length encoded, as the format
/// detection decides.
pub fn decode_pattern(text: &str) -> (r: Result<Pattern, Error>)
    ensures
        match r {
            Ok(p) => decoded(text@) == Some(p@),
            Err(e) => decoded(text@) is None && e is PatternFormat,
        },
        detected_rle(text@) is None ==> r == Err::<Pattern, Error>(
            Error::PatternFormat(PatternFormatError::UnknownFormat),
        ),
        detected_rle(text@) == Some(false) && plaintext_rows(text@).len() == 0 ==> r == Err::<
            Pattern,
            Error,
        >(Error::PatternFormat(PatternFormatError::NoRows)),
        detected_rle(text@) == Some(true) && !rle_numbers_fit(text@) ==> r == Err::<Pattern, Error>(
            Error::PatternFormat(PatternFormatError::NumberTooLarge),
        ),
        detected_rle(text@) == Some(true) && rle_numbers_fit(text@) && rle_decoding(text@) is None
            ==> r matches Err(Error::PatternFormat(PatternFormatError::Rle(_))),
{
    match detect_rle(text) {
        None => Err(Error::PatternFormat(PatternFormatError::UnknownFormat)),
        Some(false) => parse_plaintext(text),
        Some(true) => {
            if !rle_numbers_in_range(text) {
                return Err(Error::PatternFormat(PatternFormatError::NumberTooLarge));
            }
            match decode_rle(text) {
                Ok(p) => Ok(p),
                Err(message) => Err(Error::PatternFormat(PatternFormatError::Rle(message))),
            }
        },
    }
}

} // verus!
