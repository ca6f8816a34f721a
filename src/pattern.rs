use vstd::prelude::*;

use crate::error::{Error, PatternFormatError};
use crate::text::{chars_of, is_white, is_whitespace};

verus! {

/// A decoded pattern: `height` rows of `width` cells, stored row after row.
#[derive(Clone, Debug, PartialEq, Eq)]
pub struct Pattern {
    pub width: usize,
    pub height: usize,
    pub cells: Vec<bool>,
}

/// A pattern as its dimensions and its rows of states.
pub struct PatternView {
    pub width: nat,
    pub height: nat,
    pub rows: Seq<Seq<bool>>,
}

/// The state at row `r`, column `c` of cells stored row after row, `width`
/// to a row; positions past the end of `cells` are dead.
pub open spec fn flat_cell(width: nat, cells: Seq<bool>, r: int, c: int) -> bool {
    let i = r * width + c;
    0 <= i < cells.len() && cells[i]
}

/// The pattern of `height` rows of `width` cells stored row after row.
pub open spec fn flat_view(width: nat, height: nat, cells: Seq<bool>) -> PatternView {
    PatternView {
        width,
        height,
        rows: Seq::new(height, |r: int| Seq::new(width, |c: int| flat_cell(width, cells, r, c))),
    }
}

impl View for Pattern {
    type V = PatternView;

    open spec fn view(&self) -> PatternView {
        flat_view(self.width as nat, self.height as nat, self.cells@)
    }
}

impl Pattern {
    /// The state at row `r`, column `c`; positions past the end of `cells` are dead.
    pub open spec fn cell(&self, r: int, c: int) -> bool {
        flat_cell(self.width as nat, self.cells@, r, c)
    }
}

/// The lines of `s`: the pieces between newline characters.
pub open spec fn lines_of(s: Seq<char>) -> Seq<Seq<char>>
    decreases s.len(),
{
    if s.len() == 0 {
        seq![Seq::empty()]
    } else {
        let init = lines_of(s.drop_last());
        if s.last() == '\n' {
            init.push(Seq::empty())
        } else {
            init.update(init.len() - 1, init.last().push(s.last()))
        }
    }
}

/// The marks of a line: its characters other than white space.
pub open spec fn marks_of(line: Seq<char>) -> Seq<char>
    decreases line.len(),
{
    if line.len() == 0 {
        line
    } else if is_white(line.last()) {
        marks_of(line.drop_last())
    } else {
        marks_of(line.drop_last()).push(line.last())
    }
}

/// A line describes a row when it holds a mark and does not open with the
/// comment marker `!`.
pub open spec fn is_pattern_line(line: Seq<char>) -> bool {
    marks_of(line).len() > 0 && marks_of(line)[0] != '!'
}

/// The row that a line's marks describe: `.` is a dead cell, any other mark a live one.
pub open spec fn row_of_marks(marks: Seq<char>) -> Seq<bool> {
    marks.map_values(|c: char| c != '.')
}

/// The rows that the given lines describe, in order.
pub open spec fn rows_of_lines(lines: Seq<Seq<char>>) -> Seq<Seq<bool>>
    decreases lines.len(),
{
    if lines.len() == 0 {
        Seq::empty()
    } else if is_pattern_line(lines.last()) {
        rows_of_lines(lines.drop_last()).push(row_of_marks(marks_of(lines.last())))
    } else {
        rows_of_lines(lines.drop_last())
    }
}

/// The rows that a plaintext pattern describes, top to bottom.
pub open spec fn plaintext_rows(text: Seq<char>) -> Seq<Seq<bool>> {
    rows_of_lines(lines_of(text))
}

/// The length of the longest row.
pub open spec fn max_len(rows: Seq<Seq<bool>>) -> nat
    decreases rows.len(),
{
    if rows.len() == 0 {
        0
    } else {
        let m = max_len(rows.drop_last());
        if rows.last().len() > m {
            rows.last().len()
        } else {
            m
        }
    }
}

/// The state at row `r`, column `c` of `rows`, rows that are too short
/// being dead at their right end.
pub open spec fn padded_cell(rows: Seq<Seq<bool>>, r: int, c: int) -> bool {
    c < rows[r].len() && rows[r][c]
}

/// The pattern that plaintext `text` describes: as wide as its longest row,
/// shorter rows dead-padded on the right.
pub open spec fn plaintext_view(text: Seq<char>) -> PatternView {
    let rows = plaintext_rows(text);
    PatternView {
        width: max_len(rows),
        height: rows.len(),
        rows: Seq::new(
            rows.len(),
            |r: int| Seq::new(max_len(rows), |c: int| padded_cell(rows, r, c)),
        ),
    }
}

/// `p` is the plaintext pattern with these rows: as wide as the longest row,
/// every cell in place, shorter rows dead-padded on the right.
pub open spec fn is_pattern_of_rows(p: Pattern, rows: Seq<Seq<bool>>) -> bool {
    &&& p.width == max_len(rows)
    &&& p.height == rows.len()
    &&& p.cells@.len() == p.width * p.height
    &&& forall|r: int, c: int|
        0 <= r < p.height && 0 <= c < p.width ==> #[trigger] p.cell(r, c) == padded_cell(
            rows,
            r,
            c,
        )
}

pub(crate) proof fn lemma_lines_nonempty(s: Seq<char>)
    ensures
        lines_of(s).len() >= 1,
    decreases s.len(),
{
    if s.len() > 0 {
        lemma_lines_nonempty(s.drop_last());
    }
}

proof fn lemma_max_len(rows: Seq<Seq<bool>>)
    ensures
        forall|r: int| 0 <= r < rows.len() ==> #[trigger] rows[r].len() <= max_len(rows),
        rows.len() > 0 ==> exists|r: int| 0 <= r < rows.len() && #[trigger] rows[r].len() == max_len(rows),
    decreases rows.len(),
{
    if rows.len() > 0 {
        let init = rows.drop_last();
        lemma_max_len(init);
        assert forall|r: int| 0 <= r < rows.len() implies #[trigger] rows[r].len() <= max_len(
            rows,
        ) by {
            if r < init.len() {
                assert(rows[r] == init[r]);
            }
        }
        if rows.last().len() > max_len(init) {
            assert(rows[rows.len() - 1].len() == max_len(rows));
        } else if init.len() > 0 {
            let r = choose|r: int| 0 <= r < init.len() && #[trigger] init[r].len() == max_len(init);
            assert(rows[r].len() == max_len(rows));
        } else {
            assert(rows[0].len() == max_len(rows));
        }
    }
}

/// Closes a line: appends its row to `rows` when the line describes one.
fn finish_line(rows: &mut Vec<Vec<bool>>, marks: &Vec<char>)
    ensures
        final(rows)@.len() == old(rows)@.len() + (if marks@.len() > 0 && marks@[0] != '!' {
            1int
        } else {
            0
        }),
        forall|i: int| 0 <= i < old(rows)@.len() ==> #[trigger] final(rows)@[i] == old(rows)@[i],
        marks@.len() > 0 && marks@[0] != '!' ==> final(rows)@[old(rows)@.len() as int]@
            == row_of_marks(marks@),
{
    if marks.len() > 0 && marks[0] != '!' {
        let mut row: Vec<bool> = Vec::new();
        for j in 0..marks.len()
            invariant
                row@.len() == j,
                forall|t: int| 0 <= t < j ==> #[trigger] row@[t] == (marks@[t] != '.'),
        {
            row.push(marks[j] != '.');
        }
        assert(row@ =~= row_of_marks(marks@));
        rows.push(row);
    }
}

/// The rows of a plaintext pattern, each as long as its line has marks.
fn plaintext_row_list(text: &str) -> (rows: Vec<Vec<bool>>)
    ensures
        rows@.len() == plaintext_rows(text@).len(),
        forall|i: int| 0 <= i < rows@.len() ==> #[trigger] rows@[i]@ == plaintext_rows(text@)[i],
{
    let chars = chars_of(text);
    let mut rows: Vec<Vec<bool>> = Vec::new();
    let mut marks: Vec<char> = Vec::new();
    for k in 0..chars.len()
        invariant
            chars@ == text@,
            lines_of(chars@.take(k as int)).len() >= 1,
            rows@.len() == rows_of_lines(lines_of(chars@.take(k as int)).drop_last()).len(),
            forall|i: int|
                0 <= i < rows@.len() ==> #[trigger] rows@[i]@ == rows_of_lines(
                    lines_of(chars@.take(k as int)).drop_last(),
                )[i],
            marks@ == marks_of(lines_of(chars@.take(k as int)).last()),
    {
        let ghost pre = chars@.take(k as int);
        let ghost lines = lines_of(pre);
        let c = chars[k];
        assert(chars@.take(k + 1).drop_last() =~= pre);
        proof {
            lemma_lines_nonempty(chars@.take(k + 1));
        }
        if c == '\n' {
            proof {
                assert(lines_of(chars@.take(k + 1)).drop_last() =~= lines);
                assert(lines.drop_last().push(lines.last()) =~= lines);
            }
            finish_line(&mut rows, &marks);
            marks = Vec::new();
            proof {
                let next = lines_of(chars@.take(k + 1));
                assert(next.last() =~= Seq::<char>::empty());
                assert(marks@ =~= marks_of(next.last()));
            }
        } else {
            proof {
                let next = lines_of(chars@.take(k + 1));
                assert(next.drop_last() =~= lines.drop_last());
                assert(next.last() == lines.last().push(c));
                assert(next.last().drop_last() =~= lines.last());
            }
            if !is_whitespace(c) {
                marks.push(c);
            }
        }
    }
    proof {
        assert(chars@.take(chars@.len() as int) =~= text@);
    }
    finish_line(&mut rows, &marks);
    rows
}

/// Reads a pattern in plaintext form: lines that are blank or open with `!`
/// are skipped, white space is ignored, `.` marks a dead cell and any other
/// character a live one; rows shorter than the longest are dead-padded.
pub fn parse_plaintext(text: &str) -> (r: Result<Pattern, Error>)
    ensures
        match r {
            Ok(p) => plaintext_rows(text@).len() > 0 && p@ == plaintext_view(text@),
            Err(e) => plaintext_rows(text@).len() == 0 && e == Error::PatternFormat(
                PatternFormatError::NoRows,
            ),
        },
{
    let rows = plaintext_row_list(text);
    let ghost spec_rows = plaintext_rows(text@);
    if rows.len() == 0 {
        return Err(Error::PatternFormat(PatternFormatError::NoRows));
    }
    let mut width: usize = 0;
    for i in 0..rows.len()
        invariant
            rows@.len() == spec_rows.len(),
            forall|j: int| 0 <= j < rows@.len() ==> #[trigger] rows@[j]@ == spec_rows[j],
            width == max_len(spec_rows.take(i as int)),
    {
        assert(spec_rows.take(i + 1).drop_last() =~= spec_rows.take(i as int));
        if rows[i].len() > width {
            width = rows[i].len();
        }
    }
    assert(spec_rows.take(rows@.len() as int) =~= spec_rows);
    proof {
        lemma_max_len(spec_rows);
    }
    let height = rows.len();
    let mut cells: Vec<bool> = Vec::new();
    assert(0 * width == 0) by (nonlinear_arith);
    for r in 0..height
        invariant
            height == rows@.len() == spec_rows.len(),
            forall|j: int| 0 <= j < rows@.len() ==> #[trigger] rows@[j]@ == spec_rows[j],
            forall|j: int| 0 <= j < spec_rows.len() ==> #[trigger] spec_rows[j].len() <= width,
            cells@.len() == r * width,
            forall|i: int, c: int|
                0 <= i < r && 0 <= c < width ==> #[trigger] cells@[i * width + c] == padded_cell(
                    spec_rows,
                    i,
                    c,
                ),
    {
        let row = &rows[r];
        for c in 0..width
            invariant
                height == rows@.len() == spec_rows.len(),
                r < height,
                row@ == spec_rows[r as int],
                cells@.len() == r * width + c,
                forall|i: int, c2: int|
                    0 <= i < r && 0 <= c2 < width ==> #[trigger] cells@[i * width + c2]
                        == padded_cell(spec_rows, i, c2),
                forall|c2: int|
                    0 <= c2 < c ==> #[trigger] cells@[r * width + c2] == padded_cell(
                        spec_rows,
                        r as int,
                        c2,
                    ),
        {
            let alive = c < row.len() && row[c];
            let ghost before = cells@;
            cells.push(alive);
            proof {
                assert forall|i: int, c2: int| 0 <= i < r && 0 <= c2 < width implies #[trigger] cells@[i
                    * width + c2] == padded_cell(spec_rows, i, c2) by {
                    assert(i * width + c2 < r * width) by (nonlinear_arith)
                        requires
                            0 <= i < r,
                            0 <= c2 < width,
                    ;
                    assert(cells@[i * width + c2] == before[i * width + c2]);
                }
            }
        }
        assert((r + 1) * width == r * width + width) by (nonlinear_arith);
    }
    let p = Pattern { width, height, cells };
    proof {
        assert forall|r: int, c: int| 0 <= r < p.height && 0 <= c < p.width implies #[trigger] p.cell(
            r,
            c,
        ) == padded_cell(spec_rows, r, c) by {
            assert(r * width + c < height * width) by (nonlinear_arith)
                requires
                    0 <= r < height,
                    0 <= c < width,
            ;
        }
        assert(p.width * p.height == height * width) by (nonlinear_arith)
            requires
                p.width == width,
                p.height == height,
        ;
    }
    assert(is_pattern_of_rows(p, spec_rows));
    assert forall|r: int, c: int| 0 <= r < height && 0 <= c < width implies #[trigger] p@.rows[r][c]
        == plaintext_view(text@).rows[r][c] by {
        assert(p.cell(r, c) == padded_cell(spec_rows, r, c));
    }
    assert(p@.rows =~~= plaintext_view(text@).rows);
    Ok(p)
}

} // verus!
