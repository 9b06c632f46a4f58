//! The viewport buffer: accumulated text lines plus the screen origin
//! `(row, col)`, and the computation of the visible slice of text.

use vstd::prelude::*;

verus! {

/// A scroll direction, one step of viewport movement.
#[derive(Clone, Copy, PartialEq, Eq, Structural, Debug)]
pub enum Direction {
    Up,
    Down,
    Left,
    Right,
}

/// The pager's central state: the decoded lines read so far, the screen
/// origin, the advisory read-ahead target, and the end-of-input flag.
pub struct PagerBuffer {
    /// Accumulated decoded lines, in source order, append-only.
    pub lines: Vec<String>,
    /// Index of the topmost visible line.
    pub row: usize,
    /// Leftmost visible character offset within each rendered line.
    pub col: usize,
    /// Advisory lower bound on how many lines the reader should have
    /// produced; grows only, by max-merge.
    pub target: usize,
    /// Whether the input has signalled that no further lines will arrive.
    pub reached_eof: bool,
}

/// The mathematical value of a [`PagerBuffer`]: the lines as sequences of
/// characters, the origin, the target and the flag as unbounded values.
#[verifier::ext_equal]
pub ghost struct BufferView {
    pub lines: Seq<Seq<char>>,
    pub row: int,
    pub col: int,
    pub target: int,
    pub reached_eof: bool,
}

impl BufferView {
    /// The origin stays inside the buffer: `row` is a valid line index
    /// whenever any line exists, and zero otherwise.
    pub open spec fn wf(self) -> bool {
        if self.lines.len() == 0 {
            self.row == 0
        } else {
            self.row < self.lines.len()
        }
    }
}

impl View for PagerBuffer {
    type V = BufferView;

    open spec fn view(&self) -> BufferView {
        BufferView {
            lines: self.lines.deep_view(),
            row: self.row as int,
            col: self.col as int,
            target: self.target as int,
            reached_eof: self.reached_eof,
        }
    }
}

impl PagerBuffer {
    /// The origin stays inside the buffer: `row` is a valid line index
    /// whenever any line exists, and zero otherwise.
    pub open spec fn wf(self) -> bool {
        if self.lines.len() == 0 {
            self.row == 0
        } else {
            self.row < self.lines.len()
        }
    }

    /// Shortcut to the length of the internal buffer `lines`.
    pub fn len(&self) -> (n: usize)
        ensures
            n == self.lines.len(),
    {
        self.lines.len()
    }

    /// A buffer already complete: every line known up front, the origin at
    /// the top-left corner, no reader to wait for.
    pub fn from_lines(lines: Vec<String>) -> (r: Self)
        ensures
            r.wf(),
            r.lines == lines,
            r.row == 0,
            r.col == 0,
            r.target == 0,
            r.reached_eof,
    {
        PagerBuffer { lines, row: 0, col: 0, target: 0, reached_eof: true }
    }

    /// Appends one decoded line; nothing else moves. Lines are append-only
    /// and keep their source order.
    pub fn push_line(&mut self, line: String)
        requires
            old(self).wf(),
        ensures
            final(self).wf(),
            final(self).lines@ == old(self).lines@.push(line),
            final(self).row == old(self).row,
            final(self).col == old(self).col,
            final(self).target == old(self).target,
            final(self).reached_eof == old(self).reached_eof,
    {
        self.lines.push(line);
    }

    /// Records that no further lines will arrive; the lines themselves, the
    /// origin and the target are untouched.
    pub fn mark_eof(&mut self)
        requires
            old(self).wf(),
        ensures
            final(self).wf(),
            final(self).reached_eof,
            final(self).lines == old(self).lines,
            final(self).row == old(self).row,
            final(self).col == old(self).col,
            final(self).target == old(self).target,
    {
        self.reached_eof = true;
    }

    /// Scrolls the screen around with an increment `skip` in direction
    /// `direction`, saturating at every bound: the top line, line zero, the
    /// leftmost column, and the integer maximum on the right.
    pub fn scroll(&mut self, skip: usize, direction: Direction)
        requires
            old(self).wf(),
        ensures
            final(self).wf(),
            final(self).lines == old(self).lines,
            final(self).target == old(self).target,
            final(self).reached_eof == old(self).reached_eof,
            match direction {
                Direction::Up => final(self).row == spec_sat_sub(
                    old(self).row as int,
                    skip as int,
                ) && final(self).col == old(self).col,
                Direction::Down => final(self).row == spec_scroll_down(
                    old(self).row as int,
                    skip as int,
                    old(self).lines.len() as int,
                ) && final(self).col == old(self).col,
                Direction::Left => final(self).col == spec_sat_sub(
                    old(self).col as int,
                    skip as int,
                ) && final(self).row == old(self).row,
                Direction::Right => final(self).col == spec_sat_add(
                    old(self).col as int,
                    skip as int,
                ) && final(self).row == old(self).row,
            },
    {
        match direction {
            Direction::Up => {
                self.row = if self.row >= skip {
                    self.row - skip
                } else {
                    0
                };
            },
            Direction::Down => {
                let len = self.lines.len();
                if len > 0 {
                    let room = len - 1 - self.row;
                    self.row = if skip <= room {
                        self.row + skip
                    } else {
                        len - 1
                    };
                }
            },
            Direction::Left => {
                self.col = if self.col >= skip {
                    self.col - skip
                } else {
                    0
                };
            },
            Direction::Right => {
                self.col = if self.col <= usize::MAX - skip {
                    self.col + skip
                } else {
                    usize::MAX
                };
            },
        }
    }

    /// Whether the read-ahead computation for this buffer and terminal
    /// height stays within a machine word — the precondition of
    /// [`Self::update_target`], so callers can test it before asking.
    pub fn target_fits(&self, term_height: u16) -> (ok: bool)
        ensures
            ok == (self.lines.len() + 4 * (term_height as int) <= usize::MAX),
    {
        self.lines.len() <= usize::MAX - 4 * (term_height as usize)
    }

    /// Recomputes the advisory read-ahead target: keep roughly four screens
    /// of look-ahead past the current buffer tail, merged into the old
    /// target by maximum, so the target never shrinks. A no-op once the end
    /// of input has been reached.
    pub fn update_target(&mut self, term_height: u16)
        requires
            old(self).lines.len() + 4 * (term_height as int) <= usize::MAX,
        ensures
            final(self).target == spec_new_target(
                old(self).target as int,
                old(self).lines.len() as int,
                old(self).reached_eof,
                term_height as int,
            ),
            final(self).target >= old(self).target,
            final(self).lines == old(self).lines,
            final(self).row == old(self).row,
            final(self).col == old(self).col,
            final(self).reached_eof == old(self).reached_eof,
    {
        if self.reached_eof {
            return;
        }
        let readahead = self.lines.len() + 4 * (term_height as usize);
        if readahead > self.target {
            self.target = readahead;
        }
    }
}

impl PagerBuffer {
    /// Generates the lines of text for the current screen based on the
    /// terminal size and buffer contents: the visible buffer lines, each
    /// horizontally clipped, padded with tilde rows to one more than the
    /// terminal height when the buffer runs out before the screen does.
    pub fn compute_screen(&self, term_size: (u16, u16)) -> (r: Vec<String>)
        requires
            self.wf(),
        ensures
            r.deep_view() == spec_screen(
                self.lines.deep_view(),
                self.row as int,
                self.col as int,
                term_size.0 as int,
                term_size.1 as int,
            ),
            term_size.0 > 0 ==> r@.len() == (if self.lines.len() - self.row
                >= term_size.1 as int {
                term_size.1 as int
            } else {
                term_size.1 as int + 1
            }),
            forall|i: int|
                0 <= i < r.deep_view().len() ==> (#[trigger] r.deep_view()[i]).len()
                    <= term_size.0 as int,
    {
        let cols = term_size.0 as usize;
        let rows = term_size.1 as usize;
        let ghost ldv = self.lines.deep_view();
        let mut out: Vec<String> = Vec::new();
        if cols == 0 || rows == 0 {
            proof {
                assert(out.deep_view() =~= Seq::<Seq<char>>::empty());
            }
            return out;
        }
        let len = self.lines.len();
        let remaining = len - self.row;
        let shown = if remaining < rows {
            remaining
        } else {
            rows
        };
        let mut i: usize = 0;
        while i < shown
            invariant
                self.wf(),
                ldv == self.lines.deep_view(),
                cols == term_size.0 as usize,
                cols >= 1,
                shown <= self.lines.len() - self.row,
                i <= shown,
                out@.len() == i,
                forall|j: int|
                    0 <= j < i ==> (#[trigger] out@[j])@ == spec_screen_line(
                        ldv,
                        self.row as int,
                        self.col as int,
                        cols as int,
                        j,
                    ),
            decreases shown - i,
        {
            let line = self.lines[self.row + i].clone();
            let clipped = clip_string(line, &self.col, &cols);
            out.push(clipped);
            i = i + 1;
        }
        if remaining < rows {
            while out.len() < rows + 1
                invariant
                    ldv == self.lines.deep_view(),
                    cols == term_size.0 as usize,
                    cols >= 1,
                    remaining == self.lines.len() - self.row,
                    remaining < rows,
                    rows + 1 <= usize::MAX,
                    remaining <= out@.len() <= rows + 1,
                    forall|j: int|
                        0 <= j < out@.len() ==> (#[trigger] out@[j])@ == spec_screen_line(
                            ldv,
                            self.row as int,
                            self.col as int,
                            cols as int,
                            j,
                        ),
                decreases rows + 1 - out@.len(),
            {
                let tilde: String = "~".to_owned();
                proof {
                    reveal_strlit("~");
                    assert(tilde@ =~= seq!['~']);
                }
                out.push(tilde);
            }
        }
        proof {
            let screen = spec_screen(
                ldv,
                self.row as int,
                self.col as int,
                term_size.0 as int,
                term_size.1 as int,
            );
            assert forall|k: int| 0 <= k < out@.len() implies out.deep_view()[k] == screen[k] by {
                assert(out.deep_view()[k] == out@[k]@);
            }
            assert(out.deep_view() =~= screen);
            assert forall|k: int| 0 <= k < out.deep_view().len() implies (#[trigger] out.deep_view()[
                k
            ]).len() <= term_size.0 as int by {
                lemma_clip_len(
                    spec_line_at(ldv, self.row as int + k),
                    self.col as int,
                    cols as int,
                );
            }
        }
        out
    }
}

/// The line the screen shows at offset `i` below the origin: the buffer line
/// at `row + i`, clipped, or a tilde row beyond the end of the buffer.
pub open spec fn spec_screen_line(
    lines: Seq<Seq<char>>,
    row: int,
    col: int,
    cols: int,
    i: int,
) -> Seq<char> {
    if row + i < lines.len() {
        spec_clip(lines[row + i], col, cols)
    } else {
        seq!['~']
    }
}

/// A total helper over the line sequence: the line at `i`, or empty out of
/// range, so that clipping lemmas apply uniformly.
pub open spec fn spec_line_at(lines: Seq<Seq<char>>, i: int) -> Seq<char> {
    if 0 <= i < lines.len() {
        lines[i]
    } else {
        Seq::empty()
    }
}

/// What the whole screen shows: nothing at all on a degenerate terminal;
/// exactly `rows` clipped buffer lines while the buffer reaches past the
/// screen; otherwise the remaining buffer lines padded with tildes up to
/// `rows + 1` entries.
pub open spec fn spec_screen(
    lines: Seq<Seq<char>>,
    row: int,
    col: int,
    cols: int,
    rows: int,
) -> Seq<Seq<char>> {
    if cols <= 0 || rows <= 0 {
        Seq::empty()
    } else {
        let n = if lines.len() - row >= rows {
            rows
        } else {
            rows + 1
        };
        Seq::new(n as nat, |i: int| spec_screen_line(lines, row, col, cols, i))
    }
}

/// A clipped line never exceeds the window width.
pub proof fn lemma_clip_len(s: Seq<char>, col: int, cols: int)
    requires
        0 <= col,
        0 <= cols,
    ensures
        spec_clip(s, col, cols).len() <= cols,
{
}

/// Clipping with no offset and a window as wide as the line returns the
/// line itself.
pub proof fn lemma_clip_identity(s: Seq<char>)
    ensures
        spec_clip(s, 0, s.len() as int) == s,
{
    assert(spec_clip(s, 0, s.len() as int) =~= s);
}

/// Clipping a line at an offset at or past its end yields the empty line.
pub proof fn lemma_clip_past_end(s: Seq<char>, col: int, cols: int)
    requires
        s.len() <= col,
        0 <= cols,
    ensures
        spec_clip(s, col, cols) == Seq::<char>::empty(),
{
    assert(spec_clip(s, col, cols) =~= Seq::<char>::empty());
}

/// Saturation is idempotent at the lower bound: from the top row, scrolling
/// up by `k` and then down by `k` comes back to the top row. Stated for the
/// buffers on which it holds — at most one line, or a zero step; on longer
/// buffers the downward leg walks away from the top.
pub proof fn lemma_scroll_up_then_down(b: PagerBuffer, k: int)
    requires
        b.wf(),
        b.row == 0,
        0 <= k,
        b.lines.len() <= 1 || k == 0,
    ensures
        spec_scroll_down(spec_sat_sub(b.row as int, k), k, b.lines.len() as int) == 0,
{
}

/// The companion that does hold of every buffer: from the top row, scrolling
/// down by `k` and then up by `k` comes back to the top row, because the
/// downward leg lands at most `k` lines deep.
pub proof fn lemma_scroll_down_then_up(b: PagerBuffer, k: int)
    requires
        b.wf(),
        b.row == 0,
        0 <= k,
    ensures
        spec_sat_sub(spec_scroll_down(b.row as int, k, b.lines.len() as int), k) == 0,
{
}

/// A buffer shorter than the screen, viewed from its first line, renders as
/// the buffer lines in order, each clipped, followed by tilde rows up to one
/// more than the terminal height.
pub proof fn lemma_screen_short_buffer(lines: Seq<Seq<char>>, col: int, cols: int, rows: int)
    requires
        1 <= cols,
        lines.len() < rows,
    ensures
        spec_screen(lines, 0, col, cols, rows).len() == rows + 1,
        forall|i: int|
            0 <= i < lines.len() ==> #[trigger] spec_screen(lines, 0, col, cols, rows)[i]
                == spec_clip(lines[i], col, cols),
        forall|i: int|
            lines.len() <= i < rows + 1 ==> #[trigger] spec_screen(lines, 0, col, cols, rows)[i]
                == seq!['~'],
{
}

/// Subtraction saturating at zero.
pub open spec fn spec_sat_sub(a: int, b: int) -> int {
    if a >= b {
        a - b
    } else {
        0
    }
}

/// Addition saturating at the integer maximum.
pub open spec fn spec_sat_add(a: int, b: int) -> int {
    if a + b <= usize::MAX {
        a + b
    } else {
        usize::MAX as int
    }
}

/// Where a downward scroll by `skip` lands: `row + skip`, held back to the
/// last line index, and to zero on an empty buffer.
pub open spec fn spec_scroll_down(row: int, skip: int, len: int) -> int {
    if len == 0 {
        0
    } else if row + skip < len {
        row + skip
    } else {
        len - 1
    }
}

/// The read-ahead target after one downward scroll: the current length plus
/// four terminal heights, max-merged into the old target; frozen once the
/// end of input is known.
pub open spec fn spec_new_target(target: int, len: int, reached_eof: bool, term_height: int) -> int {
    if reached_eof {
        target
    } else if target >= len + 4 * term_height {
        target
    } else {
        len + 4 * term_height
    }
}

impl Default for PagerBuffer {
    /// An empty buffer awaiting input: no lines, origin at the top-left,
    /// target zero, end of input not reached.
    fn default() -> (r: Self)
        ensures
            r.wf(),
            r.lines.len() == 0,
            r.row == 0,
            r.col == 0,
            r.target == 0,
            !r.reached_eof,
    {
        PagerBuffer { lines: Vec::new(), row: 0, col: 0, target: 0, reached_eof: false }
    }
}

/// What horizontal clipping yields: the suffix of `s` starting at offset
/// `col`, truncated to at most `cols` characters; empty when the line is
/// shorter than the offset.
pub open spec fn spec_clip(s: Seq<char>, col: int, cols: int) -> Seq<char> {
    if s.len() < col {
        Seq::empty()
    } else if s.len() - col <= cols {
        s.subrange(col, s.len() as int)
    } else {
        s.subrange(col, col + cols)
    }
}

/// Clips one line to the visible window: drop the first `col` characters,
/// keep at most `cols` of the rest.
///
/// Offsets count characters, not bytes; on ASCII lines, for which the
/// pager's rendering is defined, the two coincide.
pub fn clip_string(s: String, col: &usize, cols: &usize) -> (r: String)
    ensures
        r@ == spec_clip(s@, *col as int, *cols as int),
{
    let n = s.as_str().unicode_len();
    if n < *col {
        String::new()
    } else {
        let take: usize = if n - *col <= *cols {
            n - *col
        } else {
            *cols
        };
        let clipped = s.as_str().substring_char(*col, *col + take);
        clipped.to_owned()
    }
}

} // verus!
