use vstd::prelude::*;
use crate::color::{Color, N_PALETTES};
use crate::glyph::{glyph_char_of, glyph_of, N_GLYPH_SETS};
use crate::pipe::{on_edge, valid_config, Pipe};

verus! {

/// Why a field of pipes could not be made.
#[derive(Clone, Copy, Debug, PartialEq, Eq, Structural)]
pub enum FieldError {
    /// The glyph set asked for is not built in.
    UnknownCharset,
    /// The minimum track length is not below the maximum.
    TrackLenOrder,
    /// The minimum track length is zero.
    ZeroTrackLen,
    /// The palette asked for is not built in.
    UnknownColorset,
    /// No pipes were asked for.
    NoPipes,
    /// The canvas has no columns or no rows.
    EmptyCanvas,
    /// The operating system could not seed a pipe's generator.
    SeedUnavailable,
}

/// The first setting, in the order below, that rules out a field of `count`
/// pipes, if any.
pub open spec fn config_error(
    count: usize,
    colorset: usize,
    charset: usize,
    min_track_len: u32,
    max_track_len: u32,
    cols: u32,
    rows: u32,
) -> Option<FieldError> {
    if charset >= N_GLYPH_SETS {
        Some(FieldError::UnknownCharset)
    } else if min_track_len >= max_track_len {
        Some(FieldError::TrackLenOrder)
    } else if min_track_len == 0 {
        Some(FieldError::ZeroTrackLen)
    } else if colorset >= N_PALETTES {
        Some(FieldError::UnknownColorset)
    } else if count == 0 {
        Some(FieldError::NoPipes)
    } else if cols == 0 || rows == 0 {
        Some(FieldError::EmptyCanvas)
    } else {
        None
    }
}

/// Checks the settings of a field of `count` pipes.
pub fn check_config(
    count: usize,
    colorset: usize,
    charset: usize,
    min_track_len: u32,
    max_track_len: u32,
    cols: u32,
    rows: u32,
) -> (r: Result<(), FieldError>)
    ensures
        r == (match config_error(count, colorset, charset, min_track_len, max_track_len, cols, rows) {
            Some(e) => Err(e),
            None => Ok(()),
        }),
        r is Ok <==> (count > 0 && valid_config(
            colorset,
            charset,
            min_track_len,
            max_track_len,
            cols,
            rows,
        )),
{
    if charset >= N_GLYPH_SETS {
        Err(FieldError::UnknownCharset)
    } else if min_track_len >= max_track_len {
        Err(FieldError::TrackLenOrder)
    } else if min_track_len == 0 {
        Err(FieldError::ZeroTrackLen)
    } else if colorset >= N_PALETTES {
        Err(FieldError::UnknownColorset)
    } else if count == 0 {
        Err(FieldError::NoPipes)
    } else if cols == 0 || rows == 0 {
        Err(FieldError::EmptyCanvas)
    } else {
        Ok(())
    }
}

/// What one pipe puts on the canvas in a frame: a glyph in a colour at a cell.
#[derive(Clone, Copy, Debug, PartialEq, Eq, Structural)]
pub struct Cell {
    pub row: u32,
    pub col: u32,
    pub color: Color,
    pub glyph: char,
}

/// The cell that pipe `p` draws.
pub open spec fn cell_of(p: Pipe) -> Cell {
    Cell {
        row: p.pos.y,
        col: p.pos.x,
        color: p.color,
        glyph: glyph_char_of(p.charset, glyph_of(p.last_dir, p.dir)),
    }
}

/// The pipes that share one canvas, in drawing order.
pub struct PipeField {
    pub pipes: Vec<Pipe>,
}

impl PipeField {
    /// Every pipe of the field is well formed.
    pub open spec fn wf(&self) -> bool {
        forall|i: int| 0 <= i < self.pipes@.len() ==> #[trigger] self.pipes@[i].wf()
    }

    /// `count` pipes with the given settings, each spawned on an edge of the
    /// canvas; or the first setting that rules them out; or, with settings
    /// that allow them, `SeedUnavailable` where the operating system could not
    /// seed a generator.
    pub fn new(
        count: usize,
        colorset: usize,
        charset: usize,
        min_track_len: u32,
        max_track_len: u32,
        cols: u32,
        rows: u32,
    ) -> (r: Result<PipeField, FieldError>)
        ensures
            match config_error(count, colorset, charset, min_track_len, max_track_len, cols, rows) {
                Some(e) => r == Err::<PipeField, FieldError>(e),
                None => r is Ok || r == Err::<PipeField, FieldError>(FieldError::SeedUnavailable),
            },
            r matches Ok(f) ==> {
                &&& f.wf()
                &&& f.pipes@.len() == count
                &&& forall|i: int|
                    0 <= i < count ==> {
                        let p = #[trigger] f.pipes@[i];
                        &&& p.colorset == colorset
                        &&& p.charset == charset
                        &&& p.min_track_len == min_track_len
                        &&& p.max_track_len == max_track_len
                        &&& p.cols == cols
                        &&& p.rows == rows
                        &&& p.last_dir == p.dir
                        &&& on_edge(p.pos, cols, rows)
                        &&& min_track_len <= p.track_len < max_track_len
                    }
            },
    {
        match check_config(count, colorset, charset, min_track_len, max_track_len, cols, rows) {
            Err(e) => Err(e),
            Ok(()) => {
                let mut pipes: Vec<Pipe> = Vec::new();
                let mut n: usize = 0;
                while n < count
                    invariant
                        n <= count,
                        pipes@.len() == n,
                        valid_config(colorset, charset, min_track_len, max_track_len, cols, rows),
                        forall|i: int|
                            0 <= i < n ==> {
                                let p = #[trigger] pipes@[i];
                                &&& p.wf()
                                &&& p.colorset == colorset
                                &&& p.charset == charset
                                &&& p.min_track_len == min_track_len
                                &&& p.max_track_len == max_track_len
                                &&& p.cols == cols
                                &&& p.rows == rows
                                &&& p.last_dir == p.dir
                                &&& on_edge(p.pos, cols, rows)
                                &&& min_track_len <= p.track_len < max_track_len
                            },
                    decreases count - n,
                {
                    match Pipe::new(colorset, charset, min_track_len, max_track_len, cols, rows) {
                        Some(p) => pipes.push(p),
                        None => return Err(FieldError::SeedUnavailable),
                    }
                    n = n + 1;
                }
                Ok(PipeField { pipes })
            },
        }
    }

    /// One frame of the walk: every pipe takes one update, in order.
    pub fn advance_all(&mut self)
        requires
            old(self).wf(),
        ensures
            final(self).wf(),
            final(self).pipes@.len() == old(self).pipes@.len(),
            forall|i: int|
                0 <= i < old(self).pipes@.len() ==> Pipe::advanced(
                    #[trigger] old(self).pipes@[i],
                    final(self).pipes@[i],
                ),
    {
        let ghost start = self.pipes@;
        let len = self.pipes.len();
        let mut i: usize = 0;
        while i < len
            invariant
                i <= len,
                len == start.len(),
                self.pipes@.len() == len,
                forall|j: int| 0 <= j < start.len() ==> #[trigger] start[j].wf(),
                forall|j: int| 0 <= j < i ==> #[trigger] self.pipes@[j].wf(),
                forall|j: int| 0 <= j < i ==> Pipe::advanced(#[trigger] start[j], self.pipes@[j]),
                forall|j: int| i <= j < len ==> #[trigger] self.pipes@[j] == start[j],
            decreases len - i,
        {
            self.pipes[i].update();
            i = i + 1;
        }
    }

    /// The cells that the pipes draw, in drawing order: where two share a
    /// cell, the later one shows.
    pub fn cells(&self) -> (r: Vec<Cell>)
        requires
            self.wf(),
        ensures
            r@.len() == self.pipes@.len(),
            forall|i: int| 0 <= i < r@.len() ==> #[trigger] r@[i] == cell_of(self.pipes@[i]),
    {
        let mut r: Vec<Cell> = Vec::new();
        let mut i: usize = 0;
        while i < self.pipes.len()
            invariant
                i <= self.pipes@.len(),
                self.wf(),
                r@.len() == i,
                forall|j: int| 0 <= j < i ==> #[trigger] r@[j] == cell_of(self.pipes@[j]),
            decreases self.pipes@.len() - i,
        {
            let p = &self.pipes[i];
            let cell = Cell { row: p.pos.y, col: p.pos.x, color: p.color, glyph: p.glyph() };
            r.push(cell);
            i = i + 1;
        }
        r
    }
}

} // verus!
