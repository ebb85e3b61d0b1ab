use vstd::prelude::*;
use rand::rngs::StdRng;
use crate::color::{in_palette, palette, palette_color, Color, N_PALETTES, PALETTE_LEN};
use crate::direction::Direction;
use crate::glyph::{glyph_char, glyph_char_of, glyph_index, glyph_of, N_GLYPH_SETS};
use crate::random::{random_bool, random_u32, random_usize, try_entropy_rng};

verus! {

/// A cell of the canvas: column `x`, row `y`.
#[derive(Clone, Copy, Debug, PartialEq, Eq, Structural)]
pub struct Position {
    pub x: u32,
    pub y: u32,
}

impl Position {
    pub fn new(x: u32, y: u32) -> (p: Position)
        ensures
            p.x == x,
            p.y == y,
    {
        Position { x, y }
    }
}

/// The cell next to `p` in heading `d` on a canvas of `cols` columns and
/// `rows` rows whose opposite edges meet.
pub open spec fn moved(p: Position, d: Direction, cols: u32, rows: u32) -> Position {
    match d {
        Direction::Up => Position {
            x: p.x,
            y: if p.y == 0 { (rows - 1) as u32 } else { (p.y - 1) as u32 },
        },
        Direction::Down => Position {
            x: p.x,
            y: if p.y + 1 >= rows { 0u32 } else { (p.y + 1) as u32 },
        },
        Direction::Left => Position {
            x: if p.x == 0 { (cols - 1) as u32 } else { (p.x - 1) as u32 },
            y: p.y,
        },
        Direction::Right => Position {
            x: if p.x + 1 >= cols { 0u32 } else { (p.x + 1) as u32 },
            y: p.y,
        },
    }
}

/// The spawn cell on edge `edge` (bottom, top, right, left), `offset` cells
/// along it, taken modulo the edge's length.
pub open spec fn spawn_point(edge: int, offset: u32, cols: u32, rows: u32) -> Position {
    if edge == 0 {
        Position { x: (offset % cols) as u32, y: (rows - 1) as u32 }
    } else if edge == 1 {
        Position { x: (offset % cols) as u32, y: 0 }
    } else if edge == 2 {
        Position { x: (cols - 1) as u32, y: (offset % rows) as u32 }
    } else {
        Position { x: 0, y: (offset % rows) as u32 }
    }
}

/// `p` lies on the outermost ring of cells of the canvas.
pub open spec fn on_edge(p: Position, cols: u32, rows: u32) -> bool {
    p.x == 0 || p.x == cols - 1 || p.y == 0 || p.y == rows - 1
}

/// The settings a pipe can be made with: a built-in palette and glyph set,
/// tracks of at least one cell and a canvas of at least one cell.
pub open spec fn valid_config(
    colorset: usize,
    charset: usize,
    min_track_len: u32,
    max_track_len: u32,
    cols: u32,
    rows: u32,
) -> bool {
    &&& colorset < N_PALETTES
    &&& charset < N_GLYPH_SETS
    &&& 1 <= min_track_len < max_track_len
    &&& cols > 0
    &&& rows > 0
}

/// One moving pipe: where it is, where it heads, how far it goes before it
/// turns, and the colour it is drawn in.
pub struct Pipe {
    pub pos: Position,
    pub dir: Direction,
    pub last_dir: Direction,
    pub rng: StdRng,
    /// Cells left on the current track before the pipe turns.
    pub track_len: u32,
    pub color: Color,
    /// Tracks are shorter than this.
    pub max_track_len: u32,
    pub colorset: usize,
    pub charset: usize,
    pub rows: u32,
    pub cols: u32,
    /// Tracks are at least this long.
    pub min_track_len: u32,
}

impl Pipe {
    /// The pipe stands on its canvas, has a track ahead of it and a colour of
    /// its palette.
    pub open spec fn wf(&self) -> bool {
        &&& valid_config(
            self.colorset,
            self.charset,
            self.min_track_len,
            self.max_track_len,
            self.cols,
            self.rows,
        )
        &&& self.pos.x < self.cols
        &&& self.pos.y < self.rows
        &&& 1 <= self.track_len < self.max_track_len
        &&& in_palette(self.colorset as int, self.color)
    }

    /// The two pipes were made with the same settings.
    pub open spec fn same_config(self, other: Pipe) -> bool {
        &&& self.colorset == other.colorset
        &&& self.charset == other.charset
        &&& self.min_track_len == other.min_track_len
        &&& self.max_track_len == other.max_track_len
        &&& self.cols == other.cols
        &&& self.rows == other.rows
    }

    /// The length of a new track drawn from `roll`.
    pub open spec fn track_len_for(self, roll: u32) -> u32 {
        (self.min_track_len + roll % ((self.max_track_len - self.min_track_len) as u32)) as u32
    }

    /// `new` is what one update of `old` may give. A pipe with one cell of
    /// track left turns a quarter in place and starts a new track; any other
    /// pipe moves one cell on, across the edge to the opposite one.
    pub open spec fn advanced(old: Pipe, new: Pipe) -> bool {
        &&& new.same_config(old)
        &&& new.color == old.color
        &&& new.last_dir == old.dir
        &&& if old.track_len == 1 {
            &&& new.pos == old.pos
            &&& new.dir.perpendicular(old.dir)
            &&& old.min_track_len <= new.track_len < old.max_track_len
        } else {
            &&& new.pos == moved(old.pos, old.dir, old.cols, old.rows)
            &&& new.dir == old.dir
            &&& new.track_len == old.track_len - 1
        }
    }

    /// A pipe with the given settings, spawned on an edge of the canvas, with
    /// a generator seeded by the operating system; `None` where the operating
    /// system could not supply a seed.
    pub fn new(
        colorset: usize,
        charset: usize,
        min_track_len: u32,
        max_track_len: u32,
        cols: u32,
        rows: u32,
    ) -> (r: Option<Pipe>)
        requires
            valid_config(colorset, charset, min_track_len, max_track_len, cols, rows),
        ensures
            r matches Some(p) ==> {
                &&& p.wf()
                &&& p.colorset == colorset
                &&& p.charset == charset
                &&& p.min_track_len == min_track_len
                &&& p.max_track_len == max_track_len
                &&& p.cols == cols
                &&& p.rows == rows
                &&& p.last_dir == p.dir
                &&& on_edge(p.pos, cols, rows)
                &&& min_track_len <= p.track_len < max_track_len
            },
    {
        match try_entropy_rng() {
            Some(rng) => Some(
                Pipe::with_rng(colorset, charset, min_track_len, max_track_len, cols, rows, rng),
            ),
            None => None,
        }
    }

    /// A pipe with the given settings, spawned on an edge of the canvas by
    /// draws from `rng`.
    pub fn with_rng(
        colorset: usize,
        charset: usize,
        min_track_len: u32,
        max_track_len: u32,
        cols: u32,
        rows: u32,
        rng: StdRng,
    ) -> (p: Pipe)
        requires
            valid_config(colorset, charset, min_track_len, max_track_len, cols, rows),
        ensures
            p.wf(),
            p.colorset == colorset,
            p.charset == charset,
            p.min_track_len == min_track_len,
            p.max_track_len == max_track_len,
            p.cols == cols,
            p.rows == rows,
            p.last_dir == p.dir,
            on_edge(p.pos, cols, rows),
            min_track_len <= p.track_len < max_track_len,
    {
        let mut pipe = Pipe {
            pos: Position::new(0, 0),
            dir: Direction::Up,
            last_dir: Direction::Up,
            rng,
            track_len: min_track_len,
            color: palette_color(colorset, 0),
            max_track_len,
            colorset,
            charset,
            rows,
            cols,
            min_track_len,
        };
        pipe.reset();
        pipe
    }

    /// Takes colour `roll` modulo the palette's length from the pipe's palette.
    pub fn set_color_from(&mut self, roll: usize)
        requires
            old(self).wf(),
        ensures
            final(self).wf(),
            *final(self) == (Pipe {
                color: palette(old(self).colorset as int, (roll % PALETTE_LEN) as int),
                ..*old(self)
            }),
    {
        self.color = palette_color(self.colorset, roll % PALETTE_LEN);
    }

    /// Draws a colour of the pipe's palette at random.
    pub fn set_random_color(&mut self)
        requires
            old(self).wf(),
        ensures
            final(self).wf(),
            final(self).same_config(*old(self)),
            final(self).pos == old(self).pos,
            final(self).dir == old(self).dir,
            final(self).last_dir == old(self).last_dir,
            final(self).track_len == old(self).track_len,
            in_palette(final(self).colorset as int, final(self).color),
    {
        let roll = random_usize(&mut self.rng);
        self.set_color_from(roll);
    }

    /// Starts a track whose length is drawn from `roll`.
    pub fn set_track_len_from(&mut self, roll: u32)
        requires
            old(self).wf(),
        ensures
            final(self).wf(),
            *final(self) == (Pipe { track_len: old(self).track_len_for(roll), ..*old(self) }),
            old(self).min_track_len <= final(self).track_len < old(self).max_track_len,
    {
        let span = self.max_track_len - self.min_track_len;
        self.track_len = self.min_track_len + roll % span;
    }

    /// Starts a track of random length, at least the minimum and below the
    /// maximum.
    pub fn set_track_len(&mut self)
        requires
            old(self).wf(),
        ensures
            final(self).wf(),
            final(self).same_config(*old(self)),
            final(self).pos == old(self).pos,
            final(self).dir == old(self).dir,
            final(self).last_dir == old(self).last_dir,
            final(self).color == old(self).color,
            old(self).min_track_len <= final(self).track_len < old(self).max_track_len,
    {
        let roll = random_u32(&mut self.rng);
        self.set_track_len_from(roll);
    }

    /// Puts the pipe on edge `edge` modulo four, `offset` cells along it,
    /// heading `dir`.
    pub fn spawn_at(&mut self, edge: usize, offset: u32, dir: Direction)
        requires
            old(self).wf(),
        ensures
            final(self).wf(),
            *final(self) == (Pipe {
                pos: spawn_point((edge % 4) as int, offset, old(self).cols, old(self).rows),
                dir,
                last_dir: dir,
                ..*old(self)
            }),
            on_edge(final(self).pos, final(self).cols, final(self).rows),
    {
        let side: usize = edge % 4;
        if side == 0 {
            self.pos = Position::new(offset % self.cols, self.rows - 1);
        } else if side == 1 {
            self.pos = Position::new(offset % self.cols, 0);
        } else if side == 2 {
            self.pos = Position::new(self.cols - 1, offset % self.rows);
        } else {
            self.pos = Position::new(0, offset % self.rows);
        }
        self.dir = dir;
        self.last_dir = dir;
    }

    /// Spawns the pipe anew: a random edge, cell along it and heading, a new
    /// track and a new colour.
    pub fn reset(&mut self)
        requires
            old(self).wf(),
        ensures
            final(self).wf(),
            final(self).same_config(*old(self)),
            final(self).last_dir == final(self).dir,
            on_edge(final(self).pos, final(self).cols, final(self).rows),
            old(self).min_track_len <= final(self).track_len < old(self).max_track_len,
    {
        self.set_random_color();
        let dir_roll = random_usize(&mut self.rng);
        let edge = random_usize(&mut self.rng);
        let offset = random_u32(&mut self.rng);
        self.spawn_at(edge, offset, Direction::from_index(dir_roll));
        self.set_track_len();
    }

    /// Turns a quarter in place, to a side picked by a fair coin, and starts
    /// a new track.
    pub fn turn_pipe(&mut self)
        requires
            old(self).wf(),
        ensures
            final(self).wf(),
            final(self).same_config(*old(self)),
            final(self).pos == old(self).pos,
            final(self).color == old(self).color,
            final(self).last_dir == old(self).dir,
            final(self).dir.perpendicular(old(self).dir),
            old(self).min_track_len <= final(self).track_len < old(self).max_track_len,
    {
        let coin = random_bool(&mut self.rng);
        self.last_dir = self.dir;
        self.dir = self.dir.turned(coin);
        self.set_track_len();
    }

    /// One frame of the walk: the pipe turns when its track runs out, and
    /// otherwise moves one cell on.
    pub fn update(&mut self)
        requires
            old(self).wf(),
        ensures
            final(self).wf(),
            Pipe::advanced(*old(self), *final(self)),
    {
        if self.track_len == 1 {
            self.turn_pipe();
        } else {
            self.track_len = self.track_len - 1;
            self.last_dir = self.dir;
            let x = self.pos.x;
            let y = self.pos.y;
            match self.dir {
                Direction::Up => {
                    self.pos.y = if y == 0 { self.rows - 1 } else { y - 1 };
                },
                Direction::Down => {
                    self.pos.y = if y + 1 >= self.rows { 0 } else { y + 1 };
                },
                Direction::Left => {
                    self.pos.x = if x == 0 { self.cols - 1 } else { x - 1 };
                },
                Direction::Right => {
                    self.pos.x = if x + 1 >= self.cols { 0 } else { x + 1 };
                },
            }
        }
    }

    /// The character drawn at the pipe's cell: the glyph that joins the side
    /// it came in by to the side it heads for.
    pub fn glyph(&self) -> (c: char)
        requires
            self.wf(),
        ensures
            c == glyph_char_of(self.charset, glyph_of(self.last_dir, self.dir)),
    {
        glyph_char(self.charset, glyph_index(self.last_dir, self.dir))
    }
}

/// Every update leaves a pipe a track of at least one cell, and the update
/// that uses up a track starts a new one of at least the minimum and below the
/// maximum length.
pub proof fn lemma_track_renewed(old: Pipe, new: Pipe)
    requires
        old.wf(),
        Pipe::advanced(old, new),
    ensures
        new.track_len >= 1,
        old.track_len == 1 ==> old.min_track_len <= new.track_len < old.max_track_len,
{
}

/// An update keeps a pipe well formed: on its canvas, with track ahead and a
/// colour of its palette.
pub proof fn lemma_advanced_wf(old: Pipe, new: Pipe)
    requires
        old.wf(),
        Pipe::advanced(old, new),
    ensures
        new.wf(),
{
}

/// However many updates a pipe goes through, it stays on its canvas: in a
/// walk of states each of which is an update of the one before, every
/// state's cell lies within the canvas.
pub proof fn lemma_stays_on_canvas(walk: Seq<Pipe>)
    requires
        walk.len() > 0,
        walk[0].wf(),
        forall|i: int| 0 <= i < walk.len() - 1 ==> Pipe::advanced(#[trigger] walk[i], walk[i + 1]),
    ensures
        forall|i: int|
            0 <= i < walk.len() ==> #[trigger] walk[i].pos.x < walk[i].cols && walk[i].pos.y
                < walk[i].rows,
{
    assert forall|i: int| 0 <= i < walk.len() implies #[trigger] walk[i].pos.x < walk[i].cols
        && walk[i].pos.y < walk[i].rows by {
        lemma_walk_wf(walk, i);
    }
}

/// Every state of a walk that starts well formed is well formed.
proof fn lemma_walk_wf(walk: Seq<Pipe>, k: int)
    requires
        0 <= k < walk.len(),
        walk[0].wf(),
        forall|i: int| 0 <= i < walk.len() - 1 ==> Pipe::advanced(#[trigger] walk[i], walk[i + 1]),
    ensures
        walk[k].wf(),
    decreases k,
{
    if k > 0 {
        lemma_walk_wf(walk, k - 1);
        lemma_advanced_wf(walk[k - 1], walk[k]);
    }
}

/// A pipe heading left from the first column, with track to go, comes out in
/// the last column of the same row.
pub proof fn lemma_left_edge_wraps(old: Pipe, new: Pipe)
    requires
        old.wf(),
        old.dir == Direction::Left,
        old.pos.x == 0,
        old.track_len > 1,
        Pipe::advanced(old, new),
    ensures
        new.pos.x == old.cols - 1,
        new.pos.y == old.pos.y,
{
}

/// A turn neither goes on straight nor reverses: a pipe on a column turns to
/// left or right, a pipe on a row turns up or down.
pub proof fn lemma_turn_is_quarter(old: Pipe, new: Pipe)
    requires
        old.wf(),
        old.track_len == 1,
        Pipe::advanced(old, new),
    ensures
        old.dir.is_vertical() ==> (new.dir == Direction::Left || new.dir == Direction::Right),
        !old.dir.is_vertical() ==> (new.dir == Direction::Up || new.dir == Direction::Down),
{
}

} // verus!
