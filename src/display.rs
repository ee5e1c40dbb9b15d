use vstd::prelude::*;

verus! {

pub const DISPLAY_WIDTH: usize = 64;

pub const DISPLAY_HEIGHT: usize = 32;

/// The number of pixels, `DISPLAY_WIDTH * DISPLAY_HEIGHT`.
pub const GRID_SIZE: usize = 2048;

/// A colour as a 0RGB value, eight bits per channel.
#[derive(Clone, Copy, Debug, PartialEq, Eq, Structural)]
pub struct Color {
    value: u32,
}

impl View for Color {
    type V = u32;

    closed spec fn view(&self) -> u32 {
        self.value
    }
}

impl Color {
    pub fn from_u8(r: u8, g: u8, b: u8) -> (c: Color)
        ensures
            c@ == r * 0x10000 + g * 0x100 + b,
    {
        let value = (r as u32) * 0x10000 + (g as u32) * 0x100 + b as u32;
        Self { value }
    }

    pub fn value(&self) -> (r: u32)
        ensures
            r == self@,
    {
        self.value
    }
}

struct Colors {
    filled: Color,
    empty: Color,
}

/// What a display holds: the pixel grid, column by column (the pixel at `(x, y)` is at
/// `x * DISPLAY_HEIGHT + y`), the frame buffer row by row, and the two colours.
pub struct DisplayView {
    pub grid: Seq<bool>,
    pub buffer: Seq<u32>,
    pub filled: u32,
    pub empty: u32,
}

pub open spec fn pixel_index(x: int, y: int) -> int {
    x * DISPLAY_HEIGHT + y
}

/// How far column `px` lies to the right of column `x`, wrapping round the grid.
pub open spec fn col_offset(px: int, x: int) -> int {
    let x0 = x % DISPLAY_WIDTH as int;
    if px >= x0 {
        px - x0
    } else {
        px + DISPLAY_WIDTH - x0
    }
}

/// How far row `py` lies below row `y`, wrapping round the grid.
pub open spec fn row_offset(py: int, y: int) -> int {
    let y0 = y % DISPLAY_HEIGHT as int;
    if py >= y0 {
        py - y0
    } else {
        py + DISPLAY_HEIGHT - y0
    }
}

/// Bit `i` of a sprite row, counted from the most significant.
pub open spec fn sprite_bit(byte: u8, i: int) -> bool {
    byte & (0x80u8 >> (i as u8)) != 0
}

/// Whether the sprite drawn at `(x, y)` has a set bit over the pixel at index `k`.
pub open spec fn covers(x: int, y: int, sprite: Seq<u8>, k: int) -> bool {
    let i = col_offset(k / DISPLAY_HEIGHT as int, x);
    let j = row_offset(k % DISPLAY_HEIGHT as int, y);
    i < 8 && j < sprite.len() && sprite_bit(sprite[j], i)
}

/// The grid after the sprite is XORed onto it at `(x, y)`.
pub open spec fn drawn(grid: Seq<bool>, x: int, y: int, sprite: Seq<u8>) -> Seq<bool> {
    Seq::new(grid.len(), |k: int| grid[k] != covers(x, y, sprite, k))
}

/// Whether drawing the sprite at `(x, y)` turns off a pixel that was on.
pub open spec fn collides(grid: Seq<bool>, x: int, y: int, sprite: Seq<u8>) -> bool {
    exists|k: int| 0 <= k < grid.len() && #[trigger] grid[k] && covers(x, y, sprite, k)
}

/// The frame buffer, row by row, for a grid.
pub open spec fn rendered(grid: Seq<bool>, filled: u32, empty: u32) -> Seq<u32> {
    Seq::new(
        GRID_SIZE as nat,
        |b: int|
            if grid[pixel_index(b % DISPLAY_WIDTH as int, b / DISPLAY_WIDTH as int)] {
                filled
            } else {
                empty
            },
    )
}

/// A new display: every pixel off, the buffer zero, white on black.
pub open spec fn initial_display() -> DisplayView {
    DisplayView {
        grid: Seq::new(GRID_SIZE as nat, |k: int| false),
        buffer: Seq::new(GRID_SIZE as nat, |k: int| 0u32),
        filled: 0xFFFFFF,
        empty: 0,
    }
}

/// `covers`, restricted to the rows before `j` and the first `i` bits of row `j`.
spec fn covers_upto(x: int, y: int, sprite: Seq<u8>, k: int, j: int, i: int) -> bool {
    let c = col_offset(k / DISPLAY_HEIGHT as int, x);
    let r = row_offset(k % DISPLAY_HEIGHT as int, y);
    covers(x, y, sprite, k) && (r < j || (r == j && c < i))
}

proof fn lemma_pixel_index(px: int, py: int)
    requires
        0 <= px < DISPLAY_WIDTH,
        0 <= py < DISPLAY_HEIGHT,
    ensures
        0 <= pixel_index(px, py) < GRID_SIZE,
        pixel_index(px, py) / DISPLAY_HEIGHT as int == px,
        pixel_index(px, py) % DISPLAY_HEIGHT as int == py,
{
    assert(0 <= px * 32 + py < 2048 && (px * 32 + py) / 32 == px && (px * 32 + py) % 32 == py)
        by (nonlinear_arith)
        requires
            0 <= px < 64,
            0 <= py < 32,
    ;
}

proof fn lemma_grid_index(k: int)
    requires
        0 <= k < GRID_SIZE,
    ensures
        0 <= (k / DISPLAY_HEIGHT as int) < DISPLAY_WIDTH,
        0 <= (k % DISPLAY_HEIGHT as int) < DISPLAY_HEIGHT,
        k == pixel_index(k / DISPLAY_HEIGHT as int, k % DISPLAY_HEIGHT as int),
{
    assert(0 <= k / 32 < 64 && 0 <= k % 32 < 32 && k == (k / 32) * 32 + k % 32)
        by (nonlinear_arith)
        requires
            0 <= k < 2048,
    ;
}

/// The 64 by 32 monochrome pixel grid, with the frame buffer it is rendered into.
pub struct Display {
    grid: [bool; GRID_SIZE],
    buffer: [u32; GRID_SIZE],
    colors: Colors,
}

impl View for Display {
    type V = DisplayView;

    closed spec fn view(&self) -> DisplayView {
        DisplayView {
            grid: self.grid@,
            buffer: self.buffer@,
            filled: self.colors.filled@,
            empty: self.colors.empty@,
        }
    }
}

impl Display {
    /// A blank grid, white on black.
    pub fn new() -> (r: Display)
        ensures
            r@ == initial_display(),
    {
        let grid = [false; GRID_SIZE];
        let buffer = [0u32; GRID_SIZE];
        let colors = Colors { filled: Color::from_u8(0xFF, 0xFF, 0xFF), empty: Color::from_u8(0, 0, 0) };
        let r = Display { grid, buffer, colors };
        assert(r@.grid =~= Seq::new(GRID_SIZE as nat, |k: int| false));
        assert(r@.buffer =~= Seq::new(GRID_SIZE as nat, |k: int| 0u32));
        r
    }

    /// Sets the colours of lit and unlit pixels; they take effect at the next render.
    pub fn set_colors(&mut self, filled: Color, empty: Color)
        ensures
            final(self)@ == (DisplayView { filled: filled@, empty: empty@, ..old(self)@ }),
    {
        self.colors = Colors { filled, empty };
    }

    /// Turns every pixel off and renders the frame buffer.
    pub fn clear(&mut self)
        ensures
            final(self)@.grid == Seq::new(GRID_SIZE as nat, |k: int| false),
            final(self)@.buffer == rendered(final(self)@.grid, old(self)@.filled, old(self)@.empty),
            final(self)@.filled == old(self)@.filled,
            final(self)@.empty == old(self)@.empty,
    {
        self.grid = [false; GRID_SIZE];
        assert(self.grid@ =~= Seq::new(GRID_SIZE as nat, |k: int| false));
        self.update_buffer();
    }

    /// The pixel grid as 64 columns of 32 pixels.
    pub fn get_grid(&self) -> (r: Vec<Vec<bool>>)
        ensures
            r@.len() == DISPLAY_WIDTH,
            forall|x: int|
                0 <= x < DISPLAY_WIDTH ==> (#[trigger] r@[x])@.len() == DISPLAY_HEIGHT,
            forall|x: int, y: int|
                0 <= x < DISPLAY_WIDTH && 0 <= y < DISPLAY_HEIGHT ==> (#[trigger] r@[x]@[y])
                    == self@.grid[pixel_index(x, y)],
    {
        let mut r: Vec<Vec<bool>> = Vec::new();
        let mut x: usize = 0;
        while x < DISPLAY_WIDTH
            invariant
                x <= DISPLAY_WIDTH,
                self.grid@.len() == GRID_SIZE,
                r@.len() == x,
                forall|a: int| 0 <= a < x ==> (#[trigger] r@[a])@.len() == DISPLAY_HEIGHT,
                forall|a: int, b: int|
                    0 <= a < x && 0 <= b < DISPLAY_HEIGHT ==> (#[trigger] r@[a]@[b])
                        == self.grid@[pixel_index(a, b)],
            decreases DISPLAY_WIDTH - x,
        {
            let mut column: Vec<bool> = Vec::new();
            let mut y: usize = 0;
            while y < DISPLAY_HEIGHT
                invariant
                    x < DISPLAY_WIDTH,
                    y <= DISPLAY_HEIGHT,
                    self.grid@.len() == GRID_SIZE,
                    column@.len() == y,
                    forall|b: int| 0 <= b < y ==> column@[b] == self.grid@[pixel_index(x as int, b)],
                decreases DISPLAY_HEIGHT - y,
            {
                proof {
                    lemma_pixel_index(x as int, y as int);
                }
                column.push(self.grid[x * DISPLAY_HEIGHT + y]);
                y = y + 1;
            }
            r.push(column);
            x = x + 1;
        }
        r
    }

    /// The frame buffer, row by row.
    pub fn buffer(&self) -> (r: &[u32; GRID_SIZE])
        ensures
            r@ == self@.buffer,
    {
        &self.buffer
    }

    /// Renders the grid into the frame buffer in the current colours.
    pub fn update_buffer(&mut self)
        ensures
            final(self)@ == (DisplayView {
                buffer: rendered(old(self)@.grid, old(self)@.filled, old(self)@.empty),
                ..old(self)@
            }),
    {
        let filled = self.colors.filled.value();
        let empty = self.colors.empty.value();
        let ghost target = rendered(self.grid@, filled, empty);
        let mut b: usize = 0;
        while b < GRID_SIZE
            invariant
                b <= GRID_SIZE,
                self.grid@ == old(self).grid@,
                self.colors == old(self).colors,
                filled == self.colors.filled@,
                empty == self.colors.empty@,
                target == rendered(self.grid@, filled, empty),
                self.grid@.len() == GRID_SIZE,
                self.buffer@.len() == GRID_SIZE,
                forall|c: int| 0 <= c < b ==> self.buffer@[c] == target[c],
            decreases GRID_SIZE - b,
        {
            let x = b % DISPLAY_WIDTH;
            let y = b / DISPLAY_WIDTH;
            proof {
                assert(0 <= x < 64 && 0 <= y < 32) by (nonlinear_arith)
                    requires
                        x == b % 64,
                        y == b / 64,
                        b < 2048,
                ;
                lemma_pixel_index(x as int, y as int);
            }
            let lit = self.grid[x * DISPLAY_HEIGHT + y];
            self.buffer[b] = if lit { filled } else { empty };
            b = b + 1;
        }
        assert(self.buffer@ =~= target);
    }

    /// XORs `sprite` onto the grid, one byte per row with the most significant bit on
    /// the left, its top-left corner at column `horizontal_pos` and row `vertical_pos`;
    /// pixels past an edge wrap round to the other side. Returns whether a pixel that
    /// was on went off.
    pub fn draw(&mut self, horizontal_pos: usize, vertical_pos: usize, sprite: &[u8]) -> (collision: bool)
        requires
            sprite@.len() <= DISPLAY_HEIGHT,
        ensures
            final(self)@ == (DisplayView {
                grid: drawn(old(self)@.grid, horizontal_pos as int, vertical_pos as int, sprite@),
                ..old(self)@
            }),
            collision == collides(old(self)@.grid, horizontal_pos as int, vertical_pos as int, sprite@),
    {
        let ghost x = horizontal_pos as int;
        let ghost y = vertical_pos as int;
        let ghost g0 = self.grid@;
        let mut collision = false;
        let x0 = horizontal_pos % DISPLAY_WIDTH;
        let y0 = vertical_pos % DISPLAY_HEIGHT;
        let mut j: usize = 0;
        while j < sprite.len()
            invariant
                sprite@.len() <= DISPLAY_HEIGHT,
                j <= sprite@.len(),
                x0 == x % DISPLAY_WIDTH as int,
                y0 == y % DISPLAY_HEIGHT as int,
                g0.len() == GRID_SIZE,
                self.grid@.len() == GRID_SIZE,
                self.buffer@ == old(self).buffer@,
                self.colors == old(self).colors,
                g0 == old(self).grid@,
                forall|k: int|
                    0 <= k < GRID_SIZE ==> self.grid@[k] == (g0[k] != covers_upto(x, y, sprite@, k, j as int, 0)),
                collision == exists|k: int|
                    0 <= k < GRID_SIZE && #[trigger] g0[k] && covers_upto(x, y, sprite@, k, j as int, 0),
            decreases sprite@.len() - j,
        {
            let byte = sprite[j];
            let yj = (y0 + j) % DISPLAY_HEIGHT;
            let mut i: usize = 0;
            while i < 8
                invariant
                    sprite@.len() <= DISPLAY_HEIGHT,
                    j < sprite@.len(),
                    i <= 8,
                    byte == sprite@[j as int],
                    x0 == x % DISPLAY_WIDTH as int,
                    y0 == y % DISPLAY_HEIGHT as int,
                    yj == (y0 + j) % DISPLAY_HEIGHT as int,
                    g0.len() == GRID_SIZE,
                    self.grid@.len() == GRID_SIZE,
                    self.buffer@ == old(self).buffer@,
                    self.colors == old(self).colors,
                    g0 == old(self).grid@,
                    forall|k: int|
                        0 <= k < GRID_SIZE ==> self.grid@[k] == (g0[k] != covers_upto(x, y, sprite@, k, j as int, i as int)),
                    collision == exists|k: int|
                        0 <= k < GRID_SIZE && #[trigger] g0[k] && covers_upto(x, y, sprite@, k, j as int, i as int),
                decreases 8 - i,
            {
                let xi = (x0 + i) % DISPLAY_WIDTH;
                let k = xi * DISPLAY_HEIGHT + yj;
                proof {
                    lemma_pixel_index(xi as int, yj as int);
                    assert(col_offset(xi as int, x) == i);
                    assert(row_offset(yj as int, y) == j);
                }
                let old_px = self.grid[k];
                let bit = (byte & (0x80u8 >> (i as u8))) != 0;
                let new_px = old_px != bit;
                self.grid[k] = new_px;
                let ghost before = collision;
                collision = collision || (old_px && !new_px);
                proof {
                    assert forall|m: int| 0 <= m < GRID_SIZE implies
                        covers_upto(x, y, sprite@, m, j as int, i as int + 1) == (covers_upto(x, y, sprite@, m, j as int, i as int)
                            || m == k as int && bit) by {
                        lemma_grid_index(m);
                        if m != k as int {
                            let mx = m / DISPLAY_HEIGHT as int;
                            let my = m % DISPLAY_HEIGHT as int;
                            assert(mx != xi || my != yj);
                        }
                    }
                    assert(!covers_upto(x, y, sprite@, k as int, j as int, i as int));
                    if collision && !before {
                        assert(g0[k as int] && covers_upto(x, y, sprite@, k as int, j as int, i as int + 1));
                    }
                    if before {
                        let w = choose|w: int|
                            0 <= w < GRID_SIZE && #[trigger] g0[w] && covers_upto(x, y, sprite@, w, j as int, i as int);
                        assert(covers_upto(x, y, sprite@, w, j as int, i as int + 1));
                    }
                    if !collision {
                        assert forall|w: int| 0 <= w < GRID_SIZE && #[trigger] g0[w] implies
                            !covers_upto(x, y, sprite@, w, j as int, i as int + 1) by {
                            if w != k as int {
                                assert(!covers_upto(x, y, sprite@, w, j as int, i as int));
                            }
                        }
                    }
                }
                i = i + 1;
            }
            proof {
                assert forall|m: int| 0 <= m < GRID_SIZE implies
                    covers_upto(x, y, sprite@, m, j as int + 1, 0) == covers_upto(x, y, sprite@, m, j as int, 8) by {
                }
            }
            j = j + 1;
        }
        proof {
            assert forall|m: int| 0 <= m < GRID_SIZE implies
                covers_upto(x, y, sprite@, m, j as int, 0) == covers(x, y, sprite@, m) by {
            }
            assert(self.grid@ =~= drawn(g0, x, y, sprite@));
            if collision {
                let w = choose|w: int|
                    0 <= w < GRID_SIZE && #[trigger] g0[w] && covers_upto(x, y, sprite@, w, j as int, 0);
                assert(g0[w] && covers(x, y, sprite@, w));
            }
        }
        collision
    }
}

} // verus!
