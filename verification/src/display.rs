//! The 64×32 monochrome display.
//!
//! The display is a grid of pixels addressed by column and row. Sprites are
//! eight pixels wide, one byte per row with the leftmost pixel in the highest
//! bit, and are combined with the grid by exclusive or. A sprite that reaches
//! past the right or the bottom edge is cut off there; it never wraps round.

use vstd::prelude::*;

verus! {

/// Number of pixel columns.
pub const WIDTH: u8 = 64;

/// Number of pixel rows.
pub const HEIGHT: u8 = 32;

/// The pixels of a grid, `pixels(grid)[x][y]` being the pixel in column `x`
/// of row `y`.
pub open spec fn pixels(grid: [[bool; 32]; 64]) -> Seq<Seq<bool>> {
    Seq::new(64, |x: int| grid[x]@)
}

/// A grid of the display's size: 64 columns of 32 pixels.
pub open spec fn is_grid(pixels: Seq<Seq<bool>>) -> bool {
    &&& pixels.len() == 64
    &&& forall|x: int| 0 <= x < 64 ==> (#[trigger] pixels[x]).len() == 32
}

/// The grid with every pixel off.
pub open spec fn blank() -> Seq<Seq<bool>> {
    Seq::new(64, |x: int| Seq::new(32, |y: int| false))
}

/// Whether pixel `col` of a sprite row is lit, column 0 being the leftmost
/// pixel and the highest bit.
pub open spec fn sprite_bit(row: u8, col: int) -> bool {
    (row >> ((7 - col) as u8)) & 1 == 1
}

/// Whether the sprite `rows`, with its top left corner at `(x0, y0)`, has a
/// lit pixel at `(x, y)`.
pub open spec fn sprite_covers(rows: Seq<u8>, x0: int, y0: int, x: int, y: int) -> bool {
    &&& x0 <= x < x0 + 8
    &&& y0 <= y < y0 + rows.len()
    &&& sprite_bit(rows[y - y0], x - x0)
}

/// The grid after the sprite `rows` is drawn at `(x0, y0)`: each pixel under
/// a lit sprite pixel is flipped, every other pixel stays. Sprite pixels that
/// fall outside the grid have no pixel to change.
pub open spec fn drawn(grid: Seq<Seq<bool>>, rows: Seq<u8>, x0: int, y0: int) -> Seq<Seq<bool>> {
    Seq::new(
        64,
        |x: int| Seq::new(32, |y: int| grid[x][y] != sprite_covers(rows, x0, y0, x, y)),
    )
}

/// Whether drawing the sprite `rows` at `(x0, y0)` turns off a pixel that
/// was on.
pub open spec fn collides(grid: Seq<Seq<bool>>, rows: Seq<u8>, x0: int, y0: int) -> bool {
    exists|x: int, y: int|
        0 <= x < 64 && 0 <= y < 32 && grid[x][y] && #[trigger] sprite_covers(rows, x0, y0, x, y)
}

/// Whether the drawing loop has already dealt with pixel `(x, y)` when it
/// stands at sprite row `row` and sprite column `col`.
spec fn reached(x0: int, y0: int, x: int, y: int, row: int, col: int) -> bool {
    y - y0 < row || (y - y0 == row && x - x0 < col)
}

/// Whether `grid` is `before` with the sprite drawn as far as the loop has
/// come when it stands at `(row, col)`.
spec fn drawn_so_far(
    grid: [[bool; 32]; 64],
    before: [[bool; 32]; 64],
    rows: Seq<u8>,
    x0: int,
    y0: int,
    row: int,
    col: int,
) -> bool {
    forall|px: int, py: int|
        0 <= px < 64 && 0 <= py < 32 ==> (#[trigger] grid[px][py]) == (before[px][py] != (
        sprite_covers(rows, x0, y0, px, py) && reached(x0, y0, px, py, row, col)))
}

/// Whether the sprite has turned a pixel off by the time the loop stands at
/// `(row, col)`.
spec fn hit_so_far(
    before: [[bool; 32]; 64],
    rows: Seq<u8>,
    x0: int,
    y0: int,
    row: int,
    col: int,
) -> bool {
    exists|px: int, py: int|
        0 <= px < 64 && 0 <= py < 32 && before[px][py] && (#[trigger] sprite_covers(
            rows,
            x0,
            y0,
            px,
            py,
        )) && reached(x0, y0, px, py, row, col)
}

/// A step of the drawing loop keeps [`drawn_so_far`] and [`hit_so_far`]:
/// `prev` and `hit_before` are the grid and the flag before pixel `(x, y)`
/// of sprite position `(row, col)` was dealt with, `grid` and `hit` after.
proof fn lemma_draw_step(
    grid: [[bool; 32]; 64],
    prev: [[bool; 32]; 64],
    before: [[bool; 32]; 64],
    rows: Seq<u8>,
    x0: int,
    y0: int,
    row: int,
    col: int,
    hit: bool,
    hit_before: bool,
)
    requires
        0 <= row,
        0 <= col,
        0 <= x0,
        0 <= y0 + row < 32,
        drawn_so_far(prev, before, rows, x0, y0, row, col),
        hit_before <==> hit_so_far(before, rows, x0, y0, row, col),
        x0 + col < 64 ==> grid[x0 + col][y0 + row] == (prev[x0 + col][y0 + row] != sprite_covers(
            rows,
            x0,
            y0,
            x0 + col,
            y0 + row,
        )),
        forall|px: int, py: int|
            0 <= px < 64 && 0 <= py < 32 && !(px == x0 + col && py == y0 + row) ==> (
            #[trigger] grid[px][py]) == prev[px][py],
        hit <==> hit_before || (x0 + col < 64 && prev[x0 + col][y0 + row] && sprite_covers(
            rows,
            x0,
            y0,
            x0 + col,
            y0 + row,
        )),
    ensures
        drawn_so_far(grid, before, rows, x0, y0, row, col + 1),
        hit <==> hit_so_far(before, rows, x0, y0, row, col + 1),
{
    let x = x0 + col;
    let y = y0 + row;
    assert forall|px: int, py: int| 0 <= px < 64 && 0 <= py < 32 implies (#[trigger] grid[px][py])
        == (before[px][py] != (sprite_covers(rows, x0, y0, px, py) && reached(
        x0,
        y0,
        px,
        py,
        row,
        col + 1,
    ))) by {
        assert(prev[px][py] == (before[px][py] != (sprite_covers(rows, x0, y0, px, py) && reached(
            x0,
            y0,
            px,
            py,
            row,
            col,
        ))));
        if !(px == x && py == y) {
            assert(grid[px][py] == prev[px][py]);
        }
    }
    if x < 64 {
        assert(prev[x][y] == before[x][y]);
    }
    if hit {
        if hit_before {
            let (wx, wy) = choose|wx: int, wy: int|
                0 <= wx < 64 && 0 <= wy < 32 && before[wx][wy] && (#[trigger] sprite_covers(
                    rows,
                    x0,
                    y0,
                    wx,
                    wy,
                )) && reached(x0, y0, wx, wy, row, col);
            assert(sprite_covers(rows, x0, y0, wx, wy) && reached(x0, y0, wx, wy, row, col + 1));
        } else {
            assert(sprite_covers(rows, x0, y0, x, y) && reached(x0, y0, x, y, row, col + 1));
        }
    } else {
        assert forall|px: int, py: int|
            0 <= px < 64 && 0 <= py < 32 && before[px][py] && (#[trigger] sprite_covers(
                rows,
                x0,
                y0,
                px,
                py,
            )) implies !reached(x0, y0, px, py, row, col + 1) by {
            if !(px == x && py == y) {
                assert(!reached(x0, y0, px, py, row, col));
            }
        }
    }
}

/// Moving on to the next sprite row keeps [`drawn_so_far`] and
/// [`hit_so_far`], whether the row was drawn, column by column, or lies
/// below the grid.
proof fn lemma_draw_next_row(
    grid: [[bool; 32]; 64],
    before: [[bool; 32]; 64],
    rows: Seq<u8>,
    x0: int,
    y0: int,
    row: int,
    col: int,
    hit: bool,
)
    requires
        0 <= row,
        0 <= x0,
        0 <= y0,
        if y0 + row < 32 {
            col == 8
        } else {
            col == 0
        },
        drawn_so_far(grid, before, rows, x0, y0, row, col),
        hit <==> hit_so_far(before, rows, x0, y0, row, col),
    ensures
        drawn_so_far(grid, before, rows, x0, y0, row + 1, 0),
        hit <==> hit_so_far(before, rows, x0, y0, row + 1, 0),
{
    assert forall|px: int, py: int|
        0 <= px < 64 && 0 <= py < 32 && (#[trigger] sprite_covers(
            rows,
            x0,
            y0,
            px,
            py,
        )) implies reached(x0, y0, px, py, row + 1, 0) == reached(x0, y0, px, py, row, col) by {}
    assert forall|px: int, py: int| 0 <= px < 64 && 0 <= py < 32 implies (#[trigger] grid[px][py])
        == (before[px][py] != (sprite_covers(rows, x0, y0, px, py) && reached(
        x0,
        y0,
        px,
        py,
        row + 1,
        0,
    ))) by {
        assert(grid[px][py] == (before[px][py] != (sprite_covers(rows, x0, y0, px, py) && reached(
            x0,
            y0,
            px,
            py,
            row,
            col,
        ))));
    }
    if hit {
        let (wx, wy) = choose|wx: int, wy: int|
            0 <= wx < 64 && 0 <= wy < 32 && before[wx][wy] && (#[trigger] sprite_covers(
                rows,
                x0,
                y0,
                wx,
                wy,
            )) && reached(x0, y0, wx, wy, row, col);
        assert(sprite_covers(rows, x0, y0, wx, wy) && reached(x0, y0, wx, wy, row + 1, 0));
    }
}

/// When the loop has passed the last row, the sprite is drawn.
proof fn lemma_draw_done(
    grid: [[bool; 32]; 64],
    before: [[bool; 32]; 64],
    rows: Seq<u8>,
    x0: int,
    y0: int,
    hit: bool,
)
    requires
        drawn_so_far(grid, before, rows, x0, y0, rows.len() as int, 0),
        hit <==> hit_so_far(before, rows, x0, y0, rows.len() as int, 0),
    ensures
        pixels(grid) == drawn(pixels(before), rows, x0, y0),
        hit == collides(pixels(before), rows, x0, y0),
{
    let after = pixels(grid);
    let goal = drawn(pixels(before), rows, x0, y0);
    let row = rows.len() as int;
    assert forall|px: int| 0 <= px < 64 implies #[trigger] after[px] =~= goal[px] by {
        assert forall|py: int| 0 <= py < 32 implies after[px][py] == goal[px][py] by {
            assert(grid[px][py] == (before[px][py] != (sprite_covers(rows, x0, y0, px, py)
                && reached(x0, y0, px, py, row, 0))));
            assert(pixels(before)[px][py] == before[px][py]);
        }
    }
    assert(after =~= goal);
    assert forall|px: int, py: int| 0 <= px < 64 && 0 <= py < 32 implies pixels(before)[px][py]
        == #[trigger] before[px][py] by {}
    if hit {
        let (wx, wy) = choose|wx: int, wy: int|
            0 <= wx < 64 && 0 <= wy < 32 && before[wx][wy] && (#[trigger] sprite_covers(
                rows,
                x0,
                y0,
                wx,
                wy,
            )) && reached(x0, y0, wx, wy, row, 0);
        assert(pixels(before)[wx][wy] && sprite_covers(rows, x0, y0, wx, wy));
    }
    if collides(pixels(before), rows, x0, y0) {
        let (wx, wy) = choose|wx: int, wy: int|
            0 <= wx < 64 && 0 <= wy < 32 && pixels(before)[wx][wy] && #[trigger] sprite_covers(
                rows,
                x0,
                y0,
                wx,
                wy,
            );
        assert(before[wx][wy] && sprite_covers(rows, x0, y0, wx, wy) && reached(
            x0,
            y0,
            wx,
            wy,
            row,
            0,
        ));
    }
}

/// Turns every pixel off.
pub fn clear(grid: &mut [[bool; 32]; 64])
    ensures
        pixels(*final(grid)) == blank(),
{
    let mut x: usize = 0;
    while x < 64
        invariant
            x <= 64,
            forall|i: int, j: int| 0 <= i < x && 0 <= j < 32 ==> !(#[trigger] grid[i][j]),
        decreases 64 - x,
    {
        let mut y: usize = 0;
        while y < 32
            invariant
                x < 64,
                y <= 32,
                forall|i: int, j: int| 0 <= i < x && 0 <= j < 32 ==> !(#[trigger] grid[i][j]),
                forall|j: int| 0 <= j < y ==> !(#[trigger] grid[x as int][j]),
            decreases 32 - y,
        {
            grid[x][y] = false;
            y += 1;
        }
        x += 1;
    }
    assert forall|i: int| 0 <= i < 64 implies #[trigger] pixels(*grid)[i] =~= blank()[i] by {
        assert forall|j: int| 0 <= j < 32 implies pixels(*grid)[i][j] == blank()[i][j] by {
            assert(!grid[i][j]);
        }
    }
    assert(pixels(*grid) =~= blank());
}

/// Draws the `n` bytes of `memory` that start at `start` as a sprite with its
/// top left corner at `(x0, y0)`, and reports whether a pixel that was on went
/// off.
pub fn draw_sprite(
    grid: &mut [[bool; 32]; 64],
    memory: &[u8; 4096],
    start: usize,
    n: u8,
    x0: u8,
    y0: u8,
) -> (hit: bool)
    requires
        start + n <= 4096,
    ensures
        pixels(*final(grid)) == drawn(
            pixels(*old(grid)),
            memory@.subrange(start as int, start + n),
            x0 as int,
            y0 as int,
        ),
        hit == collides(
            pixels(*old(grid)),
            memory@.subrange(start as int, start + n),
            x0 as int,
            y0 as int,
        ),
{
    let ghost before = *grid;
    let ghost rows = memory@.subrange(start as int, start + n);
    let mut hit = false;
    let mut row: u8 = 0;
    while row < n
        invariant
            row <= n,
            start + n <= 4096,
            rows == memory@.subrange(start as int, start + n),
            drawn_so_far(*grid, before, rows, x0 as int, y0 as int, row as int, 0),
            hit <==> hit_so_far(before, rows, x0 as int, y0 as int, row as int, 0),
        decreases n - row,
    {
        let y: usize = y0 as usize + row as usize;
        let mut col: u8 = 0;
        if y < 32 {
            let byte: u8 = memory[start + row as usize];
            while col < 8
                invariant
                    col <= 8,
                    row < n,
                    y == y0 + row,
                    y < 32,
                    rows.len() == n,
                    byte == rows[row as int],
                    drawn_so_far(*grid, before, rows, x0 as int, y0 as int, row as int, col as int),
                    hit <==> hit_so_far(before, rows, x0 as int, y0 as int, row as int, col as int),
                decreases 8 - col,
            {
                let x: usize = x0 as usize + col as usize;
                let ghost prev = *grid;
                let ghost hit_before = hit;
                if x < 64 {
                    let lit: bool = (byte >> (7 - col)) & 1 == 1;
                    if lit {
                        if grid[x][y] {
                            hit = true;
                        }
                        grid[x][y] = !grid[x][y];
                    }
                }
                proof {
                    lemma_draw_step(
                        *grid,
                        prev,
                        before,
                        rows,
                        x0 as int,
                        y0 as int,
                        row as int,
                        col as int,
                        hit,
                        hit_before,
                    );
                }
                col += 1;
            }
        }
        proof {
            lemma_draw_next_row(
                *grid,
                before,
                rows,
                x0 as int,
                y0 as int,
                row as int,
                col as int,
                hit,
            );
        }
        row += 1;
    }
    proof {
        lemma_draw_done(*grid, before, rows, x0 as int, y0 as int, hit);
    }
    hit
}

} // verus!
