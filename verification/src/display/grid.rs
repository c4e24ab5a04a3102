use vstd::prelude::*;
use crate::error::VmError;

verus! {

/// Number of pixel columns.
pub const GRID_WIDTH: usize = 64;

/// Number of pixel rows.
pub const GRID_HEIGHT: usize = 32;

/// Number of pixels.
pub const GRID_SIZE: usize = 2048;

/// Where the pixel of row `row` and column `col` stands in the grid's
/// sequence of pixels.
pub open spec fn pixel_index(row: int, col: int) -> int {
    row * GRID_WIDTH + col
}

/// Bit `index` of `byte`, counted from the least significant one.
pub open spec fn bit_of(byte: u8, index: int) -> bool {
    if index == 0 {
        byte % 2 == 1
    } else if index == 1 {
        (byte / 2) % 2 == 1
    } else if index == 2 {
        (byte / 4) % 2 == 1
    } else if index == 3 {
        (byte / 8) % 2 == 1
    } else if index == 4 {
        (byte / 16) % 2 == 1
    } else if index == 5 {
        (byte / 32) % 2 == 1
    } else if index == 6 {
        (byte / 64) % 2 == 1
    } else if index == 7 {
        (byte / 128) % 2 == 1
    } else {
        false
    }
}

/// Splits a byte into its bits, the least significant one first.
pub fn bits_big_endian(byte: u8) -> (bits: [bool; 8])
    ensures
        forall|index: int| 0 <= index < 8 ==> bits@[index] == bit_of(byte, index),
{
    let mut rest: u8 = byte;
    let mut bits = [false;8];
    let mut bit_index: usize = 0;
    while bit_index < 8
        invariant
            bit_index <= 8,
            forall|index: int| 0 <= index < bit_index ==> bits@[index] == bit_of(byte, index),
            bit_index == 0 ==> rest == byte,
            bit_index == 1 ==> rest == byte / 2,
            bit_index == 2 ==> rest == byte / 4,
            bit_index == 3 ==> rest == byte / 8,
            bit_index == 4 ==> rest == byte / 16,
            bit_index == 5 ==> rest == byte / 32,
            bit_index == 6 ==> rest == byte / 64,
            bit_index == 7 ==> rest == byte / 128,
        decreases 8 - bit_index,
    {
        bits[bit_index] = (rest % 2) == 1;
        rest = rest / 2;
        bit_index += 1;
    }
    bits
}

/// How many columns to the right of `col` the column `c` lies, counted
/// round the grid.
pub open spec fn column_offset(col: int, c: int) -> int {
    (c - col) % (GRID_WIDTH as int)
}

/// How many rows below `row` the row `r` lies, counted round the grid.
pub open spec fn row_offset(row: int, r: int) -> int {
    (r - row) % (GRID_HEIGHT as int)
}

/// Whether a sprite row `byte`, drawn with its leftmost pixel in column
/// `col`, has a set pixel in column `c`. The leftmost pixel is the highest
/// bit, and columns are counted round the grid.
pub open spec fn byte_covers(col: int, byte: u8, c: int) -> bool {
    column_offset(col, c) < 8 && bit_of(byte, 7 - column_offset(col, c))
}

/// Whether a sprite, drawn with its top left pixel at (`row`, `col`), has a
/// set pixel at (`r`, `c`). Rows and columns are counted round the grid.
pub open spec fn sprite_covers(row: int, col: int, sprite: Seq<u8>, r: int, c: int) -> bool {
    row_offset(row, r) < sprite.len() && byte_covers(col, sprite[row_offset(row, r)], c)
}

/// The grid after a sprite was XOR-drawn onto `pixels`.
pub open spec fn drawn(pixels: Seq<bool>, row: int, col: int, sprite: Seq<u8>) -> Seq<bool> {
    Seq::new(
        GRID_SIZE as nat,
        |p: int|
            pixels[p] ^ sprite_covers(row, col, sprite, p / (GRID_WIDTH as int), p % (GRID_WIDTH as int)),
    )
}

/// Whether drawing the sprite clears a pixel that is set: some set bit of
/// the sprite lands on a set pixel.
pub open spec fn collides(pixels: Seq<bool>, row: int, col: int, sprite: Seq<u8>) -> bool {
    exists|k: int, j: int|
        0 <= k < sprite.len() && 0 <= j < 8 && bit_of(sprite[k], 7 - j) && #[trigger] pixels[pixel_index(
            (row + k) % (GRID_HEIGHT as int),
            (col + j) % (GRID_WIDTH as int),
        )]
}

/// The monochrome frame buffer: 32 rows of 64 pixels, row after row.
pub struct PixelGrid {
    data: [bool; 2048],
}

impl View for PixelGrid {
    type V = Seq<bool>;

    closed spec fn view(&self) -> Seq<bool> {
        self.data@
    }
}

impl PixelGrid {
    /// A grid with every pixel off.
    pub fn new() -> (grid: PixelGrid)
        ensures
            grid@.len() == GRID_SIZE,
            forall|p: int| 0 <= p < GRID_SIZE ==> !grid@[p],
    {
        PixelGrid { data: [false;2048] }
    }

    /// The grid always holds all its pixels.
    pub proof fn lemma_len(&self)
        ensures
            self@.len() == GRID_SIZE,
    {
    }

    /// All pixels, row after row.
    pub fn peek(&self) -> (data: &[bool; 2048])
        ensures
            data@ == self@,
    {
        &self.data
    }

    /// The pixel at (`row`, `col`), or a failure when the coordinates lie
    /// outside the grid.
    pub fn at(&self, row: usize, col: usize) -> (r: Result<bool, VmError>)
        ensures
            row < GRID_HEIGHT && col < GRID_WIDTH ==> r == Ok::<bool, VmError>(
                self@[pixel_index(row as int, col as int)],
            ),
            row >= GRID_HEIGHT || col >= GRID_WIDTH ==> r == Err::<bool, VmError>(
                VmError::PixelOutOfBounds { row, col },
            ),
    {
        if row >= GRID_HEIGHT || col >= GRID_WIDTH {
            return Err(VmError::PixelOutOfBounds { row, col });
        }
        let index = row * GRID_WIDTH + col;
        Ok(self.data[index])
    }

    /// Sets the pixel at (`row`, `col`), or fails and changes nothing when
    /// the coordinates lie outside the grid.
    pub fn set(&mut self, row: usize, col: usize, value: bool) -> (r: Result<(), VmError>)
        ensures
            final(self)@.len() == GRID_SIZE,
            row < GRID_HEIGHT && col < GRID_WIDTH ==> r == Ok::<(), VmError>(()) && final(self)@
                == old(self)@.update(pixel_index(row as int, col as int), value),
            row >= GRID_HEIGHT || col >= GRID_WIDTH ==> r == Err::<(), VmError>(
                VmError::PixelOutOfBounds { row, col },
            ) && final(self)@ == old(self)@,
    {
        if row >= GRID_HEIGHT || col >= GRID_WIDTH {
            return Err(VmError::PixelOutOfBounds { row, col });
        }
        let index = row * GRID_WIDTH + col;
        self.data[index] = value;
        Ok(())
    }

    pub fn width(&self) -> (width: usize)
        ensures
            width == GRID_WIDTH,
    {
        GRID_WIDTH
    }

    pub fn height(&self) -> (height: usize)
        ensures
            height == GRID_HEIGHT,
    {
        GRID_HEIGHT
    }
}

/// The only way by which instructions change the pixel grid.
pub struct GridEditor {
    grid: PixelGrid,
}

impl View for GridEditor {
    type V = Seq<bool>;

    closed spec fn view(&self) -> Seq<bool> {
        self.grid@
    }
}

impl GridEditor {
    /// An editor over a grid with every pixel off.
    pub fn new() -> (editor: GridEditor)
        ensures
            editor@.len() == GRID_SIZE,
            forall|p: int| 0 <= p < GRID_SIZE ==> !editor@[p],
    {
        GridEditor { grid: PixelGrid::new() }
    }

    /// The grid always holds all its pixels.
    pub proof fn lemma_len(&self)
        ensures
            self@.len() == GRID_SIZE,
    {
    }

    /// Turns every pixel off.
    pub fn clear(&mut self)
        ensures
            final(self)@.len() == GRID_SIZE,
            forall|p: int| 0 <= p < GRID_SIZE ==> !final(self)@[p],
    {
        self.grid = PixelGrid::new();
    }

    /// XORs the eight pixels of one sprite row onto row `row % 32`, the
    /// highest bit of `byte` in column `col % 64` and the others to its
    /// right, round the grid. This never fails.
    pub fn write_byte(&mut self, row: u8, col: u8, byte: u8) -> (r: Result<(), VmError>)
        ensures
            r == Ok::<(), VmError>(()),
            final(self)@ == drawn(old(self)@, row as int, col as int, seq![byte]),
    {
        let _ = self.xor_byte(row, col, byte);
        Ok(())
    }

    /// XORs one sprite row onto the grid, as `write_byte` does, and tells
    /// whether that cleared a pixel.
    pub fn xor_byte(&mut self, row: u8, col: u8, byte: u8) -> (collision: bool)
        ensures
            final(self)@ == drawn(old(self)@, row as int, col as int, seq![byte]),
            collision == collides(old(self)@, row as int, col as int, seq![byte]),
    {
        let bits = bits_big_endian(byte);
        let row_index = row as usize % GRID_HEIGHT;
        let mut collision = false;
        let mut index: usize = 0;
        while index < 8
            invariant
                index <= 8,
                row_index == row as int % 32,
                self@.len() == GRID_SIZE,
                forall|i: int| 0 <= i < 8 ==> bits@[i] == bit_of(byte, i),
                forall|r: int, c: int|
                    0 <= r < 32 && 0 <= c < 64 ==> #[trigger] self@[pixel_index(r, c)] == (old(
                        self,
                    )@[pixel_index(r, c)] ^ (r == row_index && 8 - index <= column_offset(
                        col as int,
                        c,
                    ) < 8 && bit_of(byte, 7 - column_offset(col as int, c)))),
                collision == (exists|j: int|
                    8 - index <= j < 8 && bit_of(byte, 7 - j) && #[trigger] old(self)@[pixel_index(
                        row_index as int,
                        (col + j) % 64,
                    )]),
            decreases 8 - index,
        {
            let big_endian_index = 7 - index;
            let col_index = (col as usize + big_endian_index) % GRID_WIDTH;
            let bit = bits[index];
            assert(column_offset(col as int, col_index as int) == big_endian_index);
            assert(forall|c: int|
                0 <= c < 64 && c != col_index ==> column_offset(col as int, c) != big_endian_index);
            let current_value = self.grid.data[row_index * GRID_WIDTH + col_index];
            assert(current_value == old(self)@[pixel_index(row_index as int, col_index as int)]);
            let ghost before = self@;
            self.grid.data[row_index * GRID_WIDTH + col_index] = current_value ^ bit;
            assert forall|r: int, c: int| 0 <= r < 32 && 0 <= c < 64 implies #[trigger] self@[pixel_index(
                r,
                c,
            )] == (old(self)@[pixel_index(r, c)] ^ (r == row_index && 8 - (index + 1)
                <= column_offset(col as int, c) < 8 && bit_of(
                byte,
                7 - column_offset(col as int, c),
            ))) by {
                if r == row_index && c == col_index {
                } else {
                    assert(pixel_index(r, c) != pixel_index(row_index as int, col_index as int));
                    assert(self@[pixel_index(r, c)] == before[pixel_index(r, c)]);
                }
            }
            let ghost previous_collision = collision;
            if current_value && bit {
                collision = true;
            }
            assert(collision == (exists|j: int|
                8 - (index + 1) <= j < 8 && bit_of(byte, 7 - j) && #[trigger] old(self)@[pixel_index(
                    row_index as int,
                    (col + j) % 64,
                )])) by {
                let jj = big_endian_index as int;
                if current_value && bit {
                    assert(bit_of(byte, 7 - jj) && old(self)@[pixel_index(
                        row_index as int,
                        (col + jj) % 64,
                    )]);
                } else if previous_collision {
                    let j0 = choose|j: int|
                        8 - index <= j < 8 && bit_of(byte, 7 - j) && #[trigger] old(self)@[pixel_index(
                            row_index as int,
                            (col + j) % 64,
                        )];
                    assert(8 - (index + 1) <= j0 < 8 && bit_of(byte, 7 - j0) && old(self)@[pixel_index(
                        row_index as int,
                        (col + j0) % 64,
                    )]);
                } else {
                    assert forall|j: int|
                        8 - (index + 1) <= j < 8 && bit_of(byte, 7 - j) implies !#[trigger] old(
                        self,
                    )@[pixel_index(row_index as int, (col + j) % 64)] by {
                        if j != jj {
                            assert(8 - index <= j < 8);
                        }
                    }
                }
            }
            index += 1;
        }
        proof {
            lemma_single_row(old(self)@, self@, row as int, col as int, byte, collision);
        }
        collision
    }

    /// XOR-draws a sprite with its top left pixel at (`row % 32`,
    /// `col % 64`), one byte per pixel row, round the grid, and tells
    /// whether that cleared a pixel. A sprite taller than the grid would draw
    /// over itself and is left out.
    pub fn draw_sprite(&mut self, row: u8, col: u8, sprite: &Vec<u8>) -> (collision: bool)
        requires
            sprite@.len() <= GRID_HEIGHT,
        ensures
            final(self)@ == drawn(old(self)@, row as int, col as int, sprite@),
            collision == collides(old(self)@, row as int, col as int, sprite@),
    {
        let mut collision = false;
        let mut k: usize = 0;
        proof {
            self.lemma_len();
            assert(self@ =~= drawn(old(self)@, row as int, col as int, sprite@.take(0)));
        }
        while k < sprite.len()
            invariant
                k <= sprite@.len() <= GRID_HEIGHT,
                self@ == drawn(old(self)@, row as int, col as int, sprite@.take(k as int)),
                collision == collides(old(self)@, row as int, col as int, sprite@.take(k as int)),
            decreases sprite@.len() - k,
        {
            let target_row = ((row as usize + k) % GRID_HEIGHT) as u8;
            let ghost before = self@;
            let hit = self.xor_byte(target_row, col, sprite[k]);
            proof {
                lemma_next_row(old(self)@, before, self@, row as int, col as int, sprite@, k as int);
                lemma_next_row_collides(
                    old(self)@,
                    before,
                    row as int,
                    col as int,
                    sprite@,
                    k as int,
                    collision,
                    hit,
                );
            }
            if hit {
                collision = true;
            }
            k += 1;
        }
        proof {
            assert(sprite@.take(sprite@.len() as int) =~= sprite@);
        }
        collision
    }

    /// The grid, for reading.
    pub fn grid(&self) -> (grid: &PixelGrid)
        ensures
            grid@ == self@,
    {
        &self.grid
    }

    /// The grid, for direct changes.
    pub fn mut_grid(&mut self) -> (grid: &mut PixelGrid)
        ensures
            grid@ == old(self)@,
            final(self)@ == final(grid)@,
    {
        &mut self.grid
    }
}

proof fn lemma_single_row(
    old_pixels: Seq<bool>,
    new_pixels: Seq<bool>,
    row: int,
    col: int,
    byte: u8,
    collision: bool,
)
    requires
        0 <= row < 256,
        0 <= col < 256,
        old_pixels.len() == GRID_SIZE,
        new_pixels.len() == GRID_SIZE,
        forall|r: int, c: int|
            0 <= r < 32 && 0 <= c < 64 ==> #[trigger] new_pixels[pixel_index(r, c)] == (
            old_pixels[pixel_index(r, c)] ^ (r == row % 32 && 0 <= column_offset(col, c) < 8 && bit_of(
                byte,
                7 - column_offset(col, c),
            ))),
        collision == (exists|j: int|
            0 <= j < 8 && bit_of(byte, 7 - j) && #[trigger] old_pixels[pixel_index(
                row % 32,
                (col + j) % 64,
            )]),
    ensures
        new_pixels == drawn(old_pixels, row, col, seq![byte]),
        collision == collides(old_pixels, row, col, seq![byte]),
{
    let sprite = seq![byte];
    assert forall|p: int| 0 <= p < GRID_SIZE implies new_pixels[p] == drawn(
        old_pixels,
        row,
        col,
        sprite,
    )[p] by {
        let r = p / 64;
        let c = p % 64;
        assert(p == pixel_index(r, c));
        assert(row_offset(row, r) < 1 <==> r == row % 32);
    }
    assert(new_pixels =~= drawn(old_pixels, row, col, sprite));
    if collision {
        let j0 = choose|j: int|
            0 <= j < 8 && bit_of(byte, 7 - j) && #[trigger] old_pixels[pixel_index(
                row % 32,
                (col + j) % 64,
            )];
        assert(0 <= 0 < sprite.len() && 0 <= j0 < 8 && bit_of(sprite[0], 7 - j0) && old_pixels[pixel_index(
            (row + 0) % 32,
            (col + j0) % 64,
        )]);
    }
    if collides(old_pixels, row, col, sprite) {
        let (k, j) = choose|k: int, j: int|
            0 <= k < sprite.len() && 0 <= j < 8 && bit_of(sprite[k], 7 - j) && #[trigger] old_pixels[pixel_index(
                (row + k) % 32,
                (col + j) % 64,
            )];
        assert(k == 0);
        assert(0 <= j < 8 && bit_of(byte, 7 - j) && old_pixels[pixel_index(row % 32, (col + j) % 64)]);
    }
}

proof fn lemma_next_row(
    start: Seq<bool>,
    before: Seq<bool>,
    after: Seq<bool>,
    row: int,
    col: int,
    sprite: Seq<u8>,
    k: int,
)
    requires
        0 <= row < 256,
        0 <= col < 256,
        0 <= k < sprite.len() <= GRID_HEIGHT,
        start.len() == GRID_SIZE,
        before == drawn(start, row, col, sprite.take(k)),
        after == drawn(before, (row + k) % 32, col, seq![sprite[k]]),
    ensures
        after == drawn(start, row, col, sprite.take(k + 1)),
{
    assert forall|p: int| 0 <= p < GRID_SIZE implies after[p] == drawn(
        start,
        row,
        col,
        sprite.take(k + 1),
    )[p] by {
        let r = p / 64;
        let c = p % 64;
        let off = row_offset(row, r);
        assert(row_offset((row + k) % 32, r) < 1 <==> off == k);
        if off < k {
            assert(sprite.take(k)[off] == sprite.take(k + 1)[off]);
        }
    }
    assert(after =~= drawn(start, row, col, sprite.take(k + 1)));
}

proof fn lemma_next_row_collides(
    start: Seq<bool>,
    before: Seq<bool>,
    row: int,
    col: int,
    sprite: Seq<u8>,
    k: int,
    collision: bool,
    hit: bool,
)
    requires
        0 <= row < 256,
        0 <= col < 256,
        0 <= k < sprite.len() <= GRID_HEIGHT,
        start.len() == GRID_SIZE,
        before == drawn(start, row, col, sprite.take(k)),
        collision == collides(start, row, col, sprite.take(k)),
        hit == collides(before, (row + k) % 32, col, seq![sprite[k]]),
    ensures
        (collision || hit) == collides(start, row, col, sprite.take(k + 1)),
{
    let next = sprite.take(k + 1);
    let prev = sprite.take(k);
    // A pixel of row k was not touched by the rows drawn before it.
    assert forall|j: int| 0 <= j < 8 implies #[trigger] before[pixel_index(
        (row + k) % 32,
        (col + j) % 64,
    )] == start[pixel_index((row + k) % 32, (col + j) % 64)] by {
        let r = (row + k) % 32;
        let c = (col + j) % 64;
        let p = pixel_index(r, c);
        assert(p / 64 == r && p % 64 == c);
        assert(row_offset(row, r) == k);
    }
    if collision {
        let (k0, j0) = choose|k0: int, j0: int|
            0 <= k0 < prev.len() && 0 <= j0 < 8 && bit_of(prev[k0], 7 - j0) && #[trigger] start[pixel_index(
                (row + k0) % 32,
                (col + j0) % 64,
            )];
        assert(0 <= k0 < next.len() && 0 <= j0 < 8 && bit_of(next[k0], 7 - j0) && start[pixel_index(
            (row + k0) % 32,
            (col + j0) % 64,
        )]);
    }
    if hit {
        let one = seq![sprite[k]];
        let (k0, j0) = choose|k0: int, j0: int|
            0 <= k0 < one.len() && 0 <= j0 < 8 && bit_of(one[k0], 7 - j0) && #[trigger] before[pixel_index(
                ((row + k) % 32 + k0) % 32,
                (col + j0) % 64,
            )];
        assert(k0 == 0);
        assert(0 <= k < next.len() && 0 <= j0 < 8 && bit_of(next[k], 7 - j0) && start[pixel_index(
            (row + k) % 32,
            (col + j0) % 64,
        )]);
    }
    if collides(start, row, col, next) {
        let (k0, j0) = choose|k0: int, j0: int|
            0 <= k0 < next.len() && 0 <= j0 < 8 && bit_of(next[k0], 7 - j0) && #[trigger] start[pixel_index(
                (row + k0) % 32,
                (col + j0) % 64,
            )];
        if k0 < k {
            assert(0 <= k0 < prev.len() && 0 <= j0 < 8 && bit_of(prev[k0], 7 - j0) && start[pixel_index(
                (row + k0) % 32,
                (col + j0) % 64,
            )]);
        } else {
            let one = seq![sprite[k]];
            assert(0 <= 0 < one.len() && 0 <= j0 < 8 && bit_of(one[0], 7 - j0) && before[pixel_index(
                ((row + k) % 32 + 0) % 32,
                (col + j0) % 64,
            )]);
        }
    }
}

/// Whether every pixel of the grid is off.
pub open spec fn blank(pixels: Seq<bool>) -> bool {
    pixels.len() == GRID_SIZE && forall|p: int| 0 <= p < GRID_SIZE ==> !pixels[p]
}

/// Whether some row of the sprite is not zero, so that the sprite has a
/// set pixel.
pub open spec fn nonzero(sprite: Seq<u8>) -> bool {
    exists|k: int| 0 <= k < sprite.len() && #[trigger] sprite[k] != 0
}

/// A byte other than zero has a set bit.
proof fn lemma_nonzero_byte_has_bit(byte: u8)
    requires
        byte != 0,
    ensures
        exists|j: int| 0 <= j < 8 && #[trigger] bit_of(byte, 7 - j),
{
    if bit_of(byte, 7 - 0) {
    } else if bit_of(byte, 7 - 1) {
    } else if bit_of(byte, 7 - 2) {
    } else if bit_of(byte, 7 - 3) {
    } else if bit_of(byte, 7 - 4) {
    } else if bit_of(byte, 7 - 5) {
    } else if bit_of(byte, 7 - 6) {
    } else {
        assert(bit_of(byte, 7 - 7));
    }
}

/// Drawing the same sprite twice at the same place gives back the grid as
/// it was before the first draw.
pub proof fn lemma_draw_twice_restores(pixels: Seq<bool>, row: int, col: int, sprite: Seq<u8>)
    requires
        pixels.len() == GRID_SIZE,
    ensures
        drawn(drawn(pixels, row, col, sprite), row, col, sprite) == pixels,
{
    assert(drawn(drawn(pixels, row, col, sprite), row, col, sprite) =~= pixels);
}

/// Drawing onto a grid with every pixel off clears nothing.
pub proof fn lemma_blank_never_collides(pixels: Seq<bool>, row: int, col: int, sprite: Seq<u8>)
    requires
        blank(pixels),
        0 <= row,
        0 <= col,
    ensures
        !collides(pixels, row, col, sprite),
{
    assert forall|k: int, j: int|
        0 <= k < sprite.len() && 0 <= j < 8 && bit_of(sprite[k], 7 - j) implies !#[trigger] pixels[pixel_index(
        (row + k) % 32,
        (col + j) % 64,
    )] by {
        let p = pixel_index((row + k) % 32, (col + j) % 64);
        assert(0 <= p < GRID_SIZE);
    }
}

/// Drawing a sprite that is not zero onto a grid with every pixel off, and
/// then once more at the same place, clears pixels on the second draw and
/// leaves every pixel off.
pub proof fn lemma_second_draw_collides(pixels: Seq<bool>, row: int, col: int, sprite: Seq<u8>)
    requires
        blank(pixels),
        0 <= row,
        0 <= col,
        sprite.len() <= GRID_HEIGHT,
        nonzero(sprite),
    ensures
        collides(drawn(pixels, row, col, sprite), row, col, sprite),
        blank(drawn(drawn(pixels, row, col, sprite), row, col, sprite)),
{
    lemma_draw_twice_restores(pixels, row, col, sprite);
    let k = choose|k: int| 0 <= k < sprite.len() && #[trigger] sprite[k] != 0;
    lemma_nonzero_byte_has_bit(sprite[k]);
    let j = choose|j: int| 0 <= j < 8 && #[trigger] bit_of(sprite[k], 7 - j);
    let once = drawn(pixels, row, col, sprite);
    let r = (row + k) % 32;
    let c = (col + j) % 64;
    let p = pixel_index(r, c);
    assert(p / 64 == r && p % 64 == c);
    assert(row_offset(row, r) == k);
    assert(column_offset(col, c) == j);
    assert(sprite_covers(row, col, sprite, r, c));
    assert(once[p]);
    assert(0 <= k < sprite.len() && 0 <= j < 8 && bit_of(sprite[k], 7 - j) && once[pixel_index(
        (row + k) % 32,
        (col + j) % 64,
    )]);
}

} // verus!
