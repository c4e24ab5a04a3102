use vstd::prelude::*;
use crate::display::grid::{pixel_index, PixelGrid, GRID_HEIGHT, GRID_SIZE, GRID_WIDTH};
use crate::display::tileset::{clamped_size, Rect, RectView, TileType, Tileset};

pub mod grid;
pub mod tileset;

verus! {

/// Width of the window, in screen pixels, unless told otherwise.
pub const DISPLAY_WIDTH: u32 = 1280;

/// Height of the window, in screen pixels, unless told otherwise.
pub const DISPLAY_HEIGHT: u32 = 640;

/// One copy from the tileset's texture to the screen: which tile, from
/// where on the texture, to where on the screen.
#[derive(Clone, Copy, Debug, PartialEq, Eq, Structural)]
pub struct Placement {
    pub tile_type: TileType,
    pub source: Rect,
    pub target: Rect,
}

/// How the pixel grid is laid out on the screen: the tiles to draw pixels
/// with and the part of the window to fill. The window itself, and
/// everything that draws into it, belongs to whoever shows the grid.
pub struct Display {
    tileset: Tileset,
    viewport: Rect,
}

/// The tile that shows a pixel.
pub open spec fn tile_of(pixel: bool) -> TileType {
    if pixel {
        TileType::On
    } else {
        TileType::Off
    }
}

/// The size of the screen rectangle of one grid pixel in a viewport of the
/// given size: a 64th of the width and a 32nd of the height, rounded down,
/// but no less than one.
pub open spec fn cell_size(viewport: RectView) -> RectView {
    RectView {
        x: 0,
        y: 0,
        width: clamped_size((viewport.width / (GRID_WIDTH as int)) as u32) as int,
        height: clamped_size((viewport.height / (GRID_HEIGHT as int)) as u32) as int,
    }
}

/// The screen rectangle of the grid pixel at (`row`, `col`).
pub open spec fn cell_of(viewport: RectView, row: int, col: int) -> RectView {
    RectView {
        x: col * cell_size(viewport).width,
        y: row * cell_size(viewport).height,
        ..cell_size(viewport)
    }
}

impl Display {
    /// The tiles and the viewport are well formed.
    pub closed spec fn wf(&self) -> bool {
        self.tileset.wf() && self.viewport.wf()
    }

    /// The tiles of this layout.
    pub closed spec fn spec_tileset(&self) -> Tileset {
        self.tileset
    }

    /// The viewport of this layout.
    pub closed spec fn spec_viewport(&self) -> Rect {
        self.viewport
    }

    /// A layout with the given tiles for a viewport of the given size.
    pub fn new(tileset: Tileset, viewport: Rect) -> (display: Display)
        requires
            tileset.wf(),
            viewport.wf(),
        ensures
            display.wf(),
            display.spec_tileset() == tileset,
            display.spec_viewport() == viewport,
    {
        Display { tileset, viewport }
    }

    /// The size of the screen rectangle of one grid pixel.
    pub fn display_cell_size(&self) -> (cell: Rect)
        requires
            self.wf(),
        ensures
            cell.wf(),
            cell@ == cell_size(self.spec_viewport()@),
    {
        Rect::new(
            0,
            0,
            self.viewport.width() / GRID_WIDTH as u32,
            self.viewport.height() / GRID_HEIGHT as u32,
        )
    }

    /// The copies that show the whole grid, column after column and each
    /// column from the top down: the copy for the pixel at (`row`, `col`)
    /// is the one at `col * 32 + row`. It takes the tile that shows the
    /// pixel to the pixel's rectangle on the screen.
    pub fn update(&self, grid: &PixelGrid) -> (placements: Vec<Placement>)
        requires
            self.wf(),
        ensures
            placements@.len() == GRID_SIZE,
            forall|row: int, col: int|
                0 <= row < GRID_HEIGHT && 0 <= col < GRID_WIDTH ==> {
                    let placement = #[trigger] placements@[col * (GRID_HEIGHT as int) + row];
                    &&& placement.tile_type == tile_of(grid@[pixel_index(row, col)])
                    &&& placement.source == self.spec_tileset().spec_tile(placement.tile_type)
                    &&& placement.target@ == cell_of(self.spec_viewport()@, row, col)
                    &&& placement.target.wf()
                },
    {
        let display_cell = self.display_cell_size();
        let mut placements: Vec<Placement> = Vec::new();
        let mut col: usize = 0;
        proof {
            grid.lemma_len();
        }
        while col < GRID_WIDTH
            invariant
                col <= GRID_WIDTH,
                self.wf(),
                grid@.len() == GRID_SIZE,
                display_cell.wf(),
                display_cell@ == cell_size(self.spec_viewport()@),
                placements@.len() == col * GRID_HEIGHT,
                forall|r: int, c: int|
                    0 <= r < GRID_HEIGHT && 0 <= c < col ==> {
                        let placement = #[trigger] placements@[c * (GRID_HEIGHT as int) + r];
                        &&& placement.tile_type == tile_of(grid@[pixel_index(r, c)])
                        &&& placement.source == self.spec_tileset().spec_tile(placement.tile_type)
                        &&& placement.target@ == cell_of(self.spec_viewport()@, r, c)
                        &&& placement.target.wf()
                    },
            decreases GRID_WIDTH - col,
        {
            let mut row: usize = 0;
            while row < GRID_HEIGHT
                invariant
                    row <= GRID_HEIGHT,
                    col < GRID_WIDTH,
                    self.wf(),
                    grid@.len() == GRID_SIZE,
                    display_cell.wf(),
                    display_cell@ == cell_size(self.spec_viewport()@),
                    placements@.len() == col * GRID_HEIGHT + row,
                    forall|r: int, c: int|
                        0 <= r < GRID_HEIGHT && 0 <= c < GRID_WIDTH && (c < col || (c == col && r
                            < row)) ==> {
                            let placement = #[trigger] placements@[c * (GRID_HEIGHT as int) + r];
                            &&& placement.tile_type == tile_of(grid@[pixel_index(r, c)])
                            &&& placement.source == self.spec_tileset().spec_tile(
                                placement.tile_type,
                            )
                            &&& placement.target@ == cell_of(self.spec_viewport()@, r, c)
                            &&& placement.target.wf()
                        },
                decreases GRID_HEIGHT - row,
            {
                let pixel = grid.peek()[row * GRID_WIDTH + col];
                let tile_type = if pixel {
                    TileType::On
                } else {
                    TileType::Off
                };
                let source = *self.tileset.tile(tile_type);
                let mut target = display_cell;
                assert(display_cell@.width <= MAX_CELL_WIDTH && display_cell@.height
                    <= MAX_CELL_HEIGHT);
                assert(col * display_cell@.width <= 63 * MAX_CELL_WIDTH && row * display_cell@.height
                    <= 31 * MAX_CELL_HEIGHT) by (nonlinear_arith)
                    requires
                        0 <= col < 64,
                        0 <= row < 32,
                        1 <= display_cell@.width <= MAX_CELL_WIDTH,
                        1 <= display_cell@.height <= MAX_CELL_HEIGHT,
                ;
                let new_x = col * display_cell.width() as usize;
                let new_y = row * display_cell.height() as usize;
                target.set_x(new_x as i32);
                target.set_y(new_y as i32);
                let ghost before = placements@;
                placements.push(Placement { tile_type, source, target });
                assert forall|r: int, c: int|
                    0 <= r < GRID_HEIGHT && 0 <= c < GRID_WIDTH && (c < col || (c == col && r < row
                        + 1)) implies {
                    let placement = #[trigger] placements@[c * (GRID_HEIGHT as int) + r];
                    &&& placement.tile_type == tile_of(grid@[pixel_index(r, c)])
                    &&& placement.source == self.spec_tileset().spec_tile(placement.tile_type)
                    &&& placement.target@ == cell_of(self.spec_viewport()@, r, c)
                    &&& placement.target.wf()
                } by {
                    if c == col && r == row {
                        assert(placements@[c * (GRID_HEIGHT as int) + r] == (Placement {
                            tile_type,
                            source,
                            target,
                        }));
                        assert(pixel == grid@[pixel_index(r, c)]);
                        assert(target@.x == col * display_cell@.width);
                        assert(target@.y == row * display_cell@.height);
                    } else {
                        assert(placements@[c * (GRID_HEIGHT as int) + r] == before[c * (
                        GRID_HEIGHT as int) + r]);
                    }
                }
                row += 1;
            }
            col += 1;
        }
        placements
    }
}

/// The greatest width of the screen rectangle of a grid pixel.
pub const MAX_CELL_WIDTH: u32 = 16777215;

/// The greatest height of the screen rectangle of a grid pixel.
pub const MAX_CELL_HEIGHT: u32 = 33554431;

} // verus!
