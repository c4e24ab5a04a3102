use vstd::prelude::*;

verus! {

/// The greatest size and position of a rectangle.
pub const MAX_RECT_VALUE: u32 = 1073741823;

/// The least position of a rectangle.
pub const MIN_RECT_POSITION: i32 = -1073741824;

/// A width or height brought into the range that a rectangle accepts: at
/// least one, at most [`MAX_RECT_VALUE`].
pub open spec fn clamped_size(value: u32) -> u32 {
    if value == 0 {
        1
    } else if value > MAX_RECT_VALUE {
        MAX_RECT_VALUE
    } else {
        value
    }
}

/// A position brought into the range that a rectangle accepts.
pub open spec fn clamped_position(value: i32) -> i32 {
    if value > MAX_RECT_VALUE {
        MAX_RECT_VALUE as i32
    } else if value < MIN_RECT_POSITION {
        MIN_RECT_POSITION
    } else {
        value
    }
}

/// A rectangle of pixels on a texture or on the screen. Its sizes and
/// positions are kept in the range that the screen's drawing calls accept.
#[derive(Clone, Copy, Debug, PartialEq, Eq, Structural)]
pub struct Rect {
    x: i32,
    y: i32,
    width: u32,
    height: u32,
}

/// What a rectangle holds.
pub struct RectView {
    pub x: int,
    pub y: int,
    pub width: int,
    pub height: int,
}

impl View for Rect {
    type V = RectView;

    closed spec fn view(&self) -> RectView {
        RectView {
            x: self.x as int,
            y: self.y as int,
            width: self.width as int,
            height: self.height as int,
        }
    }
}

impl Rect {
    /// Sizes and positions are in range.
    pub open spec fn wf(&self) -> bool {
        &&& MIN_RECT_POSITION <= self@.x <= MAX_RECT_VALUE
        &&& MIN_RECT_POSITION <= self@.y <= MAX_RECT_VALUE
        &&& 1 <= self@.width <= MAX_RECT_VALUE
        &&& 1 <= self@.height <= MAX_RECT_VALUE
    }

    /// A rectangle with the given position and size, each brought into
    /// range.
    pub fn new(x: i32, y: i32, width: u32, height: u32) -> (rect: Rect)
        ensures
            rect.wf(),
            rect@ == (RectView {
                x: clamped_position(x) as int,
                y: clamped_position(y) as int,
                width: clamped_size(width) as int,
                height: clamped_size(height) as int,
            }),
    {
        Rect {
            x: clamp_position(x),
            y: clamp_position(y),
            width: clamp_size(width),
            height: clamp_size(height),
        }
    }

    pub fn x(&self) -> (x: i32)
        ensures
            x == self@.x,
    {
        self.x
    }

    pub fn y(&self) -> (y: i32)
        ensures
            y == self@.y,
    {
        self.y
    }

    pub fn width(&self) -> (width: u32)
        ensures
            width == self@.width,
    {
        self.width
    }

    pub fn height(&self) -> (height: u32)
        ensures
            height == self@.height,
    {
        self.height
    }

    /// Moves the rectangle to the horizontal position `x`, brought into
    /// range.
    pub fn set_x(&mut self, x: i32)
        ensures
            final(self)@ == (RectView { x: clamped_position(x) as int, ..old(self)@ }),
            old(self).wf() ==> final(self).wf(),
    {
        self.x = clamp_position(x);
    }

    /// Moves the rectangle to the vertical position `y`, brought into
    /// range.
    pub fn set_y(&mut self, y: i32)
        ensures
            final(self)@ == (RectView { y: clamped_position(y) as int, ..old(self)@ }),
            old(self).wf() ==> final(self).wf(),
    {
        self.y = clamp_position(y);
    }
}

/// Brings a width or height into the range that a rectangle accepts.
pub fn clamp_size(value: u32) -> (clamped: u32)
    ensures
        clamped == clamped_size(value),
{
    if value == 0 {
        1
    } else if value > MAX_RECT_VALUE {
        MAX_RECT_VALUE
    } else {
        value
    }
}

/// Brings a position into the range that a rectangle accepts.
pub fn clamp_position(value: i32) -> (clamped: i32)
    ensures
        clamped == clamped_position(value),
{
    if value > MAX_RECT_VALUE as i32 {
        MAX_RECT_VALUE as i32
    } else if value < MIN_RECT_POSITION {
        MIN_RECT_POSITION
    } else {
        value
    }
}

/// The two tiles of the tileset: the picture of a pixel that is on and of
/// one that is off.
#[derive(Clone, Copy, Debug, PartialEq, Eq, Structural)]
pub enum TileType {
    On,
    Off,
}

/// Where the two tiles lie on the texture that holds them side by side: the
/// "off" tile in the left half, the "on" tile in the right half.
#[derive(Clone, Copy, Debug, PartialEq, Eq, Structural)]
pub struct Tileset {
    on_tile: Rect,
    off_tile: Rect,
}

/// The rectangle of a tile on a texture of the given size: each tile takes
/// half the width and the whole height, brought into the range that a
/// rectangle accepts.
pub open spec fn tile_rect(tile_type: TileType, width: u32, height: u32) -> RectView {
    RectView {
        x: match tile_type {
            TileType::On => clamped_position((width / 2) as i32) as int,
            TileType::Off => 0,
        },
        y: 0,
        width: clamped_size(width / 2) as int,
        height: clamped_size(height) as int,
    }
}

impl Tileset {
    /// The tiles are well formed.
    pub closed spec fn wf(&self) -> bool {
        self.on_tile.wf() && self.off_tile.wf()
    }

    /// The rectangle of a tile.
    pub closed spec fn spec_tile(&self, tile_type: TileType) -> Rect {
        match tile_type {
            TileType::On => self.on_tile,
            TileType::Off => self.off_tile,
        }
    }

    /// The tileset of a texture that is `width` pixels wide and `height`
    /// pixels high.
    pub fn new(width: u32, height: u32) -> (tileset: Tileset)
        ensures
            tileset.wf(),
            forall|tile_type: TileType| #[trigger]
                tileset.spec_tile(tile_type)@ == tile_rect(tile_type, width, height),
    {
        let off_tile = Rect::new(0, 0, width / 2, height);
        let on_tile = Rect::new((width / 2) as i32, 0, width / 2, height);
        Tileset { on_tile, off_tile }
    }

    /// The rectangle of a tile.
    pub fn tile(&self, tile_type: TileType) -> (rect: &Rect)
        ensures
            *rect == self.spec_tile(tile_type),
            self.wf() ==> rect.wf(),
    {
        match tile_type {
            TileType::On => &self.on_tile,
            TileType::Off => &self.off_tile,
        }
    }
}

} // verus!
