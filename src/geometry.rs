//! Tiles of a room and their neighbourhood.

use vstd::prelude::*;

verus! {

/// Width and height of a room in tiles.
pub const ROOM_SIZE: u8 = 50;

/// Number of tiles in a room.
pub const ROOM_AREA: usize = 2500;

/// A tile of a room, by column `x` and row `y`.
#[derive(Clone, Copy, Debug, PartialEq, Eq, Structural)]
pub struct Tile {
    pub x: u8,
    pub y: u8,
}

/// Whether the integer pair `(x, y)` names a tile inside the room.
pub open spec fn in_room(x: int, y: int) -> bool {
    0 <= x < ROOM_SIZE && 0 <= y < ROOM_SIZE
}

/// Linear index of the tile `(x, y)` in a room-sized grid (column major, as
/// the host lays out its cost matrices).
pub open spec fn grid_index(x: int, y: int) -> int {
    x * ROOM_SIZE + y
}

impl Tile {
    pub open spec fn valid(self) -> bool {
        in_room(self.x as int, self.y as int)
    }

    /// Whether `other` is one of the eight tiles around `self`.
    pub open spec fn touches(self, other: Tile) -> bool {
        self != other && -1 <= other.x - self.x <= 1 && -1 <= other.y - self.y <= 1
    }

    /// Whether `other` is `self` or touches it (range 1).
    pub open spec fn within_one(self, other: Tile) -> bool {
        -1 <= other.x - self.x <= 1 && -1 <= other.y - self.y <= 1
    }

    /// Position of this tile in a room-sized grid.
    pub fn index(&self) -> (r: usize)
        requires
            self.valid(),
        ensures
            r == grid_index(self.x as int, self.y as int),
            r < ROOM_AREA,
    {
        self.x as usize * 50 + self.y as usize
    }
}

/// A coordinate as a room coordinate: valid exactly when it is not negative
/// and below the room size.
pub fn room_coordinate(c: i16) -> (r: Option<u8>)
    ensures
        r == (if 0 <= c < ROOM_SIZE { Some(c as u8) } else { None::<u8> }),
{
    if 0 <= c && c < 50 {
        Some(c as u8)
    } else {
        None
    }
}

} // verus!
