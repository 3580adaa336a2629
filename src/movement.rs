//! Movement planning: the per-tick cost overlay that keeps paths off tiles
//! where units stand, and the single step taken along a path the host found.

use vstd::prelude::*;
use crate::geometry::{grid_index, Tile, ROOM_AREA};

verus! {

/// Cost given to a tile where a unit stands: the host's path search does not
/// route through a tile of this cost.
pub const OCCUPIED_COST: u8 = 255;

/// The eight directions of a single step. `Top` lowers `y`, `Right` raises `x`.
#[derive(Clone, Copy, Debug, PartialEq, Eq, Structural)]
pub enum Direction {
    Top,
    TopRight,
    Right,
    BottomRight,
    Bottom,
    BottomLeft,
    Left,
    TopLeft,
}

impl Direction {
    /// The change of `(x, y)` that one step in this direction makes.
    pub open spec fn offset(self) -> (int, int) {
        match self {
            Direction::Top => (0, -1),
            Direction::TopRight => (1, -1),
            Direction::Right => (1, 0),
            Direction::BottomRight => (1, 1),
            Direction::Bottom => (0, 1),
            Direction::BottomLeft => (-1, 1),
            Direction::Left => (-1, 0),
            Direction::TopLeft => (-1, -1),
        }
    }
}

/// What a movement request came to this tick.
#[derive(Clone, Copy, Debug, PartialEq, Eq, Structural)]
pub enum Outcome {
    /// Already within range 1 of the destination: no step taken.
    Arrived,
    /// One step issued in the given direction.
    Moving(Direction),
    /// No usable path: no step taken.
    NoPath,
}

/// What the host's path search returned: whether it gave up before reaching
/// range 1 of the goal, and the tiles of the path, the first one being the
/// next step.
#[derive(Clone, Debug)]
pub struct PathSearch {
    pub incomplete: bool,
    pub path: Vec<Tile>,
}

pub open spec fn sign(d: int) -> int {
    if d < 0 {
        -1
    } else if d > 0 {
        1
    } else {
        0
    }
}

/// Whether some unit in `creeps` stands on the grid cell `i`.
pub open spec fn blocked(creeps: Seq<Tile>, i: int) -> bool {
    exists|k: int|
        0 <= k < creeps.len() && (#[trigger] creeps[k]).valid() && grid_index(
            creeps[k].x as int,
            creeps[k].y as int,
        ) == i
}

/// The overlay value of grid cell `i`: blocking where a unit stands, else no
/// change to the terrain's own cost.
pub open spec fn overlay_cost(creeps: Seq<Tile>, i: int) -> u8 {
    if blocked(creeps, i) {
        OCCUPIED_COST
    } else {
        0
    }
}

/// The step that `move_toward` takes.
pub open spec fn step_outcome(from: Tile, dest: Tile, incomplete: bool, path: Seq<Tile>) -> Outcome {
    if from.within_one(dest) {
        Outcome::Arrived
    } else if incomplete || path.len() == 0 || !from.touches(path[0]) {
        Outcome::NoPath
    } else {
        Outcome::Moving(direction_of(path[0].x - from.x, path[0].y - from.y))
    }
}

/// The direction whose offset is `(sign(dx), sign(dy))`; `Top` when both are 0.
pub open spec fn direction_of(dx: int, dy: int) -> Direction {
    let (sx, sy) = (sign(dx), sign(dy));
    if sx == 0 && sy == -1 {
        Direction::Top
    } else if sx == 1 && sy == -1 {
        Direction::TopRight
    } else if sx == 1 && sy == 0 {
        Direction::Right
    } else if sx == 1 && sy == 1 {
        Direction::BottomRight
    } else if sx == 0 && sy == 1 {
        Direction::Bottom
    } else if sx == -1 && sy == 1 {
        Direction::BottomLeft
    } else if sx == -1 && sy == 0 {
        Direction::Left
    } else if sx == -1 && sy == -1 {
        Direction::TopLeft
    } else {
        Direction::Top
    }
}

/// The direction of one step from `from` toward `to` (`Top` when they are the
/// same tile).
pub fn direction_toward(from: Tile, to: Tile) -> (r: Direction)
    ensures
        r == direction_of(to.x - from.x, to.y - from.y),
        from != to ==> r.offset() == (sign(to.x - from.x), sign(to.y - from.y)),
{
    let sx: i8 = if to.x < from.x {
        -1
    } else if to.x > from.x {
        1
    } else {
        0
    };
    let sy: i8 = if to.y < from.y {
        -1
    } else if to.y > from.y {
        1
    } else {
        0
    };
    if sx == 0 && sy == -1 {
        Direction::Top
    } else if sx == 1 && sy == -1 {
        Direction::TopRight
    } else if sx == 1 && sy == 0 {
        Direction::Right
    } else if sx == 1 && sy == 1 {
        Direction::BottomRight
    } else if sx == 0 && sy == 1 {
        Direction::Bottom
    } else if sx == -1 && sy == 1 {
        Direction::BottomLeft
    } else if sx == -1 && sy == 0 {
        Direction::Left
    } else if sx == -1 && sy == -1 {
        Direction::TopLeft
    } else {
        Direction::Top
    }
}

/// Whether `b` is within range 1 of `a` (the same tile or one of the eight
/// around it).
pub fn in_range_one(a: Tile, b: Tile) -> (r: bool)
    ensures
        r == a.within_one(b),
{
    let dx = b.x as i16 - a.x as i16;
    let dy = b.y as i16 - a.y as i16;
    -1 <= dx && dx <= 1 && -1 <= dy && dy <= 1
}

/// The cost overlay for this tick: one cell per tile (laid out by
/// `grid_index`), `OCCUPIED_COST` where a unit of `creeps` stands and 0
/// elsewhere. Units reported outside the room are ignored.
pub fn cost_overlay(creeps: &Vec<Tile>) -> (r: Vec<u8>)
    ensures
        r@.len() == ROOM_AREA,
        forall|i: int| 0 <= i < ROOM_AREA ==> #[trigger] r@[i] == overlay_cost(creeps@, i),
{
    let mut cells: Vec<u8> = Vec::new();
    let mut i: usize = 0;
    while i < ROOM_AREA
        invariant
            i <= ROOM_AREA,
            cells@.len() == i,
            forall|j: int| 0 <= j < i ==> #[trigger] cells@[j] == 0,
        decreases ROOM_AREA - i,
    {
        cells.push(0);
        i += 1;
    }
    let mut k: usize = 0;
    while k < creeps.len()
        invariant
            k <= creeps@.len(),
            cells@.len() == ROOM_AREA,
            forall|j: int|
                0 <= j < ROOM_AREA ==> #[trigger] cells@[j] == overlay_cost(creeps@.take(k as int), j),
        decreases creeps@.len() - k,
    {
        let t = creeps[k];
        proof {
            assert forall|j: int| #[trigger] blocked(creeps@.take(k + 1), j) <==> (blocked(
                creeps@.take(k as int),
                j,
            ) || (t.valid() && grid_index(t.x as int, t.y as int) == j)) by {
                let s = creeps@.take(k + 1);
                if blocked(s, j) {
                    let m = choose|m: int|
                        0 <= m < s.len() && (#[trigger] s[m]).valid() && grid_index(
                            s[m].x as int,
                            s[m].y as int,
                        ) == j;
                    if m < k {
                        assert(creeps@.take(k as int)[m] == s[m]);
                    }
                }
                if blocked(creeps@.take(k as int), j) {
                    let m = choose|m: int|
                        0 <= m < k && (#[trigger] creeps@.take(k as int)[m]).valid() && grid_index(
                            creeps@.take(k as int)[m].x as int,
                            creeps@.take(k as int)[m].y as int,
                        ) == j;
                    assert(s[m] == creeps@.take(k as int)[m]);
                }
                if t.valid() && grid_index(t.x as int, t.y as int) == j {
                    assert(s[k as int] == t);
                }
            }
        }
        if t.x < 50 && t.y < 50 {
            let idx = t.index();
            cells.set(idx, OCCUPIED_COST);
        }
        k += 1;
    }
    assert(creeps@.take(creeps@.len() as int) =~= creeps@);
    cells
}

/// Single-step movement toward `dest`: `Arrived` when `from` is already within
/// range 1 of it; `NoPath` when the search was incomplete or gave no first
/// step next to `from`; otherwise `Moving` in the direction of the path's
/// first tile. Nothing is kept between ticks: the path is searched anew each
/// tick against that tick's overlay.
pub fn move_toward(from: Tile, dest: Tile, search: &PathSearch) -> (r: Outcome)
    ensures
        r == step_outcome(from, dest, search.incomplete, search.path@),
        r matches Outcome::Moving(d) ==> from.touches(search.path@[0]) && d.offset() == (
            search.path@[0].x - from.x,
            search.path@[0].y - from.y,
        ),
{
    if in_range_one(from, dest) {
        return Outcome::Arrived;
    }
    if search.incomplete || search.path.len() == 0 {
        return Outcome::NoPath;
    }
    let next = search.path[0];
    if next == from || !in_range_one(from, next) {
        return Outcome::NoPath;
    }
    Outcome::Moving(direction_toward(from, next))
}

} // verus!
