//! A room as seen during one tick, and the choice of the resource node with
//! the most free working positions around it.

use vstd::prelude::*;
use crate::geometry::{grid_index, in_room, room_coordinate, Tile, ROOM_AREA};

verus! {

/// Terrain of one tile.
#[derive(Clone, Copy, Debug, PartialEq, Eq, Structural)]
pub enum Terrain {
    Plain,
    Swamp,
    Wall,
}

/// A resource node: its stable identifier and where it stands.
#[derive(Clone, Debug)]
pub struct Node {
    pub id: String,
    pub pos: Tile,
}

/// What the host reports of a room this tick: the terrain of every tile
/// (indexed as `grid_index`), the tiles where units stand, and the resource
/// nodes in the order the host lists them.
#[derive(Clone, Debug)]
pub struct RoomView {
    pub terrain: Vec<Terrain>,
    pub creeps: Vec<Tile>,
    pub nodes: Vec<Node>,
}

impl RoomView {
    pub open spec fn wf(&self) -> bool {
        self.terrain@.len() == ROOM_AREA
    }

    /// Whether a unit stands on `t`.
    pub open spec fn occupied(&self, t: Tile) -> bool {
        self.creeps@.contains(t)
    }

    /// Whether a unit could stand on `(x, y)` now: inside the room, not a wall,
    /// nobody there.
    pub open spec fn free_at(&self, x: int, y: int) -> bool {
        &&& in_room(x, y)
        &&& self.terrain@[grid_index(x, y)] != Terrain::Wall
        &&& !self.occupied(Tile { x: x as u8, y: y as u8 })
    }

    /// `(x, y)` as a one-element list when free, else nothing.
    pub open spec fn slot_at(&self, x: int, y: int) -> Seq<Tile> {
        if self.free_at(x, y) {
            seq![Tile { x: x as u8, y: y as u8 }]
        } else {
            seq![]
        }
    }

    /// The free tiles among the eight around `p`, column by column.
    pub open spec fn free_slots_of(&self, p: Tile) -> Seq<Tile> {
        let (x, y) = (p.x as int, p.y as int);
        self.slot_at(x - 1, y - 1) + self.slot_at(x - 1, y) + self.slot_at(x - 1, y + 1)
            + self.slot_at(x, y - 1) + self.slot_at(x, y + 1)
            + self.slot_at(x + 1, y - 1) + self.slot_at(x + 1, y) + self.slot_at(x + 1, y + 1)
    }

    /// Score of the node at index `i`: how many working positions around it
    /// are free.
    pub open spec fn score(&self, i: int) -> nat {
        self.free_slots_of(self.nodes@[i].pos).len()
    }

    /// Whether node `i` is the one to pick: no node scores higher, and every
    /// node listed before it scores lower.
    pub open spec fn is_best(&self, i: int) -> bool {
        &&& 0 <= i < self.nodes@.len()
        &&& forall|j: int| 0 <= j < self.nodes@.len() ==> #[trigger] self.score(j) <= self.score(i)
        &&& forall|j: int| 0 <= j < i ==> #[trigger] self.score(j) < self.score(i)
    }

    /// Whether a unit stands on `t`.
    pub fn is_occupied(&self, t: Tile) -> (r: bool)
        ensures
            r == self.occupied(t),
    {
        let mut i: usize = 0;
        while i < self.creeps.len()
            invariant
                i <= self.creeps@.len(),
                forall|k: int| 0 <= k < i ==> self.creeps@[k] != t,
            decreases self.creeps@.len() - i,
        {
            if self.creeps[i] == t {
                return true;
            }
            i += 1;
        }
        false
    }

    /// Appends `(x, y)` to `out` when a unit could stand there.
    fn push_if_free(&self, out: &mut Vec<Tile>, x: i16, y: i16)
        requires
            self.wf(),
        ensures
            final(out)@ == old(out)@ + self.slot_at(x as int, y as int),
    {
        if let (Some(cx), Some(cy)) = (room_coordinate(x), room_coordinate(y)) {
            let t = Tile { x: cx, y: cy };
            if self.terrain[t.index()] != Terrain::Wall && !self.is_occupied(t) {
                out.push(t);
                return;
            }
        }
        assert(out@ =~= old(out)@ + self.slot_at(x as int, y as int));
    }

    /// The free working positions around `p`: the eight tiles around it,
    /// clipped to the room, without walls and without tiles where a unit
    /// stands.
    pub fn free_slots(&self, p: Tile) -> (r: Vec<Tile>)
        requires
            self.wf(),
        ensures
            r@ == self.free_slots_of(p),
    {
        let mut out: Vec<Tile> = Vec::new();
        let x = p.x as i16;
        let y = p.y as i16;
        self.push_if_free(&mut out, x - 1, y - 1);
        self.push_if_free(&mut out, x - 1, y);
        self.push_if_free(&mut out, x - 1, y + 1);
        self.push_if_free(&mut out, x, y - 1);
        self.push_if_free(&mut out, x, y + 1);
        self.push_if_free(&mut out, x + 1, y - 1);
        self.push_if_free(&mut out, x + 1, y);
        self.push_if_free(&mut out, x + 1, y + 1);
        assert(out@ =~= self.free_slots_of(p));
        out
    }

    /// How many free working positions there are around `p`.
    pub fn free_capacity(&self, p: Tile) -> (r: usize)
        requires
            self.wf(),
        ensures
            r == self.free_slots_of(p).len(),
    {
        self.free_slots(p).len()
    }

    /// Index of the node with the most free working positions, the first
    /// listed among equals; `None` exactly when the room has no node. A node
    /// with no free position is still picked when none does better.
    pub fn best_node_index(&self) -> (r: Option<usize>)
        requires
            self.wf(),
        ensures
            r is None <==> self.nodes@.len() == 0,
            r matches Some(i) ==> self.is_best(i as int),
    {
        if self.nodes.len() == 0 {
            return None;
        }
        let mut best: usize = 0;
        let mut best_score = self.free_capacity(self.nodes[0].pos);
        let mut i: usize = 1;
        while i < self.nodes.len()
            invariant
                self.wf(),
                1 <= i <= self.nodes@.len(),
                best < i,
                best_score == self.score(best as int),
                forall|j: int| 0 <= j < i ==> #[trigger] self.score(j) <= self.score(best as int),
                forall|j: int| 0 <= j < best ==> #[trigger] self.score(j) < self.score(best as int),
            decreases self.nodes@.len() - i,
        {
            let s = self.free_capacity(self.nodes[i].pos);
            if s > best_score {
                best = i;
                best_score = s;
            }
            i += 1;
        }
        Some(best)
    }

    /// Identifier of the node with the most free working positions (see
    /// `best_node_index`); `None` exactly when the room has no node.
    pub fn best_node(&self) -> (r: Option<String>)
        requires
            self.wf(),
        ensures
            r is None <==> self.nodes@.len() == 0,
            r matches Some(id) ==> exists|i: int| #[trigger] self.is_best(i) && id@ == self.nodes@[i].id@,
    {
        match self.best_node_index() {
            None => None,
            Some(i) => {
                let id = self.nodes[i].id.clone();
                assert(self.is_best(i as int));
                Some(id)
            },
        }
    }
}

} // verus!
