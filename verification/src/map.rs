//! The grid of tiles on which the game is played.

use crate::lines::{line_between, line_len, line_point, line_points};
use crate::types::{Pos, Position};
use vstd::prelude::*;

verus! {

/// The width of the standard map.
pub const MAP_WIDTH: usize = 80;

/// The height of the standard map.
pub const MAP_HEIGHT: usize = 50;

/// What a tile is made of.
#[derive(Clone, Copy, Debug, PartialEq, Eq, Structural)]
pub enum TileType {
    Empty,
    ShortWall,
    Wall,
    Water,
    Exit,
}

/// What lies on the floor of a tile.
#[derive(Clone, Copy, Debug, PartialEq, Eq, Structural)]
pub enum Surface {
    Floor,
    Rubble,
    Grass,
}

/// A wall along one side of a tile.
#[derive(Clone, Copy, Debug, PartialEq, Eq, Structural)]
pub enum Wall {
    Empty,
    ShortWall,
    TallWall,
}

/// One tile of the map. Its walls run along its bottom and its left side.
#[derive(Clone, Copy, Debug, PartialEq, Eq, Structural)]
pub struct Tile {
    pub tile_type: TileType,
    pub block_move: bool,
    pub block_sight: bool,
    pub surface: Surface,
    pub bottom_wall: Wall,
    pub left_wall: Wall,
}

impl Tile {
    /// The value of a free floor tile.
    pub open spec fn empty_spec() -> Tile {
        Tile {
            tile_type: TileType::Empty,
            block_move: false,
            block_sight: false,
            surface: Surface::Floor,
            bottom_wall: Wall::Empty,
            left_wall: Wall::Empty,
        }
    }

    /// A free floor tile.
    #[verifier::when_used_as_spec(empty_spec)]
    pub fn empty() -> (t: Tile)
        ensures
            t == Tile::empty_spec(),
    {
        Tile {
            tile_type: TileType::Empty,
            block_move: false,
            block_sight: false,
            surface: Surface::Floor,
            bottom_wall: Wall::Empty,
            left_wall: Wall::Empty,
        }
    }

    /// A tile of solid wall, which blocks movement and sight.
    pub fn wall() -> (t: Tile)
        ensures
            t == (Tile {
                tile_type: TileType::Wall,
                block_move: true,
                block_sight: true,
                ..Tile::empty_spec()
            }),
    {
        Tile {
            tile_type: TileType::Wall,
            block_move: true,
            block_sight: true,
            surface: Surface::Floor,
            bottom_wall: Wall::Empty,
            left_wall: Wall::Empty,
        }
    }

    /// A tile of water, which blocks movement.
    pub fn water() -> (t: Tile)
        ensures
            t == (Tile { tile_type: TileType::Water, block_move: true, ..Tile::empty_spec() }),
    {
        Tile {
            tile_type: TileType::Water,
            block_move: true,
            block_sight: false,
            surface: Surface::Floor,
            bottom_wall: Wall::Empty,
            left_wall: Wall::Empty,
        }
    }

    /// The tile of the exit.
    pub fn exit() -> (t: Tile)
        ensures
            t == (Tile { tile_type: TileType::Exit, ..Tile::empty_spec() }),
    {
        Tile {
            tile_type: TileType::Exit,
            block_move: false,
            block_sight: false,
            surface: Surface::Floor,
            bottom_wall: Wall::Empty,
            left_wall: Wall::Empty,
        }
    }
}

/// A rectangular grid of tiles, stored column by column.
#[derive(Clone, Debug)]
pub struct TileMap {
    pub width: i32,
    pub height: i32,
    pub tiles: Vec<Vec<Tile>>,
}

/// The mathematical value of a [`TileMap`]: its size, and the tile at each
/// position within it.
pub struct MapView {
    pub width: int,
    pub height: int,
    pub tiles: Map<Position, Tile>,
}

impl MapView {
    /// Whether the position lies on the map.
    pub open spec fn in_bounds(self, p: Position) -> bool {
        0 <= p.0 < self.width && 0 <= p.1 < self.height
    }

    /// The tile at a position on the map.
    pub open spec fn tile(self, p: Position) -> Tile {
        self.tiles[p]
    }

    /// The map with the tile at `p` replaced.
    pub open spec fn with_tile(self, p: Position, t: Tile) -> MapView {
        MapView { tiles: self.tiles.insert(p, t), ..self }
    }

    /// Whether a wall stands on the side of the tile `p` that faces the
    /// step `(sx, sy)`. A tile holds the walls on its bottom and its left,
    /// so the wall on the right of a tile belongs to the tile to its
    /// right, and the wall on its top to the tile above. For a diagonal
    /// step a wall on either side counts.
    pub open spec fn wall_facing(self, p: Position, sx: int, sy: int) -> bool {
        let right = Position((p.0 + 1) as i32, p.1);
        let above = Position(p.0, (p.1 - 1) as i32);
        ||| sx > 0 && p.0 < i32::MAX && self.in_bounds(right) && self.tile(right).left_wall
            != Wall::Empty
        ||| sx < 0 && self.in_bounds(p) && self.tile(p).left_wall != Wall::Empty
        ||| sy > 0 && self.in_bounds(p) && self.tile(p).bottom_wall != Wall::Empty
        ||| sy < 0 && p.1 > i32::MIN && self.in_bounds(above) && self.tile(above).bottom_wall
            != Wall::Empty
    }

    /// The map without the wall that a step to the left or to the right
    /// from the tile `p` crosses.
    pub open spec fn cleared_across(self, p: Position, sx: int) -> MapView {
        let right = Position((p.0 + 1) as i32, p.1);
        if sx > 0 && p.0 < i32::MAX && self.in_bounds(right) {
            self.with_tile(right, Tile { left_wall: Wall::Empty, ..self.tile(right) })
        } else if sx < 0 && self.in_bounds(p) {
            self.with_tile(p, Tile { left_wall: Wall::Empty, ..self.tile(p) })
        } else {
            self
        }
    }

    /// The map without the wall that a step up or down from the tile `p`
    /// crosses.
    pub open spec fn cleared_along(self, p: Position, sy: int) -> MapView {
        let above = Position(p.0, (p.1 - 1) as i32);
        if sy > 0 && self.in_bounds(p) {
            self.with_tile(p, Tile { bottom_wall: Wall::Empty, ..self.tile(p) })
        } else if sy < 0 && p.1 > i32::MIN && self.in_bounds(above) {
            self.with_tile(above, Tile { bottom_wall: Wall::Empty, ..self.tile(above) })
        } else {
            self
        }
    }

    /// The map without the walls on the side of the tile `p` that faces the
    /// step `(sx, sy)`.
    pub open spec fn walls_cleared(self, p: Position, sx: int, sy: int) -> MapView {
        self.cleared_across(p, sx).cleared_along(p, sy)
    }

    /// Whether the tile at `p` lets nothing pass: it lies off the map or
    /// blocks movement.
    pub open spec fn tile_blocked(self, p: Position) -> bool {
        !self.in_bounds(p) || self.tile(p).block_move
    }

    /// Whether the tiles `k` and later of the line from `from` to `to`,
    /// but for the last, all lie on the map and let sight pass.
    pub open spec fn sight_clear_from(self, from: Position, to: Position, k: int) -> bool
        decreases line_len(to.0 - from.0, to.1 - from.1) - k,
    {
        if k >= line_len(to.0 - from.0, to.1 - from.1) {
            true
        } else {
            let p = line_point(from, to, k);
            self.in_bounds(p) && !self.tile(p).block_sight && self.sight_clear_from(
                from,
                to,
                k + 1,
            )
        }
    }

    /// Whether `to` can be seen from `from`: both lie on the map, and no
    /// tile strictly between them on the line from `from` to `to` blocks
    /// sight.
    pub open spec fn visible(self, from: Position, to: Position) -> bool {
        self.in_bounds(from) && self.in_bounds(to) && self.sight_clear_from(from, to, 1)
    }
}

impl View for TileMap {
    type V = MapView;

    open spec fn view(&self) -> MapView {
        MapView {
            width: self.width as int,
            height: self.height as int,
            tiles: Map::new(
                |p: Position| 0 <= p.0 < self.width && 0 <= p.1 < self.height,
                |p: Position| self.tiles@[p.0 as int]@[p.1 as int],
            ),
        }
    }
}

impl TileMap {
    /// The map holds one column for each unit of its width, and each
    /// column one tile for each unit of its height.
    pub open spec fn wf(&self) -> bool {
        &&& 0 <= self.width
        &&& 0 <= self.height
        &&& self.tiles@.len() == self.width
        &&& forall|x: int| 0 <= x < self.width ==> (#[trigger] self.tiles@[x])@.len() == self.height
    }

    /// Whether the map is well formed.
    pub fn is_wf(&self) -> (b: bool)
        ensures
            b == self.wf(),
    {
        if self.width < 0 || self.height < 0 || self.tiles.len() != self.width as usize {
            return false;
        }
        let mut x: usize = 0;
        while x < self.tiles.len()
            invariant
                0 <= x <= self.tiles@.len(),
                0 <= self.height,
                0 <= self.width,
                self.tiles@.len() == self.width,
                forall|i: int| 0 <= i < x ==> (#[trigger] self.tiles@[i])@.len() == self.height,
            decreases self.tiles@.len() - x,
        {
            if self.tiles[x].len() != self.height as usize {
                return false;
            }
            x = x + 1;
        }
        true
    }

    /// The map without any tile.
    pub fn empty() -> (m: TileMap)
        ensures
            m.wf(),
            m@.width == 0,
            m@.height == 0,
    {
        TileMap { width: 0, height: 0, tiles: Vec::new() }
    }

    /// A map of the given size, all of free floor.
    pub fn from_dims(width: usize, height: usize) -> (m: TileMap)
        requires
            width <= i32::MAX,
            height <= i32::MAX,
        ensures
            m.wf(),
            m@.width == width,
            m@.height == height,
            forall|p: Position| m@.in_bounds(p) ==> #[trigger] m@.tile(p) == Tile::empty_spec(),
    {
        let mut tiles: Vec<Vec<Tile>> = Vec::new();
        let mut x: usize = 0;
        while x < width
            invariant
                0 <= x <= width,
                tiles@.len() == x,
                forall|i: int| 0 <= i < x ==> (#[trigger] tiles@[i])@.len() == height,
                forall|i: int, j: int|
                    0 <= i < x && 0 <= j < height ==> (#[trigger] tiles@[i]@[j])
                        == Tile::empty_spec(),
            decreases width - x,
        {
            let mut column: Vec<Tile> = Vec::new();
            let mut y: usize = 0;
            while y < height
                invariant
                    0 <= y <= height,
                    column@.len() == y,
                    forall|j: int| 0 <= j < y ==> (#[trigger] column@[j]) == Tile::empty_spec(),
                decreases height - y,
            {
                column.push(Tile::empty());
                y = y + 1;
            }
            tiles.push(column);
            x = x + 1;
        }
        TileMap { width: width as i32, height: height as i32, tiles: tiles }
    }

    pub fn width(&self) -> (w: i32)
        ensures
            w == self@.width,
    {
        self.width
    }

    pub fn height(&self) -> (h: i32)
        ensures
            h == self@.height,
    {
        self.height
    }

    /// Whether the tile `(x, y)` lies on the map.
    pub fn is_within_bounds(&self, x: i32, y: i32) -> (b: bool)
        ensures
            b == self@.in_bounds(Position(x, y)),
    {
        0 <= x && x < self.width && 0 <= y && y < self.height
    }

    /// The tile at `pos`.
    pub fn tile(&self, pos: Pos) -> (t: Tile)
        requires
            self.wf(),
            self@.in_bounds(pos),
        ensures
            t == self@.tile(pos),
    {
        self.tiles[pos.0 as usize][pos.1 as usize]
    }

    /// The tile at `pos`, if `pos` lies on the map.
    pub fn get(&self, pos: Pos) -> (t: Option<Tile>)
        requires
            self.wf(),
        ensures
            t == if self@.in_bounds(pos) {
                Some(self@.tile(pos))
            } else {
                None
            },
    {
        if self.is_within_bounds(pos.0, pos.1) {
            Some(self.tile(pos))
        } else {
            None
        }
    }

    /// Replaces the tile at `pos`.
    pub fn set_tile(&mut self, pos: Pos, tile: Tile)
        requires
            old(self).wf(),
            old(self)@.in_bounds(pos),
        ensures
            final(self).wf(),
            final(self)@ == old(self)@.with_tile(pos, tile),
    {
        let mut column: Vec<Tile> = Vec::new();
        self.tiles.set_and_swap(pos.0 as usize, &mut column);
        column.set(pos.1 as usize, tile);
        self.tiles.set(pos.0 as usize, column);
        proof {
            assert(self@.tiles =~= old(self)@.tiles.insert(pos, tile));
        }
    }

    /// Whether the tile at `pos` lets nothing pass.
    pub fn is_tile_blocked(&self, pos: Pos) -> (b: bool)
        requires
            self.wf(),
        ensures
            b == self@.tile_blocked(pos),
    {
        match self.get(pos) {
            Some(tile) => tile.block_move,
            None => true,
        }
    }

    /// Whether a wall stands on the side of the tile `(x, y)` that faces
    /// the direction `(dx, dy)`.
    pub fn is_blocked_by_wall(&self, x: i32, y: i32, dx: i32, dy: i32) -> (b: bool)
        requires
            self.wf(),
        ensures
            b == self@.wall_facing(Position(x, y), dx as int, dy as int),
    {
        let mut blocked: bool = false;
        if dx > 0 {
            if x < i32::MAX && self.is_within_bounds(x + 1, y) {
                blocked = self.tile(Position(x + 1, y)).left_wall != Wall::Empty;
            }
        } else if dx < 0 {
            if self.is_within_bounds(x, y) {
                blocked = self.tile(Position(x, y)).left_wall != Wall::Empty;
            }
        }
        if dy > 0 {
            if self.is_within_bounds(x, y) {
                blocked = blocked || self.tile(Position(x, y)).bottom_wall != Wall::Empty;
            }
        } else if dy < 0 {
            if y > i32::MIN && self.is_within_bounds(x, y - 1) {
                blocked = blocked || self.tile(Position(x, y - 1)).bottom_wall != Wall::Empty;
            }
        }
        blocked
    }

    fn clear_across(&mut self, x: i32, y: i32, dx: i32)
        requires
            old(self).wf(),
        ensures
            final(self).wf(),
            final(self)@ == old(self)@.cleared_across(Position(x, y), dx as int),
    {
        if dx > 0 {
            if x < i32::MAX && self.is_within_bounds(x + 1, y) {
                let t: Tile = self.tile(Position(x + 1, y));
                self.set_tile(Position(x + 1, y), Tile { left_wall: Wall::Empty, ..t });
            }
        } else if dx < 0 {
            if self.is_within_bounds(x, y) {
                let t: Tile = self.tile(Position(x, y));
                self.set_tile(Position(x, y), Tile { left_wall: Wall::Empty, ..t });
            }
        }
    }

    fn clear_along(&mut self, x: i32, y: i32, dy: i32)
        requires
            old(self).wf(),
        ensures
            final(self).wf(),
            final(self)@ == old(self)@.cleared_along(Position(x, y), dy as int),
    {
        if dy > 0 {
            if self.is_within_bounds(x, y) {
                let t: Tile = self.tile(Position(x, y));
                self.set_tile(Position(x, y), Tile { bottom_wall: Wall::Empty, ..t });
            }
        } else if dy < 0 {
            if y > i32::MIN && self.is_within_bounds(x, y - 1) {
                let t: Tile = self.tile(Position(x, y - 1));
                self.set_tile(Position(x, y - 1), Tile { bottom_wall: Wall::Empty, ..t });
            }
        }
    }

    /// Takes away the walls on the side of the tile `(x, y)` that faces
    /// the direction `(dx, dy)`.
    pub fn clear_walls_facing(&mut self, x: i32, y: i32, dx: i32, dy: i32)
        requires
            old(self).wf(),
        ensures
            final(self).wf(),
            final(self)@ == old(self)@.walls_cleared(Position(x, y), dx as int, dy as int),
    {
        self.clear_across(x, y, dx);
        self.clear_along(x, y, dy);
    }

    /// Whether `to` can be seen from `from`.
    pub fn is_visible(&self, from: Pos, to: Pos) -> (b: bool)
        requires
            self.wf(),
        ensures
            b == self@.visible(from, to),
    {
        if !self.is_within_bounds(from.0, from.1) || !self.is_within_bounds(to.0, to.1) {
            return false;
        }
        let points: Vec<Position> = line_between(from, to);
        let last: usize = if points.len() > 0 {
            points.len() - 1
        } else {
            0
        };
        let mut i: usize = 0;
        while i < last
            invariant
                self.wf(),
                points@ == line_points(from, to),
                0 <= i <= last,
                last == if points@.len() > 0 {
                    points@.len() - 1
                } else {
                    0
                },
                self@.sight_clear_from(from, to, 1) == self@.sight_clear_from(
                    from,
                    to,
                    i as int + 1,
                ),
            decreases last - i,
        {
            let p: Position = points[i];
            assert(p == line_point(from, to, i as int + 1));
            match self.get(p) {
                Some(tile) => {
                    if tile.block_sight {
                        return false;
                    }
                },
                None => {
                    return false;
                },
            }
            i = i + 1;
        }
        true
    }
}

} // verus!
