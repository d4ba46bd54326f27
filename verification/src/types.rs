//! Plain value types shared by every part of the simulation.

use vstd::prelude::*;

verus! {

/// Identifier of an entity in the store.
pub type EntityId = usize;

/// Identifier of an object; the same thing as an [`EntityId`].
pub type ObjectId = usize;

/// Hit points, and amounts of damage.
pub type Hp = i32;

/// Short name for [`Position`].
pub type Pos = Position;

/// The momentum magnitude at which an entity can vault a wall.
pub const MAX_MOMENTUM: i32 = 2;

/// Absolute value of `v` as a mathematical integer.
pub open spec fn abs_int(v: int) -> int {
    if v < 0 {
        -v
    } else {
        v
    }
}

/// Sign of `v`: -1, 0 or 1.
pub open spec fn sign_int(v: int) -> int {
    if v < 0 {
        -1
    } else if v == 0 {
        0
    } else {
        1
    }
}

/// The larger of `a` and `b`.
pub open spec fn max_int(a: int, b: int) -> int {
    if a > b {
        a
    } else {
        b
    }
}

/// `v` limited to the interval from `lo` to `hi`.
pub open spec fn clamp_int(v: int, lo: int, hi: int) -> int {
    if v < lo {
        lo
    } else if v > hi {
        hi
    } else {
        v
    }
}

/// Absolute value of a machine integer other than the smallest one.
pub fn abs_i32(v: i32) -> (r: i32)
    requires
        v > i32::MIN,
    ensures
        r == abs_int(v as int),
{
    if v < 0 {
        -v
    } else {
        v
    }
}

/// Sign of a machine integer.
pub fn sign_i32(v: i32) -> (r: i32)
    ensures
        r == sign_int(v as int),
{
    if v < 0 {
        -1
    } else if v == 0 {
        0
    } else {
        1
    }
}

/// The product of a unit step `c` (-1, 0 or 1) and a distance `d`.
pub open spec fn scale_unit(c: int, d: int) -> int {
    if c == 0 {
        0
    } else if c > 0 {
        d
    } else {
        -d
    }
}

/// Whether `r` is the integer part of the square root of `n`.
pub open spec fn is_floor_sqrt(r: int, n: int) -> bool {
    0 <= r && r * r <= n && n < (r + 1) * (r + 1)
}

/// Integer part of the square root of `n`.
pub fn floor_sqrt(n: u32) -> (r: u32)
    ensures
        is_floor_sqrt(r as int, n as int),
        r <= 65535,
{
    let mut lo: u64 = 0;
    let mut hi: u64 = 65536;
    let target: u64 = n as u64;
    assert(65536 * 65536 > n as int);
    while hi - lo > 1
        invariant
            lo < hi <= 65536,
            lo * lo <= target,
            target < hi * hi,
            target == n,
        decreases hi - lo,
    {
        let mid: u64 = lo + (hi - lo) / 2;
        assert(mid * mid <= 65536 * 65536) by (nonlinear_arith)
            requires
                mid <= 65536,
        ;
        if mid * mid <= target {
            lo = mid;
        } else {
            hi = mid;
        }
    }
    lo as u32
}

/// A grid coordinate, or an offset between two grid coordinates.
#[derive(Clone, Copy, Debug, PartialEq, Eq, Structural)]
pub struct Position(pub i32, pub i32);

/// Squared Euclidean distance between two positions.
pub open spec fn dist_sq(a: Position, b: Position) -> int {
    (a.0 - b.0) * (a.0 - b.0) + (a.1 - b.1) * (a.1 - b.1)
}

impl Position {
    pub fn new(x: i32, y: i32) -> (p: Position)
        ensures
            p == Position(x, y),
    {
        Position(x, y)
    }

    pub fn from_pair(pair: (i32, i32)) -> (p: Position)
        ensures
            p == Position(pair.0, pair.1),
    {
        Position::new(pair.0, pair.1)
    }

    /// Euclidean distance to `other`, rounded down to a whole number.
    pub fn distance(&self, other: &Position) -> (d: i32)
        requires
            dist_sq(*self, *other) <= i32::MAX,
        ensures
            is_floor_sqrt(d as int, dist_sq(*self, *other)),
    {
        let dx: i64 = self.0 as i64 - other.0 as i64;
        let dy: i64 = self.1 as i64 - other.1 as i64;
        assert(dx * dx >= 0 && dy * dy >= 0) by (nonlinear_arith);
        assert(dx * dx <= i32::MAX && dy * dy <= i32::MAX);
        assert(-46341 < dx < 46341) by (nonlinear_arith)
            requires
                dx * dx <= i32::MAX,
        ;
        assert(-46341 < dy < 46341) by (nonlinear_arith)
            requires
                dy * dy <= i32::MAX,
        ;
        let sq: i64 = dx * dx + dy * dy;
        let r: u32 = floor_sqrt(sq as u32);
        assert(r < 46341) by (nonlinear_arith)
            requires
                r * r <= i32::MAX,
        ;
        r as i32
    }

    pub fn pair(&self) -> (p: (i32, i32))
        ensures
            p == (self.0, self.1),
    {
        (self.0, self.1)
    }

    /// The position moved by `dist_x` columns and `dist_y` rows.
    pub fn move_by(&self, dist_x: i32, dist_y: i32) -> (p: Position)
        requires
            i32::MIN <= self.0 + dist_x <= i32::MAX,
            i32::MIN <= self.1 + dist_y <= i32::MAX,
        ensures
            p == Position((self.0 + dist_x) as i32, (self.1 + dist_y) as i32),
    {
        Position(self.0 + dist_x, self.1 + dist_y)
    }

    pub fn move_x(&self, dist_x: i32) -> (p: Position)
        requires
            i32::MIN <= self.0 + dist_x <= i32::MAX,
        ensures
            p == Position((self.0 + dist_x) as i32, self.1),
    {
        Position(self.0 + dist_x, self.1)
    }

    pub fn move_y(&self, dist_y: i32) -> (p: Position)
        requires
            i32::MIN <= self.1 + dist_y <= i32::MAX,
        ensures
            p == Position(self.0, (self.1 + dist_y) as i32),
    {
        Position(self.0, self.1 + dist_y)
    }

    /// Component-wise sum of two positions.
    pub fn add(&self, other: Position) -> (p: Position)
        requires
            i32::MIN <= self.0 + other.0 <= i32::MAX,
            i32::MIN <= self.1 + other.1 <= i32::MAX,
        ensures
            p == Position((self.0 + other.0) as i32, (self.1 + other.1) as i32),
    {
        Position(self.0 + other.0, self.1 + other.1)
    }

    pub fn into_pair(&self) -> (p: (i32, i32))
        ensures
            p == (self.0, self.1),
    {
        (self.0, self.1)
    }
}

/// One of the eight compass directions.
#[derive(Clone, Copy, Debug, PartialEq, Eq, Structural)]
pub enum Direction {
    Left,
    Right,
    Up,
    Down,
    DownLeft,
    DownRight,
    UpLeft,
    UpRight,
}

impl Direction {
    /// The unit step of this direction; rows grow downwards.
    pub open spec fn delta(self) -> (int, int) {
        match self {
            Direction::Left => (-1, 0),
            Direction::Right => (1, 0),
            Direction::Up => (0, -1),
            Direction::Down => (0, 1),
            Direction::DownLeft => (-1, 1),
            Direction::DownRight => (1, 1),
            Direction::UpLeft => (-1, -1),
            Direction::UpRight => (1, -1),
        }
    }

    pub fn into_move(self) -> (m: (i32, i32))
        ensures
            (m.0 as int, m.1 as int) == self.delta(),
    {
        match self {
            Direction::Left => (-1, 0),
            Direction::Right => (1, 0),
            Direction::Up => (0, -1),
            Direction::Down => (0, 1),
            Direction::DownLeft => (-1, 1),
            Direction::DownRight => (1, 1),
            Direction::UpLeft => (-1, -1),
            Direction::UpRight => (1, -1),
        }
    }

    /// The direction whose unit step has the signs of `dx` and `dy`, if the
    /// offset is not zero.
    pub open spec fn of_delta(dx: int, dy: int) -> Option<Direction> {
        let sx = sign_int(dx);
        let sy = sign_int(dy);
        if sx == 0 && sy == 0 {
            None
        } else if sx < 0 && sy == 0 {
            Some(Direction::Left)
        } else if sx > 0 && sy == 0 {
            Some(Direction::Right)
        } else if sx == 0 && sy < 0 {
            Some(Direction::Up)
        } else if sx == 0 && sy > 0 {
            Some(Direction::Down)
        } else if sx < 0 && sy > 0 {
            Some(Direction::DownLeft)
        } else if sx > 0 && sy > 0 {
            Some(Direction::DownRight)
        } else if sx < 0 && sy < 0 {
            Some(Direction::UpLeft)
        } else {
            Some(Direction::UpRight)
        }
    }

    pub fn from_delta(dx: i32, dy: i32) -> (d: Option<Direction>)
        ensures
            d == Direction::of_delta(dx as int, dy as int),
            d matches Some(dir) ==> dir.delta() == (sign_int(dx as int), sign_int(dy as int)),
    {
        let sx: i32 = sign_i32(dx);
        let sy: i32 = sign_i32(dy);
        if sx == 0 && sy == 0 {
            None
        } else if sx < 0 && sy == 0 {
            Some(Direction::Left)
        } else if sx > 0 && sy == 0 {
            Some(Direction::Right)
        } else if sx == 0 && sy < 0 {
            Some(Direction::Up)
        } else if sx == 0 && sy > 0 {
            Some(Direction::Down)
        } else if sx < 0 && sy > 0 {
            Some(Direction::DownLeft)
        } else if sx > 0 && sy > 0 {
            Some(Direction::DownRight)
        } else if sx < 0 && sy < 0 {
            Some(Direction::UpLeft)
        } else {
            Some(Direction::UpRight)
        }
    }
}

/// An intended move: one of the eight directions, or staying in place.
#[derive(Clone, Copy, Debug, PartialEq, Eq, Structural)]
pub enum MoveAction {
    Left,
    Right,
    Up,
    Down,
    DownLeft,
    DownRight,
    UpLeft,
    UpRight,
    Center,
}

impl MoveAction {
    /// The unit step of this move; `Center` does not move.
    pub open spec fn delta(self) -> (int, int) {
        match self {
            MoveAction::Left => (-1, 0),
            MoveAction::Right => (1, 0),
            MoveAction::Up => (0, -1),
            MoveAction::Down => (0, 1),
            MoveAction::DownLeft => (-1, 1),
            MoveAction::DownRight => (1, 1),
            MoveAction::UpLeft => (-1, -1),
            MoveAction::UpRight => (1, -1),
            MoveAction::Center => (0, 0),
        }
    }

    /// Whether both components of the unit step are non-zero.
    pub open spec fn is_diagonal(self) -> bool {
        self.delta().0 != 0 && self.delta().1 != 0
    }

    /// Whether exactly one component of the unit step is non-zero.
    pub open spec fn is_orthogonal(self) -> bool {
        (self.delta().0 != 0) != (self.delta().1 != 0)
    }

    pub fn into_move(self) -> (m: (i32, i32))
        ensures
            (m.0 as int, m.1 as int) == self.delta(),
    {
        match self {
            MoveAction::Left => (-1, 0),
            MoveAction::Right => (1, 0),
            MoveAction::Up => (0, -1),
            MoveAction::Down => (0, 1),
            MoveAction::DownLeft => (-1, 1),
            MoveAction::DownRight => (1, 1),
            MoveAction::UpLeft => (-1, -1),
            MoveAction::UpRight => (1, -1),
            MoveAction::Center => (0, 0),
        }
    }

    /// The nine moves, in the order in which they are tried.
    pub open spec fn all() -> Seq<MoveAction> {
        seq![
            MoveAction::Left,
            MoveAction::Right,
            MoveAction::Up,
            MoveAction::Down,
            MoveAction::DownLeft,
            MoveAction::DownRight,
            MoveAction::UpLeft,
            MoveAction::UpRight,
            MoveAction::Center,
        ]
    }

    pub fn move_actions() -> (v: Vec<MoveAction>)
        ensures
            v@ == MoveAction::all(),
    {
        let mut v: Vec<MoveAction> = Vec::new();
        v.push(MoveAction::Left);
        v.push(MoveAction::Right);
        v.push(MoveAction::Up);
        v.push(MoveAction::Down);
        v.push(MoveAction::DownLeft);
        v.push(MoveAction::DownRight);
        v.push(MoveAction::UpLeft);
        v.push(MoveAction::UpRight);
        v.push(MoveAction::Center);
        assert(v@ =~= MoveAction::all());
        v
    }

    /// The move that goes in `dir`.
    pub fn from_direction(dir: Direction) -> (m: MoveAction)
        ensures
            m.delta() == dir.delta(),
            m != MoveAction::Center,
    {
        match dir {
            Direction::Left => MoveAction::Left,
            Direction::Right => MoveAction::Right,
            Direction::Up => MoveAction::Up,
            Direction::Down => MoveAction::Down,
            Direction::DownLeft => MoveAction::DownLeft,
            Direction::DownRight => MoveAction::DownRight,
            Direction::UpLeft => MoveAction::UpLeft,
            Direction::UpRight => MoveAction::UpRight,
        }
    }
}

/// How far, and along which directions, an entity reaches in one action.
#[derive(Clone, Copy, Debug, PartialEq, Eq, Structural)]
pub enum Reach {
    /// Any of the eight directions.
    Single(usize),
    /// Diagonal directions only.
    Diag(usize),
    /// Horizontal and vertical directions only.
    Horiz(usize),
}

impl Reach {
    /// The distance of the reach.
    pub open spec fn dist(self) -> int {
        match self {
            Reach::Single(d) => d as int,
            Reach::Diag(d) => d as int,
            Reach::Horiz(d) => d as int,
        }
    }

    /// A reach is usable when its distance fits a coordinate.
    pub open spec fn valid(self) -> bool {
        self.dist() <= i32::MAX
    }

    /// Whether the reach allows the move `m`.
    pub open spec fn allows(self, m: MoveAction) -> bool {
        match self {
            Reach::Single(_) => true,
            Reach::Diag(_) => m.is_diagonal(),
            Reach::Horiz(_) => m.is_orthogonal(),
        }
    }

    /// The offset that the move `m` covers with this reach, if the reach
    /// allows the move: the unit step of `m` times the distance.
    pub open spec fn offset_for(self, m: MoveAction) -> Option<Position> {
        if self.allows(m) {
            Some(
                Position(
                    scale_unit(m.delta().0, self.dist()) as i32,
                    scale_unit(m.delta().1, self.dist()) as i32,
                ),
            )
        } else {
            None
        }
    }

    /// Whether the distance of this reach fits a coordinate.
    pub fn is_valid(&self) -> (b: bool)
        ensures
            b == self.valid(),
    {
        let d: usize = match self {
            Reach::Single(d) => *d,
            Reach::Diag(d) => *d,
            Reach::Horiz(d) => *d,
        };
        d <= 0x7fff_ffff
    }

    pub fn move_with_reach(&self, move_action: &MoveAction) -> (r: Option<Position>)
        requires
            self.valid(),
        ensures
            r == self.offset_for(*move_action),
    {
        match self {
            Reach::Single(dist) => {
                let dist: i32 = (*dist) as i32;
                let neg_dist: i32 = dist * -1;
                match move_action {
                    MoveAction::Left => Some(Position::from_pair((neg_dist, 0))),
                    MoveAction::Right => Some(Position::from_pair((dist, 0))),
                    MoveAction::Up => Some(Position::from_pair((0, neg_dist))),
                    MoveAction::Down => Some(Position::from_pair((0, dist))),
                    MoveAction::DownLeft => Some(Position::from_pair((neg_dist, dist))),
                    MoveAction::DownRight => Some(Position::from_pair((dist, dist))),
                    MoveAction::UpLeft => Some(Position::from_pair((neg_dist, neg_dist))),
                    MoveAction::UpRight => Some(Position::from_pair((dist, neg_dist))),
                    MoveAction::Center => Some(Position::from_pair((0, 0))),
                }
            },
            Reach::Diag(dist) => {
                let dist: i32 = (*dist) as i32;
                let neg_dist: i32 = dist * -1;
                match move_action {
                    MoveAction::Left => None,
                    MoveAction::Right => None,
                    MoveAction::Up => None,
                    MoveAction::Down => None,
                    MoveAction::DownLeft => Some(Position::from_pair((neg_dist, dist))),
                    MoveAction::DownRight => Some(Position::from_pair((dist, dist))),
                    MoveAction::UpLeft => Some(Position::from_pair((neg_dist, neg_dist))),
                    MoveAction::UpRight => Some(Position::from_pair((dist, neg_dist))),
                    MoveAction::Center => None,
                }
            },
            Reach::Horiz(dist) => {
                let dist: i32 = (*dist) as i32;
                let neg_dist: i32 = dist * -1;
                match move_action {
                    MoveAction::Left => Some(Position::from_pair((neg_dist, 0))),
                    MoveAction::Right => Some(Position::from_pair((dist, 0))),
                    MoveAction::Up => Some(Position::from_pair((0, neg_dist))),
                    MoveAction::Down => Some(Position::from_pair((0, dist))),
                    MoveAction::DownLeft => None,
                    MoveAction::DownRight => None,
                    MoveAction::UpLeft => None,
                    MoveAction::UpRight => None,
                    MoveAction::Center => None,
                }
            },
        }
    }

    /// The number of directions that the reach allows.
    pub open spec fn dir_count(self) -> int {
        match self {
            Reach::Single(_) => 8,
            Reach::Horiz(_) => 4,
            Reach::Diag(_) => 4,
        }
    }

    /// The `j`-th direction that the reach allows, in the order in which
    /// its offsets are listed.
    pub open spec fn dir_at(self, j: int) -> (int, int) {
        match self {
            Reach::Single(_) => if j == 0 {
                (0, 1)
            } else if j == 1 {
                (-1, 1)
            } else if j == 2 {
                (-1, 0)
            } else if j == 3 {
                (-1, -1)
            } else if j == 4 {
                (0, -1)
            } else if j == 5 {
                (1, -1)
            } else if j == 6 {
                (1, 0)
            } else {
                (1, 1)
            },
            Reach::Horiz(_) => if j == 0 {
                (1, 0)
            } else if j == 1 {
                (0, 1)
            } else if j == 2 {
                (-1, 0)
            } else {
                (0, -1)
            },
            Reach::Diag(_) => if j == 0 {
                (1, 1)
            } else if j == 1 {
                (-1, 1)
            } else if j == 2 {
                (1, -1)
            } else {
                (-1, -1)
            },
        }
    }

    /// The `i`-th offset of the reach: offsets are listed by growing
    /// distance, and for one distance in the order of the directions.
    pub open spec fn offset_at(self, i: int) -> Position {
        let d = i / self.dir_count() + 1;
        let dir = self.dir_at(i % self.dir_count());
        Position(scale_unit(dir.0, d) as i32, scale_unit(dir.1, d) as i32)
    }

    /// The offsets of the reach up to the distance `n`: for each distance
    /// from 1 to `n`, one offset for each allowed direction.
    pub open spec fn offsets_upto(self, n: int) -> Seq<Position> {
        Seq::new((n * self.dir_count()) as nat, |i: int| self.offset_at(i))
    }

    /// Every offset within the reach.
    pub fn offsets(&self) -> (v: Vec<Position>)
        requires
            self.valid(),
        ensures
            v@ == self.offsets_upto(self.dist()),
    {
        let mut offsets: Vec<Position> = Vec::new();
        match self {
            Reach::Single(dist) => {
                let dist: i32 = (*dist) as i32;
                let mut n: i32 = 0;
                while n < dist
                    invariant
                        0 <= n <= dist,
                        self is Single,
                        offsets@ =~= self.offsets_upto(n as int),
                    decreases dist - n,
                {
                    let d: i32 = n + 1;
                    let ghost before = offsets@;
                    offsets.push(Position(0, d));
                    offsets.push(Position(-d, d));
                    offsets.push(Position(-d, 0));
                    offsets.push(Position(-d, -d));
                    offsets.push(Position(0, -d));
                    offsets.push(Position(d, -d));
                    offsets.push(Position(d, 0));
                    offsets.push(Position(d, d));
                    proof {
                        assert(before.len() == 8 * n);
                        assert forall|i: int| 0 <= i < 8 * n + 8 implies offsets@[i]
                            == self.offset_at(i) by {
                            if i < 8 * n {
                                assert(offsets@[i] == before[i]);
                            } else {
                                assert(i / 8 == n as int);
                                assert(i % 8 == i - 8 * n);
                            }
                        }
                    }
                    n = d;
                }
            },
            Reach::Horiz(dist) => {
                let dist: i32 = (*dist) as i32;
                let mut n: i32 = 0;
                while n < dist
                    invariant
                        0 <= n <= dist,
                        self is Horiz,
                        offsets@ =~= self.offsets_upto(n as int),
                    decreases dist - n,
                {
                    let d: i32 = n + 1;
                    let ghost before = offsets@;
                    offsets.push(Position(d, 0));
                    offsets.push(Position(0, d));
                    offsets.push(Position(-d, 0));
                    offsets.push(Position(0, -d));
                    proof {
                        assert(before.len() == 4 * n);
                        assert forall|i: int| 0 <= i < 4 * n + 4 implies offsets@[i]
                            == self.offset_at(i) by {
                            if i < 4 * n {
                                assert(offsets@[i] == before[i]);
                            } else {
                                assert(i / 4 == n as int);
                                assert(i % 4 == i - 4 * n);
                            }
                        }
                    }
                    n = d;
                }
            },
            Reach::Diag(dist) => {
                let dist: i32 = (*dist) as i32;
                let mut n: i32 = 0;
                while n < dist
                    invariant
                        0 <= n <= dist,
                        self is Diag,
                        offsets@ =~= self.offsets_upto(n as int),
                    decreases dist - n,
                {
                    let d: i32 = n + 1;
                    let ghost before = offsets@;
                    offsets.push(Position(d, d));
                    offsets.push(Position(-d, d));
                    offsets.push(Position(d, -d));
                    offsets.push(Position(-d, -d));
                    proof {
                        assert(before.len() == 4 * n);
                        assert forall|i: int| 0 <= i < 4 * n + 4 implies offsets@[i]
                            == self.offset_at(i) by {
                            if i < 4 * n {
                                assert(offsets@[i] == before[i]);
                            } else {
                                assert(i / 4 == n as int);
                                assert(i % 4 == i - 4 * n);
                            }
                        }
                    }
                    n = d;
                }
            },
        }
        offsets
    }
}

} // verus!
