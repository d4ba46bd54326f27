//! The planner of the entities that act on their own.
//!
//! An entity is idle until it sees its enemy or hears a sound. It goes to
//! look where it heard a sound, attacks the enemy that it sees, and goes
//! back to being idle when it comes to where it was heading and finds
//! nothing.

use crate::data::{DataView, GameData};
use crate::hammer::{is_within_radius, within_radius};
use crate::messaging::Msg;
use crate::momentum::Movement;
use crate::movement::{calculate_move, movement_plan};
use crate::object::{AiAction, Behavior, EntityName};
use crate::settings::{Config, Stats};
use crate::store::lookup;
use crate::types::{abs_int, dist_sq, EntityId, MoveAction, Position, Reach};
use vstd::prelude::*;

verus! {

/// The combat and sense values of an entity with the name `name`.
pub open spec fn stats_for(config: Config, name: Option<EntityName>) -> Stats {
    match name {
        Some(EntityName::Gol) => config.gol,
        Some(EntityName::Pawn) => config.pawn,
        _ => config.player,
    }
}

pub fn stats_of(config: &Config, name: Option<EntityName>) -> (s: Stats)
    ensures
        s == stats_for(*config, name),
{
    match name {
        Some(EntityName::Gol) => config.gol,
        Some(EntityName::Pawn) => config.pawn,
        _ => config.player,
    }
}

/// Whether an entity at `from` sees the tile `to`: it lies within the
/// radius, and nothing between blocks the sight.
pub open spec fn sees(d: DataView, from: Position, to: Position, radius: usize) -> bool {
    within_radius(to, from, radius) && d.map.visible(from, to)
}

/// Where the entity `t` stands, if it is alive.
pub open spec fn alive_at(d: DataView, t: EntityId) -> Option<Position> {
    match lookup(d.entities.status, t as int) {
        Some(s) => if s.alive {
            lookup(d.entities.pos, t as int)
        } else {
            None
        },
        None => None,
    }
}

/// The enemy that the entity `id` at `at` sees: the player, alive and in
/// sight.
pub open spec fn visible_enemy(d: DataView, id: EntityId, at: Position, radius: usize) -> Option<
    EntityId,
> {
    match d.entities.find_by_name(EntityName::Player) {
        Some(p) => if p != id && alive_at(d, p) is Some && sees(
            d,
            at,
            alive_at(d, p)->0,
            radius,
        ) {
            Some(p)
        } else {
            None
        },
        None => None,
    }
}

/// Where the first sound from place `i` on among `msgs` came from that
/// was made within the radius `radius` of `at`.
pub open spec fn heard_from(msgs: Seq<Msg>, at: Position, radius: usize, i: int) -> Option<
    Position,
>
    decreases msgs.len() - i,
{
    if i < 0 || i >= msgs.len() {
        None
    } else if msgs[i] matches Msg::Sound(_, p, _, _) && within_radius(p, at, radius) {
        Some(msgs[i]->Sound_1)
    } else {
        heard_from(msgs, at, radius, i + 1)
    }
}

/// Where the entity `id` at `at` heard a sound.
pub open spec fn heard(d: DataView, id: EntityId, at: Position, radius: usize) -> Option<Position> {
    match lookup(d.entities.messages, id as int) {
        Some(msgs) => heard_from(msgs, at, radius, 0),
        None => None,
    }
}

impl Reach {
    /// Whether the reach covers the offset `(dx, dy)`: the offset is not
    /// zero, no longer than the reach, and lies in one of its directions.
    pub open spec fn covers(self, dx: int, dy: int) -> bool {
        let straight = (dx == 0) != (dy == 0);
        let diagonal = dx != 0 && abs_int(dx) == abs_int(dy);
        &&& abs_int(dx) <= self.dist() && abs_int(dy) <= self.dist()
        &&& match self {
            Reach::Single(_) => straight || diagonal,
            Reach::Horiz(_) => straight,
            Reach::Diag(_) => diagonal,
        }
    }

    /// Whether the reach covers the offset from `from` to `to`.
    pub fn covers_offset(&self, from: Position, to: Position) -> (b: bool)
        ensures
            b == self.covers(to.0 - from.0, to.1 - from.1),
    {
        let dx: i64 = to.0 as i64 - from.0 as i64;
        let dy: i64 = to.1 as i64 - from.1 as i64;
        let ax: i64 = if dx < 0 {
            -dx
        } else {
            dx
        };
        let ay: i64 = if dy < 0 {
            -dy
        } else {
            dy
        };
        let dist: usize = match self {
            Reach::Single(d) => *d,
            Reach::Horiz(d) => *d,
            Reach::Diag(d) => *d,
        };
        let within: bool = dist as u128 >= 0x1_0000_0000 || (ax <= dist as i64 && ay <= dist as i64);
        let straight: bool = (dx == 0) != (dy == 0);
        let diagonal: bool = dx != 0 && ax == ay;
        within && match self {
            Reach::Single(_) => straight || diagonal,
            Reach::Horiz(_) => straight,
            Reach::Diag(_) => diagonal,
        }
    }
}

/// The place among the directions of the reach of the direction with the
/// signs of `(dx, dy)`.
pub open spec fn dir_index(reach: Reach, dx: int, dy: int) -> int {
    match reach {
        Reach::Single(_) => if dx == 0 && dy > 0 {
            0
        } else if dx < 0 && dy > 0 {
            1
        } else if dx < 0 && dy == 0 {
            2
        } else if dx < 0 && dy < 0 {
            3
        } else if dx == 0 && dy < 0 {
            4
        } else if dx > 0 && dy < 0 {
            5
        } else if dx > 0 && dy == 0 {
            6
        } else {
            7
        },
        Reach::Horiz(_) => if dx > 0 {
            0
        } else if dy > 0 {
            1
        } else if dx < 0 {
            2
        } else {
            3
        },
        Reach::Diag(_) => if dx > 0 && dy > 0 {
            0
        } else if dx < 0 && dy > 0 {
            1
        } else if dx > 0 && dy < 0 {
            2
        } else {
            3
        },
    }
}

/// The place of the offset `(dx, dy)` among the offsets of the reach.
pub open spec fn offset_index(reach: Reach, dx: int, dy: int) -> int {
    let far = if abs_int(dx) > abs_int(dy) {
        abs_int(dx)
    } else {
        abs_int(dy)
    };
    (far - 1) * reach.dir_count() + dir_index(reach, dx, dy)
}

/// The offsets of a reach are the offsets that it covers: every offset
/// that it covers is one of its offsets, and it covers each of them.
pub proof fn offsets_are_what_is_covered(reach: Reach, dx: int, dy: int, i: int)
    requires
        reach.valid(),
    ensures
        reach.covers(dx, dy) ==> {
            &&& 0 <= offset_index(reach, dx, dy) < reach.dist() * reach.dir_count()
            &&& reach.offset_at(offset_index(reach, dx, dy)) == Position(dx as i32, dy as i32)
        },
        0 <= i < reach.dist() * reach.dir_count() ==> reach.covers(
            reach.offset_at(i).0 as int,
            reach.offset_at(i).1 as int,
        ),
{
    let c = reach.dir_count();
    if reach.covers(dx, dy) {
        let far = if abs_int(dx) > abs_int(dy) {
            abs_int(dx)
        } else {
            abs_int(dy)
        };
        let j = dir_index(reach, dx, dy);
        let at = offset_index(reach, dx, dy);
        assert(1 <= far <= reach.dist());
        assert(0 <= j < c);
        if c == 8 {
            assert(at == (far - 1) * 8 + j);
            assert(at / 8 == far - 1);
            assert(at % 8 == j);
            assert(at < reach.dist() * 8);
        } else {
            assert(at == (far - 1) * 4 + j);
            assert(at / 4 == far - 1);
            assert(at % 4 == j);
            assert(at < reach.dist() * 4);
        }
    }
    if 0 <= i < reach.dist() * c {
        if c == 8 {
            assert(0 <= i / 8 < reach.dist());
            assert(0 <= i % 8 < 8);
        } else {
            assert(0 <= i / 4 < reach.dist());
            assert(0 <= i % 4 < 4);
        }
    }
}

/// Where the move `m` takes the entity `id`, if it takes it anywhere
/// else than where it stands.
pub open spec fn step_toward(d: DataView, id: EntityId, reach: Reach, m: MoveAction, at: Position)
    -> Option<Position> {
    match movement_plan(d, id, m, reach) {
        Some(Movement::Move(x, y)) => if Position(x, y) != at {
            Some(Position(x, y))
        } else {
            None
        },
        _ => None,
    }
}

/// The best of the first `k` moves towards `goal`: the least squared
/// distance to `goal` that one of them reaches, and the moves that reach
/// it, in the order of the moves.
pub open spec fn approach_upto(
    d: DataView,
    id: EntityId,
    reach: Reach,
    at: Position,
    goal: Position,
    k: int,
) -> (Option<int>, Seq<AiAction>)
    decreases k,
{
    if k <= 0 {
        (None, Seq::empty())
    } else {
        let (best, ties) = approach_upto(d, id, reach, at, goal, k - 1);
        let m = MoveAction::all()[k - 1];
        match step_toward(d, id, reach, m, at) {
            None => (best, ties),
            Some(land) => {
                let dist = dist_sq(land, goal);
                let delta = reach.offset_for(m)->0;
                let act = AiAction::Move((delta.0, delta.1));
                if best is None || dist < best->0 {
                    (Some(dist), seq![act])
                } else if dist == best->0 {
                    (best, ties.push(act))
                } else {
                    (best, ties)
                }
            },
        }
    }
}

/// Standing still.
pub open spec fn stay() -> AiAction {
    AiAction::Move((0i32, 0i32))
}

/// The moves that bring the entity `id` nearest to `goal`; standing
/// still if it cannot move.
pub open spec fn approach(d: DataView, id: EntityId, at: Position, goal: Position) -> Seq<AiAction> {
    match lookup(d.entities.movement, id as int) {
        Some(reach) => if reach.valid() {
            let ties = approach_upto(d, id, reach, at, goal, 8).1;
            if ties.len() == 0 {
                seq![stay()]
            } else {
                ties
            }
        } else {
            seq![stay()]
        },
        None => seq![stay()],
    }
}

/// What the entity `id` does about a target that it attacks. A target
/// that is gone or dead is given up; one out of sight is looked for where
/// it is; one within reach is struck; any other is approached.
pub open spec fn pursue(d: DataView, id: EntityId, at: Position, target: EntityId, sight: usize)
    -> Seq<AiAction> {
    match alive_at(d, target) {
        None => match lookup(d.entities.pos, target as int) {
            Some(q) => seq![AiAction::StateChange(Behavior::Investigating(q))],
            None => seq![AiAction::StateChange(Behavior::Idle)],
        },
        Some(q) => if !sees(d, at, q, sight) {
            seq![AiAction::StateChange(Behavior::Investigating(q))]
        } else if lookup(d.entities.attack, id as int) matches Some(r) && r.covers(
            q.0 - at.0,
            q.1 - at.1,
        ) {
            seq![AiAction::Attack(target, (q.0, q.1))]
        } else {
            approach(d, id, at, q)
        },
    }
}

/// The actions among which the entity `id` chooses: all of them are
/// equally good, and there is more than one only where several moves
/// bring it equally near to where it is heading.
pub open spec fn ai_options(d: DataView, config: Config, id: EntityId) -> Seq<AiAction> {
    match lookup(d.entities.pos, id as int) {
        None => seq![stay()],
        Some(at) => {
            let stats = stats_for(config, lookup(d.entities.name, id as int));
            let enemy = visible_enemy(d, id, at, stats.sight_radius);
            match lookup(d.entities.behavior, id as int) {
                Some(Behavior::Attacking(target)) => pursue(d, id, at, target, stats.sight_radius),
                Some(Behavior::Investigating(p)) => match enemy {
                    Some(e) => seq![AiAction::StateChange(Behavior::Attacking(e))],
                    None => if at == p {
                        seq![AiAction::StateChange(Behavior::Idle)]
                    } else {
                        approach(d, id, at, p)
                    },
                },
                _ => match enemy {
                    Some(e) => seq![AiAction::StateChange(Behavior::Attacking(e))],
                    None => match heard(d, id, at, stats.hearing_radius) {
                        Some(p) => seq![AiAction::StateChange(Behavior::Investigating(p))],
                        None => seq![stay()],
                    },
                },
            }
        },
    }
}

/// The action that the entity `id` takes when the roll is `roll`: the
/// roll picks one of its options.
pub open spec fn ai_choice(d: DataView, config: Config, id: EntityId, roll: usize) -> AiAction {
    let options = ai_options(d, config, id);
    if options.len() == 0 {
        stay()
    } else {
        options[(roll as int) % (options.len() as int)]
    }
}

/// The squared Euclidean distance between two positions.
pub fn dist_sq_of(a: Position, b: Position) -> (r: u128)
    ensures
        r == dist_sq(a, b),
{
    let dx: i64 = a.0 as i64 - b.0 as i64;
    let dy: i64 = a.1 as i64 - b.1 as i64;
    assert(0 <= dx * dx <= 0x1_0000_0000 * 0x1_0000_0000) by (nonlinear_arith)
        requires
            -0x1_0000_0000 <= dx <= 0x1_0000_0000,
    ;
    assert(0 <= dy * dy <= 0x1_0000_0000 * 0x1_0000_0000) by (nonlinear_arith)
        requires
            -0x1_0000_0000 <= dy <= 0x1_0000_0000,
    ;
    (dx as i128 * dx as i128) as u128 + (dy as i128 * dy as i128) as u128
}

fn can_see(data: &GameData, from: Position, to: Position, radius: usize) -> (b: bool)
    requires
        data.wf(),
    ensures
        b == sees(data@, from, to, radius),
{
    is_within_radius(to, from, radius) && data.map.is_visible(from, to)
}

fn alive_position(data: &GameData, t: EntityId) -> (r: Option<Position>)
    ensures
        r == alive_at(data@, t),
{
    match data.entities.status.get(t) {
        Some(s) => if s.alive {
            data.entities.pos.get(t)
        } else {
            None
        },
        None => None,
    }
}

fn find_visible_enemy(data: &GameData, id: EntityId, at: Position, radius: usize) -> (r: Option<
    EntityId,
>)
    requires
        data.wf(),
    ensures
        r == visible_enemy(data@, id, at, radius),
{
    match data.entities.find_player() {
        Some(p) => {
            if p == id {
                return None;
            }
            match alive_position(data, p) {
                Some(q) => if can_see(data, at, q, radius) {
                    Some(p)
                } else {
                    None
                },
                None => None,
            }
        },
        None => None,
    }
}

fn find_heard(data: &GameData, id: EntityId, at: Position, radius: usize) -> (r: Option<Position>)
    ensures
        r == heard(data@, id, at, radius),
{
    if !data.entities.messages.contains(id) {
        return None;
    }
    let ghost msgs = lookup(data@.entities.messages, id as int)->0;
    let n: usize = data.entities.messages.queue_len(id);
    let mut i: usize = 0;
    while i < n
        invariant
            0 <= i <= n,
            n == msgs.len(),
            lookup(data@.entities.messages, id as int) == Some(msgs),
            heard_from(msgs, at, radius, 0) == heard_from(msgs, at, radius, i as int),
        decreases n - i,
    {
        match data.entities.messages.item(id, i) {
            Msg::Sound(_, p, _, _) => {
                if is_within_radius(p, at, radius) {
                    return Some(p);
                }
            },
            _ => {},
        }
        i = i + 1;
    }
    None
}

fn stay_put() -> (v: Vec<AiAction>)
    ensures
        v@ == seq![stay()],
{
    let mut v: Vec<AiAction> = Vec::new();
    v.push(AiAction::Move((0, 0)));
    assert(v@ =~= seq![stay()]);
    v
}

fn only(a: AiAction) -> (v: Vec<AiAction>)
    ensures
        v@ == seq![a],
{
    let mut v: Vec<AiAction> = Vec::new();
    v.push(a);
    assert(v@ =~= seq![a]);
    v
}

fn approach_options(data: &GameData, id: EntityId, at: Position, goal: Position) -> (v: Vec<
    AiAction,
>)
    requires
        data.wf(),
        lookup(data@.entities.pos, id as int) == Some(at),
    ensures
        v@ == approach(data@, id, at, goal),
{
    let reach: Reach = match data.entities.movement.get(id) {
        Some(r) => r,
        None => {
            return stay_put();
        },
    };
    if !reach.is_valid() {
        return stay_put();
    }
    let moves: Vec<MoveAction> = MoveAction::move_actions();
    let mut best: Option<u128> = None;
    let mut ties: Vec<AiAction> = Vec::new();
    let mut k: usize = 0;
    while k < 8
        invariant
            0 <= k <= 8,
            data.wf(),
            reach.valid(),
            moves@ == MoveAction::all(),
            lookup(data@.entities.pos, id as int) == Some(at),
            ties@ == approach_upto(data@, id, reach, at, goal, k as int).1,
            best is None <==> approach_upto(data@, id, reach, at, goal, k as int).0 is None,
            best matches Some(b) ==> approach_upto(data@, id, reach, at, goal, k as int).0
                == Some(b as int),
        decreases 8 - k,
    {
        let m: MoveAction = moves[k];
        let ghost prev = approach_upto(data@, id, reach, at, goal, k as int);
        let ghost next = approach_upto(data@, id, reach, at, goal, k as int + 1);
        assert(m == MoveAction::all()[k as int]);
        assert(next == match step_toward(data@, id, reach, m, at) {
            None => prev,
            Some(land) => {
                let dist = dist_sq(land, goal);
                let delta = reach.offset_for(m)->0;
                let act = AiAction::Move((delta.0, delta.1));
                if prev.0 is None || dist < prev.0->0 {
                    (Some(dist), seq![act])
                } else if dist == prev.0->0 {
                    (prev.0, prev.1.push(act))
                } else {
                    prev
                }
            },
        });
        match calculate_move(m, reach, id, data) {
            Some(Movement::Move(x, y)) => {
                if x != at.0 || y != at.1 {
                    let dist: u128 = dist_sq_of(Position(x, y), goal);
                    let delta: Position = match reach.move_with_reach(&m) {
                        Some(p) => p,
                        None => Position(0, 0),
                    };
                    let act = AiAction::Move((delta.0, delta.1));
                    let better: bool = match best {
                        Some(b) => dist < b,
                        None => true,
                    };
                    if better {
                        best = Some(dist);
                        ties = only(act);
                    } else if best == Some(dist) {
                        ties.push(act);
                    }
                }
            },
            _ => {},
        }
        k = k + 1;
    }
    if ties.len() == 0 {
        stay_put()
    } else {
        ties
    }
}

/// The actions among which the entity chooses.
pub fn ai_plan(id: EntityId, data: &GameData, config: &Config) -> (v: Vec<AiAction>)
    requires
        data.wf(),
    ensures
        v@ == ai_options(data@, *config, id),
{
    let at: Position = match data.entities.pos.get(id) {
        Some(p) => p,
        None => {
            return stay_put();
        },
    };
    let stats: Stats = stats_of(config, data.entities.name.get(id));
    match data.entities.behavior.get(id) {
        Some(Behavior::Attacking(target)) => {
            match alive_position(data, target) {
                None => match data.entities.pos.get(target) {
                    Some(q) => only(AiAction::StateChange(Behavior::Investigating(q))),
                    None => only(AiAction::StateChange(Behavior::Idle)),
                },
                Some(q) => {
                    if !can_see(data, at, q, stats.sight_radius) {
                        only(AiAction::StateChange(Behavior::Investigating(q)))
                    } else {
                        let strikes: bool = match data.entities.attack.get(id) {
                            Some(r) => r.covers_offset(at, q),
                            None => false,
                        };
                        if strikes {
                            only(AiAction::Attack(target, (q.0, q.1)))
                        } else {
                            approach_options(data, id, at, q)
                        }
                    }
                },
            }
        },
        Some(Behavior::Investigating(p)) => {
            match find_visible_enemy(data, id, at, stats.sight_radius) {
                Some(e) => only(AiAction::StateChange(Behavior::Attacking(e))),
                None => if at == p {
                    only(AiAction::StateChange(Behavior::Idle))
                } else {
                    approach_options(data, id, at, p)
                },
            }
        },
        _ => {
            match find_visible_enemy(data, id, at, stats.sight_radius) {
                Some(e) => only(AiAction::StateChange(Behavior::Attacking(e))),
                None => match find_heard(data, id, at, stats.hearing_radius) {
                    Some(p) => only(AiAction::StateChange(Behavior::Investigating(p))),
                    None => stay_put(),
                },
            }
        },
    }
}

/// The action that the entity takes when the roll is `roll`.
pub fn ai_take_turn(id: EntityId, data: &GameData, config: &Config, roll: usize) -> (a: AiAction)
    requires
        data.wf(),
    ensures
        a == ai_choice(data@, *config, id, roll),
{
    let options: Vec<AiAction> = ai_plan(id, data, config);
    if options.len() == 0 {
        AiAction::Move((0, 0))
    } else {
        options[roll % options.len()]
    }
}

} // verus!
