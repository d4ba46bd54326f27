//! The turn stepper: it carries one turn out on the world.

use crate::action::Action;
use crate::ai::ai_take_turn;
use crate::data::GameData;
use crate::effect::GameError;
use crate::entities::EntitiesView;
use crate::messaging::{Msg, MsgLog};
use crate::object::{Item, Status};
use crate::resolve::{resolve_messages, WorldView};
use crate::settings::{Config, GameSettings};
use crate::turn::{
    act_one, ai_list, ai_turns, ai_upto, deafened, due, exit_met, finish, kept_house, pass_one,
    pass_three, pass_two, plan_action, plan_one, plans, reaped, replan_one, roll_at, swept, thawed,
    ticked, turn_of, whole_turn, Turn,
};
use crate::types::EntityId;
use vstd::prelude::*;

verus! {

/// The world that the three parts of the game state make up.
pub open spec fn world_of(data: &GameData, settings: &GameSettings, msg_log: &MsgLog) -> WorldView {
    WorldView { data: data@, settings: *settings, log: msg_log@ }
}

/// Whether the level is won: the player stands where the exit is and
/// holds the goal.
pub fn level_exit_condition_met(data: &GameData) -> (b: bool)
    ensures
        b == exit_met(data@),
{
    let player: EntityId = match data.find_player() {
        Some(p) => p,
        None => {
            return false;
        },
    };
    let mut exit_condition: bool = false;
    if let Some(exit_id) = data.find_exit() {
        let player_pos = data.entities.pos.get(player);
        let exit_pos = data.entities.pos.get(exit_id);
        let has_key: bool = data.is_in_inventory(player, Item::Goal).is_some();
        let on_exit_tile: bool = player_pos.is_some() && exit_pos == player_pos;
        exit_condition = has_key && on_exit_tile;
    }
    return exit_condition;
}

fn settle(data: &mut GameData, msg_log: &mut MsgLog, settings: &mut GameSettings) -> (ok: bool)
    requires
        old(data).wf(),
    ensures
        final(data).wf(),
        (Turn { world: world_of(final(data), final(settings), final(msg_log)), ok: ok })
            == world_of(old(data), old(settings), old(msg_log)).settle(),
{
    resolve_messages(data, msg_log, settings).is_ok()
}

fn note_action(
    data: &mut GameData,
    settings: &GameSettings,
    msg_log: &MsgLog,
    id: EntityId,
    action: Action,
)
    requires
        old(data).wf(),
    ensures
        final(data).wf(),
        world_of(final(data), settings, msg_log) == world_of(
            old(data),
            settings,
            msg_log,
        ).with_action(id, action),
{
    assert(old(data).entities@.wf());
    if id < data.entities.action.len() {
        data.entities.action.insert(id, action);
    }
}

/// The entities that plan this turn, in the order in which they were
/// made.
pub fn ai_entities(data: &GameData) -> (v: Vec<EntityId>)
    requires
        data.wf(),
    ensures
        v@ == ai_list(data@.entities),
{
    assert(data.entities@.wf());
    let mut v: Vec<EntityId> = Vec::new();
    let n: usize = data.entities.count();
    let mut i: usize = 0;
    while i < n
        invariant
            0 <= i <= n,
            n == data@.entities.pos.len(),
            data.entities@.wf(),
            v@ == ai_upto(data@.entities, i as int),
        decreases n - i,
    {
        let active: bool = match data.entities.status.get(i) {
            Some(s) => s.alive && s.frozen == 0,
            None => false,
        };
        if data.entities.ai.contains(i) && data.entities.fighter.contains(i)
            && !data.entities.limbo.contains(i) && active {
            v.push(i);
        }
        i = i + 1;
    }
    v
}

fn plan_for(data: &GameData, settings: &GameSettings, msg_log: &MsgLog, config: &Config, id:
    EntityId, roll: usize) -> (a: Action)
    requires
        data.wf(),
    ensures
        a == plan_action(world_of(data, settings, msg_log), *config, id, roll),
{
    Action::from_ai(ai_take_turn(id, data, config, roll))
}

fn is_state_change(a: Action) -> (b: bool)
    ensures
        b == (a is StateChange),
{
    match a {
        Action::StateChange(_) => true,
        _ => false,
    }
}

fn plan_one_exec(
    data: &mut GameData,
    msg_log: &mut MsgLog,
    settings: &mut GameSettings,
    config: &Config,
    id: EntityId,
    first: usize,
    second: usize,
) -> (ok: bool)
    requires
        old(data).wf(),
    ensures
        final(data).wf(),
        (Turn { world: world_of(final(data), final(settings), final(msg_log)), ok: ok })
            == plan_one(
            Turn { world: world_of(old(data), old(settings), old(msg_log)), ok: true },
            *config,
            id,
            first,
            second,
        ),
{
    let ghost w0 = world_of(data, settings, msg_log);
    let action: Action = plan_for(data, settings, msg_log, config, id, first);
    note_action(data, settings, msg_log, id, action);
    assert(world_of(data, settings, msg_log) == w0.with_action(id, action));
    if is_state_change(action) {
        msg_log.log(Msg::Action(id, action));
        if !settle(data, msg_log, settings) {
            return false;
        }
        let ghost w1 = world_of(data, settings, msg_log);
        let backup: Action = plan_for(data, settings, msg_log, config, id, second);
        note_action(data, settings, msg_log, id, backup);
        assert(world_of(data, settings, msg_log) == w1.with_action(id, backup));
    }
    true
}

fn reap(data: &mut GameData, id: EntityId)
    requires
        old(data).wf(),
    ensures
        final(data).wf(),
        final(data)@.map == old(data)@.map,
        final(data)@.entities == reaped(old(data)@.entities, id),
{
    assert(old(data).entities@.wf());
    if let Some(fighter) = data.entities.fighter.get(id) {
        if fighter.hp <= 0 {
            match data.entities.status.get(id) {
                Some(st) => {
                    data.entities.status.insert(id, Status { alive: false, ..st });
                },
                None => {
                    assert(data.entities.status@ =~= old(data).entities.status@.update(
                        id as int,
                        None,
                    ));
                },
            }
            data.entities.blocks.insert(id, false);
            data.entities.chr.insert(id, '%');
            data.entities.fighter.remove(id);
            assert(data.entities@.pos.len() == old(data).entities@.pos.len());
            assert(data.entities@.ids == old(data).entities@.ids);
            assert(data.entities@.wf());
        }
    }
}

fn act_one_exec(
    data: &mut GameData,
    msg_log: &mut MsgLog,
    settings: &mut GameSettings,
    id: EntityId,
) -> (ok: bool)
    requires
        old(data).wf(),
    ensures
        final(data).wf(),
        (Turn { world: world_of(final(data), final(settings), final(msg_log)), ok: ok })
            == act_one(
            Turn { world: world_of(old(data), old(settings), old(msg_log)), ok: true },
            id,
        ),
{
    if let Some(action) = data.entities.action.get(id) {
        msg_log.log(Msg::Action(id, action));
        if !settle(data, msg_log, settings) {
            return false;
        }
        let ghost w1 = world_of(data, settings, msg_log);
        reap(data, id);
        assert(world_of(data, settings, msg_log) == w1.with_entities(
            reaped(w1.data.entities, id),
        ));
    }
    true
}

fn replan_one_exec(
    data: &mut GameData,
    msg_log: &mut MsgLog,
    settings: &mut GameSettings,
    config: &Config,
    id: EntityId,
    roll: usize,
) -> (ok: bool)
    requires
        old(data).wf(),
    ensures
        final(data).wf(),
        (Turn { world: world_of(final(data), final(settings), final(msg_log)), ok: ok })
            == replan_one(
            Turn { world: world_of(old(data), old(settings), old(msg_log)), ok: true },
            *config,
            id,
            roll,
        ),
{
    assert(old(data).entities@.wf());
    let ghost w0 = world_of(data, settings, msg_log);
    if id < data.entities.messages.len() {
        data.entities.messages.clear(id);
        proof {
            let before = old(data)@.entities.messages;
            if before[id as int] is None {
                assert(before =~= before.update(id as int, None));
            }
        }
    }
    assert(world_of(data, settings, msg_log) == deafened(w0, id));
    let ghost quiet = world_of(data, settings, msg_log);
    let action: Action = plan_for(data, settings, msg_log, config, id, roll);
    if is_state_change(action) {
        note_action(data, settings, msg_log, id, action);
        assert(world_of(data, settings, msg_log) == quiet.with_action(id, action));
        msg_log.log(Msg::Action(id, action));
        return settle(data, msg_log, settings);
    }
    true
}

/// A turn that is no longer in order stays as it is through the first
/// pass.
pub proof fn pass_one_stays(t: Turn, config: Config, ais: Seq<EntityId>, rolls: Seq<usize>, j: int, k: int)
    requires
        0 <= j <= k,
        !pass_one(t, config, ais, rolls, j).ok,
    ensures
        pass_one(t, config, ais, rolls, k) == pass_one(t, config, ais, rolls, j),
    decreases k - j,
{
    if j < k {
        pass_one_stays(t, config, ais, rolls, j, k - 1);
    }
}

/// A turn that is no longer in order stays as it is through the second
/// pass.
pub proof fn pass_two_stays(t: Turn, ais: Seq<EntityId>, j: int, k: int)
    requires
        0 <= j <= k,
        !pass_two(t, ais, j).ok,
    ensures
        pass_two(t, ais, k) == pass_two(t, ais, j),
    decreases k - j,
{
    if j < k {
        pass_two_stays(t, ais, j, k - 1);
    }
}

/// A turn that is no longer in order stays as it is through the last
/// pass.
pub proof fn pass_three_stays(
    t: Turn,
    config: Config,
    ais: Seq<EntityId>,
    rolls: Seq<usize>,
    j: int,
    k: int,
)
    requires
        0 <= j <= k,
        !pass_three(t, config, ais, rolls, j).ok,
    ensures
        pass_three(t, config, ais, rolls, k) == pass_three(t, config, ais, rolls, j),
    decreases k - j,
{
    if j < k {
        pass_three_stays(t, config, ais, rolls, j, k - 1);
    }
}

fn roll_of(rolls: &Vec<usize>, k: usize) -> (r: usize)
    ensures
        r == roll_at(rolls@, k as int),
{
    if k < rolls.len() {
        rolls[k]
    } else {
        0
    }
}

fn roll_past(rolls: &Vec<usize>, base: usize, times: usize, k: usize) -> (r: usize)
    requires
        times <= 2,
        k < base,
    ensures
        r == roll_at(rolls@, times * base + k),
{
    assert(times * base == if times == 0 {
        0
    } else if times == 1 {
        base as int
    } else {
        base + base
    }) by (nonlinear_arith)
        requires
            0 <= times <= 2,
    ;
    let at: u128 = times as u128 * base as u128 + k as u128;
    if at < rolls.len() as u128 {
        rolls[at as usize]
    } else {
        0
    }
}

fn run_pass_one(
    data: &mut GameData,
    msg_log: &mut MsgLog,
    settings: &mut GameSettings,
    config: &Config,
    ais: &Vec<EntityId>,
    rolls: &Vec<usize>,
) -> (ok: bool)
    requires
        old(data).wf(),
    ensures
        final(data).wf(),
        (Turn { world: world_of(final(data), final(settings), final(msg_log)), ok: ok })
            == pass_one(
            Turn { world: world_of(old(data), old(settings), old(msg_log)), ok: true },
            *config,
            ais@,
            rolls@,
            ais@.len() as int,
        ),
{
    let ghost t0 = Turn { world: world_of(data, settings, msg_log), ok: true };
    let n: usize = ais.len();
    let mut k: usize = 0;
    while k < n
        invariant
            0 <= k <= n,
            n == ais@.len(),
            data.wf(),
            t0 == (Turn { world: world_of(old(data), old(settings), old(msg_log)), ok: true }),
            (Turn { world: world_of(data, settings, msg_log), ok: true }) == pass_one(
                t0,
                *config,
                ais@,
                rolls@,
                k as int,
            ),
        decreases n - k,
    {
        let first: usize = roll_of(rolls, k);
        let second: usize = roll_past(rolls, n, 1, k);
        assert(1 * n + k == ais@.len() + (k + 1) - 1) by (nonlinear_arith)
            requires
                n == ais@.len(),
        ;
        if !plan_one_exec(data, msg_log, settings, config, ais[k], first, second) {
            proof {
                pass_one_stays(t0, *config, ais@, rolls@, k as int + 1, n as int);
            }
            return false;
        }
        k = k + 1;
    }
    true
}

fn run_pass_two(
    data: &mut GameData,
    msg_log: &mut MsgLog,
    settings: &mut GameSettings,
    ais: &Vec<EntityId>,
) -> (ok: bool)
    requires
        old(data).wf(),
    ensures
        final(data).wf(),
        (Turn { world: world_of(final(data), final(settings), final(msg_log)), ok: ok })
            == pass_two(
            Turn { world: world_of(old(data), old(settings), old(msg_log)), ok: true },
            ais@,
            ais@.len() as int,
        ),
{
    let ghost t0 = Turn { world: world_of(data, settings, msg_log), ok: true };
    let n: usize = ais.len();
    let mut k: usize = 0;
    while k < n
        invariant
            0 <= k <= n,
            n == ais@.len(),
            data.wf(),
            t0 == (Turn { world: world_of(old(data), old(settings), old(msg_log)), ok: true }),
            (Turn { world: world_of(data, settings, msg_log), ok: true }) == pass_two(
                t0,
                ais@,
                k as int,
            ),
        decreases n - k,
    {
        if !act_one_exec(data, msg_log, settings, ais[k]) {
            proof {
                pass_two_stays(t0, ais@, k as int + 1, n as int);
            }
            return false;
        }
        k = k + 1;
    }
    true
}

fn run_pass_three(
    data: &mut GameData,
    msg_log: &mut MsgLog,
    settings: &mut GameSettings,
    config: &Config,
    ais: &Vec<EntityId>,
    rolls: &Vec<usize>,
) -> (ok: bool)
    requires
        old(data).wf(),
    ensures
        final(data).wf(),
        (Turn { world: world_of(final(data), final(settings), final(msg_log)), ok: ok })
            == pass_three(
            Turn { world: world_of(old(data), old(settings), old(msg_log)), ok: true },
            *config,
            ais@,
            rolls@,
            ais@.len() as int,
        ),
{
    let ghost t0 = Turn { world: world_of(data, settings, msg_log), ok: true };
    let n: usize = ais.len();
    let mut k: usize = 0;
    while k < n
        invariant
            0 <= k <= n,
            n == ais@.len(),
            data.wf(),
            t0 == (Turn { world: world_of(old(data), old(settings), old(msg_log)), ok: true }),
            (Turn { world: world_of(data, settings, msg_log), ok: true }) == pass_three(
                t0,
                *config,
                ais@,
                rolls@,
                k as int,
            ),
        decreases n - k,
    {
        let roll: usize = roll_past(rolls, n, 2, k);
        assert(2 * n + k == 2 * ais@.len() + (k + 1) - 1) by (nonlinear_arith)
            requires
                n == ais@.len(),
        ;
        if !replan_one_exec(data, msg_log, settings, config, ais[k], roll) {
            proof {
                pass_three_stays(t0, *config, ais@, rolls@, k as int + 1, n as int);
            }
            return false;
        }
        k = k + 1;
    }
    true
}

/// Lets every planning entity take its turn: each plans, then each acts,
/// then each plans once more. The rolls decide between equally good
/// actions.
pub fn ai_turns_exec(
    data: &mut GameData,
    msg_log: &mut MsgLog,
    settings: &mut GameSettings,
    config: &Config,
    rolls: &Vec<usize>,
) -> (ok: bool)
    requires
        old(data).wf(),
    ensures
        final(data).wf(),
        (Turn { world: world_of(final(data), final(settings), final(msg_log)), ok: ok })
            == ai_turns(
            Turn { world: world_of(old(data), old(settings), old(msg_log)), ok: true },
            *config,
            rolls@,
        ),
{
    let ais: Vec<EntityId> = ai_entities(data);
    let ghost n = ais@.len() as int;
    if !run_pass_one(data, msg_log, settings, config, &ais, rolls) {
        proof {
            let t1 = Turn { world: world_of(data, settings, msg_log), ok: false };
            pass_two_stays(t1, ais@, 0, n);
            pass_three_stays(t1, *config, ais@, rolls@, 0, n);
        }
        return false;
    }
    if !run_pass_two(data, msg_log, settings, &ais) {
        proof {
            let t2 = Turn { world: world_of(data, settings, msg_log), ok: false };
            pass_three_stays(t2, *config, ais@, rolls@, 0, n);
        }
        return false;
    }
    run_pass_three(data, msg_log, settings, config, &ais, rolls)
}

fn is_due(data: &GameData, i: EntityId) -> (b: bool)
    ensures
        b == due(data@.entities, i as int),
{
    let run_out: bool = data.entities.count_down.get(i) == Some(0);
    let marked: bool = data.entities.needs_removal.get(i) == Some(true);
    run_out || (marked && data.entities.animation.queue_len(i) == 0)
}

/// The housekeeping at the end of a turn: the frozen thaw, the counts of
/// turns go down, and the entities that are due are removed.
pub fn keep_house(data: &mut GameData)
    requires
        old(data).wf(),
    ensures
        final(data).wf(),
        final(data)@.map == old(data)@.map,
        final(data)@.entities == kept_house(old(data)@.entities),
{
    assert(old(data).entities@.wf());
    let ghost v0 = old(data)@.entities;
    let n: usize = data.entities.count();
    let mut flags: Vec<bool> = Vec::new();
    let mut i: usize = 0;
    proof {
        assert(v0.status =~= Seq::new(
            v0.status.len(),
            |j: int|
                if j < 0 {
                    thawed(v0.status[j])
                } else {
                    v0.status[j]
                },
        ));
        assert(v0.count_down =~= Seq::new(
            v0.count_down.len(),
            |j: int|
                if j < 0 {
                    ticked(v0.count_down[j])
                } else {
                    v0.count_down[j]
                },
        ));
    }
    while i < n
        invariant
            0 <= i <= n,
            n == v0.pos.len(),
            v0 == old(data)@.entities,
            v0.wf(),
            data.wf(),
            data@.map == old(data)@.map,
            flags@.len() == i,
            forall|j: int| 0 <= j < i ==> #[trigger] flags@[j] == due(v0, j),
            data@.entities == (EntitiesView {
                status: Seq::new(
                    v0.status.len(),
                    |j: int|
                        if j < i {
                            thawed(v0.status[j])
                        } else {
                            v0.status[j]
                        },
                ),
                count_down: Seq::new(
                    v0.count_down.len(),
                    |j: int|
                        if j < i {
                            ticked(v0.count_down[j])
                        } else {
                            v0.count_down[j]
                        },
                ),
                ..v0
            }),
        decreases n - i,
    {
        let ghost before = data@.entities;
        flags.push(is_due(data, i));
        match data.entities.status.get(i) {
            Some(st) => {
                let frozen: usize = if st.frozen > 0 {
                    st.frozen - 1
                } else {
                    0
                };
                data.entities.status.insert(i, Status { frozen: frozen, ..st });
            },
            None => {},
        }
        match data.entities.count_down.get(i) {
            Some(c) => {
                let left: usize = if c > 0 {
                    c - 1
                } else {
                    0
                };
                data.entities.count_down.insert(i, left);
            },
            None => {},
        }
        proof {
            assert(data@.entities.status =~= Seq::new(
                v0.status.len(),
                |j: int|
                    if j < i + 1 {
                        thawed(v0.status[j])
                    } else {
                        v0.status[j]
                    },
            ));
            assert(data@.entities.count_down =~= Seq::new(
                v0.count_down.len(),
                |j: int|
                    if j < i + 1 {
                        ticked(v0.count_down[j])
                    } else {
                        v0.count_down[j]
                    },
            ));
        }
        i = i + 1;
    }
    let ghost aged = EntitiesView {
        status: Seq::new(v0.status.len(), |j: int| thawed(v0.status[j])),
        count_down: Seq::new(v0.count_down.len(), |j: int| ticked(v0.count_down[j])),
        ..v0
    };
    proof {
        assert(data@.entities.status =~= aged.status);
        assert(data@.entities.count_down =~= aged.count_down);
    }
    let mut k: usize = 0;
    while k < n
        invariant
            0 <= k <= n,
            n == v0.pos.len(),
            data.wf(),
            data@.map == old(data)@.map,
            flags@.len() == n,
            forall|j: int| 0 <= j < n ==> #[trigger] flags@[j] == due(v0, j),
            data@.entities == swept(aged, v0, k as int),
        decreases n - k,
    {
        if flags[k] {
            data.remove_entity(k);
        }
        k = k + 1;
    }
}

fn said_unavailable(msg_log: &MsgLog, id: EntityId) -> (b: bool)
    ensures
        b == msg_log@.turn_messages.contains(Msg::Unavailable(id)),
{
    let mut i: usize = 0;
    while i < msg_log.turn_messages.len()
        invariant
            0 <= i <= msg_log.turn_messages@.len(),
            forall|j: int| 0 <= j < i ==> msg_log.turn_messages@[j] != Msg::Unavailable(id),
        decreases msg_log.turn_messages@.len() - i,
    {
        if msg_log.turn_messages[i] == Msg::Unavailable(id) {
            return true;
        }
        i = i + 1;
    }
    false
}

fn is_whole_turn(
    data: &GameData,
    settings: &GameSettings,
    msg_log: &MsgLog,
    player: EntityId,
    action: Action,
) -> (b: bool)
    ensures
        b == whole_turn(world_of(data, settings, msg_log), player, action),
{
    let is_move: bool = match action {
        Action::Move(_) => true,
        _ => false,
    };
    let half: bool = match data.entities.momentum.get(player) {
        Some(m) => m.took_half_turn,
        None => false,
    };
    action.takes_turn() && !said_unavailable(msg_log, player) && !(is_move && half)
}

fn finish_exec(
    data: &mut GameData,
    msg_log: &mut MsgLog,
    settings: &mut GameSettings,
    whole: bool,
) -> (ok: bool)
    requires
        old(data).wf(),
    ensures
        final(data).wf(),
        (Turn { world: world_of(final(data), final(settings), final(msg_log)), ok: ok })
            == finish(
            Turn { world: world_of(old(data), old(settings), old(msg_log)), ok: true },
            whole,
        ),
{
    msg_log.log(Msg::PlayerTurn());
    if !settle(data, msg_log, settings) {
        return false;
    }
    keep_house(data);
    if whole && settings.turn_count < usize::MAX {
        settings.turn_count = settings.turn_count + 1;
    }
    true
}

/// Carries out one turn with the action `player_action` of the player.
/// The rolls decide where planning entities have equally good actions.
/// The result says whether the level is won; a turn in which a message
/// names what cannot be, or a world without a player, is an error. A
/// turn that wins the level ends with the action of the player.
///
/// A turn keeps what the world has, each on its own and however the turn
/// ends: if before it no two entities that block movement stand on one
/// tile, none do after it; if each of them stands on the map before, each
/// does after; if every momentum is within its limit before, every one is
/// after; and if no entity without hit points is alive or blocks its tile
/// before, none is after.
pub fn step_with_rolls(
    data: &mut GameData,
    msg_log: &mut MsgLog,
    settings: &mut GameSettings,
    config: &Config,
    player_action: Action,
    rolls: &Vec<usize>,
) -> (r: Result<bool, GameError>)
    requires
        old(data).wf(),
    ensures
        final(data).wf(),
        ({
            let t = turn_of(
                world_of(old(data), old(settings), old(msg_log)),
                *config,
                player_action,
                rolls@,
            );
            &&& world_of(final(data), final(settings), final(msg_log)) == t.world
            &&& t.ok ==> r == Ok::<bool, GameError>(exit_met(t.world.data))
            &&& !t.ok ==> r == Err::<bool, GameError>(GameError::InvariantViolation)
        }),
        old(data)@.keeps(final(data)@),
{
    proof {
        crate::order::turn_keeps(world_of(data, settings, msg_log), *config, player_action, rolls@);
    }
    let player: EntityId = match data.find_player() {
        Some(p) => p,
        None => {
            return Err(GameError::InvariantViolation);
        },
    };
    let ghost w0 = world_of(data, settings, msg_log);
    msg_log.clear();
    note_action(data, settings, msg_log, player, player_action);
    msg_log.log(Msg::Action(player, player_action));
    if !settle(data, msg_log, settings) {
        return Err(GameError::InvariantViolation);
    }
    if level_exit_condition_met(data) {
        return Ok(true);
    }
    let whole: bool = is_whole_turn(data, settings, msg_log, player, player_action);
    let player_lives: bool = match data.entities.status.get(player) {
        Some(s) => s.alive,
        None => false,
    };
    if whole && player_lives {
        if !ai_turns_exec(data, msg_log, settings, config, rolls) {
            return Err(GameError::InvariantViolation);
        }
    }
    if !finish_exec(data, msg_log, settings, whole) {
        return Err(GameError::InvariantViolation);
    }
    Ok(level_exit_condition_met(data))
}

} // verus!
