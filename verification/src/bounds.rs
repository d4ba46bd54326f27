//! The entities that block movement stay on the map.

use crate::data::DataView;
use crate::effect::queue_weight;
use crate::entities::blocker_from_finds;
use crate::handlers::find_name_in_range;
use crate::invariants::action_sends_back;
use crate::messaging::Msg;
use crate::object::EntityName;
use crate::resolve::{on_msg, stepped_weighs_less, WorldView};
use crate::settings::GameSettings;
use vstd::prelude::*;

verus! {

impl DataView {
    /// Every entity that blocks movement stands on the map.
    pub open spec fn blockers_on_map(self) -> bool {
        forall|a: int|
            0 <= a < self.entities.pos.len() && #[trigger] self.entities.blocks[a] == Some(true)
                && self.entities.pos[a] is Some ==> self.map.in_bounds(self.entities.pos[a]->0)
    }

    /// Whether the map of `other` has the size of the map of this world.
    pub open spec fn same_size(self, other: DataView) -> bool {
        other.map.width == self.map.width && other.map.height == self.map.height
    }

    /// The world `after` holds what this world has while messages take
    /// effect: its store is well formed; and each of these is true of
    /// `after` if it is true of this world: no two entities that block
    /// movement stand on one tile; every momentum is within its limit;
    /// every entity that blocks movement stands on the map.
    pub open spec fn holds(self, after: DataView) -> bool {
        &&& self.entities.keeps(after.entities)
        &&& self.blockers_on_map() ==> after.blockers_on_map()
    }

    /// The world `after` keeps what this world has from turn to turn: what
    /// it holds while messages take effect, and, if it is true of this
    /// world, that no entity without hit points is alive, nor, where
    /// `blocking` says so, blocks its tile.
    pub open spec fn keeps_as(self, after: DataView, blocking: bool) -> bool {
        &&& self.holds(after)
        &&& self.entities.dead_when_spent(blocking) ==> after.entities.dead_when_spent(blocking)
    }

    /// The world `after` keeps what this world has from turn to turn: what
    /// it holds while messages take effect; if it is true of this world,
    /// that no entity without hit points is alive; and if it is true of
    /// this world, that no entity without hit points is alive or blocks
    /// its tile.
    pub open spec fn keeps(self, after: DataView) -> bool {
        &&& self.keeps_as(after, false)
        &&& self.keeps_as(after, true)
    }
}

/// A world whose map has the same size, and in which the entities that
/// block movement stand where they stood, keeps them on the map.
pub proof fn on_map_frame(d: DataView, e: DataView)
    requires
        d.blockers_on_map(),
        d.same_size(e),
        e.entities.pos.len() == d.entities.pos.len(),
        e.entities.blocks.len() == d.entities.pos.len(),
        d.entities.blocks.len() == d.entities.pos.len(),
        forall|a: int|
            0 <= a < e.entities.pos.len() && #[trigger] e.entities.blocks[a] == Some(true) ==> {
                &&& d.entities.blocks[a] == Some(true)
                &&& e.entities.pos[a] == d.entities.pos[a] || (e.entities.pos[a] matches Some(p)
                    && e.map.in_bounds(p))
            },
    ensures
        e.blockers_on_map(),
{
    assert forall|a: int|
        0 <= a < e.entities.pos.len() && #[trigger] e.entities.blocks[a] == Some(true)
            && e.entities.pos[a] is Some implies e.map.in_bounds(e.entities.pos[a]->0) by {
        assert(d.entities.blocks[a] == Some(true));
    }
}

proof fn on_map_by_placing(d: DataView, s: GameSettings, msg: Msg)
    requires
        d.entities.wf(),
        msg is Moved || msg is PickedUp || msg is DropItem || msg is ItemThrow,
    ensures
        d.blockers_on_map() ==> on_msg(d, s, msg).data.blockers_on_map(),
        d.same_size(on_msg(d, s, msg).data),
{
    reveal(on_msg);
    let e = on_msg(d, s, msg).data;
    if e != d && d.blockers_on_map() {
        on_map_frame(d, e);
    }
}

proof fn on_map_by_blow(d: DataView, s: GameSettings, msg: Msg)
    requires
        d.entities.wf(),
        msg is Killed || msg is Crushed || msg is Attack || msg is HammerHitWall
            || msg is HammerHitEntity,
    ensures
        d.blockers_on_map() ==> on_msg(d, s, msg).data.blockers_on_map(),
        d.same_size(on_msg(d, s, msg).data),
{
    reveal(on_msg);
    let e = on_msg(d, s, msg).data;
    if msg is Crushed {
        blocker_from_finds(d.entities, msg->Crushed_1, Some(msg->Crushed_0), 0);
    }
    if e != d && d.blockers_on_map() {
        on_map_frame(d, e);
    }
}

proof fn on_map_by_hammer(d: DataView, s: GameSettings, msg: Msg)
    requires
        d.entities.wf(),
        msg is HammerSwing,
    ensures
        d.blockers_on_map() ==> on_msg(d, s, msg).data.blockers_on_map(),
        d.same_size(on_msg(d, s, msg).data),
{
    reveal(on_msg);
    let e = on_msg(d, s, msg).data;
    crate::invariants::hammer_keeps_valid(d, s, msg->HammerSwing_0, msg->HammerSwing_1);
    if e != d && d.blockers_on_map() {
        on_map_frame(d, e);
    }
}

proof fn on_map_by_rest(d: DataView, s: GameSettings, msg: Msg)
    requires
        d.entities.wf(),
        !(msg is Moved || msg is PickedUp || msg is DropItem || msg is ItemThrow || msg is Killed
            || msg is Crushed || msg is Attack || msg is HammerHitWall || msg is HammerHitEntity
            || msg is HammerSwing),
    ensures
        d.blockers_on_map() ==> on_msg(d, s, msg).data.blockers_on_map(),
        d.same_size(on_msg(d, s, msg).data),
{
    reveal(on_msg);
    let e = on_msg(d, s, msg).data;
    if msg is Action {
        action_sends_back(d, s, msg->Action_0, msg->Action_1);
        crate::invariants::action_keeps_valid(d, s, msg->Action_0, msg->Action_1);
        assert(e.entities.pos == d.entities.pos);
    }
    if msg is Sound {
        assert(e.entities.pos == d.entities.pos && e.entities.blocks == d.entities.blocks);
    }
    if msg is MoveMode {
        find_name_in_range(d.entities, EntityName::Player, 0);
    }
    if e != d && d.blockers_on_map() {
        on_map_frame(d, e);
    }
}

/// Whatever message takes effect, the entities that block movement stay
/// on the map, and the map keeps its size.
pub proof fn effect_keeps_on_map(d: DataView, s: GameSettings, msg: Msg)
    requires
        d.entities.wf(),
    ensures
        d.blockers_on_map() ==> on_msg(d, s, msg).data.blockers_on_map(),
        d.same_size(on_msg(d, s, msg).data),
{
    if msg is Moved || msg is PickedUp || msg is DropItem || msg is ItemThrow {
        on_map_by_placing(d, s, msg);
    } else if msg is Killed || msg is Crushed || msg is Attack || msg is HammerHitWall
        || msg is HammerHitEntity {
        on_map_by_blow(d, s, msg);
    } else if msg is HammerSwing {
        on_map_by_hammer(d, s, msg);
    } else {
        on_map_by_rest(d, s, msg);
    }
}

/// Resolving the messages keeps the map at its size, and the entities that
/// block movement on the map if they stood on it.
pub proof fn resolved_keeps_on_map(w: WorldView)
    requires
        w.data.entities.wf(),
    ensures
        w.data.blockers_on_map() ==> w.resolved().data.blockers_on_map(),
        w.data.same_size(w.resolved().data),
    decreases queue_weight(w.log.messages),
{
    if w.log.messages.len() > 0 {
        effect_keeps_on_map(w.data, w.settings, w.log.messages[0]);
        crate::invariants::stepped_keeps(w, true);
        if !w.head_violates() {
            stepped_weighs_less(w);
            resolved_keeps_on_map(w.stepped());
        }
    }
}

/// Resolving the messages holds what the world has. If every entity
/// without hit points that was alive, or, where `blocking` says so,
/// blocked its tile, had its death at the head of the queue, afterwards
/// there is no such entity.
pub proof fn resolved_holds(w: WorldView, blocking: bool)
    requires
        w.data.entities.wf(),
    ensures
        w.data.holds(w.resolved().data),
        w.resolves() ==> w.resolved().log.messages.len() == 0,
        w.deaths_pending(blocking) ==> w.resolved().data.entities.dead_when_spent(blocking),
{
    crate::invariants::resolved_keeps(w, blocking);
    resolved_keeps_on_map(w);
}

} // verus!
