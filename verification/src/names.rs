//! The names of the entities while messages take effect: no message gives
//! an entity a name or another name, and only an item that is used up
//! loses its name. So a world with exactly one player, which is no item,
//! stays one.

use crate::data::DataView;
use crate::effect::queue_weight;
use crate::entities::EntitiesView;
use crate::intent::kind_from_finds;
use crate::messaging::Msg;
use crate::object::EntityName;
use crate::resolve::{on_msg, stepped_weighs_less, WorldView};
use crate::settings::GameSettings;
use crate::store::lookup;
use vstd::prelude::*;

verus! {

/// Whether the entity `x` has in the store `b` what it had in the store
/// `a`: its name, unless it was an item and has none left; and no item
/// if it was none.
pub open spec fn name_kept_at(a: EntitiesView, b: EntitiesView, x: int) -> bool {
    &&& lookup(b.name, x) == lookup(a.name, x) || (lookup(b.name, x) is None && lookup(a.item, x)
        is Some)
    &&& lookup(a.item, x) is None ==> lookup(b.item, x) is None
}

impl EntitiesView {
    /// Whether every entity has in the store `after` what it had in this
    /// store: its name, unless it was an item and has none left.
    pub open spec fn keeps_names(self, after: EntitiesView) -> bool {
        forall|x: int| #[trigger] name_kept_at(self, after, x)
    }

    /// Whether the entity `q` is named as the player is.
    pub open spec fn named_player(self, q: int) -> bool {
        lookup(self.name, q) == Some(EntityName::Player)
    }

    /// Whether exactly one entity is named as the player is, and that
    /// entity is no item.
    pub open spec fn one_player(self) -> bool {
        exists|p: int|
            #[trigger] self.named_player(p) && lookup(self.item, p) is None && forall|q: int|
                #[trigger] self.named_player(q) ==> q == p
    }
}

/// A store that keeps the names of a store with exactly one player has
/// exactly one player.
pub proof fn one_player_kept(a: EntitiesView, b: EntitiesView)
    requires
        a.keeps_names(b),
        a.one_player(),
    ensures
        b.one_player(),
{
    let p = choose|p: int|
        #[trigger] a.named_player(p) && lookup(a.item, p) is None && forall|q: int|
            #[trigger] a.named_player(q) ==> q == p;
    assert(name_kept_at(a, b, p));
    assert(b.named_player(p));
    assert forall|q: int| #[trigger] b.named_player(q) implies q == p by {
        assert(name_kept_at(a, b, q));
        assert(a.named_player(q));
    }
}

/// Keeping the names goes on from store to store.
pub proof fn keeps_names_on(a: EntitiesView, b: EntitiesView, c: EntitiesView)
    requires
        a.keeps_names(b),
        b.keeps_names(c),
    ensures
        a.keeps_names(c),
{
    assert forall|x: int| #[trigger] name_kept_at(a, c, x) by {
        assert(name_kept_at(a, b, x));
        assert(name_kept_at(b, c, x));
    }
}

proof fn names_by_hammer(d: DataView, s: GameSettings, msg: Msg)
    requires
        d.entities.wf(),
        msg is HammerSwing,
    ensures
        d.entities.keeps_names(on_msg(d, s, msg).data.entities),
{
    reveal(on_msg);
    let ent = msg->HammerSwing_0;
    let v = on_msg(d, s, msg).data.entities;
    match lookup(d.entities.inventory, ent as int) {
        Some(inv) => {
            kind_from_finds(d.entities, inv, crate::object::Item::Hammer, 0);
        },
        None => {},
    }
    assert forall|x: int| #[trigger] name_kept_at(d.entities, v, x) by {}
}

proof fn names_by_placing(d: DataView, s: GameSettings, msg: Msg)
    requires
        d.entities.wf(),
        msg is Moved || msg is PickedUp || msg is DropItem || msg is ItemThrow,
    ensures
        d.entities.keeps_names(on_msg(d, s, msg).data.entities),
{
    reveal(on_msg);
    let v = on_msg(d, s, msg).data.entities;
    assert(v.name == d.entities.name && v.item == d.entities.item);
    assert forall|x: int| #[trigger] name_kept_at(d.entities, v, x) by {}
}

proof fn names_by_blow(d: DataView, s: GameSettings, msg: Msg)
    requires
        d.entities.wf(),
        msg is Killed || msg is Crushed || msg is Attack || msg is HammerHitWall
            || msg is HammerHitEntity,
    ensures
        d.entities.keeps_names(on_msg(d, s, msg).data.entities),
{
    reveal(on_msg);
    let v = on_msg(d, s, msg).data.entities;
    assert(v.name == d.entities.name && v.item == d.entities.item);
    assert forall|x: int| #[trigger] name_kept_at(d.entities, v, x) by {}
}

proof fn names_by_rest(d: DataView, s: GameSettings, msg: Msg)
    requires
        d.entities.wf(),
        !(msg is Moved || msg is PickedUp || msg is DropItem || msg is ItemThrow || msg is Killed
            || msg is Crushed || msg is Attack || msg is HammerHitWall || msg is HammerHitEntity
            || msg is HammerSwing),
    ensures
        d.entities.keeps_names(on_msg(d, s, msg).data.entities),
{
    reveal(on_msg);
    let v = on_msg(d, s, msg).data.entities;
    assert(v.name == d.entities.name && v.item == d.entities.item);
    assert forall|x: int| #[trigger] name_kept_at(d.entities, v, x) by {}
}

/// Whatever message takes effect, every entity keeps its name, unless
/// it is an item that is used up.
pub proof fn effect_keeps_names(d: DataView, s: GameSettings, msg: Msg)
    requires
        d.entities.wf(),
    ensures
        d.entities.keeps_names(on_msg(d, s, msg).data.entities),
{
    if msg is Moved || msg is PickedUp || msg is DropItem || msg is ItemThrow {
        names_by_placing(d, s, msg);
    } else if msg is Killed || msg is Crushed || msg is Attack || msg is HammerHitWall
        || msg is HammerHitEntity {
        names_by_blow(d, s, msg);
    } else if msg is HammerSwing {
        names_by_hammer(d, s, msg);
    } else {
        names_by_rest(d, s, msg);
    }
}

/// Resolving the messages keeps the names: a world with exactly one
/// player, which is no item, is one afterwards, however the resolving
/// ends.
pub proof fn resolved_keeps_names(w: WorldView)
    requires
        w.data.entities.wf(),
    ensures
        w.data.entities.keeps_names(w.resolved().data.entities),
        w.data.entities.one_player() ==> w.resolved().data.entities.one_player(),
    decreases queue_weight(w.log.messages),
{
    if w.log.messages.len() > 0 {
        effect_keeps_names(w.data, w.settings, w.log.messages[0]);
        crate::invariants::stepped_keeps(w, true);
        let next = w.stepped();
        if !w.head_violates() {
            stepped_weighs_less(w);
            resolved_keeps_names(next);
            keeps_names_on(w.data.entities, next.data.entities, w.resolved().data.entities);
        }
    } else {
        assert forall|x: int| #[trigger] name_kept_at(w.data.entities, w.data.entities, x) by {}
    }
    if w.data.entities.one_player() {
        one_player_kept(w.data.entities, w.resolved().data.entities);
    }
}

} // verus!
