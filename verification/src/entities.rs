//! The entity store: every attribute of every entity, kept as one sparse
//! store for each attribute.
//!
//! Ids are handed out in growing order and never again, so the order of
//! the ids is the order in which the entities were made.

use crate::action::{Action, MoveMode};
use crate::messaging::Msg;
use crate::momentum::Momentum;
use crate::object::{Ai, Animation, Behavior, EntityName, Fighter, Item, ObjType, Status, Trap};
use crate::store::{lookup, CompStore, QueueStore};
use crate::types::{EntityId, Pos, Position, Reach};
use vstd::prelude::*;

verus! {

/// All entities of the game.
#[derive(Clone, Debug)]
pub struct Entities {
    /// The ids of the entities that exist, in growing order.
    pub ids: Vec<EntityId>,
    /// Where the entity stands.
    pub pos: CompStore<Pos>,
    /// The symbolic name.
    pub name: CompStore<EntityName>,
    /// The glyph with which the entity is drawn.
    pub chr: CompStore<char>,
    /// Whether the entity blocks movement through its tile.
    pub blocks: CompStore<bool>,
    /// Whether the entity is alive, and how long it stays frozen.
    pub status: CompStore<Status>,
    /// The combat values.
    pub fighter: CompStore<Fighter>,
    /// Marks an entity that plans its own actions.
    pub ai: CompStore<Ai>,
    /// The state of a planning entity.
    pub behavior: CompStore<Behavior>,
    /// The momentum of the entity.
    pub momentum: CompStore<Momentum>,
    /// How far the entity moves in one action.
    pub movement: CompStore<Reach>,
    /// How far the entity strikes.
    pub attack: CompStore<Reach>,
    /// The turns until the entity is removed.
    pub count_down: CompStore<usize>,
    /// Whether the entity is to be removed once its animations are done.
    pub needs_removal: CompStore<bool>,
    /// Keeps the entity out of planning.
    pub limbo: CompStore<bool>,
    /// The action planned for the turn.
    pub action: CompStore<Action>,
    /// What the entity is as an item.
    pub item: CompStore<Item>,
    /// The tempo at which the entity moves.
    pub move_mode: CompStore<MoveMode>,
    /// The broad kind of the entity.
    pub typ: CompStore<ObjType>,
    /// What the entity does as a trap.
    pub trap: CompStore<Trap>,
    /// The items that the entity holds, in order.
    pub inventory: QueueStore<EntityId>,
    /// The animations that are still to play.
    pub animation: QueueStore<Animation>,
    /// The messages that a planning entity has heard.
    pub messages: QueueStore<Msg>,
}

/// The mathematical value of the entity store.
pub struct EntitiesView {
    pub ids: Seq<EntityId>,
    pub pos: Seq<Option<Pos>>,
    pub name: Seq<Option<EntityName>>,
    pub chr: Seq<Option<char>>,
    pub blocks: Seq<Option<bool>>,
    pub status: Seq<Option<Status>>,
    pub fighter: Seq<Option<Fighter>>,
    pub ai: Seq<Option<Ai>>,
    pub behavior: Seq<Option<Behavior>>,
    pub momentum: Seq<Option<Momentum>>,
    pub movement: Seq<Option<Reach>>,
    pub attack: Seq<Option<Reach>>,
    pub count_down: Seq<Option<usize>>,
    pub needs_removal: Seq<Option<bool>>,
    pub limbo: Seq<Option<bool>>,
    pub action: Seq<Option<Action>>,
    pub item: Seq<Option<Item>>,
    pub move_mode: Seq<Option<MoveMode>>,
    pub typ: Seq<Option<ObjType>>,
    pub trap: Seq<Option<Trap>>,
    pub inventory: Seq<Option<Seq<EntityId>>>,
    pub animation: Seq<Option<Seq<Animation>>>,
    pub messages: Seq<Option<Seq<Msg>>>,
}

impl View for Entities {
    type V = EntitiesView;

    open spec fn view(&self) -> EntitiesView {
        EntitiesView {
            ids: self.ids@,
            pos: self.pos@,
            name: self.name@,
            chr: self.chr@,
            blocks: self.blocks@,
            status: self.status@,
            fighter: self.fighter@,
            ai: self.ai@,
            behavior: self.behavior@,
            momentum: self.momentum@,
            movement: self.movement@,
            attack: self.attack@,
            count_down: self.count_down@,
            needs_removal: self.needs_removal@,
            limbo: self.limbo@,
            action: self.action@,
            item: self.item@,
            move_mode: self.move_mode@,
            typ: self.typ@,
            trap: self.trap@,
            inventory: self.inventory@,
            animation: self.animation@,
            messages: self.messages@,
        }
    }
}

/// The store `s` without a value for `id`.
pub open spec fn unset<T>(s: Seq<Option<T>>, id: int) -> Seq<Option<T>> {
    if 0 <= id < s.len() {
        s.update(id, None)
    } else {
        s
    }
}

/// The first place from `i` on at which `ids` holds `id`.
pub open spec fn index_of_from(ids: Seq<EntityId>, id: EntityId, i: int) -> Option<int>
    decreases ids.len() - i,
{
    if i >= ids.len() {
        None
    } else if ids[i] == id {
        Some(i)
    } else {
        index_of_from(ids, id, i + 1)
    }
}

/// The ids `ids` without the first occurrence of `id`.
pub open spec fn without_id(ids: Seq<EntityId>, id: EntityId) -> Seq<EntityId> {
    match index_of_from(ids, id, 0) {
        Some(k) => ids.remove(k),
        None => ids,
    }
}

impl EntitiesView {
    /// The number of ids handed out so far.
    pub open spec fn count(self) -> int {
        self.pos.len() as int
    }

    /// Whether the entity `id` exists.
    pub open spec fn exists_id(self, id: EntityId) -> bool {
        self.ids.contains(id)
    }

    /// Every store knows the same ids, and the list of the existing ids
    /// grows strictly and holds only ids that were handed out.
    pub open spec fn wf(self) -> bool {
        &&& self.pos.len() <= usize::MAX
        &&& self.name.len() == self.pos.len()
        &&& self.chr.len() == self.pos.len()
        &&& self.blocks.len() == self.pos.len()
        &&& self.status.len() == self.pos.len()
        &&& self.fighter.len() == self.pos.len()
        &&& self.ai.len() == self.pos.len()
        &&& self.behavior.len() == self.pos.len()
        &&& self.momentum.len() == self.pos.len()
        &&& self.movement.len() == self.pos.len()
        &&& self.attack.len() == self.pos.len()
        &&& self.count_down.len() == self.pos.len()
        &&& self.needs_removal.len() == self.pos.len()
        &&& self.limbo.len() == self.pos.len()
        &&& self.action.len() == self.pos.len()
        &&& self.item.len() == self.pos.len()
        &&& self.move_mode.len() == self.pos.len()
        &&& self.typ.len() == self.pos.len()
        &&& self.trap.len() == self.pos.len()
        &&& self.inventory.len() == self.pos.len()
        &&& self.animation.len() == self.pos.len()
        &&& self.messages.len() == self.pos.len()
        &&& forall|i: int, j: int|
            0 <= i < j < self.ids.len() ==> #[trigger] self.ids[i] < #[trigger] self.ids[j]
        &&& forall|i: int| 0 <= i < self.ids.len() ==> #[trigger] self.ids[i] < self.pos.len()
    }

    /// The store without any entity.
    pub open spec fn empty() -> EntitiesView {
        EntitiesView {
            ids: Seq::empty(),
            pos: Seq::empty(),
            name: Seq::empty(),
            chr: Seq::empty(),
            blocks: Seq::empty(),
            status: Seq::empty(),
            fighter: Seq::empty(),
            ai: Seq::empty(),
            behavior: Seq::empty(),
            momentum: Seq::empty(),
            movement: Seq::empty(),
            attack: Seq::empty(),
            count_down: Seq::empty(),
            needs_removal: Seq::empty(),
            limbo: Seq::empty(),
            action: Seq::empty(),
            item: Seq::empty(),
            move_mode: Seq::empty(),
            typ: Seq::empty(),
            trap: Seq::empty(),
            inventory: Seq::empty(),
            animation: Seq::empty(),
            messages: Seq::empty(),
        }
    }

    /// The store after a new entity was made: the next id exists, and has
    /// no attribute.
    pub open spec fn created(self) -> EntitiesView {
        EntitiesView {
            ids: self.ids.push(self.pos.len() as usize),
            pos: self.pos.push(None),
            name: self.name.push(None),
            chr: self.chr.push(None),
            blocks: self.blocks.push(None),
            status: self.status.push(None),
            fighter: self.fighter.push(None),
            ai: self.ai.push(None),
            behavior: self.behavior.push(None),
            momentum: self.momentum.push(None),
            movement: self.movement.push(None),
            attack: self.attack.push(None),
            count_down: self.count_down.push(None),
            needs_removal: self.needs_removal.push(None),
            limbo: self.limbo.push(None),
            action: self.action.push(None),
            item: self.item.push(None),
            move_mode: self.move_mode.push(None),
            typ: self.typ.push(None),
            trap: self.trap.push(None),
            inventory: self.inventory.push(None),
            animation: self.animation.push(None),
            messages: self.messages.push(None),
        }
    }

    /// The store after the entity `id` was removed: it no longer exists,
    /// and has no attribute.
    pub open spec fn removed(self, id: EntityId) -> EntitiesView {
        EntitiesView {
            ids: without_id(self.ids, id),
            pos: unset(self.pos, id as int),
            name: unset(self.name, id as int),
            chr: unset(self.chr, id as int),
            blocks: unset(self.blocks, id as int),
            status: unset(self.status, id as int),
            fighter: unset(self.fighter, id as int),
            ai: unset(self.ai, id as int),
            behavior: unset(self.behavior, id as int),
            momentum: unset(self.momentum, id as int),
            movement: unset(self.movement, id as int),
            attack: unset(self.attack, id as int),
            count_down: unset(self.count_down, id as int),
            needs_removal: unset(self.needs_removal, id as int),
            limbo: unset(self.limbo, id as int),
            action: unset(self.action, id as int),
            item: unset(self.item, id as int),
            move_mode: unset(self.move_mode, id as int),
            typ: unset(self.typ, id as int),
            trap: unset(self.trap, id as int),
            inventory: unset(self.inventory, id as int),
            animation: unset(self.animation, id as int),
            messages: unset(self.messages, id as int),
        }
    }
}

impl EntitiesView {
    /// The first id from `i` on that carries the name `name`.
    pub open spec fn find_name_from(self, name: EntityName, i: int) -> Option<EntityId>
        decreases self.name.len() - i,
    {
        if i < 0 || i >= self.name.len() {
            None
        } else if self.name[i] == Some(name) {
            Some(i as usize)
        } else {
            self.find_name_from(name, i + 1)
        }
    }

    /// The entity that was made first among those named `name`.
    pub open spec fn find_by_name(self, name: EntityName) -> Option<EntityId> {
        self.find_name_from(name, 0)
    }

    /// Whether `id` blocks movement and stands at `pos`.
    pub open spec fn blocks_at(self, id: int, pos: Position) -> bool {
        lookup(self.blocks, id) == Some(true) && lookup(self.pos, id) == Some(pos)
    }

    /// The first id from `i` on, other than `except`, that blocks movement
    /// and stands at `pos`.
    pub open spec fn blocker_from(self, pos: Position, except: Option<EntityId>, i: int)
        -> Option<EntityId>
        decreases self.pos.len() - i,
    {
        if i < 0 || i >= self.pos.len() {
            None
        } else if self.blocks_at(i, pos) && except != Some(i as usize) {
            Some(i as usize)
        } else {
            self.blocker_from(pos, except, i + 1)
        }
    }

    /// The entity, other than `except`, that blocks the tile `pos`.
    pub open spec fn blocker_at(self, pos: Position, except: Option<EntityId>) -> Option<
        EntityId,
    > {
        self.blocker_from(pos, except, 0)
    }

    /// The first id from `i` on that is an item and lies at `pos`.
    pub open spec fn item_from(self, pos: Position, i: int) -> Option<EntityId>
        decreases self.pos.len() - i,
    {
        if i < 0 || i >= self.pos.len() {
            None
        } else if lookup(self.item, i) is Some && self.pos[i] == Some(pos) {
            Some(i as usize)
        } else {
            self.item_from(pos, i + 1)
        }
    }

    /// The item that lies at `pos`.
    pub open spec fn item_at(self, pos: Position) -> Option<EntityId> {
        self.item_from(pos, 0)
    }

    /// The first id from `i` on that is a trap and lies at `pos`.
    pub open spec fn trap_from(self, pos: Position, i: int) -> Option<EntityId>
        decreases self.pos.len() - i,
    {
        if i < 0 || i >= self.pos.len() {
            None
        } else if lookup(self.trap, i) is Some && self.pos[i] == Some(pos) {
            Some(i as usize)
        } else {
            self.trap_from(pos, i + 1)
        }
    }

    /// The trap that lies at `pos`.
    pub open spec fn trap_at(self, pos: Position) -> Option<EntityId> {
        self.trap_from(pos, 0)
    }

    /// The first place from `j` on at which `inv` holds an item of the
    /// kind `kind`.
    pub open spec fn kind_from(self, inv: Seq<EntityId>, kind: Item, j: int) -> Option<int>
        decreases inv.len() - j,
    {
        if j < 0 || j >= inv.len() {
            None
        } else if lookup(self.item, inv[j] as int) == Some(kind) {
            Some(j)
        } else {
            self.kind_from(inv, kind, j + 1)
        }
    }

    /// The first item of the kind `kind` in the inventory of `holder`.
    pub open spec fn in_inventory(self, holder: EntityId, kind: Item) -> Option<EntityId> {
        match lookup(self.inventory, holder as int) {
            Some(inv) => match self.kind_from(inv, kind, 0) {
                Some(j) => Some(inv[j]),
                None => None,
            },
            None => None,
        }
    }

    /// Whether the inventory of `holder` holds `item`.
    pub open spec fn holds(self, holder: EntityId, item: EntityId) -> bool {
        lookup(self.inventory, holder as int) matches Some(inv) && index_of_from(inv, item, 0)
            is Some
    }

    /// The store after `item` left the inventory of `holder`; the item
    /// itself stays as it is.
    pub open spec fn item_removed(self, holder: EntityId, item: EntityId) -> EntitiesView {
        match lookup(self.inventory, holder as int) {
            Some(inv) => EntitiesView {
                inventory: self.inventory.update(holder as int, Some(without_id(inv, item))),
                ..self
            },
            None => self,
        }
    }

    /// Whether the entity has a status and is not alive.
    pub open spec fn is_dead(self, id: EntityId) -> bool {
        lookup(self.status, id as int) matches Some(s) && !s.alive
    }

    /// No two entities that block movement stand on one tile.
    pub open spec fn blockers_apart(self) -> bool {
        forall|a: int, b: int|
            #![trigger self.blocks[a], self.blocks[b]]
            0 <= a < self.pos.len() && 0 <= b < self.pos.len() && a != b && self.blocks[a]
                == Some(true) && self.blocks[b] == Some(true) && self.pos[a] is Some
                ==> self.pos[a] != self.pos[b]
    }

    /// Every momentum is within its limit.
    pub open spec fn momentum_bounded(self) -> bool {
        forall|a: int|
            0 <= a < self.momentum.len() ==> (#[trigger] self.momentum[a] matches Some(m)
                ==> m.wf())
    }

    /// Whether the entity is alive by its status.
    pub open spec fn is_alive(self, id: int) -> bool {
        lookup(self.status, id) matches Some(s) && s.alive
    }

    /// Whether the fighter of `id` has no hit points left while the entity
    /// still is alive, or, where `blocking` says so, still blocks its
    /// tile.
    pub open spec fn spent(self, id: int, blocking: bool) -> bool {
        &&& lookup(self.fighter, id) matches Some(f) && f.hp <= 0
        &&& self.is_alive(id) || (blocking && lookup(self.blocks, id) == Some(true))
    }

    /// No entity without hit points is alive, nor, where `blocking` says
    /// so, blocks its tile.
    pub open spec fn dead_when_spent(self, blocking: bool) -> bool {
        forall|a: int| 0 <= a < self.fighter.len() ==> !#[trigger] self.spent(a, blocking)
    }
}

/// No entity other than `except` blocks the tile on which a search for a
/// blocker finds nothing, and what it finds blocks the tile.
pub proof fn blocker_from_finds(v: EntitiesView, pos: Position, except: Option<EntityId>, i: int)
    requires
        0 <= i,
        v.wf(),
    ensures
        match v.blocker_from(pos, except, i) {
            Some(k) => i <= k < v.pos.len() && v.blocks_at(k as int, pos) && except != Some(k),
            None => forall|j: int|
                i <= j < v.pos.len() ==> !(#[trigger] v.blocks_at(j, pos) && except != Some(
                    j as usize,
                )),
        },
    decreases v.pos.len() - i,
{
    if i < v.pos.len() && !(v.blocks_at(i, pos) && except != Some(i as usize)) {
        blocker_from_finds(v, pos, except, i + 1);
    }
}

/// Moving an entity keeps the entities that block movement apart if the
/// entity does not block, or if no other entity blocks the tile to which
/// it moves.
pub proof fn blockers_apart_after_move(v: EntitiesView, id: EntityId, p: Position)
    requires
        v.wf(),
        v.blockers_apart(),
        id < v.pos.len(),
        lookup(v.blocks, id as int) == Some(true) ==> v.blocker_at(p, Some(id)) is None,
    ensures
        (EntitiesView { pos: v.pos.update(id as int, Some(p)), ..v }).blockers_apart(),
{
    let after = EntitiesView { pos: v.pos.update(id as int, Some(p)), ..v };
    blocker_from_finds(v, p, Some(id), 0);
    assert forall|a: int, b: int|
        #![trigger after.blocks[a], after.blocks[b]]
        0 <= a < after.pos.len() && 0 <= b < after.pos.len() && a != b && after.blocks[a] == Some(
            true,
        ) && after.blocks[b] == Some(true) && after.pos[a] is Some implies after.pos[a]
        != after.pos[b] by {
        if a == id {
            assert(!(v.blocks_at(b, p) && Some(id) != Some(b as usize)));
        } else if b == id {
            assert(!(v.blocks_at(a, p) && Some(id) != Some(a as usize)));
        } else {
            assert(v.blocks[a] == Some(true) && v.blocks[b] == Some(true));
        }
    }
}

impl EntitiesView {
    /// The store is well formed, no two entities that block movement stand
    /// on one tile, and every momentum is within its limit.
    pub open spec fn valid(self) -> bool {
        self.wf() && self.blockers_apart() && self.momentum_bounded()
    }

    /// The store `after` keeps what this store has: it is well formed; if
    /// no two entities that block movement stand on one tile in this
    /// store, none do in `after`; and if every momentum is within its
    /// limit in this store, every one is in `after`.
    pub open spec fn keeps(self, after: EntitiesView) -> bool {
        &&& after.wf()
        &&& self.blockers_apart() ==> after.blockers_apart()
        &&& self.momentum_bounded() ==> after.momentum_bounded()
    }
}

/// Removing an id from a list that grows strictly leaves such a list.
pub proof fn without_id_grows(ids: Seq<EntityId>, id: EntityId, bound: int)
    requires
        forall|i: int, j: int| 0 <= i < j < ids.len() ==> #[trigger] ids[i] < #[trigger] ids[j],
        forall|i: int| 0 <= i < ids.len() ==> #[trigger] ids[i] < bound,
    ensures
        forall|i: int, j: int|
            0 <= i < j < without_id(ids, id).len() ==> #[trigger] without_id(ids, id)[i]
                < #[trigger] without_id(ids, id)[j],
        forall|i: int|
            0 <= i < without_id(ids, id).len() ==> #[trigger] without_id(ids, id)[i] < bound,
{
    index_of_in_range(ids, id, 0);
    let after = without_id(ids, id);
    if index_of_from(ids, id, 0) is Some {
        let k = index_of_from(ids, id, 0)->0;
        assert forall|i: int, j: int| 0 <= i < j < after.len() implies #[trigger] after[i]
            < #[trigger] after[j] by {
            let i0 = if i < k {
                i
            } else {
                i + 1
            };
            let j0 = if j < k {
                j
            } else {
                j + 1
            };
            assert(ids[i0] < ids[j0]);
        }
        assert forall|i: int| 0 <= i < after.len() implies #[trigger] after[i] < bound by {
            let i0 = if i < k {
                i
            } else {
                i + 1
            };
            assert(ids[i0] < bound);
        }
    }
}

/// What a search for an id finds is a place of the list.
pub proof fn index_of_in_range(ids: Seq<EntityId>, id: EntityId, i: int)
    requires
        0 <= i,
    ensures
        index_of_from(ids, id, i) matches Some(k) ==> i <= k < ids.len() && ids[k] == id,
    decreases ids.len() - i,
{
    if i < ids.len() && ids[i] != id {
        index_of_in_range(ids, id, i + 1);
    }
}

/// Removing an entity leaves the store well formed.
pub proof fn removed_keeps_wf(v: EntitiesView, id: EntityId)
    requires
        v.wf(),
    ensures
        v.removed(id).wf(),
        v.removed(id).pos.len() == v.pos.len(),
{
    without_id_grows(v.ids, id, v.pos.len() as int);
}

impl Entities {
    /// Whether the store is well formed.
    pub open spec fn wf(&self) -> bool {
        self@.wf()
    }

    pub fn new() -> (e: Entities)
        ensures
            e@ == EntitiesView::empty(),
            e.wf(),
    {
        Entities {
            ids: Vec::new(),
            pos: CompStore::new(),
            name: CompStore::new(),
            chr: CompStore::new(),
            blocks: CompStore::new(),
            status: CompStore::new(),
            fighter: CompStore::new(),
            ai: CompStore::new(),
            behavior: CompStore::new(),
            momentum: CompStore::new(),
            movement: CompStore::new(),
            attack: CompStore::new(),
            count_down: CompStore::new(),
            needs_removal: CompStore::new(),
            limbo: CompStore::new(),
            action: CompStore::new(),
            item: CompStore::new(),
            move_mode: CompStore::new(),
            typ: CompStore::new(),
            trap: CompStore::new(),
            inventory: QueueStore::new(),
            animation: QueueStore::new(),
            messages: QueueStore::new(),
        }
    }

    /// Whether the store is well formed.
    pub fn is_wf(&self) -> (b: bool)
        ensures
            b == self.wf(),
    {
        let n: usize = self.pos.len();
        if self.name.len() != n
            || self.chr.len() != n
            || self.blocks.len() != n
            || self.status.len() != n
            || self.fighter.len() != n
            || self.ai.len() != n
            || self.behavior.len() != n
            || self.momentum.len() != n
            || self.movement.len() != n
            || self.attack.len() != n
            || self.count_down.len() != n
            || self.needs_removal.len() != n
            || self.limbo.len() != n
            || self.action.len() != n
            || self.item.len() != n
            || self.move_mode.len() != n
            || self.typ.len() != n
            || self.trap.len() != n
            || self.inventory.len() != n
            || self.animation.len() != n
            || self.messages.len() != n
        {
            return false;
        }
        let mut i: usize = 0;
        while i < self.ids.len()
            invariant
                0 <= i <= self.ids@.len(),
                n == self@.pos.len(),
                forall|a: int, b: int|
                    0 <= a < b < i ==> #[trigger] self.ids@[a] < #[trigger] self.ids@[b],
                forall|a: int| 0 <= a < i ==> #[trigger] self.ids@[a] < n,
            decreases self.ids@.len() - i,
        {
            assert(self.ids@ == self@.ids);
            if self.ids[i] >= n {
                assert(!(self@.ids[i as int] < self@.pos.len()));
                return false;
            }
            if i > 0 && self.ids[i - 1] >= self.ids[i] {
                assert(!(self@.ids[i as int - 1] < self@.ids[i as int]));
                return false;
            }
            proof {
                assert forall|a: int, b: int| 0 <= a < b < i + 1 implies #[trigger] self.ids@[a]
                    < #[trigger] self.ids@[b] by {
                    if b == i && a < i - 1 {
                        assert(self.ids@[a] < self.ids@[i - 1]);
                    }
                }
            }
            i = i + 1;
        }
        assert(self.ids@ == self@.ids);
        true
    }

    /// The number of ids handed out so far.
    pub fn count(&self) -> (n: usize)
        ensures
            n == self@.count(),
    {
        self.pos.len()
    }

    /// Makes a new entity without any attribute, and gives its id.
    pub fn create(&mut self) -> (id: EntityId)
        requires
            old(self).wf(),
        ensures
            id == old(self)@.count(),
            final(self)@ == old(self)@.created(),
            final(self).wf(),
    {
        let id: EntityId = self.pos.len();
        assert(old(self)@.wf());
        assert(self.ids@ == old(self)@.ids);
        assert(id == old(self)@.pos.len());
        assert(forall|a: int| 0 <= a < self.ids@.len() ==> #[trigger] self.ids@[a] < id);
        self.ids.push(id);
        proof {
            let ids = self.ids@;
            assert forall|i: int, j: int| 0 <= i < j < ids.len() implies #[trigger] ids[i]
                < #[trigger] ids[j] by {
                if j < ids.len() - 1 {
                    assert(old(self)@.ids[i] < old(self)@.ids[j]);
                } else {
                    assert(old(self)@.ids[i] < id);
                }
            }
        }
        self.pos.grow();
        self.name.grow();
        self.chr.grow();
        self.blocks.grow();
        self.status.grow();
        self.fighter.grow();
        self.ai.grow();
        self.behavior.grow();
        self.momentum.grow();
        self.movement.grow();
        self.attack.grow();
        self.count_down.grow();
        self.needs_removal.grow();
        self.limbo.grow();
        self.action.grow();
        self.item.grow();
        self.move_mode.grow();
        self.typ.grow();
        self.trap.grow();
        self.inventory.grow();
        self.animation.grow();
        self.messages.grow();
        let total: usize = self.pos.len();
        assert(self@.pos.len() == total);
        id
    }

    /// Whether the entity `id` exists.
    pub fn contains(&self, id: EntityId) -> (b: bool)
        ensures
            b == self@.exists_id(id),
    {
        let mut i: usize = 0;
        while i < self.ids.len()
            invariant
                0 <= i <= self.ids@.len(),
                forall|j: int| 0 <= j < i ==> self.ids@[j] != id,
            decreases self.ids@.len() - i,
        {
            if self.ids[i] == id {
                return true;
            }
            i = i + 1;
        }
        false
    }

    /// Removes the entity `id` with all its attributes. Removing an entity
    /// that does not exist changes nothing but for attributes that were
    /// left under its id.
    pub fn remove(&mut self, id: EntityId)
        requires
            old(self).wf(),
        ensures
            final(self)@ == old(self)@.removed(id),
            final(self).wf(),
    {
        assert(old(self)@.wf());
        assert(self.ids@ == old(self)@.ids);
        assert(forall|a: int, b: int|
            0 <= a < b < self.ids@.len() ==> #[trigger] self.ids@[a] < #[trigger] self.ids@[b]);
        let mut i: usize = 0;
        let mut found: bool = false;
        while i < self.ids.len()
            invariant_except_break
                !found,
            invariant
                0 <= i <= self.ids@.len(),
                self.ids@ == old(self).ids@,
                index_of_from(self.ids@, id, 0) == index_of_from(self.ids@, id, i as int),
            ensures
                found ==> i < self.ids@.len() && index_of_from(self.ids@, id, 0) == Some(i as int),
                !found ==> index_of_from(self.ids@, id, 0) is None,
            decreases self.ids@.len() - i,
        {
            if self.ids[i] == id {
                found = true;
                break;
            }
            i = i + 1;
        }
        if found {
            self.ids.remove(i);
            proof {
                let before = old(self).ids@;
                let after = self.ids@;
                assert forall|a: int, b: int| 0 <= a < b < after.len() implies #[trigger] after[a]
                    < #[trigger] after[b] by {
                    let a0 = if a < i {
                        a
                    } else {
                        a + 1
                    };
                    let b0 = if b < i {
                        b
                    } else {
                        b + 1
                    };
                    assert(before[a0] < before[b0]);
                }
                assert forall|a: int| 0 <= a < after.len() implies #[trigger] after[a]
                    < old(self)@.pos.len() by {
                    let a0 = if a < i {
                        a
                    } else {
                        a + 1
                    };
                    assert(before[a0] < old(self)@.pos.len());
                }
            }
        }
        self.pos.remove(id);
        self.name.remove(id);
        self.chr.remove(id);
        self.blocks.remove(id);
        self.status.remove(id);
        self.fighter.remove(id);
        self.ai.remove(id);
        self.behavior.remove(id);
        self.momentum.remove(id);
        self.movement.remove(id);
        self.attack.remove(id);
        self.count_down.remove(id);
        self.needs_removal.remove(id);
        self.limbo.remove(id);
        self.action.remove(id);
        self.item.remove(id);
        self.move_mode.remove(id);
        self.typ.remove(id);
        self.trap.remove(id);
        self.inventory.remove(id);
        self.animation.remove(id);
        self.messages.remove(id);
    }

    /// The ids of the entities that exist, in the order in which they were
    /// made.
    pub fn ids(&self) -> (v: Vec<EntityId>)
        ensures
            v@ == self@.ids,
    {
        let mut v: Vec<EntityId> = Vec::new();
        let mut i: usize = 0;
        while i < self.ids.len()
            invariant
                0 <= i <= self.ids@.len(),
                v@ == self.ids@.subrange(0, i as int),
            decreases self.ids@.len() - i,
        {
            v.push(self.ids[i]);
            proof {
                assert(v@ =~= self.ids@.subrange(0, i as int + 1));
            }
            i = i + 1;
        }
        proof {
            assert(v@ =~= self.ids@);
        }
        v
    }

    /// The entity that was made first among those named `name`.
    pub fn find_by_name(&self, name: EntityName) -> (r: Option<EntityId>)
        ensures
            r == self@.find_by_name(name),
    {
        let mut i: usize = 0;
        while i < self.name.len()
            invariant
                0 <= i <= self@.name.len(),
                self@.find_by_name(name) == self@.find_name_from(name, i as int),
            decreases self@.name.len() - i,
        {
            if self.name.get(i) == Some(name) {
                return Some(i);
            }
            i = i + 1;
        }
        None
    }

    /// The player.
    pub fn find_player(&self) -> (r: Option<EntityId>)
        ensures
            r == self@.find_by_name(EntityName::Player),
    {
        self.find_by_name(EntityName::Player)
    }

    /// The exit of the level.
    pub fn find_exit(&self) -> (r: Option<EntityId>)
        ensures
            r == self@.find_by_name(EntityName::Exit),
    {
        self.find_by_name(EntityName::Exit)
    }

    /// The entity, other than `except`, that blocks the tile `pos`.
    pub fn blocking_entity_at(&self, pos: Pos, except: Option<EntityId>) -> (r: Option<EntityId>)
        requires
            self.wf(),
        ensures
            r == self@.blocker_at(pos, except),
    {
        let mut i: usize = 0;
        while i < self.pos.len()
            invariant
                self.wf(),
                0 <= i <= self@.pos.len(),
                self@.blocker_at(pos, except) == self@.blocker_from(pos, except, i as int),
            decreases self@.pos.len() - i,
        {
            let not_excepted: bool = match except {
                Some(e) => e != i,
                None => true,
            };
            if not_excepted && self.blocks.get(i) == Some(true) && self.pos.get(i) == Some(pos) {
                return Some(i);
            }
            i = i + 1;
        }
        None
    }

    /// The item that lies at `pos`.
    pub fn item_at(&self, pos: Pos) -> (r: Option<EntityId>)
        requires
            self.wf(),
        ensures
            r == self@.item_at(pos),
    {
        let mut i: usize = 0;
        while i < self.pos.len()
            invariant
                self.wf(),
                0 <= i <= self@.pos.len(),
                self@.item_at(pos) == self@.item_from(pos, i as int),
            decreases self@.pos.len() - i,
        {
            if self.item.contains(i) && self.pos.get(i) == Some(pos) {
                return Some(i);
            }
            i = i + 1;
        }
        None
    }

    /// The trap that lies at `pos`.
    pub fn trap_at(&self, pos: Pos) -> (r: Option<EntityId>)
        requires
            self.wf(),
        ensures
            r == self@.trap_at(pos),
    {
        let mut i: usize = 0;
        while i < self.pos.len()
            invariant
                self.wf(),
                0 <= i <= self@.pos.len(),
                self@.trap_at(pos) == self@.trap_from(pos, i as int),
            decreases self@.pos.len() - i,
        {
            if self.trap.contains(i) && self.pos.get(i) == Some(pos) {
                return Some(i);
            }
            i = i + 1;
        }
        None
    }

    /// The first item of the kind `item` in the inventory of `holder`.
    pub fn is_in_inventory(&self, holder: EntityId, item: Item) -> (r: Option<EntityId>)
        ensures
            r == self@.in_inventory(holder, item),
    {
        if !self.inventory.contains(holder) {
            return None;
        }
        let ghost inv = lookup(self@.inventory, holder as int)->0;
        let n: usize = self.inventory.queue_len(holder);
        let mut j: usize = 0;
        while j < n
            invariant
                0 <= j <= n,
                n == inv.len(),
                lookup(self@.inventory, holder as int) == Some(inv),
                self@.kind_from(inv, item, 0) == self@.kind_from(inv, item, j as int),
            decreases n - j,
        {
            let held: EntityId = self.inventory.item(holder, j);
            if self.item.get(held) == Some(item) {
                return Some(held);
            }
            j = j + 1;
        }
        None
    }

    /// The place of `item` in the inventory of `holder`.
    pub fn inventory_index(&self, holder: EntityId, item: EntityId) -> (r: Option<usize>)
        ensures
            match r {
                Some(k) => lookup(self@.inventory, holder as int) matches Some(inv) && k
                    < inv.len() && index_of_from(inv, item, 0) == Some(k as int),
                None => lookup(self@.inventory, holder as int) matches Some(inv)
                    ==> index_of_from(inv, item, 0) is None,
            },
    {
        if !self.inventory.contains(holder) {
            return None;
        }
        let ghost inv = lookup(self@.inventory, holder as int)->0;
        let n: usize = self.inventory.queue_len(holder);
        let mut j: usize = 0;
        while j < n
            invariant
                0 <= j <= n,
                n == inv.len(),
                lookup(self@.inventory, holder as int) == Some(inv),
                index_of_from(inv, item, 0) == index_of_from(inv, item, j as int),
            decreases n - j,
        {
            if self.inventory.item(holder, j) == item {
                return Some(j);
            }
            j = j + 1;
        }
        None
    }

    /// Takes `item` out of the inventory of `holder`. The item itself is
    /// not removed from the store.
    pub fn remove_item(&mut self, holder: EntityId, item: EntityId)
        requires
            old(self).wf(),
        ensures
            final(self)@ == old(self)@.item_removed(holder, item),
            final(self).wf(),
    {
        assert(old(self)@.wf());
        assert(self@.inventory == old(self)@.inventory);
        match self.inventory_index(holder, item) {
            Some(k) => {
                self.inventory.remove_at(holder, k);
                proof {
                    let inv_store = old(self)@.inventory;
                    let inv = lookup(inv_store, holder as int)->0;
                    assert(without_id(inv, item) == inv.remove(k as int));
                    assert(self@.inventory == inv_store.update(
                        holder as int,
                        Some(inv.remove(k as int)),
                    ));
                }
            },
            None => {
                proof {
                    let inv_store = old(self)@.inventory;
                    if lookup(inv_store, holder as int) is Some {
                        let inv = lookup(inv_store, holder as int)->0;
                        assert(without_id(inv, item) == inv);
                        assert(inv_store =~= inv_store.update(holder as int, Some(inv)));
                    }
                }
            },
        }
    }

    /// Whether the entity has a status and is not alive.
    pub fn is_dead(&self, id: EntityId) -> (b: bool)
        ensures
            b == self@.is_dead(id),
    {
        match self.status.get(id) {
            Some(s) => !s.alive,
            None => false,
        }
    }
}

} // verus!
