//! The world: the map and the entities on it.

use crate::entities::{Entities, EntitiesView};
use crate::map::{MapView, TileMap};
use crate::object::{EntityName, Item};
use crate::types::{EntityId, Pos, Position};
use vstd::prelude::*;

verus! {

/// The map and the entities of a level.
#[derive(Clone, Debug)]
pub struct GameData {
    pub map: TileMap,
    pub entities: Entities,
}

/// The mathematical value of the world.
pub struct DataView {
    pub map: MapView,
    pub entities: EntitiesView,
}

impl View for GameData {
    type V = DataView;

    open spec fn view(&self) -> DataView {
        DataView { map: self.map@, entities: self.entities@ }
    }
}

impl DataView {
    /// Whether nothing can enter the tile `pos`: the tile itself lets
    /// nothing pass, or an entity other than `except` blocks it.
    pub open spec fn is_blocked(self, pos: Position, except: Option<EntityId>) -> bool {
        self.map.tile_blocked(pos) || self.entities.blocker_at(pos, except) is Some
    }
}

impl GameData {
    /// The map and the entity store are both well formed.
    pub open spec fn wf(&self) -> bool {
        self.map.wf() && self.entities.wf()
    }

    pub fn new(map: TileMap, entities: Entities) -> (d: GameData)
        ensures
            d.map == map,
            d.entities == entities,
    {
        GameData { map, entities }
    }

    /// Whether the map and the entity store are both well formed.
    pub fn is_wf(&self) -> (b: bool)
        ensures
            b == self.wf(),
    {
        self.map.is_wf() && self.entities.is_wf()
    }

    pub fn find_by_name(&self, name: EntityName) -> (r: Option<EntityId>)
        ensures
            r == self@.entities.find_by_name(name),
    {
        self.entities.find_by_name(name)
    }

    pub fn find_player(&self) -> (r: Option<EntityId>)
        ensures
            r == self@.entities.find_by_name(EntityName::Player),
    {
        self.entities.find_player()
    }

    pub fn find_exit(&self) -> (r: Option<EntityId>)
        ensures
            r == self@.entities.find_by_name(EntityName::Exit),
    {
        self.entities.find_exit()
    }

    pub fn is_in_inventory(&self, holder: EntityId, item: Item) -> (r: Option<EntityId>)
        ensures
            r == self@.entities.in_inventory(holder, item),
    {
        self.entities.is_in_inventory(holder, item)
    }

    /// Removes the entity with all its attributes.
    pub fn remove_entity(&mut self, id: EntityId)
        requires
            old(self).wf(),
        ensures
            final(self).wf(),
            final(self)@ == (DataView {
                entities: old(self)@.entities.removed(id),
                ..old(self)@
            }),
    {
        self.entities.remove(id);
    }

    /// Whether nothing can enter the tile `pos`.
    pub fn is_blocked(&self, pos: Pos, except: Option<EntityId>) -> (b: bool)
        requires
            self.wf(),
        ensures
            b == self@.is_blocked(pos, except),
    {
        self.map.is_tile_blocked(pos) || self.entities.blocking_entity_at(pos, except).is_some()
    }
}

} // verus!
