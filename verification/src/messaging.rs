//! The messages that describe what happens in the world, and the log that
//! carries them from where they arise to where they take effect.

use crate::action::{Action, GameState, MoveMode};
use crate::momentum::Movement;
use crate::object::{Behavior, ObjType};
use crate::types::{EntityId, Hp, Pos};
use std::collections::VecDeque;
use vstd::prelude::*;

verus! {

/// One event. A message is a plain value: it names entities and tiles, and
/// holds nothing of them.
#[derive(Copy, Clone, PartialEq, Eq, Debug, Structural)]
pub enum Msg {
    Pass(),
    /// The entity that crushed, the tile, and the kind of what was crushed.
    Crushed(EntityId, Pos, ObjType),
    /// The entity that made the sound, where, how far it carries, and
    /// whether it is shown.
    Sound(EntityId, Pos, usize, bool),
    /// The trap and the entity that set it off.
    SoundTrapTriggered(EntityId, EntityId),
    /// The trap and the entity that set it off.
    SpikeTrapTriggered(EntityId, EntityId),
    PlayerDeath,
    /// The entity and the item that it picked up.
    PickedUp(EntityId, EntityId),
    /// The entity and the item that it dropped.
    DropItem(EntityId, EntityId),
    /// The thrower, the item, and the tiles from which and to which it
    /// is thrown.
    ItemThrow(EntityId, EntityId, Pos, Pos),
    /// The attacker, the target and the hit points lost.
    Attack(EntityId, EntityId, Hp),
    /// The attacker, the target and the hit points lost.
    Killed(EntityId, EntityId, Hp),
    /// The entity, how it moved and where it now stands.
    Moved(EntityId, Movement, Pos),
    /// The entity, and the tiles from which and to which it jumped.
    JumpWall(EntityId, Pos, Pos),
    WallKick(EntityId, Pos),
    StateChange(EntityId, Behavior),
    Collided(EntityId, Pos),
    Yell(Pos),
    GameState(GameState),
    MoveMode(MoveMode),
    TriedRunWithShield,
    SpawnedObject(EntityId),
    ChangeLevel(),
    /// The entity and what it intends to do.
    Action(EntityId, Action),
    PlayerTurn(),
    /// The entity that swings the hammer, and the tile at which it aims.
    HammerSwing(EntityId, Pos),
    /// The entity that swings the hammer, and the entity that it hits.
    HammerHitEntity(EntityId, EntityId),
    /// The entity that swings the hammer, and the tile behind the wall.
    HammerHitWall(EntityId, Pos),
    /// Something that the entity set about could not be done.
    Unavailable(EntityId),
}

/// Two queues of the same messages: the one that the resolver drains, and
/// the one that keeps the messages of the turn for whoever displays them.
#[derive(Clone, Debug)]
pub struct MsgLog {
    pub messages: VecDeque<Msg>,
    pub turn_messages: VecDeque<Msg>,
}

/// The mathematical value of a [`MsgLog`].
pub struct MsgLogView {
    pub messages: Seq<Msg>,
    pub turn_messages: Seq<Msg>,
}

impl View for MsgLog {
    type V = MsgLogView;

    open spec fn view(&self) -> MsgLogView {
        MsgLogView { messages: self.messages@, turn_messages: self.turn_messages@ }
    }
}

impl MsgLogView {
    /// The log with `msg` at the end of both queues.
    pub open spec fn log(self, msg: Msg) -> MsgLogView {
        MsgLogView {
            messages: self.messages.push(msg),
            turn_messages: self.turn_messages.push(msg),
        }
    }

    /// The log with `msg` at the head of both queues.
    pub open spec fn log_front(self, msg: Msg) -> MsgLogView {
        MsgLogView {
            messages: seq![msg] + self.messages,
            turn_messages: seq![msg] + self.turn_messages,
        }
    }

    /// The log without the head of the main queue.
    pub open spec fn popped(self) -> MsgLogView {
        MsgLogView { messages: self.messages.drop_first(), ..self }
    }

    /// The empty log.
    pub open spec fn empty() -> MsgLogView {
        MsgLogView { messages: Seq::empty(), turn_messages: Seq::empty() }
    }
}

impl MsgLog {
    pub fn new() -> (log: MsgLog)
        ensures
            log@ == MsgLogView::empty(),
    {
        return MsgLog { messages: VecDeque::new(), turn_messages: VecDeque::new() };
    }

    /// Takes the oldest message off the main queue; the messages of the
    /// turn stay.
    pub fn pop(&mut self) -> (r: Option<Msg>)
        ensures
            old(self)@.messages.len() == 0 ==> r is None && final(self)@ == old(self)@,
            old(self)@.messages.len() > 0 ==> r == Some(old(self)@.messages[0]) && final(self)@
                == old(self)@.popped(),
    {
        let r = self.messages.pop_front();
        proof {
            if old(self)@.messages.len() > 0 {
                assert(self.messages@ =~= old(self)@.messages.drop_first());
            }
        }
        return r;
    }

    /// Appends `msg` to both queues.
    pub fn log(&mut self, msg: Msg)
        ensures
            final(self)@ == old(self)@.log(msg),
    {
        self.messages.push_back(msg);
        self.turn_messages.push_back(msg);
    }

    /// Puts `msg` at the head of both queues, before what is waiting.
    pub fn log_front(&mut self, msg: Msg)
        ensures
            final(self)@ == old(self)@.log_front(msg),
    {
        self.messages.push_front(msg);
        self.turn_messages.push_front(msg);
    }

    /// Empties both queues.
    pub fn clear(&mut self)
        ensures
            final(self)@ == MsgLogView::empty(),
    {
        self.messages.clear();
        self.turn_messages.clear();
    }
}

} // verus!
