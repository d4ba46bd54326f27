//! What handling one message does: the new world, the messages that it
//! sends out, and whether it could be done at all.

use crate::data::DataView;
use crate::messaging::{Msg, MsgLog, MsgLogView};
use crate::settings::GameSettings;
use crate::types::EntityId;
use vstd::prelude::*;

verus! {

/// The kinds of failure of the simulation.
#[derive(Clone, Copy, Debug, PartialEq, Eq, Structural)]
pub enum GameError {
    /// The world is in a state that the rules exclude; the turn ends.
    InvariantViolation,
    /// The player asked for something whose prerequisites are missing.
    UserError,
}

/// The result of handling one message.
pub struct Effect {
    /// The world afterwards.
    pub data: DataView,
    /// The settings afterwards.
    pub settings: GameSettings,
    /// The messages to handle before everything that waits, in order.
    pub front: Seq<Msg>,
    /// The messages to handle after everything that waits, in order.
    pub back: Seq<Msg>,
    /// The entity whose undertaking could not be done, if the message was
    /// dropped for that reason.
    pub unavailable: Option<EntityId>,
    /// Whether the message names what cannot be; the turn then ends.
    pub violation: bool,
}

impl Effect {
    /// Nothing happens.
    pub open spec fn none(data: DataView, settings: GameSettings) -> Effect {
        Effect {
            data: data,
            settings: settings,
            front: Seq::empty(),
            back: Seq::empty(),
            unavailable: None,
            violation: false,
        }
    }

    /// The message is dropped because `id` lacks what it needs.
    pub open spec fn dropped(data: DataView, settings: GameSettings, id: EntityId) -> Effect {
        Effect { unavailable: Some(id), ..Effect::none(data, settings) }
    }

    /// The message names what cannot be.
    pub open spec fn violated(data: DataView, settings: GameSettings) -> Effect {
        Effect { violation: true, ..Effect::none(data, settings) }
    }

    /// The same effect, which also sends `msg` after everything else.
    pub open spec fn emit(self, msg: Msg) -> Effect {
        Effect { back: self.back.push(msg), ..self }
    }

    /// The same effect, which also sends `msg` before everything else.
    pub open spec fn emit_front(self, msg: Msg) -> Effect {
        Effect { front: seq![msg] + self.front, ..self }
    }

    /// What is written to the messages of the turn for a dropped message.
    pub open spec fn note(self) -> Seq<Msg> {
        match self.unavailable {
            Some(id) => seq![Msg::Unavailable(id)],
            None => Seq::empty(),
        }
    }

    /// The log after the effect: what it sends out goes to both queues,
    /// and the note of a dropped message to the messages of the turn only.
    pub open spec fn logged(self, log: MsgLogView) -> MsgLogView {
        MsgLogView {
            messages: self.front + log.messages + self.back,
            turn_messages: self.front + log.turn_messages + self.back + self.note(),
        }
    }
}

/// Notes in the messages of the turn that what `id` set about could not
/// be done. The note does not wait to be handled.
pub fn note_unavailable(msg_log: &mut MsgLog, id: EntityId)
    ensures
        final(msg_log)@ == (MsgLogView {
            turn_messages: old(msg_log)@.turn_messages.push(Msg::Unavailable(id)),
            ..old(msg_log)@
        }),
{
    msg_log.turn_messages.push_back(Msg::Unavailable(id));
}

/// How much work a message can still cause: more than all the messages
/// together that handling it sends out.
pub open spec fn msg_weight(msg: Msg) -> nat {
    match msg {
        Msg::Action(_, _) => 16,
        Msg::Moved(_, _, _) => 7,
        Msg::HammerSwing(_, _) => 5,
        Msg::SpikeTrapTriggered(_, _) => 5,
        Msg::HammerHitWall(_, _) => 4,
        Msg::Attack(_, _, _) => 3,
        Msg::HammerHitEntity(_, _) => 3,
        Msg::Killed(_, _, _) => 2,
        Msg::Yell(_) => 2,
        Msg::SoundTrapTriggered(_, _) => 2,
        Msg::ItemThrow(_, _, _, _) => 2,
        _ => 1,
    }
}

/// The weights of the messages of a queue, added up.
pub open spec fn queue_weight(q: Seq<Msg>) -> nat
    decreases q.len(),
{
    if q.len() == 0 {
        0
    } else {
        msg_weight(q[0]) + queue_weight(q.drop_first())
    }
}

/// The weight of two queues put together is the sum of their weights.
pub proof fn queue_weight_concat(a: Seq<Msg>, b: Seq<Msg>)
    ensures
        queue_weight(a + b) == queue_weight(a) + queue_weight(b),
    decreases a.len(),
{
    if a.len() == 0 {
        assert(a + b =~= b);
    } else {
        assert((a + b).drop_first() =~= a.drop_first() + b);
        queue_weight_concat(a.drop_first(), b);
    }
}

/// The weight of a queue of one message is the weight of the message.
pub proof fn queue_weight_one(m: Msg)
    ensures
        queue_weight(seq![m]) == msg_weight(m),
{
    let one = seq![m];
    assert(one.len() == 1);
    assert(one[0] == m);
    assert(one.drop_first() =~= Seq::<Msg>::empty());
    assert(queue_weight(one.drop_first()) == 0);
}

/// The weight of a queue with one more message at its end.
pub proof fn queue_weight_push(q: Seq<Msg>, m: Msg)
    ensures
        queue_weight(q.push(m)) == queue_weight(q) + msg_weight(m),
{
    assert(q.push(m) =~= q + seq![m]);
    queue_weight_concat(q, seq![m]);
    queue_weight_one(m);
}

impl Effect {
    /// The weight of all that the effect sends out.
    pub open spec fn weight(self) -> nat {
        queue_weight(self.front) + queue_weight(self.back)
    }
}

/// An effect that sends nothing out weighs nothing.
pub proof fn silent_weight(data: DataView, settings: GameSettings, id: EntityId)
    ensures
        Effect::none(data, settings).weight() == 0,
        Effect::dropped(data, settings, id).weight() == 0,
        Effect::violated(data, settings).weight() == 0,
{
}

/// Sending one more message adds the weight of the message.
pub proof fn emit_weight(eff: Effect, msg: Msg)
    ensures
        eff.emit(msg).weight() == eff.weight() + msg_weight(msg),
        eff.emit_front(msg).weight() == eff.weight() + msg_weight(msg),
        eff.emit(msg).data == eff.data,
        eff.emit_front(msg).data == eff.data,
{
    queue_weight_push(eff.back, msg);
    queue_weight_concat(seq![msg], eff.front);
    queue_weight_one(msg);
}

/// What a handler hands back: the messages that it sends out, and
/// whether the message could be handled. The handler changes the world
/// and the settings in place.
pub struct Outcome {
    pub front: Vec<Msg>,
    pub back: Vec<Msg>,
    pub unavailable: Option<EntityId>,
    pub violation: bool,
}

impl Outcome {
    /// Whether the outcome is the one of the effect `eff`.
    pub open spec fn is(&self, eff: Effect) -> bool {
        &&& self.front@ == eff.front
        &&& self.back@ == eff.back
        &&& self.unavailable == eff.unavailable
        &&& self.violation == eff.violation
    }

    /// Nothing is sent.
    pub fn none() -> (out: Outcome)
        ensures
            out.front@ == Seq::<Msg>::empty(),
            out.back@ == Seq::<Msg>::empty(),
            out.unavailable is None,
            !out.violation,
    {
        Outcome { front: Vec::new(), back: Vec::new(), unavailable: None, violation: false }
    }

    /// The message is dropped because `id` lacks what it needs.
    pub fn dropped(id: EntityId) -> (out: Outcome)
        ensures
            out.front@ == Seq::<Msg>::empty(),
            out.back@ == Seq::<Msg>::empty(),
            out.unavailable == Some(id),
            !out.violation,
    {
        Outcome { front: Vec::new(), back: Vec::new(), unavailable: Some(id), violation: false }
    }

    /// The message names what cannot be.
    pub fn violated() -> (out: Outcome)
        ensures
            out.front@ == Seq::<Msg>::empty(),
            out.back@ == Seq::<Msg>::empty(),
            out.unavailable is None,
            out.violation,
    {
        Outcome { front: Vec::new(), back: Vec::new(), unavailable: None, violation: true }
    }

    /// Sends `msg` after everything else.
    pub fn emit(&mut self, msg: Msg)
        ensures
            final(self).back@ == old(self).back@.push(msg),
            final(self).front@ == old(self).front@,
            final(self).unavailable == old(self).unavailable,
            final(self).violation == old(self).violation,
    {
        self.back.push(msg);
    }

    /// Sends `msg` before everything else.
    pub fn emit_front(&mut self, msg: Msg)
        ensures
            final(self).front@ == seq![msg] + old(self).front@,
            final(self).back@ == old(self).back@,
            final(self).unavailable == old(self).unavailable,
            final(self).violation == old(self).violation,
    {
        self.front.insert(0, msg);
        assert(self.front@ =~= seq![msg] + old(self).front@);
    }
}

} // verus!
