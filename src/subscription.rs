//! Subscriptions: what is subscribed to, the delivery queue of each, and the
//! registry that routes a channel to its subscription.
use vstd::prelude::*;
use std::collections::VecDeque;
use crate::event::Event;
use crate::value::Object;

verus! {

/// The kinds of record that can be subscribed to.
#[derive(Clone, Copy, Debug, PartialEq, Eq, Structural)]
pub enum SubscriptionModel {
    Alliance,
    AlliancePosition,
    Bankrec,
    BBGame,
    BBTeam,
    Bounty,
    City,
    Embargo,
    Nation,
    TaxBracket,
    Trade,
    TreasureTrade,
    Treaty,
    WarAttack,
    War,
}

/// The wire token of a model.
pub open spec fn model_text(m: SubscriptionModel) -> Seq<char> {
    match m {
        SubscriptionModel::Alliance => "alliance"@,
        SubscriptionModel::AlliancePosition => "alliance_position"@,
        SubscriptionModel::Bankrec => "bankrec"@,
        SubscriptionModel::BBGame => "bbgame"@,
        SubscriptionModel::BBTeam => "bbteam"@,
        SubscriptionModel::Bounty => "bounty"@,
        SubscriptionModel::City => "city"@,
        SubscriptionModel::Embargo => "embargo"@,
        SubscriptionModel::Nation => "nation"@,
        SubscriptionModel::TaxBracket => "tax_bracket"@,
        SubscriptionModel::Trade => "trade"@,
        SubscriptionModel::TreasureTrade => "treasure_trade"@,
        SubscriptionModel::Treaty => "treaty"@,
        SubscriptionModel::WarAttack => "warattack"@,
        SubscriptionModel::War => "war"@,
    }
}

impl SubscriptionModel {
    /// The wire token.
    pub fn to_string(&self) -> (r: String)
        ensures
            r@ == model_text(*self),
    {
        match self {
            SubscriptionModel::Alliance => String::from_str("alliance"),
            SubscriptionModel::AlliancePosition => String::from_str("alliance_position"),
            SubscriptionModel::Bankrec => String::from_str("bankrec"),
            SubscriptionModel::BBGame => String::from_str("bbgame"),
            SubscriptionModel::BBTeam => String::from_str("bbteam"),
            SubscriptionModel::Bounty => String::from_str("bounty"),
            SubscriptionModel::City => String::from_str("city"),
            SubscriptionModel::Embargo => String::from_str("embargo"),
            SubscriptionModel::Nation => String::from_str("nation"),
            SubscriptionModel::TaxBracket => String::from_str("tax_bracket"),
            SubscriptionModel::Trade => String::from_str("trade"),
            SubscriptionModel::TreasureTrade => String::from_str("treasure_trade"),
            SubscriptionModel::Treaty => String::from_str("treaty"),
            SubscriptionModel::WarAttack => String::from_str("warattack"),
            SubscriptionModel::War => String::from_str("war"),
        }
    }
}

/// The changes that can be subscribed to.
#[derive(Clone, Copy, Debug, PartialEq, Eq, Structural)]
pub enum SubscriptionEvent {
    Create,
    Delete,
    Update,
}

/// The wire token of an event.
pub open spec fn event_text(e: SubscriptionEvent) -> Seq<char> {
    match e {
        SubscriptionEvent::Create => "create"@,
        SubscriptionEvent::Delete => "delete"@,
        SubscriptionEvent::Update => "update"@,
    }
}

impl SubscriptionEvent {
    /// The wire token.
    pub fn to_string(&self) -> (r: String)
        ensures
            r@ == event_text(*self),
    {
        match self {
            SubscriptionEvent::Create => String::from_str("create"),
            SubscriptionEvent::Delete => String::from_str("delete"),
            SubscriptionEvent::Update => String::from_str("update"),
        }
    }
}

/// The objects delivered to a subscription, first in first out, unbounded.
#[derive(Debug)]
pub struct SubscriptionQueue {
    pub items: VecDeque<Object>,
}

impl SubscriptionQueue {
    pub open spec fn view(&self) -> Seq<Object> {
        self.items@
    }

    pub fn new() -> (r: SubscriptionQueue)
        ensures
            r@.len() == 0,
    {
        SubscriptionQueue { items: VecDeque::new() }
    }

    /// Appends one object.
    pub fn push(&mut self, object: Object)
        ensures
            final(self)@ == old(self)@.push(object),
    {
        self.items.push_back(object);
    }

    /// Appends objects in order.
    pub fn extend(&mut self, objects: Vec<Object>)
        ensures
            final(self)@ == old(self)@ + objects@,
    {
        let mut objects = objects;
        let ghost all = objects@;
        let ghost start = self@;
        let ghost n = all.len();
        while objects.len() > 0
            invariant
                n == all.len(),
                objects@.len() <= n,
                objects@ == all.subrange(n - objects@.len(), n as int),
                self@ == start + all.subrange(0, n - objects@.len()),
            decreases objects@.len(),
        {
            let ghost k = n - objects@.len();
            let x = objects.remove(0);
            self.items.push_back(x);
            assert(objects@ =~= all.subrange(n - objects@.len(), n as int));
            assert(all.subrange(0, k + 1) =~= all.subrange(0, k).push(x));
            assert(self@ =~= start + all.subrange(0, n - objects@.len()));
        }
        assert(all.subrange(0, n as int) =~= all);
    }

    /// The oldest object, if any; a caller with none waits for a push.
    pub fn pop(&mut self) -> (r: Option<Object>)
        ensures
            old(self)@.len() == 0 ==> r is None && final(self)@ == old(self)@,
            old(self)@.len() > 0 ==> r == Some(old(self)@[0]) && final(self)@ == old(self)@.drop_first(),
    {
        let r = self.items.pop_front();
        proof {
            if r is Some {
                assert(self@ =~= old(self)@.drop_first());
            }
        }
        r
    }

    pub fn is_empty(&self) -> (r: bool)
        ensures
            r == (self@.len() == 0),
    {
        self.items.len() == 0
    }
}

impl Default for SubscriptionQueue {
    fn default() -> (r: SubscriptionQueue)
        ensures
            r@.len() == 0,
    {
        SubscriptionQueue::new()
    }
}

/// A subscription: what it is to, the channel the server named for it,
/// whether the server confirmed it, and what has been delivered.
#[derive(Debug)]
pub struct Subscription {
    pub model: SubscriptionModel,
    pub event: SubscriptionEvent,
    pub filters: Object,
    pub channel: String,
    pub succeeded: Event,
    pub queue: SubscriptionQueue,
}

impl Subscription {
    pub fn new(model: SubscriptionModel, event: SubscriptionEvent, filters: Object, channel: String) -> (r: Subscription)
        ensures
            r.model == model,
            r.event == event,
            r.filters == filters,
            r.channel == channel,
            !r.succeeded.state.0,
            r.queue@.len() == 0,
    {
        Subscription {
            model,
            event,
            filters,
            channel,
            succeeded: Event::new(),
            queue: SubscriptionQueue::new(),
        }
    }

    /// Takes the channel that the server named anew.
    pub fn set_channel(&mut self, channel: String)
        ensures
            *final(self) == (Subscription { channel, ..*old(self) }),
    {
        self.channel = channel;
    }

    /// The oldest delivered object, if any.
    pub fn next(&mut self) -> (r: Option<Object>)
        ensures
            old(self).queue@.len() == 0 ==> r is None && final(self).queue@ == old(self).queue@,
            old(self).queue@.len() > 0 ==> r == Some(old(self).queue@[0])
                && final(self).queue@ == old(self).queue@.drop_first(),
            final(self).channel == old(self).channel,
    {
        self.queue.pop()
    }

    /// Delivers one object.
    pub fn push(&mut self, object: Object)
        ensures
            final(self).queue@ == old(self).queue@.push(object),
            final(self).channel == old(self).channel,
    {
        self.queue.push(object);
    }

    /// Delivers objects in order.
    pub fn extend(&mut self, objects: Vec<Object>)
        ensures
            final(self).queue@ == old(self).queue@ + objects@,
            final(self).channel == old(self).channel,
    {
        self.queue.extend(objects);
    }
}

} // verus!
