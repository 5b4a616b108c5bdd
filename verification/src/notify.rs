use vstd::prelude::*;
use tokio::sync::broadcast::Sender;
use tokio::sync::broadcast::error::SendError;
use crate::model::Event;
use crate::ws_dto::WSMessage;

verus! {

/// The number of events that a lobby's channel keeps for subscribers that lag behind.
pub const CHANNEL_CAPACITY: usize = 100;

/// tokio's `broadcast::Sender`: the sending half of a channel with many
/// subscribers. Nothing inside it is visible here.
#[verifier::external_type_specification]
#[verifier::external_body]
#[verifier::reject_recursive_types(T)]
pub struct ExSender<T>(Sender<T>);

/// tokio's `broadcast::error::SendError`: a value that the channel did not take.
#[verifier::external_type_specification]
#[verifier::external_body]
#[verifier::reject_recursive_types(T)]
pub struct ExSendError<T>(SendError<T>);

/// tokio's `broadcast::Sender::send`. It hands the value to every receiver
/// that is subscribed at that moment and returns their number, which is then
/// at least one; with no receiver it fails.
pub assume_specification<T>[ Sender::<T>::send ](tx: &Sender<T>, value: T) -> (r: Result<
    usize,
    SendError<T>,
>)
    ensures
        r matches Ok(receivers) ==> receivers > 0,
;

/// tokio's `broadcast::Sender::receiver_count`: the number of receivers
/// subscribed at that moment, of which nothing is known beforehand.
pub assume_specification<T>[ Sender::<T>::receiver_count ](tx: &Sender<T>) -> (n: usize);

/// tokio's `broadcast::Sender::new`: the sending half of a new channel that
/// keeps `capacity` values and has no receiver yet. It panics on a capacity of
/// zero or above half of `usize::MAX`.
pub assume_specification<T>[ Sender::<T>::new ](capacity: usize) -> (tx: Sender<T>)
    requires
        0 < capacity <= usize::MAX / 2,
;

/// What became of an event that was announced only if somebody listens.
#[derive(Clone, Copy, Debug, PartialEq, Eq, Structural)]
pub enum Delivery {
    /// Nobody was subscribed, so the event was not handed to the channel.
    NoSubscribers,
    /// The channel took the event.
    Sent,
    /// Somebody was subscribed and the channel still did not take the event.
    Failed,
}

/// A lobby's channel together with the record of what was handed to it.
pub struct Notifier {
    pub(crate) tx: Sender<WSMessage>,
    pub(crate) log: Ghost<Seq<Event>>,
}

impl Notifier {
    /// Every event handed to the channel so far, oldest first.
    pub open(crate) spec fn history(&self) -> Seq<Event> {
        self.log@
    }

    /// The sending half of the channel.
    pub open(crate) spec fn channel(&self) -> Sender<WSMessage> {
        self.tx
    }

    /// A channel without subscribers, to which nothing has been handed.
    pub fn new() -> (notifier: Notifier)
        ensures
            notifier.history() == Seq::<Event>::empty(),
    {
        Notifier { tx: Sender::new(CHANNEL_CAPACITY), log: Ghost(Seq::empty()) }
    }

    /// Hands `msg` to the channel, whoever listens. Returns whether the
    /// channel took it, which it does not while nobody is subscribed.
    pub fn publish(&mut self, msg: WSMessage) -> (taken: bool)
        ensures
            final(self).history() == old(self).history().push(msg@),
            final(self).channel() == old(self).channel(),
    {
        proof {
            self.log@ = self.log@.push(msg@);
        }
        self.tx.send(msg).is_ok()
    }

    /// Hands `msg` to the channel if it has a subscriber, and says what
    /// became of it.
    pub fn announce(&mut self, msg: WSMessage) -> (delivery: Delivery)
        ensures
            delivery == Delivery::NoSubscribers ==> final(self).history() == old(self).history(),
            delivery != Delivery::NoSubscribers ==> final(self).history() == old(
                self,
            ).history().push(msg@),
            final(self).channel() == old(self).channel(),
    {
        let receivers = self.tx.receiver_count();
        let taken = if receivers > 0 {
            self.publish(msg)
        } else {
            false
        };
        Delivery::of(receivers, taken)
    }

    /// The sending half of the channel, from which a transport subscribes.
    pub fn sender(&self) -> (tx: &Sender<WSMessage>)
        ensures
            *tx == self.channel(),
    {
        &self.tx
    }
}

impl Delivery {
    /// What became of an event that is handed to a channel only if it has a
    /// subscriber: with `receivers` subscribers counted beforehand, and
    /// `taken` saying whether the channel took the event where it was handed
    /// over.
    pub open spec fn outcome(receivers: usize, taken: bool) -> Delivery {
        if receivers == 0 {
            Delivery::NoSubscribers
        } else if taken {
            Delivery::Sent
        } else {
            Delivery::Failed
        }
    }

    /// What became of an event, given what the channel answered: nobody was
    /// there if it counted no subscriber, and otherwise the event was sent
    /// or the sending failed, as the channel took it or not.
    pub fn of(receivers: usize, taken: bool) -> (delivery: Delivery)
        ensures
            delivery == Delivery::outcome(receivers, taken),
    {
        if receivers == 0 {
            Delivery::NoSubscribers
        } else if taken {
            Delivery::Sent
        } else {
            Delivery::Failed
        }
    }
}

} // verus!
