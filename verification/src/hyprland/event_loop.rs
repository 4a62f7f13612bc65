//! The event loop: it takes the lines of the event socket one by one, decodes
//! each and publishes the event to every subscriber.
//!
//! Reading the socket is the caller's part. The publishing side is a broadcast
//! channel of `tokio`: each subscriber has its own bounded view of it, a slow
//! one is told that it lagged, and neither holds up the publisher or the others.
//! The loop keeps one subscription to itself, so that publishing never fails
//! for want of a receiver.

use tokio::sync::broadcast::{Receiver, Sender};
use vstd::prelude::*;

use crate::hyprland::decoder::{decode, decode_line, DecodeError};
use crate::hyprland::error::{Error, IoError};
use crate::hyprland::events::{Event, EventView};
use crate::text::{trim_end, trimmed_end};

verus! {

/// How many events the channel is asked to keep for a subscriber that does
/// not keep up. It may keep more, never fewer.
pub const CHANNEL_CAPACITY: usize = 24;

/// The sending half of `tokio`'s broadcast channel. What its receivers have
/// taken is not known: they take at any time.
#[verifier::external_type_specification]
#[verifier::external_body]
#[verifier::reject_recursive_types(T)]
pub struct ExSender<T>(Sender<T>);

/// A receiving half of `tokio`'s broadcast channel, as opaque as the sender.
#[verifier::external_type_specification]
#[verifier::external_body]
#[verifier::reject_recursive_types(T)]
pub struct ExReceiver<T>(Receiver<T>);

/// Whether `receiver` is a handle on the channel that `sender` sends on. A
/// handle stays on the channel that it was made for.
pub uninterp spec fn on_channel(sender: Sender<Event>, receiver: Receiver<Event>) -> bool;

/// The capacity that the channel of `sender` was made with: how many events
/// it was asked to keep for a receiver that does not keep up. What `tokio`
/// allocates may be more.
pub uninterp spec fn channel_limit(sender: Sender<Event>) -> nat;

/// The events that were sent through `sender` since its channel was made,
/// oldest first.
pub uninterp spec fn channel_sent(sender: Sender<Event>) -> Seq<Event>;

/// `tokio::sync::broadcast::channel`: a new channel of the capacity asked
/// for, through which nothing was sent yet, and its first receiver, which is
/// on that channel. The call panics on a capacity of zero or above half of
/// `usize::MAX`, which the precondition leaves out.
#[verifier::external_body]
fn open_channel(capacity: usize) -> (r: (Sender<Event>, Receiver<Event>))
    requires
        0 < capacity <= usize::MAX / 2,
    ensures
        channel_limit(r.0) == capacity,
        channel_sent(r.0) == Seq::<Event>::empty(),
        on_channel(r.0, r.1),
{
    tokio::sync::broadcast::channel(capacity)
}

/// `Sender::send`, called while `alive`, a receiver of the same channel,
/// exists: hands `event` to every receiver that is alive now. The call fails
/// only when the channel has no receiver, and its count of receivers falls
/// only when one is dropped, so with `alive` at hand it succeeds and tells how
/// many receivers there are, which is at least one. The event is then the
/// last that was sent through `sender`; the handle stays on its channel.
#[verifier::external_body]
#[allow(unused_variables)]
fn send_event(
    sender: &mut Sender<Event>,
    alive: &Receiver<Event>,
    event: Event,
) -> (r: Result<usize, Event>)
    requires
        on_channel(*old(sender), *alive),
    ensures
        match r {
            Ok(receivers) => receivers >= 1,
            Err(_) => false,
        },
        channel_sent(*final(sender)) == channel_sent(*old(sender)).push(event),
        channel_limit(*final(sender)) == channel_limit(*old(sender)),
        forall|h: Receiver<Event>| #[trigger]
            on_channel(*final(sender), h) == on_channel(*old(sender), h),
{
    sender.send(event).map_err(|e| e.0)
}

/// `Sender::subscribe`: a new receiver on the channel of `sender`, which sees
/// the events sent after this call. Of what it will receive nothing is
/// claimed. The call panics once a quarter of `usize::MAX` receivers are alive
/// at once, which no memory holds.
#[verifier::external_body]
fn new_receiver(sender: &Sender<Event>) -> (r: Receiver<Event>)
    ensures
        on_channel(*sender, r),
{
    sender.subscribe()
}

/// The mathematical values of a sequence of events.
pub open spec fn views_of(events: Seq<Event>) -> Seq<EventView> {
    Seq::new(events.len(), |i: int| events[i]@)
}

/// What became of an event that was handed to the channel.
pub open spec fn published(sent: Result<usize, Event>) -> Result<(), Error> {
    match sent {
        Ok(_) => Ok(()),
        Err(event) => Err(Error::ChannelError(event)),
    }
}

/// Turns the channel's answer into the event loop's: an event that nobody
/// could take comes back inside the error.
pub fn publish_result(sent: Result<usize, Event>) -> (r: Result<(), Error>)
    ensures
        r == published(sent),
{
    match sent {
        Ok(_) => Ok(()),
        Err(event) => Err(Error::ChannelError(event)),
    }
}

/// The event that a raw line of the socket holds, once its line end and any
/// other trailing white space are taken off.
pub open spec fn event_of_line(raw: Seq<char>) -> Result<EventView, DecodeError> {
    decode_line(trimmed_end(raw))
}

/// Decodes one raw line of the event socket, as it was read: the line end and
/// any other trailing white space are taken off first.
pub fn read_event(raw: &str) -> (r: Result<Event, Error>)
    ensures
        match event_of_line(raw@) {
            Ok(view) => r matches Ok(event) && event@ == view,
            Err(e) => r == Err::<Event, Error>(Error::Decode(e)),
        },
{
    match decode(trim_end(raw)) {
        Ok(event) => Ok(event),
        Err(e) => Err(Error::Decode(e)),
    }
}

/// The event loop of one connection to the event socket.
pub struct EventLoop {
    connected: bool,
    sender: Sender<Event>,
    _receiver: Receiver<Event>,
}

impl EventLoop {
    /// Whether the event socket has been opened.
    pub closed spec fn is_connected(&self) -> bool {
        self.connected
    }

    /// How many events the loop's channel was made to keep for a subscriber
    /// that does not keep up.
    pub closed spec fn capacity(&self) -> nat {
        channel_limit(self.sender)
    }

    /// Whether `receiver` is a subscription to this loop: a handle on the
    /// channel that the loop publishes on.
    pub closed spec fn feeds(&self, receiver: Receiver<Event>) -> bool {
        on_channel(self.sender, receiver)
    }

    /// The invariant of an event loop: it holds a subscription of its own, so
    /// that its channel has a receiver for as long as the loop lives. `new`
    /// establishes it and every method keeps it.
    pub closed spec fn keeps_subscription(&self) -> bool {
        on_channel(self.sender, self._receiver)
    }

    /// The events that the loop has published since it was made, oldest
    /// first.
    pub closed spec fn published(&self) -> Seq<EventView> {
        views_of(channel_sent(self.sender))
    }

    /// Returns a new unconnected event loop, with a channel of its own that
    /// is made to keep `CHANNEL_CAPACITY` events, with one subscription that
    /// the loop keeps for itself, and with nothing published.
    pub fn new() -> (r: Self)
        ensures
            !r.is_connected(),
            r.capacity() == CHANNEL_CAPACITY,
            r.keeps_subscription(),
            r.published() == Seq::<EventView>::empty(),
    {
        let (sender, receiver) = open_channel(CHANNEL_CAPACITY);
        proof {
            assert(views_of(channel_sent(sender)) =~= Seq::<EventView>::empty());
        }
        EventLoop { connected: false, sender, _receiver: receiver }
    }

    /// Takes note of how opening the event socket ended: the loop is connected
    /// once the socket is open, and a failure to open it is passed on and
    /// leaves the loop as it was. Either way the channel is the same as
    /// before: every subscription stays one, and nothing is published.
    pub fn connect(&mut self, opened: Result<(), IoError>) -> (r: Result<(), Error>)
        ensures
            match opened {
                Ok(_) => r == Ok::<(), Error>(()) && final(self).is_connected(),
                Err(e) => r == Err::<(), Error>(Error::Io(e)) && final(self).is_connected() == old(
                    self,
                ).is_connected(),
            },
            final(self).capacity() == old(self).capacity(),
            final(self).keeps_subscription() == old(self).keeps_subscription(),
            final(self).published() == old(self).published(),
            forall|h: Receiver<Event>| #[trigger] final(self).feeds(h) == old(self).feeds(h),
    {
        match opened {
            Ok(_) => {
                self.connected = true;
                Ok(())
            },
            Err(e) => Err(Error::Io(e)),
        }
    }

    /// Whether the event socket has been opened.
    pub fn connected(&self) -> (r: bool)
        ensures
            r == self.is_connected(),
    {
        self.connected
    }

    /// A new subscription to this loop. It receives every event published
    /// from now on, at its own pace; what was published before is not
    /// replayed.
    pub fn subscribe(&self) -> (r: Receiver<Event>)
        ensures
            self.feeds(r),
    {
        new_receiver(&self.sender)
    }

    /// One turn of the loop: takes what reading a line gave, decodes the line
    /// and publishes the event.
    ///
    /// The loop goes on after `Ok` and ends with the first `Err`: a failed
    /// read or a line that does not decode, after which nothing is published.
    /// A line that decodes is always published, as the last event so far:
    /// the loop's own subscription keeps the channel from being without a
    /// receiver. The connection, the capacity and the subscriptions stay as
    /// they were.
    pub fn run(&mut self, read: Result<&str, IoError>) -> (r: Result<(), Error>)
        requires
            old(self).is_connected(),
            old(self).keeps_subscription(),
        ensures
            match read {
                Err(e) => r == Err::<(), Error>(Error::Io(e)) && final(self).published() == old(
                    self,
                ).published(),
                Ok(raw) => match event_of_line(raw@) {
                    Err(e) => r == Err::<(), Error>(Error::Decode(e)) && final(self).published()
                        == old(self).published(),
                    Ok(view) => r == Ok::<(), Error>(()) && final(self).published() == old(
                        self,
                    ).published().push(view),
                },
            },
            final(self).is_connected(),
            final(self).capacity() == old(self).capacity(),
            final(self).keeps_subscription(),
            forall|h: Receiver<Event>| #[trigger] final(self).feeds(h) == old(self).feeds(h),
    {
        let raw = match read {
            Ok(raw) => raw,
            Err(e) => {
                return Err(Error::Io(e));
            },
        };
        let event = match read_event(raw) {
            Ok(event) => event,
            Err(e) => {
                return Err(e);
            },
        };
        proof {
            let before = channel_sent(self.sender);
            assert(views_of(before.push(event)) =~= views_of(before).push(event@));
        }
        publish_result(send_event(&mut self.sender, &self._receiver, event))
    }
}

} // verus!
