//! The reload broadcaster: one sender, any number of subscribers, each with a
//! bounded backlog of its own.
//!
//! The channel is the async runtime's broadcast channel. A publish never waits
//! for a subscriber: one that falls more than the backlog behind loses the
//! oldest signals and is told how many, and with no subscriber at all the
//! signal is dropped and the publisher is told so.

use vstd::prelude::*;

verus! {

/// `tokio::sync::broadcast::Sender`: the sending half of a broadcast channel.
/// Nothing inside it is visible here.
#[verifier::external_type_specification]
#[verifier::external_body]
#[verifier::reject_recursive_types(T)]
pub struct ExSender<T>(tokio::sync::broadcast::Sender<T>);

/// How many reload signals a subscriber may leave unread before it lags.
pub const RELOAD_BACKLOG: usize = 16;

/// How many shutdown signals a subscriber may leave unread: there is only
/// ever one.
pub const SHUTDOWN_BACKLOG: usize = 1;

/// What became of a published signal.
#[derive(Clone, Copy, Debug, PartialEq, Eq, Structural)]
pub enum Delivery {
    /// The signal was queued for each of `count` subscribers.
    Subscribers { count: usize },
    /// Nobody is subscribed; the signal was dropped.
    NoSubscribers,
}

/// How many signals the channel behind `sender` keeps for a subscriber that
/// does not read: the length of its ring.
pub uninterp spec fn retained(sender: tokio::sync::broadcast::Sender<()>) -> nat;

/// The least power of two that is at least `n`, searched upwards from the
/// power of two `p`.
pub open spec fn power_of_two_from(p: nat, n: nat) -> nat
    decreases
        (if p < n {
            n - p
        } else {
            0
        }),
{
    if p == 0 || p >= n {
        p
    } else {
        power_of_two_from(2 * p, n)
    }
}

/// `tokio::sync::broadcast::channel` for the unit signal, of which only the
/// sending half is kept: subscribers are made from it later. The channel
/// rounds the capacity it is asked for up to a power of two and keeps that
/// many signals. It refuses, by a panic, a capacity of zero and one above
/// half of `usize::MAX`; those are left out.
#[verifier::external_body]
fn open_channel(capacity: usize) -> (sender: tokio::sync::broadcast::Sender<()>)
    requires
        0 < capacity <= usize::MAX / 2,
    ensures
        retained(sender) == power_of_two_from(1, capacity as nat),
{
    tokio::sync::broadcast::channel::<()>(capacity).0
}

/// `tokio::sync::broadcast::Sender::send` with the unit signal. The call puts
/// the signal in the ring and returns at once. It gives the number of
/// subscribers at that moment, which is then at least one, or fails when
/// there is none. How many there are is not the sender's to know beforehand,
/// so nothing more is claimed.
#[verifier::external_body]
fn send_signal(sender: &tokio::sync::broadcast::Sender<()>) -> (receivers: Option<usize>)
    ensures
        receivers matches Some(count) ==> count >= 1,
{
    sender.send(()).ok()
}

/// Opens the channel that reload signals are published on, with room for
/// [`RELOAD_BACKLOG`] unread signals for each subscriber.
pub fn reload_channel() -> (sender: tokio::sync::broadcast::Sender<()>)
    ensures
        retained(sender) == RELOAD_BACKLOG,
{
    assert(power_of_two_from(1, 16) == 16) by {
        reveal_with_fuel(power_of_two_from, 5);
    }
    open_channel(RELOAD_BACKLOG)
}

/// Opens the channel that the shutdown signal is published on.
pub fn shutdown_channel() -> (sender: tokio::sync::broadcast::Sender<()>)
    ensures
        retained(sender) == SHUTDOWN_BACKLOG,
{
    open_channel(SHUTDOWN_BACKLOG)
}

/// Publishes one signal to whoever is subscribed right now. With nobody
/// subscribed this is no error to stop for: the answer is
/// [`Delivery::NoSubscribers`].
pub fn publish(sender: &tokio::sync::broadcast::Sender<()>) -> (delivery: Delivery)
    ensures
        delivery is Subscribers ==> delivery->count >= 1,
{
    delivery_of(send_signal(sender))
}

/// The delivery that a send's answer stands for: the count of subscribers it
/// gave, or nobody where it gave none.
pub open spec fn delivery_of_spec(receivers: Option<usize>) -> Delivery {
    match receivers {
        Some(count) => Delivery::Subscribers { count },
        None => Delivery::NoSubscribers,
    }
}

#[verifier::when_used_as_spec(delivery_of_spec)]
pub fn delivery_of(receivers: Option<usize>) -> (delivery: Delivery)
    ensures
        delivery == delivery_of_spec(receivers),
{
    match receivers {
        Some(count) => Delivery::Subscribers { count },
        None => Delivery::NoSubscribers,
    }
}

} // verus!
