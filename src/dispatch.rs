use crate::action::Action;
use crate::config::Args;
use crate::control::SharedControl;
use crossbeam_channel::{Receiver, RecvError, Sender};
use vstd::prelude::*;

verus! {

#[verifier::external_type_specification]
#[verifier::external_body]
#[verifier::reject_recursive_types(T)]
pub struct ExSender<T>(crossbeam_channel::Sender<T>);

#[verifier::external_type_specification]
#[verifier::external_body]
#[verifier::reject_recursive_types(T)]
pub struct ExReceiver<T>(crossbeam_channel::Receiver<T>);

#[verifier::external_type_specification]
#[verifier::external_body]
pub struct ExRecvError(crossbeam_channel::RecvError);

/// The number of actions that the channel behind `rx` holds at most; `None`
/// for an unbounded channel.
pub uninterp spec fn capacity_of(rx: crossbeam_channel::Receiver<Action>) -> Option<usize>;

/// The channel that the sender `tx` delivers into: the shared state that
/// every handle of one channel points to.
pub uninterp spec fn sender_channel(tx: crossbeam_channel::Sender<Action>) -> int;

/// The channel that the receiver `rx` takes from.
pub uninterp spec fn receiver_channel(rx: crossbeam_channel::Receiver<Action>) -> int;

/// Relies on crossbeam_channel::bounded: `bounded(1)` makes one array
/// channel, whose `capacity()` is `Some(1)`, and returns its two ends.
#[verifier::external_body]
fn single_slot_channel() -> (r: (Sender<Action>, Receiver<Action>))
    ensures
        capacity_of(r.1) == Some(1usize),
        sender_channel(r.0) == receiver_channel(r.1),
{
    crossbeam_channel::bounded(1)
}

/// Relies on crossbeam_channel::Receiver::capacity: the bound the channel
/// was made with.
#[verifier::external_body]
fn channel_capacity(rx: &Receiver<Action>) -> (r: Option<usize>)
    ensures
        r == capacity_of(*rx),
{
    rx.capacity()
}

/// Relies on crossbeam_channel::Receiver::recv: blocks until an action is
/// queued (`Ok`) or every sender is gone and nothing is queued (`Err`). Which
/// of the two comes depends on the other threads, so nothing is stated.
pub assume_specification<T>[ crossbeam_channel::Receiver::<T>::recv ](rx: &crossbeam_channel::Receiver<T>) -> Result<T, crossbeam_channel::RecvError>;

/// The dispatcher's side of the run: the receiving end of the single-slot
/// action channel, the control flags shared with the listeners and the run
/// configuration. The sending end belongs to the listeners alone, so the
/// channel closes once every listener has ended.
pub struct App {
    pub action_rx: Receiver<Action>,
    pub control: SharedControl,
    pub args: Args,
}

impl App {
    /// The channel holds at most one pending action.
    pub open spec fn single_slot(&self) -> bool {
        capacity_of(self.action_rx) == Some(1usize)
    }

    /// A fresh channel of capacity one and fresh control flags; returns the
    /// dispatcher's side and the sending end of the same channel, for the
    /// listeners.
    pub fn new(args: Args) -> (r: (App, Sender<Action>))
        ensures
            r.0.args == args,
            r.0.single_slot(),
            sender_channel(r.1) == receiver_channel(r.0.action_rx),
    {
        let (action_tx, action_rx) = single_slot_channel();
        (App { action_rx, control: SharedControl::new(), args }, action_tx)
    }

    /// The most actions the channel holds at once.
    pub fn capacity(&self) -> (r: Option<usize>)
        ensures
            r == capacity_of(self.action_rx),
            self.single_slot() ==> r == Some(1usize),
    {
        channel_capacity(&self.action_rx)
    }

    /// Blocks for the next action; `Err` once every listener is gone and
    /// nothing is pending. The channel and its bound are left as they were.
    pub fn next(&mut self) -> (r: Result<Action, RecvError>)
        ensures
            *final(self) == *old(self),
    {
        self.action_rx.recv()
    }
}

/// The dispatcher's rule for what `recv` gave: redraw and go on after a
/// `Render`; stop after a `Quit` or once the channel is closed (`None`).
pub open spec fn dispatcher_continues(received: Option<Action>) -> bool {
    received == Some(Action::Render)
}

/// Applies the dispatcher's rule.
pub fn should_redraw(received: Option<Action>) -> (r: bool)
    ensures
        r == dispatcher_continues(received),
{
    match received {
        Some(Action::Render) => true,
        _ => false,
    }
}

} // verus!
