//! The crossbeam channels that carry wake tokens and timer signals.

use vstd::prelude::*;
use crate::executor::Token;

verus! {

#[verifier::external_type_specification]
#[verifier::external_body]
#[verifier::reject_recursive_types(T)]
pub struct ExSender<T>(crossbeam_channel::Sender<T>);

#[verifier::external_type_specification]
#[verifier::external_body]
#[verifier::reject_recursive_types(T)]
pub struct ExReceiver<T>(crossbeam_channel::Receiver<T>);

/// Relies on `crossbeam_channel::bounded(1)`: a channel that holds at most one
/// signal, for a background thread to report that it is done.
#[verifier::external_body]
pub(crate) fn signal_channel() -> (crossbeam_channel::Sender<()>, crossbeam_channel::Receiver<()>) {
    crossbeam_channel::bounded(1)
}

/// Relies on `crossbeam_channel::Receiver::try_recv`: takes a signal if one was
/// sent, without blocking. Whether one has arrived depends on other threads.
#[verifier::external_body]
pub(crate) fn try_take_signal(r: &crossbeam_channel::Receiver<()>) -> bool {
    r.try_recv().is_ok()
}

/// Relies on `crossbeam_channel::unbounded`: the channel on which wake tokens
/// reach the executor loop, in the order they were sent.
#[verifier::external_body]
pub(crate) fn token_channel() -> (crossbeam_channel::Sender<Token>, crossbeam_channel::Receiver<Token>) {
    crossbeam_channel::unbounded()
}

/// Relies on `crossbeam_channel::Sender::send`: on an unbounded channel it
/// does not block, and it fails only once every receiver is gone. The one
/// caller, `Scheduler::wake`, holds the receiver, so the error, which would
/// be fatal, cannot come and is not returned.
#[verifier::external_body]
pub(crate) fn send_token(s: &crossbeam_channel::Sender<Token>, t: Token) {
    let _ = s.send(t);
}

} // verus!
