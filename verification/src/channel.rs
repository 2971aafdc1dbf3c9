//! Trusted boundary around the FIFO channel collaborator.
//!
//! The mailbox core is built on `async_std`'s multi-producer,
//! multi-consumer channels (bounded or unbounded capacity, blocking send,
//! blocking receive, explicit close). The queue itself is an outside
//! collaborator: the items here declare its types and state, over plain
//! `Option` and `Result` values, what each call returns, as the crate's
//! documentation gives it. Delivery order and channel identity are part of
//! what is trusted, not restated here.

use vstd::prelude::*;

verus! {

#[verifier::external_type_specification]
#[verifier::external_body]
#[verifier::reject_recursive_types(T)]
pub struct ExSender<T>(async_std::channel::Sender<T>);

#[verifier::external_type_specification]
#[verifier::external_body]
#[verifier::reject_recursive_types(T)]
pub struct ExReceiver<T>(async_std::channel::Receiver<T>);

/// Relies on `async_std::channel::unbounded`: creates a connected
/// sender/receiver pair whose queue has unlimited capacity.
#[verifier::external_body]
pub(crate) fn channel_unbounded<T>() -> (async_std::channel::Sender<T>, async_std::channel::Receiver<T>) {
    async_std::channel::unbounded()
}

/// Relies on `async_std::channel::bounded`: creates a connected
/// sender/receiver pair whose queue holds at most `cap` messages. The
/// outside function panics on a capacity of zero, so that input is left
/// out.
#[verifier::external_body]
pub(crate) fn channel_bounded<T>(cap: usize) -> (async_std::channel::Sender<T>, async_std::channel::Receiver<T>)
    requires
        cap >= 1,
{
    async_std::channel::bounded(cap)
}

/// Relies on `async_std::channel::Sender::send_blocking`: blocks until the
/// queue has room, then enqueues the message; once the channel is closed
/// it enqueues nothing and hands the message back in the error.
#[verifier::external_body]
pub(crate) fn send_block<T>(s: &async_std::channel::Sender<T>, msg: T) -> (r: Result<(), T>)
    ensures
        r matches Err(m) ==> m == msg,
{
    match s.send_blocking(msg) {
        Ok(()) => Ok(()),
        Err(async_std::channel::SendError(m)) => Err(m),
    }
}

/// Relies on `async_std::channel::Receiver::recv_blocking`: blocks until a
/// message is available (`Some`), or until the channel is closed and fully
/// drained (`None`).
#[verifier::external_body]
pub(crate) fn recv_block<T>(r: &async_std::channel::Receiver<T>) -> Option<T> {
    match r.recv_blocking() {
        Ok(v) => Some(v),
        Err(_) => None,
    }
}

/// Relies on `async_std::channel::Sender::close`: marks the channel
/// closed; messages already queued are still delivered. Returns whether
/// this call was the one that closed it.
#[verifier::external_body]
pub(crate) fn close_sender<T>(s: &async_std::channel::Sender<T>) -> bool {
    s.close()
}

} // verus!
