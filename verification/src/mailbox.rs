//! The mailbox triad: caller-side handle, actor-side context, and the
//! one-shot reply channel that carries `ask` responses, together with the
//! factory functions that wire an execution strategy to a fresh channel
//! pair.

use vstd::prelude::*;

use crate::channel::channel_bounded;
use crate::channel::channel_unbounded;
use crate::channel::close_sender;
use crate::channel::recv_block;
use crate::channel::send_block;

verus! {

/// The ways a mailbox operation can fail. All of these are ordinary
/// lifecycle races, recoverable by design: none is ever surfaced as a
/// panic.
#[derive(Clone, Copy, Debug, PartialEq, Eq, Structural)]
pub enum MailboxError {
    /// The receiving side reached end-of-stream: a `dequeue` found the
    /// mailbox abandoned (every sending handle dropped and the queue
    /// drained), or a waiting `ask` found its reply channel dropped
    /// unanswered.
    ContextClosed,
    /// A reply was attempted after the asker abandoned the wait.
    ReplyFailed,
    /// A post was attempted on an abandoned mailbox.
    PostFailed,
}

/// The queue capacity policy of a mailbox, fixed at creation time for its
/// entire lifetime.
#[derive(Clone, Copy, Debug, PartialEq, Eq, Structural)]
pub enum MailboxBounds {
    /// Posting succeeds as soon as the value is queued; capacity is
    /// limited only by memory.
    Unbounded,
    /// The queue holds at most this many messages; posting beyond that
    /// blocks the caller until the actor dequeues.
    Bounded(usize),
}

impl MailboxBounds {
    /// A bounded mailbox must have room for at least one message.
    pub open spec fn wf(self) -> bool {
        match self {
            MailboxBounds::Unbounded => true,
            MailboxBounds::Bounded(cap) => cap >= 1,
        }
    }
}

/// One-shot reply carrier: the server side of `ask`. Wraps the sending
/// half of a fresh, single-use, capacity-1 channel. Replying consumes it,
/// so at most one value is ever delivered through a given reply channel.
#[verifier::reject_recursive_types(T)]
pub struct ReplyChannel<T> {
    sender: async_std::channel::Sender<T>,
}

/// The waiting side of a reply pair: consumed by a single `receive`.
#[verifier::reject_recursive_types(T)]
pub struct ReplyReceiver<T> {
    receiver: async_std::channel::Receiver<T>,
}

/// Creates a connected one-shot reply pair. `ask` makes one per call; the
/// pair is also useful on its own wherever a single value must be handed
/// from one party to exactly one other.
pub fn reply_channel<T>() -> (ReplyChannel<T>, ReplyReceiver<T>) {
    let (s, r) = channel_bounded::<T>(1);
    (ReplyChannel { sender: s }, ReplyReceiver { receiver: r })
}

impl<T> ReplyChannel<T> {
    /// Delivers `value` to the paired receiver and closes the channel,
    /// consuming `self`: a second reply through the same channel is
    /// impossible by construction. If the paired receiver was already
    /// dropped, nothing is delivered and the failure is reported as
    /// `ReplyFailed` — a recoverable outcome the actor may log and
    /// survive.
    pub fn reply(self, value: T) -> (r: Result<(), MailboxError>)
        ensures
            r matches Err(e) ==> e == MailboxError::ReplyFailed,
    {
        match send_block(&self.sender, value) {
            Ok(()) => {
                close_sender(&self.sender);
                Ok(())
            },
            Err(_) => Err(MailboxError::ReplyFailed),
        }
    }
}

impl<T> ReplyReceiver<T> {
    /// Waits until the paired `ReplyChannel` delivers a value, returning
    /// it, or until that channel is dropped or closed without one, in
    /// which case the abandonment is reported as `ContextClosed` — never a
    /// fabricated value.
    pub fn receive(self) -> (r: Result<T, MailboxError>)
        ensures
            r matches Err(e) ==> e == MailboxError::ContextClosed,
    {
        match recv_block(&self.receiver) {
            Some(v) => Ok(v),
            None => Err(MailboxError::ContextClosed),
        }
    }
}

/// The actor-side handle: exclusive owner of the receiving end of the
/// mailbox's queue. Exactly one context exists per mailbox and it is never
/// cloned, so the single-consumer discipline is structural.
#[verifier::reject_recursive_types(TMessage)]
pub struct MailboxContext<TMessage> {
    receiver: async_std::channel::Receiver<TMessage>,
}

impl<TMessage> MailboxContext<TMessage> {
    /// Blocks until the next message is available, returning it, or until
    /// the mailbox is abandoned (every sending handle dropped) and the
    /// queue drained, returning `ContextClosed` as the end-of-stream
    /// signal. The actor loop is expected to treat that as its termination
    /// signal.
    pub fn dequeue(&self) -> (r: Result<TMessage, MailboxError>)
        ensures
            r matches Err(e) ==> e == MailboxError::ContextClosed,
    {
        match recv_block(&self.receiver) {
            Some(m) => Ok(m),
            None => Err(MailboxError::ContextClosed),
        }
    }
}

/// The caller-side handle: the sending half of the mailbox's queue (safe
/// to share across many concurrent callers) plus the opaque lifecycle
/// handle produced by whichever execution strategy spawned the actor.
#[verifier::reject_recursive_types(TMessage)]
pub struct MailBox<TMessage, THandle> {
    sender: async_std::channel::Sender<TMessage>,
    /// The lifecycle token of the spawned actor, joinable or awaitable by
    /// whatever strategy produced it.
    pub handle: THandle,
}

impl<TMessage, THandle> MailBox<TMessage, THandle> {
    /// The lifecycle handle, as the factory contracts speak of it: equal
    /// to the `handle` field.
    pub closed spec fn spec_handle(self) -> THandle {
        self.handle
    }

    /// Enqueues a message, fire-and-forget: it never waits for the actor
    /// to process the message. Under bounded capacity it blocks until the
    /// queue has room; under unbounded capacity it returns as soon as the
    /// value is queued. Once the mailbox is abandoned (its context
    /// dropped), nothing is enqueued and `PostFailed` is returned.
    pub fn post(&self, msg: TMessage) -> (r: Result<(), MailboxError>)
        ensures
            r matches Err(e) ==> e == MailboxError::PostFailed,
    {
        match send_block(&self.sender, msg) {
            Ok(()) => Ok(()),
            Err(_) => Err(MailboxError::PostFailed),
        }
    }

    /// Request/response on top of one-way posting. Creates a fresh
    /// one-shot reply pair, hands the reply channel to `cb` to build the
    /// request message, posts it, then waits until exactly one value
    /// arrives on the reply side and returns it. Failures are explicit:
    /// `PostFailed` when the mailbox is abandoned, `ContextClosed` when
    /// the actor dropped the reply channel unanswered — never a fabricated
    /// value. There is no built-in timeout: an actor that holds the reply
    /// channel and never replies suspends the caller indefinitely.
    pub fn ask<TResult, F: FnOnce(ReplyChannel<TResult>) -> TMessage>(
        &self,
        cb: F,
    ) -> (r: Result<TResult, MailboxError>)
        requires
            forall|rc: ReplyChannel<TResult>| call_requires(cb, (rc,)),
        ensures
            r matches Err(e) ==> (e == MailboxError::PostFailed || e
                == MailboxError::ContextClosed),
    {
        let (tx, rx) = reply_channel::<TResult>();
        let msg = cb(tx);
        match self.post(msg) {
            Ok(()) => rx.receive(),
            Err(e) => Err(e),
        }
    }
}

/// The foundational factory: creates the channel pair per `bounds`, builds
/// the context, invokes `f` with that context — the constructor itself
/// performs the spawn and returns the actor's lifecycle handle — and
/// packages sender and handle into the assembled `MailBox`. Every other
/// factory specializes this one.
pub fn start_mailbox_direct<TMessage, F, THandle>(bounds: MailboxBounds, f: F) -> (r: MailBox<
    TMessage,
    THandle,
>) where F: FnOnce(MailboxContext<TMessage>) -> THandle
    requires
        bounds.wf(),
        forall|ctx: MailboxContext<TMessage>| call_requires(f, (ctx,)),
    ensures
        exists|ctx: MailboxContext<TMessage>| call_ensures(f, (ctx,), r.spec_handle()),
{
    let (tx, rx) = match bounds {
        MailboxBounds::Unbounded => channel_unbounded::<TMessage>(),
        MailboxBounds::Bounded(cap) => channel_bounded::<TMessage>(cap),
    };
    let ctx = MailboxContext { receiver: rx };
    let ghost gctx = ctx;
    let handle = f(ctx);
    let mb = MailBox { sender: tx, handle };
    proof {
        assert(call_ensures(f, (gctx,), mb.spec_handle()));
    }
    mb
}

/// Starts a mailbox using a given execution strategy: `f` turns the
/// context into the actor's unit of execution, and `spawn` turns that
/// unit into a running actor and its lifecycle handle.
pub fn start_mailbox<TMessage, F, Fut, THandle, S>(
    bounds: MailboxBounds,
    f: F,
    spawn: S,
) -> (r: MailBox<TMessage, THandle>) where
    F: FnOnce(MailboxContext<TMessage>) -> Fut,
    S: FnOnce(Fut) -> THandle,

    requires
        bounds.wf(),
        forall|ctx: MailboxContext<TMessage>| call_requires(f, (ctx,)),
        forall|fut: Fut| call_requires(spawn, (fut,)),
    ensures
        exists|ctx: MailboxContext<TMessage>, fut: Fut|
            call_ensures(f, (ctx,), fut) && call_ensures(spawn, (fut,), r.spec_handle()),
{
    let (tx, rx) = match bounds {
        MailboxBounds::Unbounded => channel_unbounded::<TMessage>(),
        MailboxBounds::Bounded(cap) => channel_bounded::<TMessage>(cap),
    };
    let ctx = MailboxContext { receiver: rx };
    let ghost gctx = ctx;
    let fut = f(ctx);
    let ghost gfut = fut;
    let handle = spawn(fut);
    let mb = MailBox { sender: tx, handle };
    proof {
        assert(call_ensures(f, (gctx,), gfut) && call_ensures(spawn, (gfut,), mb.spec_handle()));
    }
    mb
}

} // verus!
