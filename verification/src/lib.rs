//! A minimal actor-style message-passing library.
//!
//! A *mailbox* is an isolated, sequential message processor: a FIFO queue
//! plus a single consuming loop over it. The caller-side handle
//! ([`MailBox`]) posts one-way messages or issues request/response `ask`
//! calls; the actor-side handle ([`MailboxContext`]) is the exclusive owner
//! of the receiving end and exposes a single dequeue operation; a one-shot
//! [`ReplyChannel`] correlates each `ask` with exactly one reply. Factory
//! functions wire a chosen execution strategy to a freshly created channel
//! pair.
//!
//! Lifecycle races (an abandoned mailbox, an abandoned ask) surface as
//! typed, recoverable [`MailboxError`] values, never as panics.

mod channel;
mod counter;
mod mailbox;

pub use counter::CounterMsg;
pub use counter::CounterRun;
pub use counter::counter_step;
pub use counter::counter_step_value;
pub use counter::counter_value;
pub use counter::decrements;
pub use counter::increments;
pub use counter::is_increment;
pub use counter::is_request;
pub use counter::lemma_all_increments;
pub use counter::lemma_ask_preserves_value;
pub use counter::lemma_counts_bounded;
pub use counter::lemma_value_is_net_count;
pub use counter::requests;
pub use counter::run_counter;
pub use mailbox::MailBox;
pub use mailbox::MailboxBounds;
pub use mailbox::MailboxContext;
pub use mailbox::MailboxError;
pub use mailbox::ReplyChannel;
pub use mailbox::ReplyReceiver;
pub use mailbox::reply_channel;
pub use mailbox::start_mailbox;
pub use mailbox::start_mailbox_direct;
