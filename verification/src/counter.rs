//! An example counter actor: the canonical mailbox client. Its decision
//! logic is a pure step function from state and message to next state and
//! reply action, so everything the actor decides is verified; only the
//! dequeue and reply edges touch the channel collaborator.
//!
//! The accumulated count saturates at the `i64` range instead of
//! overflowing; `counter_value` is the exact mathematical model of that
//! behaviour.

use vstd::prelude::*;

use crate::mailbox::MailboxContext;
use crate::mailbox::ReplyChannel;

verus! {

/// Messages understood by the counter actor.
pub enum CounterMsg {
    /// One-way: raise the count by one (saturating at `i64::MAX`).
    Increment,
    /// One-way: lower the count by one (saturating at `i64::MIN`).
    Decrement,
    /// Request: reply with the current count on the embedded channel.
    GetValue(ReplyChannel<i64>),
}

/// The effect of one message on the accumulated count: increments and
/// decrements move it by one, saturating at the `i64` range; a request
/// leaves it unchanged.
pub open spec fn counter_step_value(c: int, m: CounterMsg) -> int {
    match m {
        CounterMsg::Increment => if c < i64::MAX as int {
            c + 1
        } else {
            c
        },
        CounterMsg::Decrement => if c > i64::MIN as int {
            c - 1
        } else {
            c
        },
        CounterMsg::GetValue(_) => c,
    }
}

/// The count accumulated after a sequence of messages, starting from
/// zero: the fold of `counter_step_value` over the sequence.
pub open spec fn counter_value(s: Seq<CounterMsg>) -> int
    decreases s.len(),
{
    if s.len() == 0 {
        0
    } else {
        counter_step_value(counter_value(s.drop_last()), s.last())
    }
}

/// Whether a message is an increment.
pub open spec fn is_increment(m: CounterMsg) -> bool {
    match m {
        CounterMsg::Increment => true,
        _ => false,
    }
}

/// Whether a message is a request for the current count.
pub open spec fn is_request(m: CounterMsg) -> bool {
    match m {
        CounterMsg::GetValue(_) => true,
        _ => false,
    }
}

/// How many request messages a sequence holds.
pub open spec fn requests(s: Seq<CounterMsg>) -> int
    decreases s.len(),
{
    if s.len() == 0 {
        0
    } else {
        match s.last() {
            CounterMsg::GetValue(_) => requests(s.drop_last()) + 1,
            _ => requests(s.drop_last()),
        }
    }
}

/// How many increment messages a sequence holds.
pub open spec fn increments(s: Seq<CounterMsg>) -> int
    decreases s.len(),
{
    if s.len() == 0 {
        0
    } else {
        match s.last() {
            CounterMsg::Increment => increments(s.drop_last()) + 1,
            _ => increments(s.drop_last()),
        }
    }
}

/// How many decrement messages a sequence holds.
pub open spec fn decrements(s: Seq<CounterMsg>) -> int
    decreases s.len(),
{
    if s.len() == 0 {
        0
    } else {
        match s.last() {
            CounterMsg::Decrement => decrements(s.drop_last()) + 1,
            _ => decrements(s.drop_last()),
        }
    }
}

/// One step of the counter's decision logic: from the current count and a
/// message to the next count and the reply action, if any. A request is
/// answered with exactly the count accumulated when it was dequeued.
pub fn counter_step(count: i64, msg: CounterMsg) -> (r: (
    i64,
    Option<(ReplyChannel<i64>, i64)>,
))
    ensures
        r.0 as int == counter_step_value(count as int, msg),
        msg matches CounterMsg::GetValue(rc) ==> (r.1 matches Some(p) && p.0 == rc && p.1
            == count),
        !(msg matches CounterMsg::GetValue(_)) ==> r.1 is None,
{
    match msg {
        CounterMsg::Increment => {
            let c = if count < i64::MAX {
                count + 1
            } else {
                count
            };
            (c, None)
        },
        CounterMsg::Decrement => {
            let c = if count > i64::MIN {
                count - 1
            } else {
                count
            };
            (c, None)
        },
        CounterMsg::GetValue(rc) => (count, Some((rc, count))),
    }
}

/// What a finished counter run reports: the final count, how the run
/// ended, and (ghost) the full history it is accountable to.
pub struct CounterRun {
    /// The count accumulated over the whole run.
    pub count: i64,
    /// Whether the run ended on end-of-stream (the mailbox was abandoned)
    /// rather than on an exhausted budget.
    pub drained: bool,
    /// The messages the actor observed, in delivery order.
    pub history: Ghost<Seq<CounterMsg>>,
    /// One entry per request in the history, in order: the position of
    /// the request and the value offered on its reply channel.
    pub replies: Ghost<Seq<(int, i64)>>,
}

impl CounterRun {
    /// A run is accounted for when the final count is the fold of the
    /// history, and every request in the history was answered, in order,
    /// with exactly the count accumulated from the messages delivered
    /// strictly before that request.
    pub open spec fn accounted(self) -> bool {
        &&& self.count as int == counter_value(self.history@)
        &&& self.replies@.len() == requests(self.history@)
        &&& forall|j: int|
            0 <= j < self.replies@.len() ==> {
                &&& 0 <= (#[trigger] self.replies@[j]).0 < self.history@.len()
                &&& is_request(self.history@[self.replies@[j].0])
                &&& self.replies@[j].1 as int == counter_value(
                    self.history@.take(self.replies@[j].0),
                )
            }
        &&& forall|j1: int, j2: int|
            0 <= j1 < j2 < self.replies@.len() ==> (#[trigger] self.replies@[j1]).0 < (
            #[trigger] self.replies@[j2]).0
    }
}

/// The counter actor loop: dequeues until the mailbox reaches
/// end-of-stream, folding each message into the count and answering each
/// request with the count accumulated so far. A failed reply (the asker
/// gave up waiting) is ignored and the loop continues.
///
/// `budget` caps how many messages this call processes, which gives the
/// loop its termination measure; a caller that wants the actor to live
/// until its mailbox is abandoned passes a budget no run will exhaust.
///
/// The run is fully accounted for: the final count is the fold of the
/// observed history, and each request was answered with exactly the count
/// accumulated from the messages delivered strictly before it.
pub fn run_counter(ctx: MailboxContext<CounterMsg>, budget: u64) -> (r: CounterRun)
    ensures
        r.accounted(),
        r.history@.len() <= budget,
        !r.drained ==> r.history@.len() == budget,
{
    let mut count: i64 = 0;
    let mut left: u64 = budget;
    let ghost mut seen: Seq<CounterMsg> = Seq::empty();
    let ghost mut answered: Seq<(int, i64)> = Seq::empty();
    loop
        invariant
            count as int == counter_value(seen),
            seen.len() + left == budget,
            answered.len() == requests(seen),
            forall|j: int|
                0 <= j < answered.len() ==> {
                    &&& 0 <= (#[trigger] answered[j]).0 < seen.len()
                    &&& is_request(seen[answered[j].0])
                    &&& answered[j].1 as int == counter_value(seen.take(answered[j].0))
                },
            forall|j1: int, j2: int|
                0 <= j1 < j2 < answered.len() ==> (#[trigger] answered[j1]).0 < (
                #[trigger] answered[j2]).0,
        decreases left,
    {
        if left == 0 {
            return CounterRun {
                count,
                drained: false,
                history: Ghost(seen),
                replies: Ghost(answered),
            };
        }
        match ctx.dequeue() {
            Err(_) => {
                return CounterRun {
                    count,
                    drained: true,
                    history: Ghost(seen),
                    replies: Ghost(answered),
                };
            },
            Ok(msg) => {
                let ghost m = msg;
                let (next, action) = counter_step(count, msg);
                proof {
                    let grown = seen.push(m);
                    assert(grown.drop_last() =~= seen);
                    assert forall|k: int| 0 <= k <= seen.len() implies grown.take(k)
                        =~= seen.take(k) by {}
                    if is_request(m) {
                        answered = answered.push((seen.len() as int, count));
                    }
                    seen = grown;
                }
                count = next;
                left = left - 1;
                match action {
                    Some(pair) => {
                        let _ = pair.0.reply(pair.1);
                    },
                    None => {},
                }
            },
        }
    }
}

/// A request message leaves the accumulated count unchanged: the reply to
/// an `ask` therefore reflects the cumulative effect of exactly the
/// one-way posts delivered strictly before it.
pub proof fn lemma_ask_preserves_value(posts: Seq<CounterMsg>, ask: CounterMsg)
    requires
        ask matches CounterMsg::GetValue(_),
    ensures
        counter_value(posts.push(ask)) == counter_value(posts),
{
    assert(posts.push(ask).drop_last() =~= posts);
}

/// A sequence holds at least zero and at most its length of each message
/// kind.
pub proof fn lemma_counts_bounded(s: Seq<CounterMsg>)
    ensures
        0 <= increments(s),
        0 <= decrements(s),
        increments(s) + decrements(s) <= s.len(),
    decreases s.len(),
{
    if s.len() > 0 {
        lemma_counts_bounded(s.drop_last());
    }
}

/// Commutativity of independent posts: as long as the count never leaves
/// the `i64` range (guaranteed whenever no more messages were delivered
/// than `i64::MAX`), the accumulated count is the number of increments
/// minus the number of decrements — it depends only on how many of each
/// were delivered, never on their interleaving order.
pub proof fn lemma_value_is_net_count(s: Seq<CounterMsg>)
    requires
        s.len() <= i64::MAX as int,
    ensures
        counter_value(s) == increments(s) - decrements(s),
    decreases s.len(),
{
    if s.len() > 0 {
        lemma_value_is_net_count(s.drop_last());
        lemma_counts_bounded(s.drop_last());
    }
}

/// No loss and no duplication: a run of nothing but increments accumulates
/// exactly one effect per message posted.
pub proof fn lemma_all_increments(s: Seq<CounterMsg>)
    requires
        s.len() <= i64::MAX as int,
        forall|i: int| 0 <= i < s.len() ==> is_increment(#[trigger] s[i]),
    ensures
        counter_value(s) == s.len(),
    decreases s.len(),
{
    if s.len() > 0 {
        assert(forall|i: int| 0 <= i < s.drop_last().len() ==> is_increment(#[trigger] s.drop_last()[i]));
        lemma_all_increments(s.drop_last());
        assert(is_increment(s.last()));
    }
}

} // verus!
