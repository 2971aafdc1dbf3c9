use mailboxxy::CounterMsg;
use mailboxxy::MailBox;
use mailboxxy::MailboxBounds;
use mailboxxy::MailboxContext;
use mailboxxy::MailboxError;
use mailboxxy::counter_step;
use mailboxxy::reply_channel;
use mailboxxy::run_counter;
use mailboxxy::start_mailbox;
use mailboxxy::start_mailbox_direct;

/// Starts a counter actor on the blocking thread pool; the handle resolves
/// to the actor's final count.
fn spawn_counter(bounds: MailboxBounds) -> MailBox<CounterMsg, async_std::task::JoinHandle<i64>> {
    start_mailbox_direct(bounds, |ctx: MailboxContext<CounterMsg>| {
        async_std::task::spawn_blocking(move || run_counter(ctx, u64::MAX).count)
    })
}

fn test_mb<T>(mb: &MailBox<CounterMsg, T>) {
    mb.post(CounterMsg::Increment).unwrap();
    mb.post(CounterMsg::Increment).unwrap();
    mb.post(CounterMsg::Increment).unwrap();
    let val = mb.ask(CounterMsg::GetValue).unwrap();
    assert_eq!(val, 3);

    mb.post(CounterMsg::Decrement).unwrap();
    let val = mb.ask(CounterMsg::GetValue).unwrap();
    assert_eq!(val, 2);
}

#[test]
fn run_test_async() {
    let mb = start_mailbox(
        MailboxBounds::Unbounded,
        |ctx: MailboxContext<CounterMsg>| move || run_counter(ctx, u64::MAX),
        async_std::task::spawn_blocking,
    );
    test_mb(&mb);
}

#[test]
fn counter_scenario_values() {
    let (c1, a1) = counter_step(0, CounterMsg::Increment);
    assert_eq!(c1, 1);
    assert!(a1.is_none());
    let (c2, _) = counter_step(c1, CounterMsg::Increment);
    let (c3, _) = counter_step(c2, CounterMsg::Increment);
    assert_eq!(c3, 3);

    let (tx, rx) = reply_channel::<i64>();
    let (c4, a4) = counter_step(c3, CounterMsg::GetValue(tx));
    assert_eq!(c4, 3);
    let (rc, v) = a4.unwrap();
    assert_eq!(v, 3);
    rc.reply(v).unwrap();
    assert_eq!(rx.receive().unwrap(), 3);

    let (c5, a5) = counter_step(c4, CounterMsg::Decrement);
    assert_eq!(c5, 2);
    assert!(a5.is_none());
}

#[test]
fn counter_saturates_at_the_range_ends() {
    let (c, _) = counter_step(i64::MAX, CounterMsg::Increment);
    assert_eq!(c, i64::MAX);
    let (c, _) = counter_step(i64::MIN, CounterMsg::Decrement);
    assert_eq!(c, i64::MIN);
}

#[test]
fn posts_then_ask_reflects_history() {
    let mb = spawn_counter(MailboxBounds::Unbounded);
    mb.post(CounterMsg::Increment).unwrap();
    mb.post(CounterMsg::Increment).unwrap();
    mb.post(CounterMsg::Decrement).unwrap();
    mb.post(CounterMsg::Increment).unwrap();
    assert_eq!(mb.ask(CounterMsg::GetValue).unwrap(), 2);
    mb.post(CounterMsg::Decrement).unwrap();
    mb.post(CounterMsg::Decrement).unwrap();
    assert_eq!(mb.ask(CounterMsg::GetValue).unwrap(), 0);
}

#[test]
fn n_posts_then_ask() {
    let mb = spawn_counter(MailboxBounds::Unbounded);
    for _ in 0..100 {
        mb.post(CounterMsg::Increment).unwrap();
    }
    assert_eq!(mb.ask(CounterMsg::GetValue).unwrap(), 100);
}

#[test]
fn concurrent_increments_sum() {
    let mb = std::sync::Arc::new(spawn_counter(MailboxBounds::Unbounded));
    let mut posters = Vec::new();
    for _ in 0..4 {
        let m = mb.clone();
        posters.push(async_std::task::spawn_blocking(move || {
            for _ in 0..50 {
                m.post(CounterMsg::Increment).unwrap();
            }
        }));
    }
    for p in posters {
        smol::block_on(p);
    }
    assert_eq!(mb.ask(CounterMsg::GetValue).unwrap(), 200);
}

#[test]
fn bounded_post_blocks_until_dequeue() {
    let (gate_tx, gate_rx) = reply_channel::<i64>();
    let mb = start_mailbox_direct(
        MailboxBounds::Bounded(1),
        move |ctx: MailboxContext<CounterMsg>| {
            async_std::task::spawn_blocking(move || {
                gate_rx.receive().unwrap();
                run_counter(ctx, u64::MAX).count
            })
        },
    );
    mb.post(CounterMsg::Increment).unwrap();
    let mb = std::sync::Arc::new(mb);
    let m = mb.clone();
    let poster = async_std::task::spawn_blocking(move || {
        m.post(CounterMsg::Increment).unwrap();
        m.post(CounterMsg::Increment).unwrap();
    });
    gate_tx.reply(0).unwrap();
    smol::block_on(poster);
    assert_eq!(mb.ask(CounterMsg::GetValue).unwrap(), 3);
}

#[test]
fn abandoned_mailbox_ends_actor() {
    let mb = start_mailbox_direct(MailboxBounds::Unbounded, |ctx: MailboxContext<CounterMsg>| {
        async_std::task::spawn_blocking(move || run_counter(ctx, u64::MAX))
    });
    mb.post(CounterMsg::Increment).unwrap();
    mb.post(CounterMsg::Increment).unwrap();
    let handle = {
        let m = mb;
        m.handle
    };
    let r = smol::block_on(handle);
    assert_eq!(r.count, 2);
    assert!(r.drained);
}

#[test]
fn dequeue_reports_end_of_stream() {
    let mb = start_mailbox_direct(MailboxBounds::Unbounded, |ctx: MailboxContext<CounterMsg>| ctx);
    mb.post(CounterMsg::Increment).unwrap();
    let ctx = {
        let m = mb;
        m.handle
    };
    assert!(matches!(ctx.dequeue(), Ok(CounterMsg::Increment)));
    assert_eq!(ctx.dequeue().err(), Some(MailboxError::ContextClosed));
}

#[test]
fn budget_caps_messages_processed() {
    let mb = start_mailbox_direct(MailboxBounds::Unbounded, |ctx: MailboxContext<CounterMsg>| ctx);
    mb.post(CounterMsg::Increment).unwrap();
    mb.post(CounterMsg::Increment).unwrap();
    mb.post(CounterMsg::Increment).unwrap();
    let ctx = {
        let m = mb;
        m.handle
    };
    let r = run_counter(ctx, 2);
    assert_eq!(r.count, 2);
    assert!(!r.drained);
}

#[test]
fn ask_abandoned_reply_fails_explicitly() {
    let mb = start_mailbox_direct(MailboxBounds::Unbounded, |ctx: MailboxContext<CounterMsg>| {
        async_std::task::spawn_blocking(move || {
            while let Ok(msg) = ctx.dequeue() {
                drop(msg);
            }
        })
    });
    assert_eq!(mb.ask(CounterMsg::GetValue), Err(MailboxError::ContextClosed));
}

#[test]
fn reply_after_abandoned_ask_fails() {
    let (tx, rx) = reply_channel::<i64>();
    drop(rx);
    assert_eq!(tx.reply(7), Err(MailboxError::ReplyFailed));
}

#[test]
fn receive_after_dropped_reply_channel() {
    let (tx, rx) = reply_channel::<i64>();
    drop(tx);
    assert_eq!(rx.receive(), Err(MailboxError::ContextClosed));
}

#[test]
fn reply_round_trip() {
    let (tx, rx) = reply_channel::<i64>();
    tx.reply(42).unwrap();
    assert_eq!(rx.receive().unwrap(), 42);
}

#[test]
fn post_to_abandoned_mailbox_fails() {
    let mb = start_mailbox_direct(MailboxBounds::Unbounded, |ctx: MailboxContext<CounterMsg>| {
        drop(ctx)
    });
    assert_eq!(mb.post(CounterMsg::Increment), Err(MailboxError::PostFailed));
    assert_eq!(mb.ask(CounterMsg::GetValue), Err(MailboxError::PostFailed));
}

#[test]
fn independent_mailboxes_do_not_mix() {
    let mb1 = spawn_counter(MailboxBounds::Unbounded);
    let mb2 = spawn_counter(MailboxBounds::Bounded(8));
    mb1.post(CounterMsg::Increment).unwrap();
    mb1.post(CounterMsg::Increment).unwrap();
    mb2.post(CounterMsg::Decrement).unwrap();
    assert_eq!(mb1.ask(CounterMsg::GetValue).unwrap(), 2);
    assert_eq!(mb2.ask(CounterMsg::GetValue).unwrap(), -1);
}
