use spsc::channel;
use spsc::tells_live;
use spsc::Consumer;
use spsc::Producer;
use spsc::RecvError;
use spsc::RecvStep;
use spsc::SendError;
use spsc::SendStep;
use spsc::BUFFER_SIZE;
use spsc::GONE;
use spsc::LIVE;
use spsc::SPSC;
use std::collections::HashSet;
use std::sync::Arc;
use std::sync::Mutex;

/// A send as a caller sees it: attempts until the send is over.
fn send<T: Send>(px: &Producer<T>, val: T) -> Result<(), SendError<T>> {
    let mut step = px.begin_send(val);
    loop {
        match step {
            SendStep::Done(result) => return result,
            SendStep::Retry(val) => step = px.resume_send(val),
        }
    }
}

/// A receive as a caller sees it: attempts until the receive is over.
fn recv<T: Send>(cx: &Consumer<T>) -> Result<T, RecvError> {
    loop {
        if let RecvStep::Done(result) = cx.poll_recv() {
            return result;
        }
    }
}

fn bounded<T: Send>(capacity: usize) -> (Producer<T>, Consumer<T>) {
    SPSC::with_capacity(capacity).split()
}

fn is_send<V: Send>(_value: &V) {}

/// A payload that records its own birth and death.
#[derive(Debug)]
struct Foo {
    key: i32,
    alive: Arc<Mutex<HashSet<i32>>>,
}

impl Foo {
    fn new(key: i32, alive: &Arc<Mutex<HashSet<i32>>>) -> Self {
        assert!(alive.lock().unwrap().insert(key), "double initialisation of element {}", key);
        Foo { key, alive: Arc::clone(alive) }
    }
}

impl Drop for Foo {
    fn drop(&mut self) {
        assert!(self.alive.lock().unwrap().remove(&self.key), "double free of element {}", self.key);
    }
}

#[test]
fn handles_can_cross_threads() {
    let (px, cx) = channel::<String>();
    is_send(&px);
    is_send(&cx);
}

#[test]
fn channel_has_the_default_capacity() {
    let (px, cx) = channel::<u8>();
    assert_eq!(BUFFER_SIZE, 4096);
    assert_eq!(px.capacity(), 4096);
    assert_eq!(cx.capacity(), 4096);
    let (px, cx) = SPSC::<u8>::new().split();
    assert_eq!(px.capacity(), 4096);
    assert_eq!(cx.capacity(), 4096);
}

#[test]
fn with_capacity_sets_the_capacity() {
    let (px, cx) = bounded::<u8>(3);
    assert_eq!(px.capacity(), 3);
    assert_eq!(cx.capacity(), 3);
}

#[test]
fn default_channel_takes_exactly_its_capacity() {
    let (px, cx) = channel::<usize>();
    for i in 0..BUFFER_SIZE {
        assert!(matches!(px.begin_send(i), SendStep::Done(Ok(()))));
    }
    assert!(matches!(px.begin_send(BUFFER_SIZE), SendStep::Retry(4096)));
    assert_eq!(recv(&cx).unwrap(), 0);
    assert!(matches!(px.resume_send(BUFFER_SIZE), SendStep::Done(Ok(()))));
    for i in 1..=BUFFER_SIZE {
        assert_eq!(recv(&cx).unwrap(), i);
    }
    assert!(matches!(cx.poll_recv(), RecvStep::Retry));
}

#[test]
fn two_slots_three_sends() {
    let (px, cx) = bounded::<i32>(2);
    assert!(send(&px, 1).is_ok());
    assert!(send(&px, 2).is_ok());
    // The third send finds no room and keeps asking for another attempt.
    let pending = match px.begin_send(3) {
        SendStep::Retry(val) => val,
        other => panic!("the ring is full, yet the send ended: {:?}", other),
    };
    assert_eq!(pending, 3);
    let pending = match px.resume_send(pending) {
        SendStep::Retry(val) => val,
        other => panic!("the ring is full, yet the send ended: {:?}", other),
    };
    // One receive frees a slot, and the pending send goes through.
    assert_eq!(recv(&cx).unwrap(), 1);
    assert!(matches!(px.resume_send(pending), SendStep::Done(Ok(()))));
    assert_eq!(recv(&cx).unwrap(), 2);
    assert_eq!(recv(&cx).unwrap(), 3);
    drop(cx);
    assert!(matches!(send(&px, 4), Err(SendError(_))));
}

#[test]
fn recv_fails_at_once_when_nothing_was_ever_sent() {
    let (px, cx) = channel::<i32>();
    drop(px);
    assert!(matches!(cx.poll_recv(), RecvStep::Done(Err(RecvError))));
    assert!(recv(&cx).is_err());
}

#[test]
fn closed_channel_stays_closed() {
    let (px, cx) = bounded::<i32>(4);
    send(&px, 7).unwrap();
    send(&px, 8).unwrap();
    drop(px);
    assert_eq!(recv(&cx).unwrap(), 7);
    assert_eq!(recv(&cx).unwrap(), 8);
    for _ in 0..100 {
        assert!(matches!(cx.poll_recv(), RecvStep::Done(Err(RecvError))));
    }
}

#[test]
fn recv_waits_while_the_producer_lives() {
    let (px, cx) = bounded::<i32>(4);
    assert!(matches!(cx.poll_recv(), RecvStep::Retry));
    send(&px, 1).unwrap();
    assert_eq!(recv(&cx).unwrap(), 1);
    assert!(matches!(cx.poll_recv(), RecvStep::Retry));
    drop(px);
    assert!(matches!(cx.poll_recv(), RecvStep::Done(Err(RecvError))));
}

#[test]
fn rejected_send_returns_the_value() {
    let (px, cx) = bounded::<String>(2);
    send(&px, String::from("first")).unwrap();
    drop(cx);
    for i in 0..10 {
        let val = format!("late {}", i);
        match px.begin_send(val.clone()) {
            SendStep::Done(Err(SendError(back))) => assert_eq!(back, val),
            other => panic!("the consumer is gone, yet: {:?}", other),
        }
        match send(&px, val.clone()) {
            Err(err) => assert_eq!(err.0, val),
            Ok(()) => panic!("the consumer is gone, yet the send went through"),
        }
    }
}

#[test]
fn rejected_send_leaves_the_ring_alone() {
    let alive = Arc::new(Mutex::new(HashSet::new()));
    let (px, cx) = bounded::<Foo>(2);
    send(&px, Foo::new(1, &alive)).unwrap();
    drop(cx);
    // Were the rejected values written, one of them would take the free slot
    // and outlive its rejection.
    for key in 2..6 {
        let back = send(&px, Foo::new(key, &alive)).unwrap_err().0;
        assert_eq!(back.key, key);
        drop(back);
        assert_eq!(alive.lock().unwrap().len(), 1);
    }
    drop(px);
    assert!(alive.lock().unwrap().is_empty());
}

#[test]
fn resumed_send_goes_through_though_the_consumer_left() {
    let (px, cx) = bounded::<i32>(1);
    send(&px, 1).unwrap();
    let pending = match px.begin_send(2) {
        SendStep::Retry(val) => val,
        other => panic!("the ring is full, yet the send ended: {:?}", other),
    };
    assert_eq!(recv(&cx).unwrap(), 1);
    drop(cx);
    // The send began while the consumer lived: it only looks for room now.
    assert!(matches!(px.resume_send(pending), SendStep::Done(Ok(()))));
    assert!(matches!(px.begin_send(3), SendStep::Done(Err(SendError(3)))));
}

#[test]
fn order_survives_many_rounds() {
    let (px, cx) = bounded::<u32>(4);
    let mut next_in: u32 = 0;
    let mut next_out: u32 = 0;
    while next_out < 1000 {
        for _ in 0..3 {
            match px.begin_send(next_in) {
                SendStep::Done(Ok(())) => next_in += 1,
                SendStep::Retry(back) => assert_eq!(back, next_in),
                SendStep::Done(Err(_)) => panic!("the consumer lives"),
            }
        }
        assert_eq!(recv(&cx).unwrap(), next_out);
        next_out += 1;
        assert!(next_in - next_out <= 4);
    }
    drop(px);
    while let Ok(val) = recv(&cx) {
        assert_eq!(val, next_out);
        next_out += 1;
    }
    assert_eq!(next_out, next_in);
}

#[test]
fn received_values_are_dropped_once_by_their_receiver() {
    let alive = Arc::new(Mutex::new(HashSet::new()));
    let (px, cx) = bounded::<Foo>(4);
    for key in 0..4 {
        send(&px, Foo::new(key, &alive)).unwrap();
    }
    assert_eq!(alive.lock().unwrap().len(), 4);
    let first = recv(&cx).unwrap();
    assert_eq!(first.key, 0);
    assert_eq!(alive.lock().unwrap().len(), 4);
    drop(first);
    assert_eq!(alive.lock().unwrap().len(), 3);
    drop(px);
    drop(cx);
    assert!(alive.lock().unwrap().is_empty());
}

#[test]
fn values_left_in_the_ring_are_dropped_with_the_last_handle() {
    let alive = Arc::new(Mutex::new(HashSet::new()));
    // Consumer first, then producer.
    let (px, cx) = bounded::<Foo>(8);
    for key in 0..5 {
        send(&px, Foo::new(key, &alive)).unwrap();
    }
    drop(cx);
    assert_eq!(alive.lock().unwrap().len(), 5);
    drop(px);
    assert!(alive.lock().unwrap().is_empty());
    // Producer first, then consumer.
    let (px, cx) = bounded::<Foo>(8);
    for key in 0..5 {
        send(&px, Foo::new(key, &alive)).unwrap();
    }
    drop(px);
    assert_eq!(alive.lock().unwrap().len(), 5);
    drop(cx);
    assert!(alive.lock().unwrap().is_empty());
}

#[test]
fn unused_elements_are_dropped() {
    let alive = Arc::new(Mutex::new(HashSet::new()));

    for i in 0..100 {
        println!("Thread {} ", i);
        let (px, cx) = channel();
        let mut key = 0;
        // The producer runs ahead of the consumer by a few values.
        for _ in 0..i + 10 {
            assert!(send(&px, Foo::new(key, &alive)).is_ok());
            key += 1;
        }

        for _ in 0..i {
            recv(&cx).unwrap();
        }

        drop(cx);

        // The producer goes on until a send fails.
        loop {
            if send(&px, Foo::new(key, &alive)).is_err() {
                println!("AHHHHH on i: {}", key);
                break;
            }
            key += 1;
        }
        drop(px);

        let map = alive.lock().unwrap();
        if !map.is_empty() {
            panic!("FOO_MAP not empty: {:?}", *map);
        }
    }
}

#[test]
fn elements_arrive_ordered() {
    let (px, cx) = channel();

    // The producer's part, which fits into the ring, runs to its end first.
    for i in 0..1000 {
        send(&px, i).unwrap();
    }
    drop(px);

    for i in 0..1000 {
        assert_eq!(i, recv(&cx).unwrap());
    }

    assert!(recv(&cx).is_err());
}

#[test]
fn all_elements_arrive() {
    for _ in 0..100 {
        let (px, cx) = channel();

        for i in 0..1000 {
            send(&px, i).unwrap();
        }
        drop(px);

        let mut count = 0;
        while let Ok(_) = recv(&cx) {
            count += 1;
        }

        assert_eq!(count, (0..1000).len());
    }
}

#[test]
fn indicator_values() {
    assert_eq!(LIVE, 1);
    assert_eq!(GONE, 0);
    assert!(tells_live(LIVE));
    assert!(!tells_live(GONE));
    assert!(tells_live(2));
}

#[test]
fn send_that_saw_the_consumer_gone_is_rejected() {
    let alive = Arc::new(Mutex::new(HashSet::new()));
    let (px, cx) = bounded::<Foo>(2);
    // The ring has room and the lock is free: only what was seen decides.
    match px.begin_send_seeing(false, Foo::new(1, &alive)) {
        SendStep::Done(Err(SendError(back))) => assert_eq!(back.key, 1),
        other => panic!("seen as gone, yet: {:?}", other),
    }
    assert!(alive.lock().unwrap().is_empty());
    assert!(matches!(cx.poll_recv(), RecvStep::Retry));
}

#[test]
fn send_that_saw_the_consumer_alive_looks_for_room() {
    let (px, cx) = bounded::<i32>(1);
    assert!(matches!(px.begin_send_seeing(true, 1), SendStep::Done(Ok(()))));
    assert!(matches!(px.begin_send_seeing(true, 2), SendStep::Retry(2)));
    assert_eq!(recv(&cx).unwrap(), 1);
    assert!(matches!(px.begin_send_seeing(true, 2), SendStep::Done(Ok(()))));
    assert_eq!(recv(&cx).unwrap(), 2);
}

#[test]
fn handles_report_the_slots_of_the_ring_that_was_built() {
    for capacity in [1usize, 2, 5, 64] {
        let (px, cx) = bounded::<usize>(capacity);
        assert_eq!(px.capacity(), capacity);
        assert_eq!(cx.capacity(), capacity);
        for i in 0..capacity {
            assert!(matches!(px.begin_send(i), SendStep::Done(Ok(()))));
        }
        assert!(matches!(px.begin_send(capacity), SendStep::Retry(_)));
    }
}
