use manchanrs::new_channel;
use manchanrs::state::ChannelState;

#[test]
fn test_channel_pingpong() {
    let (mut tx, mut rx) = new_channel();
    tx.send("hello".to_string());
    tx.send("world".to_string());
    assert_eq!(rx.recv(), Some("hello".to_string()));
    assert_eq!(rx.recv(), Some("world".to_string()));
}

#[test]
fn test_channel_iterator() {
    let (mut tx, mut rx) = new_channel();
    for i in 0..5 {
        tx.send(i);
    }
    drop(tx);

    let mut i: usize = 0;
    while let Some(val) = rx.recv() {
        match i {
            0 => assert_eq!(val, 0),
            1 => assert_eq!(val, 1),
            2 => assert_eq!(val, 2),
            3 => assert_eq!(val, 3),
            4 => assert_eq!(val, 4),
            _ => panic!("bad length"),
        }
        i += 1;
    }
    assert_eq!(i, 5);
}

#[test]
fn fifo_for_one_sender_and_one_receiver() {
    let (mut tx, mut rx) = new_channel();
    tx.send('a');
    tx.send('b');
    tx.send('c');
    assert_eq!(rx.recv(), Some('a'));
    assert_eq!(rx.recv(), Some('b'));
    assert_eq!(rx.recv(), Some('c'));
}

#[test]
fn interleaved_sends_and_receives_keep_order() {
    let (mut tx, mut rx) = new_channel();
    tx.send(1);
    tx.send(2);
    assert_eq!(rx.recv(), Some(1));
    tx.send(3);
    assert_eq!(rx.recv(), Some(2));
    assert_eq!(rx.recv(), Some(3));
}

#[test]
fn end_of_stream_only_after_queue_drained() {
    let (mut tx, mut rx) = new_channel();
    tx.send(10u32);
    tx.send(20u32);
    drop(tx);
    assert_eq!(rx.recv(), Some(10));
    assert_eq!(rx.recv(), Some(20));
    assert_eq!(rx.recv(), None);
}

#[test]
fn closure_is_idempotent_on_every_receiver() {
    let (tx, mut rx) = new_channel::<u8>();
    let mut rx2 = rx.clone();
    drop(tx);
    for _ in 0..4 {
        assert_eq!(rx.recv(), None);
        assert_eq!(rx2.recv(), None);
    }
}

#[test]
fn channel_stays_open_while_a_clone_lives() {
    let (tx, mut rx) = new_channel();
    let mut tx2 = tx.clone();
    drop(tx);
    tx2.send(7i64);
    assert_eq!(rx.recv(), Some(7));
    drop(tx2);
    assert_eq!(rx.recv(), None);
}

#[test]
fn mpmc_three_senders_three_receivers_without_loss() {
    let (tx, mut rx) = new_channel();
    let mut tx1 = tx.clone();
    let mut tx2 = tx.clone();
    let mut tx3 = tx.clone();
    drop(tx);
    let mut rx1 = rx.clone();
    let mut rx2 = rx.clone();
    let mut rx3 = rx.clone();

    let mut results: Vec<String> = vec![];
    for i in 0..5 {
        tx1.send(format!("hello #{} from tx1", i));
        tx2.send(format!("hello #{} from tx2", i));
        tx3.send(format!("hello #{} from tx3", i));
        results.push(rx1.recv().unwrap());
        results.push(rx2.recv().unwrap());
        results.push(rx3.recv().unwrap());
    }
    drop(tx1);
    drop(tx2);
    drop(tx3);
    results.sort();

    let mut expected: Vec<String> = vec![];
    for i in 0..5 {
        for t in 1..4 {
            expected.push(format!("hello #{} from tx{}", i, t));
        }
    }
    expected.sort();
    assert_eq!(results, expected);
    assert_eq!(rx.recv(), None);
    assert_eq!(rx1.recv(), None);
    assert_eq!(rx2.recv(), None);
    assert_eq!(rx3.recv(), None);
}

#[test]
fn state_starts_with_one_sender_and_empty_queue() {
    let mut s = ChannelState::<u8>::new();
    assert!(s.must_wait());
    assert_eq!(s.take_next(), None);
    assert!(s.remove_sender());
    assert!(!s.must_wait());
}

#[test]
fn state_queue_is_first_in_first_out() {
    let mut s = ChannelState::new();
    s.push(5u16);
    s.push(6u16);
    assert!(!s.must_wait());
    assert_eq!(s.take_next(), Some(5));
    assert_eq!(s.take_next(), Some(6));
    assert_eq!(s.take_next(), None);
    assert!(s.must_wait());
}

#[test]
fn state_counts_senders() {
    let mut s = ChannelState::<u8>::new();
    s.add_sender();
    s.add_sender();
    assert!(!s.remove_sender());
    assert!(!s.remove_sender());
    assert!(s.must_wait());
    assert!(s.remove_sender());
    assert!(!s.must_wait());
    assert!(s.remove_sender());
}
