use shmem_lab::channel::{exchange, Channel, ShmemLabError, Stats};
use shmem_lab::envelope::FramingError;

#[test]
fn fresh_channel_gives_writer_the_first_turn() {
    let channel = Channel::create(32);
    assert_eq!(channel.capacity_len(), 32);
    assert!(channel.sender_begin().is_ok());
    assert_eq!(channel.receiver_begin().unwrap_err(), ShmemLabError::Timeout);
}

#[test]
fn receiver_timeout_leaves_channel_usable() {
    // a receiver that gives up on an idle channel has not disturbed it:
    // a later send and receive still deliver correctly
    let mut channel = Channel::create(16);
    assert!(channel.receiver_begin().is_err());
    assert!(channel.receive().is_err());
    let payload: Vec<u8> = vec![1, 2, 3];
    let sent = channel.send(&payload).unwrap();
    assert_eq!(sent.spin_count, 0);
    let got = channel.receive().unwrap();
    assert_eq!(&got.value[0..3], &[1, 2, 3]);
}

#[test]
fn send_blocks_until_receiver_commits() {
    // strict alternation: after a send, the sender's turn is gone until
    // the receiver has committed
    let mut channel = Channel::create(16);
    let payload: Vec<u8> = vec![42];
    assert!(channel.send(&payload).is_ok());
    assert_eq!(channel.sender_begin().unwrap_err(), ShmemLabError::Timeout);
    assert_eq!(channel.send(&payload).unwrap_err(), ShmemLabError::Timeout);
    assert!(channel.receiver_begin().is_ok());
    let got = channel.receive().unwrap();
    assert_eq!(got.value[0], 42);
    assert!(channel.sender_begin().is_ok());
}

#[test]
fn window_api_round_trip() {
    let mut channel = Channel::create(8);
    assert!(channel.sender_begin().is_ok());
    let payload: Vec<u8> = vec![5, 6, 7];
    channel.write_window(&payload);
    channel.commit_send();
    assert!(channel.receiver_begin().is_ok());
    let window = channel.read_window();
    assert_eq!(&window[0..3], &[5, 6, 7]);
    assert_eq!(window.len(), 8);
    channel.commit_receive();
    assert!(channel.sender_begin().is_ok());
}

#[test]
fn exchange_delivers_in_order_without_loss() {
    let mut channel = Channel::create(64);
    let messages: Vec<Vec<u8>> = vec![vec![1], vec![2, 2], vec![3, 3, 3], Vec::new(), vec![9; 60]];
    let received = exchange(&mut channel, &messages).unwrap();
    assert_eq!(received, messages);
    assert!(channel.sender_begin().is_ok());
}

#[test]
fn exchange_rejects_oversize_message() {
    let mut channel = Channel::create(16);
    let messages: Vec<Vec<u8>> = vec![vec![1], vec![7; 13]];
    assert_eq!(exchange(&mut channel, &messages), Err(FramingError::Oversize));
    assert!(channel.sender_begin().is_ok());
}

#[test]
fn stats_record_spin_counts() {
    let mut stats = Stats::new();
    assert!(stats.send_spins.is_empty());
    assert!(stats.receive_spins.is_empty());
    stats.record_send(3);
    stats.record_receive(5);
    stats.record_send(0);
    assert_eq!(stats.send_spins, vec![3, 0]);
    assert_eq!(stats.receive_spins, vec![5]);
}
