use journal::channel::{IngestChannel, DEFAULT_CAPACITY};

#[test]
fn a_full_channel_refuses_then_accepts_after_a_take_and_keeps_order() {
    let n = 3;
    let mut ch: IngestChannel<u32> = IngestChannel::new(n);
    for i in 0..n as u32 {
        assert_eq!(ch.try_send(i), Ok(()));
    }
    assert!(ch.is_full());
    assert_eq!(ch.try_send(3), Err(3));
    assert_eq!(ch.len(), 3);
    assert_eq!(ch.recv(), Some(0));
    assert_eq!(ch.try_send(3), Ok(()));
    let mut out = vec![0];
    while let Some(x) = ch.recv() {
        out.push(x);
    }
    assert_eq!(out, vec![0, 1, 2, 3]);
}

#[test]
fn the_default_capacity_is_1024() {
    let mut ch: IngestChannel<usize> = IngestChannel::with_default_capacity();
    assert_eq!(ch.capacity(), 1024);
    assert_eq!(DEFAULT_CAPACITY, 1024);
    for i in 0..1024 {
        assert!(ch.try_send(i).is_ok());
    }
    assert_eq!(ch.try_send(1024), Err(1024));
}

#[test]
fn an_empty_channel_gives_nothing() {
    let mut ch: IngestChannel<u8> = IngestChannel::new(1);
    assert_eq!(ch.recv(), None);
    assert_eq!(ch.len(), 0);
}
