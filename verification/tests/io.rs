use awaiter_trait::awaiter::Port;
use awaiter_trait::io::{ByteStream, Wrap};

#[test]
fn read_serves_the_stream_in_order() {
    let mut w = Wrap {
        wrapper: Port::new(1, vec![]),
        wrapped: ByteStream::new(vec![10, 11, 12, 13, 14], 0),
    };
    assert_eq!(w.read(3), Some(vec![10, 11, 12]));
    assert_eq!(w.wrapped.pos, 3);
    assert_eq!(w.read(10), Some(vec![13, 14]));
    assert_eq!(w.wrapped.pos, 5);
    assert_eq!(w.read(1), Some(vec![]));
}

#[test]
fn read_blocks_through_the_awaiter() {
    let mut w = Wrap {
        wrapper: Port::new(1, vec![2, 3, 4, 5]),
        wrapped: ByteStream::new(vec![9, 8], 2),
    };
    assert_eq!(w.read(1), Some(vec![9]));
    assert_eq!(w.wrapper.next, 2);
    assert_eq!(w.read(1), Some(vec![8]));
    assert_eq!(w.wrapper.next, 4);
}

#[test]
fn read_reports_none_when_the_driver_stops() {
    let mut w = Wrap {
        wrapper: Port::new(1, vec![2]),
        wrapped: ByteStream::new(vec![9, 8], 3),
    };
    assert_eq!(w.read(2), None);
    assert_eq!(w.wrapped.pos, 0);
}

#[test]
fn write_lands_in_the_sink_and_flush_syncs() {
    let mut w = Wrap {
        wrapper: Port::new(1, vec![]),
        wrapped: ByteStream::new(vec![], 0),
    };
    assert_eq!(w.write(&vec![7, 8]), Some(2));
    assert_eq!(w.wrapped.sink, vec![7, 8]);
    assert!(!w.wrapped.synced);
    assert_eq!(w.write(&vec![9]), Some(1));
    assert_eq!(w.wrapped.sink, vec![7, 8, 9]);
    assert_eq!(w.flush(), Some(()));
    assert!(w.wrapped.synced);
}

#[test]
fn unfinished_write_leaves_the_sink_alone() {
    let mut w = Wrap {
        wrapper: Port::new(1, vec![]),
        wrapped: ByteStream::new(vec![], 1),
    };
    assert_eq!(w.write(&vec![7]), None);
    assert_eq!(w.wrapped.sink, vec![] as Vec<u8>);
    assert!(w.wrapped.synced);
    assert_eq!(w.flush(), None);
}
