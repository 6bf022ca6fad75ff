use ublox::circular_buffer::CircularBuffer;

#[test]
fn cb_push_works() {
    let mut buf = [0; 5];
    let mut buf = CircularBuffer::new(&mut buf);
    assert_eq!(buf.len(), 0);
    assert_eq!(buf.push(13), true);
    assert_eq!(buf.len(), 1);
    assert_eq!(buf.push(15), true);
    assert_eq!(buf.len(), 2);
    assert_eq!(buf.pop(), Some(13));
    assert_eq!(buf.len(), 1);
    assert_eq!(buf.pop(), Some(15));
    assert_eq!(buf.len(), 0);
    assert_eq!(buf.pop(), None);
    assert_eq!(buf.len(), 0);
}

#[test]
fn cb_fills() {
    let mut buf = [0; 5];
    let mut buf = CircularBuffer::new(&mut buf);
    assert_eq!(buf.push(13), true);
    assert_eq!(buf.push(14), true);
    assert_eq!(buf.push(15), true);
    assert_eq!(buf.push(16), true);
    assert_eq!(buf.len(), 4);
    assert_eq!(buf.push(17), false);
    assert_eq!(buf.len(), 4);
    assert_eq!(buf.pop(), Some(13));
    assert_eq!(buf.pop(), Some(14));
    assert_eq!(buf.pop(), Some(15));
    assert_eq!(buf.pop(), Some(16));
    assert_eq!(buf.pop(), None);
}

#[test]
fn cb_skip() {
    let mut buf = [0; 5];
    let mut buf = CircularBuffer::new(&mut buf);
    let slice = [13, 14, 15, 16];
    buf.extend_from_slice(&slice);
    assert_eq!(buf.len(), 4);
    buf.skip(3);
    assert_eq!(buf.len(), 1);
    buf.skip(1);
    assert_eq!(buf.len(), 0);
}

#[test]
fn buf_outlives_cb() {
    let mut buf = [0; 5];
    for _ in 0..2 {
        let mut buf = CircularBuffer::new(&mut buf);
        buf.push(13);
        buf.push(14);
        assert_eq!(buf.len(), 2);
    }
}

#[test]
fn cb_clear_works() {
    let mut buf = [0; 5];
    let mut buf = CircularBuffer::new(&mut buf);
    buf.push(13);
    buf.push(14);
    assert_eq!(buf.len(), 2);
    buf.clear();
    assert_eq!(buf.len(), 0);
}

#[test]
fn cb_extend_works() {
    let mut buf = [0; 5];
    let mut buf = CircularBuffer::new(&mut buf);
    let slice = [13, 14, 15, 16, 17];
    let expected = [13, 14, 15, 16];
    assert_eq!(buf.extend_from_slice(&slice), 4);
    let mut it = buf.iter();
    for b in expected.iter() {
        let a = it.next().unwrap();
        assert_eq!(a, *b);
    }
}

#[test]
fn cbiter_iters() {
    let mut buf = [0; 5];
    let mut buf = CircularBuffer::new(&mut buf);
    let expected: [u8; 4] = [13, 14, 15, 16];
    buf.push(13);
    buf.push(14);
    buf.push(15);
    buf.push(16);
    let mut it = buf.iter();
    for b in expected.iter() {
        let a = it.next().unwrap();
        assert_eq!(a, *b);
    }
}

#[test]
fn cb_wraps_around_after_pops() {
    let mut buf = [0; 4];
    let mut buf = CircularBuffer::new(&mut buf);
    assert!(buf.push(1));
    assert!(buf.push(2));
    assert!(buf.push(3));
    assert!(!buf.push(4));
    assert_eq!(buf.pop(), Some(1));
    assert_eq!(buf.pop(), Some(2));
    assert!(buf.push(4));
    assert!(buf.push(5));
    assert!(!buf.push(6));
    assert_eq!(buf.len(), 3);
    assert_eq!(buf.at(0), 3);
    assert_eq!(buf.at(1), 4);
    assert_eq!(buf.at(2), 5);
    assert_eq!(buf.pop(), Some(3));
    assert_eq!(buf.pop(), Some(4));
    assert_eq!(buf.pop(), Some(5));
    assert_eq!(buf.pop(), None);
}

#[test]
fn cb_iter_ends_with_none() {
    let mut buf = [0; 3];
    let mut buf = CircularBuffer::new(&mut buf);
    buf.push(7);
    let mut it = buf.iter();
    assert_eq!(it.next(), Some(7));
    assert_eq!(it.next(), None);
    assert_eq!(it.next(), None);
}
