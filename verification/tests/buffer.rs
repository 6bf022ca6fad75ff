use ublox::{DualBuffer, FixedBuffer, FixedLinearBuffer, ParserError, UnderlyingBuffer};

#[test]
fn dl_split_indexing() {
    let mut buf = vec![1, 2, 3, 4];
    let new = [5, 6, 7, 8];
    let dual = DualBuffer::new(&mut buf, &new[..]);
    for i in 0..8 {
        assert_eq!(dual.at(i), i as u8 + 1);
    }
    dual.finish();
}

#[test]
fn dl_take_range_underlying() {
    let mut buf = vec![1, 2, 3, 4];
    let new: [u8; 0] = [];
    {
        let mut dual = DualBuffer::new(&mut buf, &new[..]);
        let x = dual.take(3).unwrap();
        assert_eq!(x, &[1, 2, 3]);
        dual.finish();
    }
    assert_eq!(buf, &[4]);
}

#[test]
fn dl_take_range_new() {
    let mut buf: Vec<u8> = vec![];
    let new = [1, 2, 3, 4];
    {
        let mut dual = DualBuffer::new(&mut buf, &new[..]);
        let x = dual.take(3).unwrap();
        assert_eq!(x, &[1, 2, 3]);
        dual.finish();
    }
    assert_eq!(buf, &[4]);
}

#[test]
fn dl_take_range_overlapping() {
    let mut buf = vec![1, 2, 3, 4];
    let new = [5, 6, 7, 8];
    {
        let mut dual = DualBuffer::new(&mut buf, &new[..]);
        let x = dual.take(6).unwrap();
        assert_eq!(x, &[1, 2, 3, 4, 5, 6]);
        dual.finish();
    }
    assert_eq!(buf, &[7, 8]);
}

#[test]
fn dl_take_multi_ranges() {
    let mut buf = vec![1, 2, 3, 4, 5, 6, 7];
    let new = [8, 9, 10, 11, 12];
    {
        let mut dual = DualBuffer::new(&mut buf, &new[..]);
        assert_eq!(dual.take(3).unwrap(), &[1, 2, 3]);
        assert_eq!(dual.take(3).unwrap(), &[4, 5, 6]);
        assert_eq!(dual.take(3).unwrap(), &[7, 8, 9]);
        assert_eq!(dual.take(3).unwrap(), &[10, 11, 12]);
        dual.finish();
    }
    assert!(buf.is_empty());
}

#[test]
fn dl_take_multi_ranges2() {
    let mut buf = vec![1, 2, 3, 4, 5, 6, 7];
    let new = [8, 9, 10, 11, 12];
    {
        let mut dual = DualBuffer::new(&mut buf, &new[..]);
        assert_eq!(dual.take(3).unwrap(), &[1, 2, 3]);
        assert_eq!(dual.take(6).unwrap(), &[4, 5, 6, 7, 8, 9]);
        dual.finish();
    }
    assert_eq!(buf, &[10, 11, 12]);
}

#[test]
fn dl_move_then_copy_fixed_lin_buf() {
    let mut buf = [0; 7];
    let mut buf = FixedLinearBuffer::new(&mut buf);
    buf.extend_from_slice(&[1, 2, 3, 4, 5, 6, 7]);
    let new = [8, 9, 10, 11, 12];
    {
        let mut dual = DualBuffer::new(&mut buf, &new[..]);
        assert_eq!(dual.take(3).unwrap(), &[1, 2, 3]);
        assert_eq!(dual.take(6).unwrap(), &[4, 5, 6, 7, 8, 9]);
        dual.finish();
    }
    assert_eq!(buf.len(), 3);
}

#[test]
fn dl_move_then_copy_fixed_buf() {
    let mut buf = FixedBuffer::<7>::new();
    buf.extend_from_slice(&[1, 2, 3, 4, 5, 6, 7]);
    let new = [8, 9, 10, 11, 12];
    {
        let mut dual = DualBuffer::new(&mut buf, &new[..]);
        assert_eq!(dual.take(3).unwrap(), &[1, 2, 3]);
        assert_eq!(dual.take(6).unwrap(), &[4, 5, 6, 7, 8, 9]);
        dual.finish();
    }
    assert_eq!(buf.len(), 3);
}

#[test]
fn dl_drain_partial_underlying() {
    let mut buf = [0; 4];
    let mut buf = FixedLinearBuffer::new(&mut buf);
    buf.extend_from_slice(&[1, 2, 3]);
    let new = [4, 5, 6, 7, 8, 9];
    let mut dual = DualBuffer::new(&mut buf, &new[..]);

    dual.drain(2);
    assert_eq!(dual.len(), 7);
    assert_eq!(dual.take(4).unwrap(), &[3, 4, 5, 6]);
    assert_eq!(dual.len(), 3);
    dual.finish();
}

#[test]
fn dl_drain() {
    let mut buf = [0; 4];
    let mut buf = FixedLinearBuffer::new(&mut buf);
    buf.extend_from_slice(&[1, 2, 3]);
    let new = [4, 5, 6, 7, 8, 9];
    let mut dual = DualBuffer::new(&mut buf, &new[..]);

    dual.drain(5);
    assert_eq!(dual.take(3).unwrap(), &[6, 7, 8]);
    assert_eq!(dual.len(), 1);
    dual.finish();
}

#[test]
fn dl_clear() {
    let mut buf = [0; 4];
    let mut buf = FixedLinearBuffer::new(&mut buf);
    buf.extend_from_slice(&[1, 2, 3]);
    let new = [4, 5, 6, 7, 8, 9];
    let mut dual = DualBuffer::new(&mut buf, &new[..]);

    assert_eq!(dual.len(), 9);
    dual.clear();
    assert_eq!(dual.len(), 0);
    dual.finish();
}

#[test]
fn dl_peek_raw() {
    let mut buf = [0; 4];
    let mut buf = FixedLinearBuffer::new(&mut buf);
    buf.extend_from_slice(&[1, 2, 3]);
    let new = [4, 5, 6, 7, 8, 9];
    let dual = DualBuffer::new(&mut buf, &new[..]);

    let (a, b) = dual.peek_raw(2, 6);
    assert_eq!(a, &[3]);
    assert_eq!(b, &[4, 5, 6]);
    dual.finish();
}

#[test]
fn flb_clear() {
    let mut buf = [0; 16];
    let mut buf = FixedLinearBuffer::new(&mut buf);
    buf.extend_from_slice(&[1, 2, 3, 4, 5, 6, 7]);
    assert_eq!(buf.len(), 7);
    buf.clear();
    assert_eq!(buf.len(), 0);
}

#[test]
fn flb_extend_outside_range() {
    let mut buf = [0; 16];
    let mut buf = FixedLinearBuffer::new(&mut buf);
    buf.extend_from_slice(&[1, 2, 3, 4, 5, 6, 7]);
    buf.extend_from_slice(&[1, 2, 3, 4, 5, 6, 7]);
    buf.extend_from_slice(&[1, 2, 3, 4, 5, 6, 7]);
    assert_eq!(buf.len(), 16);
}

#[test]
fn flb_drain() {
    let mut buf = [0; 16];
    let mut buf = FixedLinearBuffer::new(&mut buf);
    buf.extend_from_slice(&[1, 2, 3, 4, 5, 6, 7]);

    buf.drain(3);
    assert_eq!(buf.len(), 4);
    assert_eq!(buf.range(0, buf.len()), &[4, 5, 6, 7]);

    buf.extend_from_slice(&[1, 2, 3, 4, 5, 6, 7]);
    assert_eq!(buf.len(), 11);
    assert_eq!(buf.range(0, buf.len()), &[4, 5, 6, 7, 1, 2, 3, 4, 5, 6, 7]);
}

#[test]
fn flb_drain_all() {
    let mut buf = [0; 16];
    let mut buf = FixedLinearBuffer::new(&mut buf);
    buf.extend_from_slice(&[1, 2, 3, 4, 5, 6, 7]);

    buf.drain(7);
    assert_eq!(buf.len(), 0);
}

#[test]
fn flb_find() {
    let mut buf = [1, 2, 3, 4, 5, 6, 7, 8];
    let mut buf = FixedLinearBuffer::new(&mut buf);
    assert_eq!(buf.find(5), None);
    buf.extend_from_slice(&[1, 2, 3, 4]);
    assert_eq!(buf.find(5), None);
    buf.extend_from_slice(&[5, 6, 7, 8]);
    assert_eq!(buf.find(5), Some(4));
}

#[test]
fn fixed_buf_clear() {
    let mut buf = FixedBuffer::<16>::new();
    buf.extend_from_slice(&[1, 2, 3, 4, 5, 6, 7]);
    assert_eq!(buf.len(), 7);
    buf.clear();
    assert_eq!(buf.len(), 0);
}

#[test]
fn fixed_buf_extend_outside_range() {
    let mut buf = FixedBuffer::<16>::new();
    buf.extend_from_slice(&[1, 2, 3, 4, 5, 6, 7]);
    buf.extend_from_slice(&[1, 2, 3, 4, 5, 6, 7]);
    buf.extend_from_slice(&[1, 2, 3, 4, 5, 6, 7]);
    assert_eq!(buf.len(), 16);
}

#[test]
fn fixed_buf_drain() {
    let mut buf = FixedBuffer::<16>::new();
    buf.extend_from_slice(&[1, 2, 3, 4, 5, 6, 7]);

    buf.drain(3);
    assert_eq!(buf.len(), 4);
    assert_eq!(buf.range(0, buf.len()), &[4, 5, 6, 7]);

    buf.extend_from_slice(&[1, 2, 3, 4, 5, 6, 7]);
    assert_eq!(buf.len(), 11);
    assert_eq!(buf.range(0, buf.len()), &[4, 5, 6, 7, 1, 2, 3, 4, 5, 6, 7]);
}

#[test]
fn fixed_buf_drain_all() {
    let mut buf = FixedBuffer::<16>::new();
    buf.extend_from_slice(&[1, 2, 3, 4, 5, 6, 7]);

    buf.drain(7);
    assert_eq!(buf.len(), 0);
}

#[test]
fn fixed_buf_find() {
    let mut buf = FixedBuffer::<16>::new();
    assert_eq!(buf.find(5), None);
    buf.extend_from_slice(&[1, 2, 3, 4]);
    assert_eq!(buf.find(5), None);
    buf.extend_from_slice(&[5, 6, 7, 8]);
    assert_eq!(buf.find(5), Some(4));
}

#[test]
fn dl_take_reports_out_of_memory() {
    let mut buf = [0; 4];
    let mut buf = FixedLinearBuffer::new(&mut buf);
    buf.extend_from_slice(&[1, 2]);
    let new = [3, 4, 5, 6, 7, 8];
    let mut dual = DualBuffer::new(&mut buf, &new[..]);
    assert_eq!(dual.take(6), Err(ParserError::OutOfMemory { required_size: 6 }));
    assert_eq!(dual.len(), 8);
    dual.finish();
}

#[test]
fn dl_finish_keeps_what_fits() {
    let mut buf = [0; 4];
    let mut buf = FixedLinearBuffer::new(&mut buf);
    buf.extend_from_slice(&[1, 2]);
    let new = [3, 4, 5, 6];
    let mut dual = DualBuffer::new(&mut buf, &new[..]);
    dual.drain(1);
    assert_eq!(dual.potential_lost_bytes(), 1);
    dual.finish();
    assert_eq!(buf.range(0, buf.len()), &[2, 3, 4, 5]);
}

#[test]
#[should_panic]
fn dl_take_too_many() {
    let mut buf = vec![1, 2, 3, 4];
    let new = [];
    {
        let mut dual = DualBuffer::new(&mut buf, &new[..]);

        // This should panic
        let _ = dual.take(6);
    }
}

#[test]
#[should_panic]
fn dl_take_range_oom_lin_buf() {
    let mut buf = [0; 4];
    let mut buf = FixedLinearBuffer::new(&mut buf);
    let new = [1, 2, 3, 4, 5, 6];

    let mut dual = DualBuffer::new(&mut buf, &new[..]);
    // This should throw
    assert!(
        matches!(dual.take(6), Err(ParserError::OutOfMemory { required_size }) if required_size == 6)
    );
}

#[test]
#[should_panic]
fn dl_take_range_oom_fixed_buf() {
    let new = [1, 2, 3, 4, 5, 6];
    let mut buf = FixedBuffer::<4>::new();

    let mut dual = DualBuffer::new(&mut buf, &new[..]);
    // This should throw
    assert!(
        matches!(dual.take(6), Err(ParserError::OutOfMemory { required_size }) if required_size == 6)
    );
}
