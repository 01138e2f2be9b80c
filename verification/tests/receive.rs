use seyal_client::client::ClientError;
use seyal_client::receive::ReceiveBuffer;

#[test]
fn frames_are_cut_only_when_complete() {
    let mut buffer = ReceiveBuffer::new();
    buffer.admit_read(&[9, 9, 1, 2], 64).unwrap();
    assert_eq!(buffer.header(2), Some(vec![9, 9]));
    assert_eq!(buffer.frame_end(2, 3), Ok(None));
    buffer.admit_read(&[3, 7], 64).unwrap();
    assert_eq!(buffer.frame_end(2, 3), Ok(Some(5)));
    assert_eq!(buffer.take_frame(5), Some(vec![9, 9, 1, 2, 3]));
    assert_eq!(buffer.live_len(), 1);
    assert_eq!(buffer.header(2), None);
}

#[test]
fn reads_beyond_the_bound_are_refused_whole() {
    let mut buffer = ReceiveBuffer::new();
    buffer.admit_read(&[1, 2, 3], 4).unwrap();
    assert_eq!(buffer.admit_read(&[4, 5], 4), Err(ClientError::Capacity));
    assert_eq!(buffer.live_len(), 3);
    assert_eq!(buffer.take_frame(2), Some(vec![1, 2]));
    buffer.admit_read(&[4, 5, 6], 4).unwrap();
    assert_eq!(buffer.live_len(), 4);
    assert_eq!(buffer.take_frame(4), Some(vec![3, 4, 5, 6]));
}

#[test]
fn out_of_range_frame_ends_consume_nothing() {
    let mut buffer = ReceiveBuffer::new();
    buffer.admit_read(&[1, 2, 3], 8).unwrap();
    assert_eq!(buffer.take_frame(4), None);
    assert_eq!(buffer.take_frame(1), Some(vec![1]));
    assert_eq!(buffer.take_frame(0), None);
    buffer.compact();
    assert_eq!(buffer.live_len(), 2);
    assert_eq!(buffer.frame_end(usize::MAX, 1), Err(ClientError::Capacity));
}
