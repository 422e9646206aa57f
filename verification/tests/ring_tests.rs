use magma::error::Error;
use magma::ring::MagmaRingBuffer;
use magma::ring::CONTROL_HEADER_SIZE;
use magma::ring::MAGMA_RING_MAGIC;
use magma::ring::RING_STATUS_ACTIVE;
use magma::ring::RING_STATUS_ASLEEP;

fn ring_with_data(data_size: usize) -> MagmaRingBuffer {
    MagmaRingBuffer::from_raw_parts(vec![0u8; CONTROL_HEADER_SIZE + data_size]).unwrap()
}

fn read_all(ring: &mut MagmaRingBuffer) -> Vec<u8> {
    let mut out = Vec::new();
    ring.read_available(|bytes: &[u8]| {
        out.extend_from_slice(bytes);
        bytes.len()
    });
    out
}

#[test]
fn ring_needs_room_for_data() {
    assert_eq!(MagmaRingBuffer::from_raw_parts(vec![0u8; 64]).err(), Some(Error::InvalidArgs));
    assert_eq!(MagmaRingBuffer::from_raw_parts(vec![0u8; 10]).err(), Some(Error::InvalidArgs));
}

#[test]
fn fresh_ring_header_is_initialized() {
    let ring = ring_with_data(16);
    assert_eq!(ring.data_size(), 16);
    assert_eq!(ring.control().magic, MAGMA_RING_MAGIC);
    assert_eq!(ring.control().ring_size, 16);
    assert_eq!(ring.control().read_offset, 0);
    assert_eq!(ring.control().write_offset, 0);
    assert_eq!(ring.status(), RING_STATUS_ASLEEP);
    assert_eq!(ring.submitted_seqno(), 0);
    assert_eq!(ring.completed_seqno(), 0);
    assert!(!ring.has_data());
}

#[test]
fn existing_header_is_kept() {
    let mut memory = vec![0u8; CONTROL_HEADER_SIZE + 32];
    memory[4..8].copy_from_slice(&MAGMA_RING_MAGIC.to_le_bytes());
    memory[8..12].copy_from_slice(&32u32.to_le_bytes());
    memory[12..16].copy_from_slice(&3u32.to_le_bytes());
    memory[16..20].copy_from_slice(&7u32.to_le_bytes());
    memory[24..28].copy_from_slice(&11u32.to_le_bytes());
    let ring = MagmaRingBuffer::from_raw_parts(memory).unwrap();
    assert_eq!(ring.control().read_offset, 3);
    assert_eq!(ring.control().write_offset, 7);
    assert_eq!(ring.submitted_seqno(), 11);
    assert_eq!(ring.status(), RING_STATUS_ACTIVE);
    assert!(ring.has_data());
}

#[test]
fn read_gives_back_what_was_written() {
    let mut ring = ring_with_data(32);
    assert_eq!(ring.write(&[1, 2, 3, 4, 5]), Ok(5));
    assert_eq!(ring.write(&[6, 7]), Ok(2));
    assert!(ring.has_data());
    assert_eq!(read_all(&mut ring), vec![1, 2, 3, 4, 5, 6, 7]);
    assert!(!ring.has_data());
}

#[test]
fn writes_wrap_round_the_end() {
    let mut ring = ring_with_data(8);
    assert_eq!(ring.write(&[1, 2, 3, 4, 5, 6]), Ok(6));
    assert_eq!(read_all(&mut ring), vec![1, 2, 3, 4, 5, 6]);
    assert_eq!(ring.write(&[7, 8, 9, 10, 11]), Ok(5));
    assert_eq!(ring.control().write_offset, 3);
    assert_eq!(read_all(&mut ring), vec![7, 8, 9, 10, 11]);
}

#[test]
fn write_errors() {
    let mut ring = ring_with_data(8);
    assert_eq!(ring.write(&[]), Ok(0));
    assert_eq!(ring.write(&[0u8; 8]), Err(Error::InvalidArgs));
    assert_eq!(ring.write(&[0u8; 5]), Ok(5));
    // Two bytes are free, one of which always stays free.
    assert_eq!(ring.write(&[0u8; 3]), Err(Error::TimedOut));
    assert_eq!(ring.write(&[9u8; 2]), Ok(2));
    assert_eq!(read_all(&mut ring), vec![0, 0, 0, 0, 0, 9, 9]);
}

#[test]
fn partial_consumption_moves_the_read_offset() {
    let mut ring = ring_with_data(16);
    ring.write(&[1, 2, 3, 4]).unwrap();
    let n = ring.read_available(|bytes: &[u8]| {
        assert_eq!(bytes, &[1, 2, 3, 4]);
        1
    });
    assert_eq!(n, 1);
    assert_eq!(read_all(&mut ring), vec![2, 3, 4]);
    assert_eq!(ring.read_available(|_bytes: &[u8]| panic!("not called on an empty ring")), 0);
}

#[test]
fn ping_only_when_consumer_is_not_active() {
    let mut ring = ring_with_data(16);
    let mut pings = 0;
    assert_eq!(
        ring.write_and_ping(&[1, 2], || {
            pings += 1;
            Ok(())
        }),
        Ok(())
    );
    assert_eq!(pings, 1);
    assert_eq!(ring.submitted_seqno(), 1);
    ring.set_status(RING_STATUS_ACTIVE);
    assert_eq!(ring.write_and_ping_locked(&[3], || panic!("no ping for an active consumer")), Ok(()));
    assert_eq!(ring.submitted_seqno(), 2);
    assert_eq!(read_all(&mut ring), vec![1, 2, 3]);
}

#[test]
fn ping_result_is_returned_and_failed_write_pings_nothing() {
    let mut ring = ring_with_data(4);
    assert_eq!(ring.write_and_ping(&[1], || Err(Error::ConnectionLost)), Err(Error::ConnectionLost));
    assert_eq!(ring.submitted_seqno(), 1);
    assert_eq!(ring.write_and_ping(&[1, 2, 3, 4], || panic!("no ping")), Err(Error::InvalidArgs));
    assert_eq!(ring.submitted_seqno(), 1);
}

#[test]
fn submitted_seqno_wraps() {
    let mut ring = ring_with_data(8);
    ring.set_submitted_seqno(u32::MAX);
    ring.write_and_ping(&[1], || Ok(())).unwrap();
    assert_eq!(ring.submitted_seqno(), 0);
    ring.set_completed_seqno(5);
    assert_eq!(ring.completed_seqno(), 5);
    assert_eq!(ring.load_sentinel(), 0);
}

#[test]
fn control_header_round_trips_through_bytes() {
    let ring = ring_with_data(8);
    let bytes = ring.control().to_bytes();
    assert_eq!(bytes.len(), 64);
    let back = magma::ring::MagmaRingControl::from_bytes(&bytes);
    assert_eq!(back.magic, MAGMA_RING_MAGIC);
    assert_eq!(back.ring_size, 8);
    assert_eq!(back.status, RING_STATUS_ASLEEP);
}
