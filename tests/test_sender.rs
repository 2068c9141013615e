use sacn_unofficial::packet::{AcnRootLayerProtocol, E131RootLayerData};
use visualization_test::codec::{
    encode_data_packet, DATA_OFFSET, PACKET_CAPACITY, SEQUENCE_OFFSET, UNIVERSE_CAPACITY,
    UNIVERSE_OFFSET,
};
use visualization_test::errors::SenderError;
use visualization_test::sender::{SenderInner, MAX_OWNERS};

struct Frame {
    universe: u16,
    sequence: u8,
    data: Vec<u8>,
}

/// Reads a datagram back with sacn's own parser.
fn parse_frame(buf: &[u8]) -> Result<Frame, String> {
    let packet = AcnRootLayerProtocol::parse(buf).map_err(|e| e.to_string())?;
    match packet.pdu.data {
        E131RootLayerData::DataPacket(f) => Ok(Frame {
            universe: f.universe,
            sequence: f.sequence_number,
            data: f.data.property_values.to_vec(),
        }),
        _ => Err(String::from("not a data packet")),
    }
}

const CID: [u8; 16] = [7, 1, 2, 3, 4, 5, 6, 7, 8, 9, 10, 11, 12, 13, 14, 15];

fn inner() -> SenderInner {
    SenderInner::new(String::from("sender"), CID).unwrap()
}

fn block_of(payload: &[u8]) -> Vec<u8> {
    let mut block = vec![0u8; UNIVERSE_CAPACITY];
    block[1..1 + payload.len()].copy_from_slice(payload);
    block
}

#[test]
fn single_owner_flushes_on_every_send() {
    let mut s = inner();
    let ds = s.add(0, &[0xFF; 180]).unwrap();
    assert_eq!(ds.len(), 1);
    let f = parse_frame(&ds[0]).unwrap();
    assert_eq!(f.universe, 1);
    assert_eq!(f.sequence, 0);
    assert_eq!(f.data.len(), 512);
    assert_eq!(f.data[0], 0);
    assert!(f.data[1..181].iter().all(|b| *b == 0xFF));
    assert!(f.data[181..].iter().all(|b| *b == 0));
    let ds = s.add(0, &[0x00; 180]).unwrap();
    assert_eq!(ds.len(), 1);
    let f = parse_frame(&ds[0]).unwrap();
    assert_eq!(f.sequence, 1);
    assert!(f.data.iter().all(|b| *b == 0));
}

#[test]
fn two_owners_flush_together() {
    let mut s = inner();
    assert_eq!(s.add_owner().unwrap(), 1);
    assert!(s.add(0, &[1, 2, 3]).unwrap().is_empty());
    let ds = s.add(1, &[9, 8]).unwrap();
    assert_eq!(ds.len(), 2);
    let a = parse_frame(&ds[0]).unwrap();
    let b = parse_frame(&ds[1]).unwrap();
    assert_eq!((a.universe, a.sequence), (1, 0));
    assert_eq!((b.universe, b.sequence), (2, 0));
    assert_eq!(a.data, block_of(&[1, 2, 3]));
    assert_eq!(b.data, block_of(&[9, 8]));
    // The completion set is empty again: owner 1 alone does not flush.
    assert!(s.add(1, &[5]).unwrap().is_empty());
    let ds = s.add(0, &[6]).unwrap();
    assert_eq!(parse_frame(&ds[0]).unwrap().sequence, 1);
    // A shorter payload leaves nothing of the longer one before it.
    assert_eq!(parse_frame(&ds[1]).unwrap().data, block_of(&[5]));
    assert_eq!(parse_frame(&ds[0]).unwrap().data, block_of(&[6]));
}

#[test]
fn quorum_needs_every_distinct_owner() {
    let mut s = inner();
    s.add_owner().unwrap();
    s.add_owner().unwrap();
    assert_eq!(s.owners(), 3);
    assert!(s.add(2, &[1]).unwrap().is_empty());
    assert!(s.add(2, &[2]).unwrap().is_empty());
    assert!(s.add(0, &[3]).unwrap().is_empty());
    assert!(s.add(0, &[4]).unwrap().is_empty());
    let ds = s.add(1, &[5]).unwrap();
    assert_eq!(ds.len(), 3);
    // Last write wins within a cycle.
    assert_eq!(parse_frame(&ds[2]).unwrap().data, block_of(&[2]));
    assert_eq!(parse_frame(&ds[0]).unwrap().data, block_of(&[4]));
    assert!(s.add(0, &[1]).unwrap().is_empty());
}

#[test]
fn oversized_payload_changes_nothing() {
    let mut s = inner();
    s.add_owner().unwrap();
    assert!(s.add(0, &[0x11; 10]).unwrap().is_empty());
    assert!(matches!(s.add(1, &[0x22; 512]), Err(SenderError::WrongPacketSize)));
    assert!(matches!(s.add(0, &[0x33; 600]), Err(SenderError::WrongPacketSize)));
    // Owner 1 is still incomplete and the rejected bytes never landed.
    assert!(s.add(1, &[0x44; 4]).unwrap().len() == 2);
    let mut t = inner();
    t.add_owner().unwrap();
    t.add(0, &[0x11; 10]).unwrap();
    let ds = t.add(1, &[0x44; 4]).unwrap();
    assert_eq!(parse_frame(&ds[0]).unwrap().data, block_of(&[0x11; 10]));
    assert_eq!(parse_frame(&ds[1]).unwrap().data, block_of(&[0x44; 4]));
}

#[test]
fn largest_payload_is_accepted() {
    let mut s = inner();
    let ds = s.add(0, &[0xAB; PACKET_CAPACITY]).unwrap();
    let f = parse_frame(&ds[0]).unwrap();
    assert_eq!(f.data, block_of(&[0xAB; 511]));
}

#[test]
fn owner_cap_is_enforced() {
    let mut s = inner();
    assert_eq!(s.add_owner().unwrap(), 1);
    assert_eq!(s.add_owner().unwrap(), 2);
    assert!(matches!(s.add_owner(), Err(SenderError::MaximumOwnersReached)));
    assert_eq!(s.owners(), MAX_OWNERS);
    s.add(0, &[1]).unwrap();
    s.add(1, &[1]).unwrap();
    assert_eq!(s.add(2, &[1]).unwrap().len(), 3);
}

#[test]
fn sequence_numbers_wrap_per_universe() {
    let mut s = inner();
    for round in 0..256u32 {
        let ds = s.add(0, &[1]).unwrap();
        assert_eq!(parse_frame(&ds[0]).unwrap().sequence as u32, round);
    }
    let ds = s.add(0, &[1]).unwrap();
    assert_eq!(parse_frame(&ds[0]).unwrap().sequence, 0);
    // A universe registered later starts at 0, the others keep counting.
    s.add_owner().unwrap();
    s.add(0, &[1]).unwrap();
    let ds = s.add(1, &[1]).unwrap();
    assert_eq!(parse_frame(&ds[0]).unwrap().sequence, 1);
    assert_eq!(parse_frame(&ds[1]).unwrap().sequence, 0);
}

#[test]
fn source_name_must_fit() {
    assert!(matches!(SenderInner::new("x".repeat(64), CID), Err(SenderError::CreationError)));
    assert!(matches!(SenderInner::new(String::from("caf\u{e9}"), CID), Err(SenderError::CreationError)));
    assert!(SenderInner::new("x".repeat(63), CID).is_ok());
}

#[test]
fn encoded_packet_layout() {
    let p = encode_data_packet("sender", &CID, 0x0102, 42, &[5, 6, 7]).unwrap();
    assert_eq!(p.len(), DATA_OFFSET + UNIVERSE_CAPACITY);
    assert_eq!(p[SEQUENCE_OFFSET], 42);
    assert_eq!(p[UNIVERSE_OFFSET], 1);
    assert_eq!(p[UNIVERSE_OFFSET + 1], 2);
    assert_eq!(&p[DATA_OFFSET..DATA_OFFSET + 4], &[0, 5, 6, 7]);
    assert_eq!(&p[4..13], b"ASC-E1.17");
    assert_eq!(&p[22..38], &CID);
    let f = parse_frame(&p).unwrap();
    assert_eq!((f.universe, f.sequence), (0x0102, 42));
    assert_eq!(f.data, block_of(&[5, 6, 7]));
}

#[test]
fn encode_refuses_bad_input() {
    assert!(matches!(encode_data_packet("s", &CID, 1, 0, &[0; 512]), Err(SenderError::WrongPacketSize)));
    let long = "n".repeat(64);
    assert!(matches!(encode_data_packet(&long, &CID, 1, 0, &[0; 3]), Err(SenderError::ProtocolEncodeError)));
}

#[test]
fn owners_get_consecutive_ids() {
    let mut s = inner();
    assert_eq!(s.add_owner().unwrap(), 1);
    assert_eq!(s.add_owner().unwrap(), 2);
    assert!(matches!(s.add_owner(), Err(SenderError::MaximumOwnersReached)));
    assert!(matches!(s.add(2, &[0; 700]), Err(SenderError::WrongPacketSize)));
    assert!(s.add(0, &[1]).unwrap().is_empty());
    assert!(s.add(2, &[3]).unwrap().is_empty());
    let ds = s.add(1, &[2]).unwrap();
    assert_eq!(ds.len(), 3);
    for (u, d) in ds.iter().enumerate() {
        let f = parse_frame(d).unwrap();
        assert_eq!(f.universe as usize, u + 1);
        assert_eq!(f.data, block_of(&[u as u8 + 1]));
    }
}

#[test]
fn rejected_write_between_valid_ones() {
    let mut s = inner();
    s.add_owner().unwrap();
    assert!(s.add(0, &[0xAB; 100]).unwrap().is_empty());
    assert!(matches!(s.add(0, &[0xCD; 512]), Err(SenderError::WrongPacketSize)));
    let ds = s.add(1, &[0x11; 50]).unwrap();
    assert_eq!(ds.len(), 2);
    assert_eq!(parse_frame(&ds[0]).unwrap().data, block_of(&[0xAB; 100]));
    assert_eq!(parse_frame(&ds[1]).unwrap().data, block_of(&[0x11; 50]));
}

#[test]
fn interleaved_owners_never_mix_chunks() {
    let mut s = inner();
    s.add_owner().unwrap();
    s.add_owner().unwrap();
    // Owner order per step, with repeats inside a cycle.
    let order = [2usize, 0, 0, 1, 1, 2, 0, 2, 2, 1, 0, 1, 0, 2, 1, 1, 0, 2];
    let mut latest: [Vec<u8>; 3] = [Vec::new(), Vec::new(), Vec::new()];
    let mut sent = [0u8; 3];
    let mut flushes = 0u8;
    for &o in order.iter() {
        let tag = (o as u8) * 100 + sent[o];
        sent[o] += 1;
        // Payload lengths vary, so a shorter one follows a longer one.
        let payload = vec![tag; 20 + 30 * ((sent[o] as usize) % 3)];
        let ds = s.add(o, &payload).unwrap();
        latest[o] = payload;
        if !ds.is_empty() {
            assert_eq!(ds.len(), 3);
            for (u, d) in ds.iter().enumerate() {
                let f = parse_frame(d).unwrap();
                assert_eq!(f.universe as usize, u + 1);
                assert_eq!(f.sequence, flushes);
                assert_eq!(f.data, block_of(&latest[u]));
            }
            flushes += 1;
        }
    }
    assert_eq!(flushes, 5);
}

#[test]
fn test_creation() -> Result<(), SenderError> {
    SenderInner::new(String::from("sender"), CID)?;
    Ok(())
}

#[test]
fn test_sync() -> Result<(), SenderError> {
    let white: Vec<u8> = vec![255; 60 * 3];
    let black: Vec<u8> = vec![0; 60 * 3];

    let mut sender = SenderInner::new(String::from("sender"), CID)?;

    let mut switch = false;
    for i in 0..50 * 10 {
        let datagrams = if switch { sender.add(0, white.as_slice())? } else { sender.add(0, black.as_slice())? };
        assert_eq!(datagrams.len(), 1);
        let f = parse_frame(&datagrams[0]).unwrap();
        assert_eq!(f.sequence as usize, i % 256);
        assert_eq!(f.data[1], if switch { 255 } else { 0 });
        switch = !switch;
    }

    Ok(())
}
