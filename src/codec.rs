use vstd::prelude::*;
use crate::errors::SenderError;
use vstd::string::StrSliceExecFns;
use vstd::utf8::{is_ascii_chars, is_ascii_chars_encode_utf8};
use sacn_unofficial::packet::{
    AcnRootLayerProtocol, DataPacketDmpLayer, DataPacketFramingLayer, E131RootLayer,
    E131RootLayerData, E131_DEFAULT_PRIORITY, NO_SYNC_UNIVERSE,
};

verus! {

/// Bytes of one universe's data block: the start code and the channel slots.
pub const UNIVERSE_CAPACITY: usize = 512;

/// Channel bytes that one owner may write per cycle (the block minus the start code).
pub const PACKET_CAPACITY: usize = 511;

/// Offset of the sequence number inside an encoded data packet.
pub const SEQUENCE_OFFSET: usize = 111;

/// Offset of the big-endian universe number inside an encoded data packet.
pub const UNIVERSE_OFFSET: usize = 113;

/// Offset of the data block (start code first) inside an encoded data packet.
pub const DATA_OFFSET: usize = 125;

/// The E1.31 data packet that sacn's packer produces for these fields.
pub uninterp spec fn e131_data_packet(
    name: Seq<char>,
    cid: Seq<u8>,
    universe: u16,
    sequence: u8,
    block: Seq<u8>,
) -> Seq<u8>;

/// Relies on sacn_unofficial's `AcnRootLayerProtocol::pack_alloc` for a data
/// packet (default priority, no synchronisation, no options), with the CID
/// turned into a `uuid::Uuid` by `Uuid::from_bytes`, which fails only for a
/// length other than 16. Packing fails only for a block over 513 bytes and
/// panics for a name over 64 bytes; the layout is fixed by the preamble, root,
/// framing and DMP layers that `pack` writes.
#[verifier::external_body]
pub(crate) fn pack_data_packet(name: &str, cid: &[u8; 16], universe: u16, sequence: u8, block: &[u8]) -> (r:
    Result<Vec<u8>, SenderError>)
    requires
        name.len() <= 64,
        block@.len() <= 513,
    ensures
        r is Ok,
        r matches Ok(p) ==> {
            &&& p@ == e131_data_packet(name@, cid@, universe, sequence, block@)
            &&& p@.len() == DATA_OFFSET + block@.len()
            &&& p@[SEQUENCE_OFFSET as int] == sequence
            &&& p@[UNIVERSE_OFFSET as int] == (universe / 256) as u8
            &&& p@[UNIVERSE_OFFSET + 1] == (universe % 256) as u8
            &&& p@.subrange(DATA_OFFSET as int, p@.len() as int) == block@
        },
{
    let cid = uuid::Uuid::from_bytes(cid).map_err(|_| SenderError::ProtocolEncodeError)?;
    let framing = DataPacketFramingLayer {
        source_name: name.into(), priority: E131_DEFAULT_PRIORITY,
        synchronization_address: NO_SYNC_UNIVERSE, sequence_number: sequence,
        preview_data: false, stream_terminated: false, force_synchronization: false, universe,
        data: DataPacketDmpLayer { property_values: block.into() },
    };
    let packet = AcnRootLayerProtocol {
        pdu: E131RootLayer { cid, data: E131RootLayerData::DataPacket(framing) },
    };
    packet.pack_alloc().map_err(|_| SenderError::ProtocolEncodeError)
}

/// The data block of a universe: start code 0, the payload, then zeros up to
/// `UNIVERSE_CAPACITY` bytes.
pub open spec fn dmx_block(payload: Seq<u8>) -> Seq<u8> {
    Seq::new(
        UNIVERSE_CAPACITY as nat,
        |i: int|
            if 1 <= i && i <= payload.len() {
                payload[i - 1]
            } else {
                0u8
            },
    )
}

/// Whether a source name is plain ASCII and fits the 64-byte field together
/// with its terminating zero.
pub open spec fn name_fits(name: Seq<char>) -> bool {
    is_ascii_chars(name) && name.len() < 64
}

/// A name that fits takes one byte per character, so sacn's packer takes it.
pub proof fn lemma_name_fits_bytes(name: &str)
    requires
        name_fits(name@),
    ensures
        name.len() == name@.len(),
        name.len() < 64,
{
    is_ascii_chars_encode_utf8(name@);
}

/// Tests `name_fits` on a source name.
pub fn source_name_fits(name: &str) -> (r: bool)
    ensures
        r == name_fits(name@),
{
    name.is_ascii() && name.unicode_len() < 64
}

/// Builds the data block of a universe from a payload of at most
/// `PACKET_CAPACITY` bytes.
pub fn make_block(payload: &[u8]) -> (r: Vec<u8>)
    requires
        payload@.len() <= PACKET_CAPACITY,
    ensures
        r@ == dmx_block(payload@),
{
    let mut block: Vec<u8> = Vec::new();
    block.push(0u8);
    let mut i: usize = 0;
    while i < payload.len()
        invariant
            i <= payload@.len(),
            payload@.len() <= PACKET_CAPACITY,
            block@.len() == i + 1,
            forall|k: int| 0 <= k < block@.len() ==> block@[k] == dmx_block(payload@)[k],
        decreases payload@.len() - i,
    {
        block.push(payload[i]);
        i = i + 1;
    }
    while block.len() < UNIVERSE_CAPACITY
        invariant
            payload@.len() + 1 <= block@.len() <= UNIVERSE_CAPACITY,
            forall|k: int| 0 <= k < block@.len() ==> block@[k] == dmx_block(payload@)[k],
        decreases UNIVERSE_CAPACITY - block@.len(),
    {
        block.push(0u8);
    }
    assert(block@ =~= dmx_block(payload@));
    block
}

/// Encodes the data packet of one universe: its block is start code 0, then
/// `payload`, then zeros. A payload over `PACKET_CAPACITY` bytes or a source
/// name that does not fit its field is refused.
pub fn encode_data_packet(name: &str, cid: &[u8; 16], universe: u16, sequence: u8, payload: &[u8]) -> (r:
    Result<Vec<u8>, SenderError>)
    ensures
        payload@.len() > PACKET_CAPACITY ==> r == Err::<Vec<u8>, SenderError>(SenderError::WrongPacketSize),
        payload@.len() <= PACKET_CAPACITY && !name_fits(name@) ==> r == Err::<Vec<u8>, SenderError>(
            SenderError::ProtocolEncodeError,
        ),
        payload@.len() <= PACKET_CAPACITY && name_fits(name@) ==> (r matches Ok(p) && p@
            == e131_data_packet(name@, cid@, universe, sequence, dmx_block(payload@))),
{
    if payload.len() > PACKET_CAPACITY {
        return Err(SenderError::WrongPacketSize);
    }
    if !source_name_fits(name) {
        return Err(SenderError::ProtocolEncodeError);
    }
    proof {
        lemma_name_fits_bytes(name);
    }
    let block = make_block(payload);
    pack_data_packet(name, cid, universe, sequence, block.as_slice())
}

} // verus!
