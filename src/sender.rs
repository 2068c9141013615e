use vstd::prelude::*;
use crate::codec::{
    dmx_block, e131_data_packet, name_fits, pack_data_packet, PACKET_CAPACITY, UNIVERSE_CAPACITY,
};
use crate::errors::SenderError;
use crate::codec::{lemma_name_fits_bytes, source_name_fits};
use crate::utils::{count_true, lemma_num_true_prefix, num_true};

verus! {

/// Upper bound on concurrently registered owners (and so on universes).
pub const MAX_OWNERS: usize = 3;

/// Bytes of the shared buffer: one universe block per owner slot.
pub const BUFFER_LEN: usize = MAX_OWNERS * UNIVERSE_CAPACITY;

/// The next sequence number after `s`, wrapping at 256.
pub open spec fn next_seq(s: u8) -> u8 {
    if s == 255 {
        0
    } else {
        (s + 1) as u8
    }
}

/// The block owned by `owner` inside the shared buffer.
pub open spec fn chunk(buffer: Seq<u8>, owner: int) -> Seq<u8> {
    buffer.subrange(owner * UNIVERSE_CAPACITY, owner * UNIVERSE_CAPACITY + UNIVERSE_CAPACITY)
}

/// `buffer` with `owner`'s block replaced by the block of `data`: start code
/// 0, `data`, then zeros.
pub open spec fn write_chunk(buffer: Seq<u8>, owner: int, data: Seq<u8>) -> Seq<u8> {
    Seq::new(
        buffer.len(),
        |k: int|
            if owner * UNIVERSE_CAPACITY <= k < owner * UNIVERSE_CAPACITY + UNIVERSE_CAPACITY {
                dmx_block(data)[k - owner * UNIVERSE_CAPACITY]
            } else {
                buffer[k]
            },
    )
}

/// The abstract state of an aggregator.
pub struct SenderView {
    /// Source name carried by every datagram.
    pub name: Seq<char>,
    /// Source identifier carried by every datagram.
    pub cid: Seq<u8>,
    /// Registered owners; their ids are `0 .. owners`.
    pub owners: nat,
    /// Per owner slot: has it written in the current cycle.
    pub complete: Seq<bool>,
    /// The shared buffer, one `UNIVERSE_CAPACITY` block per owner slot.
    pub buffer: Seq<u8>,
    /// Per owner slot: the sequence number of its universe's next datagram.
    pub sequences: Seq<u8>,
}

impl SenderView {
    /// The invariant of an aggregator between operations.
    pub open spec fn wf(self) -> bool {
        &&& self.shaped()
        &&& num_true(self.complete) < self.owners
    }

    /// The state right after `owner` wrote `data`, before any flush.
    pub open spec fn written(self, owner: nat, data: Seq<u8>) -> SenderView {
        SenderView {
            buffer: write_chunk(self.buffer, owner as int, data),
            complete: self.complete.update(owner as int, true),
            ..self
        }
    }

    /// Every registered owner has written in this cycle.
    pub open spec fn flush_due(self) -> bool {
        num_true(self.complete) == self.owners
    }

    /// The state after a flush: completions cleared, each registered
    /// universe's sequence number advanced.
    pub open spec fn flushed(self) -> SenderView {
        SenderView {
            complete: Seq::new(MAX_OWNERS as nat, |i: int| false),
            sequences: Seq::new(
                MAX_OWNERS as nat,
                |i: int|
                    if i < self.owners {
                        next_seq(self.sequences[i])
                    } else {
                        self.sequences[i]
                    },
            ),
            ..self
        }
    }

    /// The state after `owner` submitted `data`: written, then flushed when due.
    pub open spec fn submitted(self, owner: nat, data: Seq<u8>) -> SenderView {
        let w = self.written(owner, data);
        if w.flush_due() {
            w.flushed()
        } else {
            w
        }
    }

    /// The datagram of universe `u + 1`, as a flush in this state sends it.
    pub open spec fn datagram(self, u: int) -> Seq<u8> {
        e131_data_packet(self.name, self.cid, (u + 1) as u16, self.sequences[u], chunk(self.buffer, u))
    }

    /// Every part of `wf` but the bound on completions.
    pub open spec fn shaped(self) -> bool {
        &&& name_fits(self.name)
        &&& self.cid.len() == 16
        &&& 1 <= self.owners <= MAX_OWNERS
        &&& self.complete.len() == MAX_OWNERS
        &&& self.buffer.len() == BUFFER_LEN
        &&& self.sequences.len() == MAX_OWNERS
        &&& forall|i: int| self.owners <= i < MAX_OWNERS ==> !self.complete[i]
        &&& forall|i: int| 0 <= i < MAX_OWNERS ==> (#[trigger] chunk(self.buffer, i))[0] == 0
    }

    /// The state after one more owner registered.
    pub open spec fn registered(self) -> SenderView {
        SenderView { owners: self.owners + 1, ..self }
    }
}

/// The shared state of all owners: owner count, per-owner completion flags,
/// the shared payload buffer and per-universe sequence numbers. Owner `i`
/// writes universe `i + 1`.
pub struct SenderInner {
    name: String,
    cid: [u8; 16],
    owners: usize,
    packet_complete: Vec<bool>,
    packet: Vec<u8>,
    sequences: Vec<u8>,
}

impl View for SenderInner {
    type V = SenderView;

    closed spec fn view(&self) -> SenderView {
        SenderView {
            name: self.name@,
            cid: self.cid@,
            owners: self.owners as nat,
            complete: self.packet_complete@,
            buffer: self.packet@,
            sequences: self.sequences@,
        }
    }
}

/// The state of a fresh aggregator: owner 0 alone, nothing written, every
/// sequence number 0.
pub open spec fn initial_view(name: Seq<char>, cid: Seq<u8>) -> SenderView {
    SenderView {
        name,
        cid,
        owners: 1,
        complete: Seq::new(MAX_OWNERS as nat, |i: int| false),
        buffer: Seq::new(BUFFER_LEN as nat, |i: int| 0u8),
        sequences: Seq::new(MAX_OWNERS as nat, |i: int| 0u8),
    }
}

impl SenderInner {
    /// Creates the aggregator with owner 0 registered. The source name must
    /// be ASCII and shorter than 64 bytes, else `CreationError`.
    pub fn new(name: String, cid: [u8; 16]) -> (r: Result<SenderInner, SenderError>)
        ensures
            !name_fits(name@) ==> r == Err::<SenderInner, SenderError>(SenderError::CreationError),
            name_fits(name@) ==> (r matches Ok(s) && s@ == initial_view(name@, cid@) && s@.wf()),
    {
        if !source_name_fits(name.as_str()) {
            return Err(SenderError::CreationError);
        }
        let mut packet_complete: Vec<bool> = Vec::new();
        let mut sequences: Vec<u8> = Vec::new();
        let mut i: usize = 0;
        while i < MAX_OWNERS
            invariant
                i <= MAX_OWNERS,
                packet_complete@ =~= Seq::new(i as nat, |k: int| false),
                sequences@ =~= Seq::new(i as nat, |k: int| 0u8),
            decreases MAX_OWNERS - i,
        {
            packet_complete.push(false);
            sequences.push(0u8);
            i = i + 1;
        }
        let mut packet: Vec<u8> = Vec::new();
        let mut j: usize = 0;
        while j < BUFFER_LEN
            invariant
                j <= BUFFER_LEN,
                packet@ =~= Seq::new(j as nat, |k: int| 0u8),
            decreases BUFFER_LEN - j,
        {
            packet.push(0u8);
            j = j + 1;
        }
        let s = SenderInner { name, cid, owners: 1, packet_complete, packet, sequences };
        proof {
            lemma_num_true_prefix(s@.complete, 0);
            assert(s@ == initial_view(s@.name, s@.cid));
        }
        Ok(s)
    }

    /// Registers one more owner and returns its id, which is the owner count
    /// before the call; its universe is the id plus one. With `MAX_OWNERS`
    /// already registered it fails with `MaximumOwnersReached` and changes
    /// nothing.
    pub fn add_owner(&mut self) -> (r: Result<usize, SenderError>)
        requires
            old(self)@.wf(),
        ensures
            final(self)@.wf(),
            old(self)@.owners == MAX_OWNERS ==> r == Err::<usize, SenderError>(
                SenderError::MaximumOwnersReached,
            ) && final(self)@ == old(self)@,
            old(self)@.owners < MAX_OWNERS ==> r == Ok::<usize, SenderError>(old(self)@.owners as usize)
                && final(self)@ == old(self)@.registered(),
    {
        if self.owners == MAX_OWNERS {
            return Err(SenderError::MaximumOwnersReached);
        }
        let new_owner_id = self.owners;
        self.owners = self.owners + 1;
        Ok(new_owner_id)
    }

    /// Number of registered owners.
    pub fn owners(&self) -> (r: usize)
        ensures
            r == self@.owners,
    {
        self.owners
    }

    /// Replaces owner slot `id`'s block by start code 0, `data` and zero
    /// padding; a payload over `PACKET_CAPACITY` bytes is refused before
    /// anything changes.
    fn add_to_packet(&mut self, id: usize, data: &[u8]) -> (r: Result<(), SenderError>)
        requires
            old(self)@.shaped(),
            id < MAX_OWNERS,
        ensures
            data@.len() > PACKET_CAPACITY ==> r == Err::<(), SenderError>(SenderError::WrongPacketSize)
                && final(self)@ == old(self)@,
            data@.len() <= PACKET_CAPACITY ==> r is Ok && final(self)@ == (SenderView {
                buffer: write_chunk(old(self)@.buffer, id as int, data@),
                ..old(self)@
            }),
    {
        if data.len() > PACKET_CAPACITY {
            return Err(SenderError::WrongPacketSize);
        }
        let start = id * UNIVERSE_CAPACITY + 1;
        let ghost old_buffer = self.packet@;
        let mut i: usize = 0;
        while i < PACKET_CAPACITY
            invariant
                i <= PACKET_CAPACITY,
                data@.len() <= PACKET_CAPACITY,
                id < MAX_OWNERS,
                start == id * UNIVERSE_CAPACITY + 1,
                self.packet@.len() == old_buffer.len() == BUFFER_LEN,
                forall|k: int|
                    0 <= k < BUFFER_LEN ==> #[trigger] self.packet@[k] == if start <= k < start + i {
                        dmx_block(data@)[k - start + 1]
                    } else {
                        old_buffer[k]
                    },
                self.name == old(self).name,
                self.cid == old(self).cid,
                self.owners == old(self).owners,
                self.packet_complete == old(self).packet_complete,
                self.sequences == old(self).sequences,
            decreases PACKET_CAPACITY - i,
        {
            let byte: u8 = if i < data.len() {
                data[i]
            } else {
                0
            };
            self.packet.set(start + i, byte);
            i = i + 1;
        }
        proof {
            let w = write_chunk(old_buffer, id as int, data@);
            assert forall|k: int| 0 <= k < BUFFER_LEN implies self.packet@[k] == w[k] by {
                if k == id * UNIVERSE_CAPACITY {
                    assert(chunk(old_buffer, id as int)[0] == old_buffer[k]);
                }
            }
            assert(self.packet@ =~= w);
        }
        Ok(())
    }

    /// Encodes one datagram per registered universe, in universe order, and
    /// advances each of their sequence numbers.
    fn send_packet(&mut self) -> (r: Result<Vec<Vec<u8>>, SenderError>)
        requires
            old(self)@.shaped(),
        ensures
            r matches Ok(ds) && ds@.len() == old(self)@.owners && (forall|u: int|
                0 <= u < ds@.len() ==> (#[trigger] ds@[u])@ == old(self)@.datagram(u)),
            final(self)@ == (SenderView { sequences: old(self)@.flushed().sequences, ..old(self)@ }),
    {
        let mut datagrams: Vec<Vec<u8>> = Vec::new();
        let mut u: usize = 0;
        while u < self.owners
            invariant
                u <= self.owners <= MAX_OWNERS,
                self.name == old(self).name,
                self.cid == old(self).cid,
                self.owners == old(self).owners,
                self.packet_complete == old(self).packet_complete,
                self.packet == old(self).packet,
                self.packet@.len() == BUFFER_LEN,
                self.sequences@.len() == MAX_OWNERS,
                name_fits(self.name@),
                datagrams@.len() == u,
                forall|k: int| 0 <= k < u ==> (#[trigger] datagrams@[k])@ == old(self)@.datagram(k),
                forall|k: int|
                    0 <= k < MAX_OWNERS ==> #[trigger] self.sequences@[k] == if k < u {
                        next_seq(old(self)@.sequences[k])
                    } else {
                        old(self)@.sequences[k]
                    },
            decreases self.owners - u,
        {
            let start = u * UNIVERSE_CAPACITY;
            let mut block: Vec<u8> = Vec::new();
            let mut k: usize = 0;
            while k < UNIVERSE_CAPACITY
                invariant
                    k <= UNIVERSE_CAPACITY,
                    u < MAX_OWNERS,
                    start == u * UNIVERSE_CAPACITY,
                    self.packet@.len() == BUFFER_LEN,
                    block@ =~= self.packet@.subrange(start as int, start + k),
                decreases UNIVERSE_CAPACITY - k,
            {
                block.push(self.packet[start + k]);
                k = k + 1;
            }
            let sequence = self.sequences[u];
            let name = self.name.as_str();
            proof {
                lemma_name_fits_bytes(name);
            }
            let datagram = pack_data_packet(
                name,
                &self.cid,
                (u + 1) as u16,
                sequence,
                block.as_slice(),
            );
            match datagram {
                Ok(d) => datagrams.push(d),
                Err(e) => return Err(e),
            }
            let next: u8 = if sequence == 255 {
                0
            } else {
                sequence + 1
            };
            self.sequences.set(u, next);
            u = u + 1;
        }
        proof {
            assert(self.sequences@ =~= old(self)@.flushed().sequences);
        }
        Ok(datagrams)
    }

    /// Writes owner `owner_id`'s payload for this cycle and marks it complete
    /// (a second write in one cycle replaces the first). Once every registered
    /// owner has written, flushes: returns one encoded datagram per universe,
    /// universe `u + 1` carrying owner `u`'s block and sequence number, then
    /// advances those sequence numbers and clears every completion. Otherwise
    /// returns no datagram. A payload over `PACKET_CAPACITY` bytes is refused
    /// with `WrongPacketSize` and changes nothing.
    pub fn add(&mut self, owner_id: usize, data: &[u8]) -> (r: Result<Vec<Vec<u8>>, SenderError>)
        requires
            old(self)@.wf(),
            owner_id < old(self)@.owners,
        ensures
            final(self)@.wf(),
            data@.len() > PACKET_CAPACITY ==> r == Err::<Vec<Vec<u8>>, SenderError>(
                SenderError::WrongPacketSize,
            ) && final(self)@ == old(self)@,
            data@.len() <= PACKET_CAPACITY ==> final(self)@ == old(self)@.submitted(owner_id as nat, data@),
            data@.len() <= PACKET_CAPACITY ==> chunk(final(self)@.buffer, owner_id as int) == dmx_block(
                data@,
            ),
            data@.len() <= PACKET_CAPACITY ==> (r matches Ok(ds) && if old(self)@.written(
                owner_id as nat,
                data@,
            ).flush_due() {
                ds@.len() == old(self)@.owners && forall|u: int|
                    0 <= u < ds@.len() ==> (#[trigger] ds@[u])@ == old(self)@.written(
                        owner_id as nat,
                        data@,
                    ).datagram(u)
            } else {
                ds@.len() == 0
            }),
    {
        let ghost w = old(self)@.written(owner_id as nat, data@);
        match self.add_to_packet(owner_id, data) {
            Ok(()) => {},
            Err(e) => return Err(e),
        }
        self.packet_complete.set(owner_id, true);
        proof {
            assert(self@ == w);
            assert(chunk(w.buffer, owner_id as int) =~= dmx_block(data@));
            assert forall|i: int| 0 <= i < MAX_OWNERS implies (#[trigger] chunk(w.buffer, i))[0] == 0 by {
                assert(chunk(w.buffer, i)[0] == w.buffer[i * UNIVERSE_CAPACITY]);
                assert(chunk(old(self)@.buffer, i)[0] == old(self)@.buffer[i * UNIVERSE_CAPACITY]);
            }
            lemma_num_true_prefix(w.complete, w.owners as int);
        }
        if count_true(self.packet_complete.as_slice()) == self.owners {
            let datagrams = match self.send_packet() {
                Ok(ds) => ds,
                Err(e) => return Err(e),
            };
            let mut i: usize = 0;
            while i < MAX_OWNERS
                invariant
                    i <= MAX_OWNERS,
                    self.packet_complete@.len() == MAX_OWNERS,
                    forall|k: int| 0 <= k < i ==> !self.packet_complete@[k],
                    self@ == (SenderView { complete: self@.complete, ..w.flushed() }),
                decreases MAX_OWNERS - i,
            {
                self.packet_complete.set(i, false);
                i = i + 1;
            }
            proof {
                assert(self@.complete =~= w.flushed().complete);
                assert(self@ == w.flushed());
                lemma_num_true_prefix(self@.complete, 0);
            }
            Ok(datagrams)
        } else {
            Ok(Vec::new())
        }
    }
}

} // verus!