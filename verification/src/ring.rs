//! The command ring shared between a producer and a consumer.
//!
//! The ring memory starts with a 64-byte control header, followed by the
//! circular data region. The producer appends at `write_offset`, the consumer
//! takes from `read_offset`; one byte always stays free so that equal offsets
//! mean an empty ring. Here the ring owns its memory: while a method runs,
//! nobody else moves the offsets.
use vstd::prelude::*;

use crate::error::Error;
use crate::wire::from_le32;
use crate::wire::get_u32;
use crate::wire::le32;
use crate::wire::le32_seq;
use crate::wire::lemma_le32_seq_len;
use crate::wire::put_u32;
use crate::wire::put_u32_array;

verus! {

/// "MAGM": marks a control header that was set up.
pub const MAGMA_RING_MAGIC: u32 = 0x4d41474d;
pub const RING_STATUS_ACTIVE: u32 = 0;
pub const RING_STATUS_SPINNING: u32 = 1;
pub const RING_STATUS_ASLEEP: u32 = 2;

/// Size of the control header that precedes the data region.
pub const CONTROL_HEADER_SIZE: usize = 64;

/// Most bytes handed to a consumer at once.
pub const SCRATCH_SIZE: usize = 8192;

/// Shared control header at the start of the ring memory, 64 bytes long.
#[derive(Clone, Copy, Debug)]
pub struct MagmaRingControl {
    /// Sentinel word, watched by the consumer while it sleeps.
    pub sentinel: u32,
    /// `MAGMA_RING_MAGIC` once the header is set up.
    pub magic: u32,
    /// Size of the circular data region in bytes.
    pub ring_size: u32,
    /// Where the consumer reads next.
    pub read_offset: u32,
    /// Where the producer writes next.
    pub write_offset: u32,
    /// Consumer status: active, spinning or asleep.
    pub status: u32,
    /// Latest sequence number submitted by the producer.
    pub submitted_seqno: u32,
    /// Latest sequence number completed by the consumer.
    pub completed_seqno: u32,
    /// Padding up to 64 bytes.
    pub _pad: [u32; 8],
}

impl MagmaRingControl {
    /// The header bytes, every word little-endian.
    pub open spec fn spec_bytes(&self) -> Seq<u8> {
        le32(self.sentinel) + le32(self.magic) + le32(self.ring_size) + le32(self.read_offset)
            + le32(self.write_offset) + le32(self.status) + le32(self.submitted_seqno) + le32(
            self.completed_seqno,
        ) + le32_seq(self._pad@)
    }

    /// The header read from the first 64 bytes of `b`.
    pub open spec fn spec_from_bytes(b: Seq<u8>) -> MagmaRingControl {
        MagmaRingControl {
            sentinel: from_le32(b.subrange(0, 4)),
            magic: from_le32(b.subrange(4, 8)),
            ring_size: from_le32(b.subrange(8, 12)),
            read_offset: from_le32(b.subrange(12, 16)),
            write_offset: from_le32(b.subrange(16, 20)),
            status: from_le32(b.subrange(20, 24)),
            submitted_seqno: from_le32(b.subrange(24, 28)),
            completed_seqno: from_le32(b.subrange(28, 32)),
            _pad: self::spec_pad_from_bytes(b),
        }
    }

    /// The header bytes, every word little-endian.
    pub fn to_bytes(&self) -> (b: Vec<u8>)
        ensures
            b@ == self.spec_bytes(),
            b@.len() == CONTROL_HEADER_SIZE,
    {
        let mut v: Vec<u8> = Vec::new();
        put_u32(&mut v, self.sentinel);
        put_u32(&mut v, self.magic);
        put_u32(&mut v, self.ring_size);
        put_u32(&mut v, self.read_offset);
        put_u32(&mut v, self.write_offset);
        put_u32(&mut v, self.status);
        put_u32(&mut v, self.submitted_seqno);
        put_u32(&mut v, self.completed_seqno);
        put_u32_array(&mut v, &self._pad);
        proof {
            lemma_le32_seq_len(self._pad@);
            assert(v@ =~= self.spec_bytes());
        }
        v
    }

    /// The header read from the first 64 bytes of `b`.
    pub fn from_bytes(b: &[u8]) -> (c: MagmaRingControl)
        requires
            b@.len() >= CONTROL_HEADER_SIZE,
        ensures
            c == Self::spec_from_bytes(b@),
    {
        let pad = [
            get_u32(b, 32),
            get_u32(b, 36),
            get_u32(b, 40),
            get_u32(b, 44),
            get_u32(b, 48),
            get_u32(b, 52),
            get_u32(b, 56),
            get_u32(b, 60),
        ];
        let c = MagmaRingControl {
            sentinel: get_u32(b, 0),
            magic: get_u32(b, 4),
            ring_size: get_u32(b, 8),
            read_offset: get_u32(b, 12),
            write_offset: get_u32(b, 16),
            status: get_u32(b, 20),
            submitted_seqno: get_u32(b, 24),
            completed_seqno: get_u32(b, 28),
            _pad: pad,
        };
        assert(c._pad@ =~= spec_pad_from_bytes(b@)@);
        c
    }
}

/// The eight padding words stored at bytes 32..64 of `b`.
pub open spec fn spec_pad_from_bytes(b: Seq<u8>) -> [u32; 8] {
    [
        from_le32(b.subrange(32, 36)),
        from_le32(b.subrange(36, 40)),
        from_le32(b.subrange(40, 44)),
        from_le32(b.subrange(44, 48)),
        from_le32(b.subrange(48, 52)),
        from_le32(b.subrange(52, 56)),
        from_le32(b.subrange(56, 60)),
        from_le32(b.subrange(60, 64)),
    ]
}

/// The bytes waiting in a ring of data `d`, from `r` up to `w`, going round
/// the end when `w < r`.
pub open spec fn ring_contents(d: Seq<u8>, r: int, w: int) -> Seq<u8> {
    if w >= r {
        d.subrange(r, w)
    } else {
        d.subrange(r, d.len() as int) + d.subrange(0, w)
    }
}

/// Data `d` after storing `bytes` from offset `w` on, going round the end.
pub open spec fn ring_store(d: Seq<u8>, w: int, bytes: Seq<u8>) -> Seq<u8> {
    if w + bytes.len() <= d.len() {
        d.take(w) + bytes + d.skip(w + bytes.len())
    } else {
        let first = d.len() - w;
        let second = bytes.len() - first;
        bytes.skip(first) + d.subrange(second, w) + bytes.take(first)
    }
}

/// Where the write offset goes after storing `n` bytes from `w` in a ring of
/// `size` bytes.
pub open spec fn ring_advance(size: int, w: int, n: int) -> int {
    if w + n <= size {
        (w + n) % size
    } else {
        n - (size - w)
    }
}

/// Free room in a ring of `size` bytes: one byte always stays free.
pub open spec fn ring_available(size: int, r: int, w: int) -> int {
    if w >= r {
        size - 1 - (w - r)
    } else {
        r - w - 1
    }
}

/// The ring of the command stream, owning its memory.
pub struct MagmaRingBuffer {
    control: MagmaRingControl,
    data: Vec<u8>,
}

impl MagmaRingBuffer {
    /// The control header.
    pub closed spec fn spec_control(&self) -> MagmaRingControl {
        self.control
    }

    /// The circular data region.
    pub closed spec fn spec_data(&self) -> Seq<u8> {
        self.data@
    }

    /// Size of the data region.
    pub open spec fn spec_size(&self) -> int {
        self.spec_data().len() as int
    }

    /// The offsets lie inside a non-empty data region whose size fits the
    /// 32-bit offsets.
    pub open spec fn wf(&self) -> bool {
        &&& 0 < self.spec_size() <= u32::MAX
        &&& self.spec_control().read_offset < self.spec_size()
        &&& self.spec_control().write_offset < self.spec_size()
    }

    /// The bytes waiting for the consumer, in order.
    pub open spec fn contents(&self) -> Seq<u8> {
        ring_contents(
            self.spec_data(),
            self.spec_control().read_offset as int,
            self.spec_control().write_offset as int,
        )
    }

    /// Free room for the producer.
    pub open spec fn available(&self) -> int {
        ring_available(
            self.spec_size(),
            self.spec_control().read_offset as int,
            self.spec_control().write_offset as int,
        )
    }

    /// The outcome of writing `bytes`.
    pub open spec fn write_result(&self, bytes: Seq<u8>) -> Result<usize, Error> {
        if bytes.len() == 0 {
            Ok(0)
        } else if bytes.len() >= self.spec_size() {
            Err(Error::InvalidArgs)
        } else if bytes.len() > self.available() {
            Err(Error::TimedOut)
        } else {
            Ok(bytes.len() as usize)
        }
    }

    /// The data region after a successful write of `bytes`.
    pub open spec fn data_after_write(&self, bytes: Seq<u8>) -> Seq<u8> {
        if bytes.len() == 0 {
            self.spec_data()
        } else {
            ring_store(self.spec_data(), self.spec_control().write_offset as int, bytes)
        }
    }

    /// The write offset after a successful write of `bytes`.
    pub open spec fn write_offset_after_write(&self, bytes: Seq<u8>) -> u32 {
        if bytes.len() == 0 {
            self.spec_control().write_offset
        } else {
            ring_advance(self.spec_size(), self.spec_control().write_offset as int, bytes.len() as int) as u32
        }
    }

    /// `after` is this ring with `bytes` stored at the write offset and the
    /// write offset moved past them.
    pub open spec fn stored(&self, after: &MagmaRingBuffer, bytes: Seq<u8>) -> bool {
        let w = self.spec_control().write_offset as int;
        &&& after.spec_data() == ring_store(self.spec_data(), w, bytes)
        &&& after.spec_control() == MagmaRingControl {
            write_offset: ring_advance(self.spec_size(), w, bytes.len() as int) as u32,
            ..self.spec_control()
        }
    }

    /// Sets up a ring over `memory`: the first 64 bytes hold the control
    /// header, the rest is the data region. A header without the magic word
    /// is initialized: empty ring, consumer asleep, sequence numbers zero,
    /// size recorded. Fails with `InvalidArgs` when no byte is left for data.
    pub fn from_raw_parts(memory: Vec<u8>) -> (r: Result<MagmaRingBuffer, Error>)
        ensures
            memory@.len() <= CONTROL_HEADER_SIZE ==> r == Err::<MagmaRingBuffer, Error>(Error::InvalidArgs),
            memory@.len() > CONTROL_HEADER_SIZE ==> r is Ok,
            r matches Ok(ring) ==> {
                let c = MagmaRingControl::spec_from_bytes(memory@);
                let size = memory@.len() - CONTROL_HEADER_SIZE;
                &&& ring.spec_data() == memory@.skip(CONTROL_HEADER_SIZE as int)
                &&& c.magic == MAGMA_RING_MAGIC ==> ring.spec_control() == c
                &&& c.magic != MAGMA_RING_MAGIC ==> ring.spec_control() == MagmaRingControl {
                    sentinel: 0,
                    magic: MAGMA_RING_MAGIC,
                    ring_size: size as u32,
                    read_offset: 0,
                    write_offset: 0,
                    status: RING_STATUS_ASLEEP,
                    submitted_seqno: 0,
                    completed_seqno: 0,
                    ..c
                }
            },
    {
        let total = memory.len();
        if total <= CONTROL_HEADER_SIZE {
            return Err(Error::InvalidArgs);
        }
        let mut header = memory;
        let data = header.split_off(CONTROL_HEADER_SIZE);
        let mut control = MagmaRingControl::from_bytes(header.as_slice());
        let data_size = total - CONTROL_HEADER_SIZE;
        if control.magic != MAGMA_RING_MAGIC {
            control.sentinel = 0;
            control.magic = MAGMA_RING_MAGIC;
            control.ring_size = data_size as u32;
            control.read_offset = 0;
            control.write_offset = 0;
            control.status = RING_STATUS_ASLEEP;
            control.submitted_seqno = 0;
            control.completed_seqno = 0;
        }
        assert(header@ =~= memory@.take(CONTROL_HEADER_SIZE as int));
        assert(MagmaRingControl::spec_from_bytes(header@) =~= MagmaRingControl::spec_from_bytes(memory@));
        Ok(MagmaRingBuffer { control, data })
    }

    /// The control header.
    pub fn control(&self) -> (c: &MagmaRingControl)
        ensures
            *c == self.spec_control(),
    {
        &self.control
    }

    /// Size of the data region.
    pub fn data_size(&self) -> (n: usize)
        ensures
            n == self.spec_size(),
    {
        self.data.len()
    }

    /// Whether bytes wait for the consumer.
    pub fn has_data(&self) -> (b: bool)
        ensures
            b == (self.spec_control().read_offset != self.spec_control().write_offset),
    {
        self.control.read_offset != self.control.write_offset
    }

    /// The consumer status.
    pub fn status(&self) -> (s: u32)
        ensures
            s == self.spec_control().status,
    {
        self.control.status
    }

    /// Sets the consumer status and nothing else.
    pub fn set_status(&mut self, status: u32)
        ensures
            final(self).spec_control() == (MagmaRingControl { status, ..old(self).spec_control() }),
            final(self).spec_data() == old(self).spec_data(),
    {
        self.control.status = status;
    }

    /// The latest submitted sequence number.
    pub fn submitted_seqno(&self) -> (s: u32)
        ensures
            s == self.spec_control().submitted_seqno,
    {
        self.control.submitted_seqno
    }

    /// Sets the latest submitted sequence number and nothing else.
    pub fn set_submitted_seqno(&mut self, seqno: u32)
        ensures
            final(self).spec_control() == (MagmaRingControl {
                submitted_seqno: seqno,
                ..old(self).spec_control()
            }),
            final(self).spec_data() == old(self).spec_data(),
    {
        self.control.submitted_seqno = seqno;
    }

    /// The latest completed sequence number.
    pub fn completed_seqno(&self) -> (s: u32)
        ensures
            s == self.spec_control().completed_seqno,
    {
        self.control.completed_seqno
    }

    /// Sets the latest completed sequence number and nothing else.
    pub fn set_completed_seqno(&mut self, seqno: u32)
        ensures
            final(self).spec_control() == (MagmaRingControl {
                completed_seqno: seqno,
                ..old(self).spec_control()
            }),
            final(self).spec_data() == old(self).spec_data(),
    {
        self.control.completed_seqno = seqno;
    }

    /// The sentinel word.
    pub fn load_sentinel(&self) -> (s: u32)
        ensures
            s == self.spec_control().sentinel,
    {
        self.control.sentinel
    }

    /// Appends `bytes` to the ring. An empty write succeeds at once; a write
    /// of at least the ring size fails with `InvalidArgs`; a write larger
    /// than the free room fails with `TimedOut`, since nobody can free room
    /// while this ring is held. Otherwise the bytes are stored, wrapping
    /// round the end, and the write offset moves past them.
    pub fn write(&mut self, bytes: &[u8]) -> (r: Result<usize, Error>)
        requires
            old(self).wf(),
        ensures
            final(self).wf(),
            r == old(self).write_result(bytes@),
            r is Ok && bytes@.len() > 0 ==> old(self).stored(final(self), bytes@),
            r is Ok ==> final(self).contents() == old(self).contents() + bytes@,
            !(r is Ok && bytes@.len() > 0) ==> final(self).spec_data() == old(self).spec_data()
                && final(self).spec_control() == old(self).spec_control(),
    {
        let ring_size = self.data.len();
        let write_len = bytes.len();
        if write_len == 0 {
            assert(old(self).contents() + bytes@ =~= old(self).contents());
            return Ok(0);
        }
        if write_len >= ring_size {
            return Err(Error::InvalidArgs);
        }
        let read = self.control.read_offset as usize;
        let write = self.control.write_offset as usize;
        let available = if write >= read {
            ring_size - 1 - (write - read)
        } else {
            read - write - 1
        };
        if write_len > available {
            return Err(Error::TimedOut);
        }
        let ghost d = self.data@;
        if write_len <= ring_size - write {
            let mut i: usize = 0;
            while i < write_len
                invariant
                    write + write_len <= ring_size,
                    ring_size == self.data@.len(),
                    write_len == bytes@.len(),
                    i <= write_len,
                    self.data@ == d.take(write as int) + bytes@.take(i as int) + d.skip(write + i),
                    self.control == old(self).control,
                    d.len() == ring_size,
                decreases write_len - i,
            {
                self.data.set(write + i, bytes[i]);
                i = i + 1;
                assert(self.data@ =~= d.take(write as int) + bytes@.take(i as int) + d.skip(
                    write + i,
                ));
            }
            assert(bytes@.take(i as int) =~= bytes@);
            let new_write = (write + write_len) % ring_size;
            self.control.write_offset = new_write as u32;
        } else {
            let first_chunk = ring_size - write;
            let second_chunk = write_len - first_chunk;
            let mut i: usize = 0;
            while i < first_chunk
                invariant
                    first_chunk == ring_size - write,
                    first_chunk <= write_len,
                    ring_size == self.data@.len(),
                    write_len == bytes@.len(),
                    i <= first_chunk,
                    self.data@ == d.take(write as int) + bytes@.take(i as int) + d.skip(write + i),
                    self.control == old(self).control,
                    d.len() == ring_size,
                decreases first_chunk - i,
            {
                self.data.set(write + i, bytes[i]);
                i = i + 1;
                assert(self.data@ =~= d.take(write as int) + bytes@.take(i as int) + d.skip(
                    write + i,
                ));
            }
            let mut j: usize = 0;
            while j < second_chunk
                invariant
                    first_chunk == ring_size - write,
                    second_chunk == write_len - first_chunk,
                    second_chunk < write,
                    ring_size == self.data@.len(),
                    write_len == bytes@.len(),
                    j <= second_chunk,
                    self.data@ == bytes@.subrange(first_chunk as int, first_chunk + j) + d.subrange(
                        j as int,
                        write as int,
                    ) + bytes@.take(first_chunk as int),
                    self.control == old(self).control,
                    d.len() == ring_size,
                decreases second_chunk - j,
            {
                self.data.set(j, bytes[first_chunk + j]);
                j = j + 1;
                assert(self.data@ =~= bytes@.subrange(first_chunk as int, first_chunk + j)
                    + d.subrange(j as int, write as int) + bytes@.take(first_chunk as int));
            }
            assert(bytes@.subrange(first_chunk as int, first_chunk + j) =~= bytes@.skip(
                first_chunk as int,
            ));
            self.control.write_offset = second_chunk as u32;
        }
        proof {
            lemma_contents_len(*old(self));
            lemma_store_appends(*old(self), *self, bytes@);
        }
        Ok(write_len)
    }

    /// Appends `bytes`, then, when that worked, counts one more submission
    /// and calls `ping` unless the consumer is active; the result of `ping`
    /// is the result.
    pub fn write_and_ping<F: FnOnce() -> Result<(), Error>>(&mut self, bytes: &[u8], ping: F) -> (r: Result<(), Error>)
        requires
            old(self).wf(),
            call_requires(ping, ()),
        ensures
            final(self).wf(),
            old(self).write_result(bytes@) is Err ==> r == Err::<(), Error>(old(self).write_result(bytes@)->Err_0)
                && final(self).spec_data() == old(self).spec_data()
                && final(self).spec_control() == old(self).spec_control(),
            old(self).write_result(bytes@) is Ok ==> {
                &&& final(self).contents() == old(self).contents() + bytes@
                &&& final(self).spec_control().submitted_seqno == (if old(self).spec_control().submitted_seqno == u32::MAX {
                    0
                } else {
                    old(self).spec_control().submitted_seqno + 1
                })
                &&& final(self).spec_data() == old(self).data_after_write(bytes@)
                &&& final(self).spec_control() == (MagmaRingControl {
                    write_offset: old(self).write_offset_after_write(bytes@),
                    submitted_seqno: final(self).spec_control().submitted_seqno,
                    ..old(self).spec_control()
                })
                &&& old(self).spec_control().status == RING_STATUS_ACTIVE ==> r == Ok::<(), Error>(())
                &&& old(self).spec_control().status != RING_STATUS_ACTIVE ==> call_ensures(ping, (), r)
            },
    {
        let ghost before = *self;
        let w = self.write(bytes);
        match w {
            Err(e) => {
                return Err(e);
            },
            Ok(_) => {},
        }
        let next_seq = self.submitted_seqno().wrapping_add(1);
        self.set_submitted_seqno(next_seq);
        if self.status() != RING_STATUS_ACTIVE {
            return ping();
        }
        Ok(())
    }

    /// The same as `write_and_ping`, for a ring that several producers
    /// share: holding the ring exclusively serializes them.
    pub fn write_and_ping_locked<F: FnOnce() -> Result<(), Error>>(&mut self, bytes: &[u8], ping: F) -> (r: Result<(), Error>)
        requires
            old(self).wf(),
            call_requires(ping, ()),
        ensures
            final(self).wf(),
            old(self).write_result(bytes@) is Err ==> r == Err::<(), Error>(old(self).write_result(bytes@)->Err_0)
                && final(self).spec_data() == old(self).spec_data()
                && final(self).spec_control() == old(self).spec_control(),
            old(self).write_result(bytes@) is Ok ==> {
                &&& final(self).contents() == old(self).contents() + bytes@
                &&& final(self).spec_control().submitted_seqno == (if old(self).spec_control().submitted_seqno == u32::MAX {
                    0
                } else {
                    old(self).spec_control().submitted_seqno + 1
                })
                &&& final(self).spec_data() == old(self).data_after_write(bytes@)
                &&& final(self).spec_control() == (MagmaRingControl {
                    write_offset: old(self).write_offset_after_write(bytes@),
                    submitted_seqno: final(self).spec_control().submitted_seqno,
                    ..old(self).spec_control()
                })
                &&& old(self).spec_control().status == RING_STATUS_ACTIVE ==> r == Ok::<(), Error>(())
                &&& old(self).spec_control().status != RING_STATUS_ACTIVE ==> call_ensures(ping, (), r)
            },
    {
        self.write_and_ping(bytes, ping)
    }

    /// Hands the waiting bytes, at most `SCRATCH_SIZE` of them, to
    /// `consumer` in a copy, and moves the read offset forward, round the
    /// end, by the number of bytes that it reports consumed. Returns that
    /// number; 0 without calling `consumer` when the ring is empty. A
    /// consumer that reports no more than it was given drops exactly those
    /// bytes from the front.
    pub fn read_available<F: FnOnce(&[u8]) -> usize>(&mut self, consumer: F) -> (n: usize)
        requires
            old(self).wf(),
            forall|s: &[u8]| call_requires(consumer, (s,)),
        ensures
            final(self).wf(),
            final(self).spec_data() == old(self).spec_data(),
            old(self).contents().len() == 0 ==> n == 0 && final(self).spec_control() == old(
                self,
            ).spec_control(),
            old(self).contents().len() > 0 ==> final(self).spec_control() == (MagmaRingControl {
                read_offset: if n > 0 {
                    ((old(self).spec_control().read_offset + n) % old(self).spec_size()) as u32
                } else {
                    old(self).spec_control().read_offset
                },
                ..old(self).spec_control()
            }),
            old(self).contents().len() > 0 ==> exists|s: &[u8]|
                {
                    &&& s@ == old(self).contents().take(
                        if old(self).contents().len() < SCRATCH_SIZE {
                            old(self).contents().len() as int
                        } else {
                            SCRATCH_SIZE as int
                        },
                    )
                    &&& call_ensures(consumer, (s,), n)
                },
            n <= old(self).contents().len() ==> final(self).contents() == old(self).contents().skip(n as int),
    {
        let read = self.control.read_offset as usize;
        let write = self.control.write_offset as usize;
        let ring_size = self.data.len();
        proof {
            lemma_contents_len(*self);
        }
        if read == write {
            assert(self.contents() =~= Seq::<u8>::empty());
            return 0;
        }
        let available = if write >= read {
            write - read
        } else {
            (ring_size - read) + write
        };
        let copy_len = if available < SCRATCH_SIZE {
            available
        } else {
            SCRATCH_SIZE
        };
        let ghost c = self.contents();
        let mut scratch: Vec<u8> = Vec::new();
        let mut i: usize = 0;
        while i < copy_len
            invariant
                copy_len <= available,
                available == c.len(),
                c == self.contents(),
                self.wf(),
                read == self.spec_control().read_offset,
                write == self.spec_control().write_offset,
                ring_size == self.spec_size(),
                i <= copy_len,
                scratch@ == c.take(i as int),
            decreases copy_len - i,
        {
            let at = if i < ring_size - read {
                read + i
            } else {
                i - (ring_size - read)
            };
            proof {
                lemma_contents_index(*self, i as int);
            }
            scratch.push(self.data[at]);
            i = i + 1;
            assert(scratch@ =~= c.take(i as int));
        }
        let consumed = consumer(scratch.as_slice());
        if consumed > 0 {
            let new_read = ((read as u64 + (consumed % ring_size) as u64) % (ring_size as u64)) as usize;
            proof {
                vstd::arithmetic::div_mod::lemma_add_mod_noop_right(read as int, consumed as int, ring_size as int);
                vstd::arithmetic::div_mod::lemma_mod_pos_bound(consumed as int, ring_size as int);
                vstd::arithmetic::div_mod::lemma_mod_pos_bound(read as int + (consumed % ring_size) as int, ring_size as int);
                assert(new_read == (read + consumed) % (ring_size as int));
                if consumed <= available {
                    lemma_consume(*self, consumed as int);
                }
            }
            self.control.read_offset = new_read as u32;
        }
        consumed
    }
}

/// The number of waiting bytes and the free room add up to one less than
/// the ring size.
pub proof fn lemma_contents_len(ring: MagmaRingBuffer)
    requires
        ring.wf(),
    ensures
        ring.contents().len() + ring.available() == ring.spec_size() - 1,
        ring.contents().len() < ring.spec_size(),
{
}

/// The `k`-th waiting byte sits `k` places after the read offset, going
/// round the end.
pub proof fn lemma_contents_index(ring: MagmaRingBuffer, k: int)
    requires
        ring.wf(),
        0 <= k < ring.contents().len(),
    ensures
        ({
            let r = ring.spec_control().read_offset as int;
            let at = if r + k < ring.spec_size() {
                r + k
            } else {
                r + k - ring.spec_size()
            };
            &&& 0 <= at < ring.spec_size()
            &&& ring.contents()[k] == ring.spec_data()[at]
        }),
{
}

/// Moving the read offset past `n` waiting bytes drops them from the front.
pub proof fn lemma_consume(ring: MagmaRingBuffer, n: int)
    requires
        ring.wf(),
        0 < n <= ring.contents().len(),
    ensures
        ({
            let r = ring.spec_control().read_offset as int;
            let size = ring.spec_size();
            let nr = (r + n) % size;
            &&& nr == (if n < size - r { r + n } else { n - (size - r) })
            &&& 0 <= nr < size
            &&& ring_contents(ring.spec_data(), nr, ring.spec_control().write_offset as int)
                == ring.contents().skip(n)
        }),
{
    let r = ring.spec_control().read_offset as int;
    let w = ring.spec_control().write_offset as int;
    let size = ring.spec_size();
    let d = ring.spec_data();
    let nr = (r + n) % size;
    if w >= r {
        assert(r + n < size);
        assert(nr == r + n) by (nonlinear_arith)
            requires
                nr == (r + n) % size,
                0 <= r + n < size,
        ;
        assert(ring_contents(d, nr, w) =~= ring.contents().skip(n));
    } else if r + n < size {
        assert(nr == r + n) by (nonlinear_arith)
            requires
                nr == (r + n) % size,
                0 <= r + n < size,
        ;
        assert(ring_contents(d, nr, w) =~= ring.contents().skip(n));
    } else {
        assert(nr == r + n - size) by (nonlinear_arith)
            requires
                nr == (r + n) % size,
                size <= r + n < 2 * size,
        ;
        assert(ring_contents(d, nr, w) =~= ring.contents().skip(n));
    }
}

/// Storing bytes that fit appends them to what waits for the consumer.
pub proof fn lemma_store_appends(before: MagmaRingBuffer, after: MagmaRingBuffer, bytes: Seq<u8>)
    requires
        before.wf(),
        0 < bytes.len() <= before.available(),
        bytes.len() < before.spec_size(),
        before.stored(&after, bytes),
    ensures
        after.wf(),
        after.contents() == before.contents() + bytes,
{
    let r = before.spec_control().read_offset as int;
    let w = before.spec_control().write_offset as int;
    let size = before.spec_size();
    let d = before.spec_data();
    let n = bytes.len() as int;
    let d2 = after.spec_data();
    if w + n <= size {
        if w + n < size {
            assert((w + n) % size == w + n) by (nonlinear_arith)
                requires
                    0 <= w + n < size,
            ;
        } else {
            assert((w + n) % size == 0) by (nonlinear_arith)
                requires
                    w + n == size,
                    size > 0,
            ;
        }
        assert(d2.len() == size);
        assert(after.contents() =~= before.contents() + bytes);
    } else {
        assert(d2.len() == size);
        assert(after.contents() =~= before.contents() + bytes);
    }
}

/// What the consumer receives right after bytes were written into an empty
/// ring starts with those bytes: a read gives back what a write wrote.
pub proof fn lemma_write_then_read(before: MagmaRingBuffer, after: MagmaRingBuffer, bytes: Seq<u8>)
    requires
        before.wf(),
        before.contents().len() == 0,
        0 < bytes.len(),
        before.write_result(bytes) is Ok,
        before.stored(&after, bytes),
    ensures
        after.wf(),
        after.contents() == bytes,
{
    lemma_contents_len(before);
    lemma_store_appends(before, after, bytes);
    assert(before.contents() + bytes =~= bytes);
}

/// A well-formed ring holds waiting bytes exactly when its offsets differ.
pub proof fn lemma_has_data_iff_contents(ring: MagmaRingBuffer)
    requires
        ring.wf(),
    ensures
        (ring.spec_control().read_offset != ring.spec_control().write_offset) == (ring.contents().len() > 0),
{
}

/// A ring whose offsets were both reset, as setting up a ring over memory
/// without the magic word resets them, holds nothing.
pub proof fn lemma_fresh_ring_is_empty(ring: MagmaRingBuffer)
    requires
        ring.wf(),
        ring.spec_control().read_offset == 0,
        ring.spec_control().write_offset == 0,
    ensures
        ring.contents().len() == 0,
{
    lemma_has_data_iff_contents(ring);
}

/// Bytes written into an empty ring reach the next consumer: it is handed
/// them in a copy (the first `SCRATCH_SIZE` when there are more), and once
/// it reports `k` of them consumed the rest still waits, so the ring has
/// data exactly when `k` falls short of the bytes written.
pub proof fn lemma_write_then_read_available(
    before: MagmaRingBuffer,
    written: MagmaRingBuffer,
    bytes: Seq<u8>,
    read: MagmaRingBuffer,
    k: int,
)
    requires
        before.wf(),
        before.contents().len() == 0,
        before.write_result(bytes) is Ok,
        written.wf(),
        written.contents() == before.contents() + bytes,
        read.wf(),
        0 <= k <= written.contents().len(),
        read.contents() == written.contents().skip(k),
    ensures
        written.contents() == bytes,
        written.contents().take(
            if written.contents().len() < SCRATCH_SIZE {
                written.contents().len() as int
            } else {
                SCRATCH_SIZE as int
            },
        ) == bytes.take(
            if bytes.len() < SCRATCH_SIZE {
                bytes.len() as int
            } else {
                SCRATCH_SIZE as int
            },
        ),
        read.contents() == bytes.skip(k),
        (read.spec_control().read_offset != read.spec_control().write_offset) == (k < bytes.len()),
{
    assert(before.contents() + bytes =~= bytes);
    lemma_has_data_iff_contents(read);
}

} // verus!
