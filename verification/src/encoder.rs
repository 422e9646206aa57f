//! Encoding of protocol messages into a byte sink.
//!
//! The sink is either a growable buffer, which takes every byte written, or a
//! fixed buffer, which takes bytes until it is full; a write that does not
//! fit stores what fits and fails with `EncodeError::WriteZero`.
use vstd::prelude::*;

use crate::wire::le32;
use crate::protocol::AddressSpaceClose;
use crate::protocol::BufferClose;
use crate::protocol::CreateAddressSpace;
use crate::protocol::CreateAddressSpaceResp;
use crate::protocol::CreateBuffer;
use crate::protocol::CreateBufferResp;
use crate::protocol::CreateDevice;
use crate::protocol::CreateDeviceResp;
use crate::protocol::CreateQueue;
use crate::protocol::CreateQueueResp;
use crate::protocol::CreateSyncObj;
use crate::protocol::CreateSyncObjResp;
use crate::protocol::DeviceClose;
use crate::protocol::GetMemoryBudget;
use crate::protocol::GetMemoryBudgetResp;
use crate::protocol::MAGMA_STRUCTURE_TYPE_CREATE_BUFFER_INFO;
use crate::protocol::MAGMA_STRUCTURE_TYPE_CREATE_SYNC_OBJ_INFO;
use crate::protocol::MAGMA_STRUCTURE_TYPE_DEVICE_CREATE_INFO;
use crate::protocol::MAGMA_STRUCTURE_TYPE_PHYSICAL_DEVICE_INFO;
use crate::protocol::MAGMA_STRUCTURE_TYPE_PHYSICAL_DEVICE_MEMORY_HEAP;
use crate::protocol::MAGMA_STRUCTURE_TYPE_PHYSICAL_DEVICE_MEMORY_TYPE;
use crate::protocol::MAGMA_STRUCTURE_TYPE_SUBMIT_ADDRESS_SPACE_INFO;
use crate::protocol::MAGMA_STRUCTURE_TYPE_SUBMIT_BUFFER_INFO;
use crate::protocol::MAGMA_STRUCTURE_TYPE_SUBMIT_INFO;
use crate::protocol::MAGMA_STRUCTURE_TYPE_SUBMIT_SYNC_INFO;
use crate::protocol::MAGMA_STRUCTURE_TYPE_SYNC_PROPERTIES;
use crate::protocol::MAGMA_STRUCTURE_TYPE_VIRT_CAPABILITIES;
use crate::protocol::MagmaCreateBufferInfo;
use crate::protocol::MagmaCreateSyncObjInfo;
use crate::protocol::MagmaDeviceCreateInfo;
use crate::protocol::MagmaExtensibleStruct;
use crate::protocol::MagmaPhysicalDeviceInfo;
use crate::protocol::MagmaPhysicalDeviceMemoryHeap;
use crate::protocol::MagmaPhysicalDeviceMemoryType;
use crate::protocol::MagmaProtocol;
use crate::protocol::MagmaStructureTypeHeader;
use crate::protocol::MagmaSubmitAddressSpaceInfo;
use crate::protocol::MagmaSyncProperties;
use crate::protocol::MagmaVirtCapabilities;
use crate::protocol::MagmaWireSubmitBufferInfo;
use crate::protocol::MagmaWireSubmitInfo;
use crate::protocol::MagmaWireSubmitSyncInfo;
use crate::protocol::MapBufferGpu;
use crate::protocol::MapBufferGpuResp;
use crate::protocol::PhysicalDeviceClose;
use crate::protocol::QueueCheckStatus;
use crate::protocol::QueueCheckStatusResp;
use crate::protocol::QueueClose;
use crate::protocol::SubmitCommand;
use crate::protocol::SubmitCommandResp;
use crate::protocol::SyncObjClose;
use crate::protocol::SyncObjSignal;
use crate::protocol::SyncObjSignalResp;
use crate::protocol::SyncObjTimelineQuery;
use crate::protocol::SyncObjTimelineQueryResp;
use crate::protocol::SyncObjTimelineSignal;
use crate::protocol::SyncObjTimelineSignalResp;
use crate::protocol::SyncObjTimelineWait;
use crate::protocol::SyncObjTimelineWaitResp;
use crate::protocol::UnmapBufferGpu;
use crate::protocol::UnmapBufferGpuResp;
use crate::protocol::VirtioCreateFence;
use crate::protocol::VirtioCreateRing;
use crate::protocol::VirtioPing;
use crate::protocol::VirtioSyncObjClose;

verus! {

/// Why an encoding stopped.
#[derive(Debug, Clone, Copy, PartialEq, Eq, Structural)]
pub enum EncodeError {
    /// A structure in an extension chain carries a tag that does not belong
    /// to its kind.
    InvalidData,
    /// The fixed buffer had no room left for a write.
    WriteZero,
    /// The fixed buffer had no room for a whole write; none of it was
    /// written.
    UnexpectedEof,
}

/// The abstract state of an encoder.
pub struct EncoderView {
    /// Contents of the sink.
    pub buf: Seq<u8>,
    /// Whether the sink is a fixed buffer.
    pub fixed: bool,
    /// Where the next byte goes.
    pub pos: nat,
    /// Total length of the writes that completed.
    pub bytes_written: nat,
}

/// The value a link is encoded as: 1 when it is set, 0 when it ends the chain.
pub open spec fn link_flag(p_next: u64) -> u64 {
    if p_next != 0 {
        1
    } else {
        0
    }
}

/// The blocks written for the chain that `next` reaches through `chain`,
/// one per structure, each with its link turned into a flag; and whether the
/// walk ended without meeting a structure whose tag does not belong to its
/// kind.
#[verifier::opaque]
pub open spec fn chain_blocks(next: u64, chain: Seq<MagmaExtensibleStruct>) -> (Seq<Seq<u8>>, bool)
    decreases chain.len(),
{
    if next == 0 || chain.len() == 0 {
        (Seq::empty(), true)
    } else if chain[0].spec_header().stype != chain[0].spec_kind_tag() {
        (Seq::empty(), false)
    } else {
        let rest = chain_blocks(chain[0].spec_header().p_next, chain.drop_first());
        (
            seq![chain[0].spec_with_next(link_flag(chain[0].spec_header().p_next)).spec_bytes()]
                + rest.0,
            rest.1,
        )
    }
}

/// Total length of a run of blocks.
pub open spec fn blocks_len(blocks: Seq<Seq<u8>>) -> nat
    decreases blocks.len(),
{
    if blocks.len() == 0 {
        0
    } else {
        blocks[0].len() + blocks_len(blocks.drop_first())
    }
}

/// Number of bytes that the chain reached from `next` takes on the wire.
pub open spec fn chain_total_len(next: u64, chain: Seq<MagmaExtensibleStruct>) -> nat {
    blocks_len(chain_blocks(next, chain).0)
}

impl EncoderView {
    /// The bytes written so far.
    pub open spec fn output(self) -> Seq<u8> {
        self.buf.take(self.pos as int)
    }

    /// Relation between the fields that every encoder keeps.
    pub open spec fn wf(self) -> bool {
        &&& self.bytes_written <= self.pos <= self.buf.len()
        &&& !self.fixed ==> self.pos == self.buf.len()
    }

    /// Whether `n` more bytes can be counted without overflowing a `usize`.
    pub open spec fn can_grow(self, n: nat) -> bool {
        self.fixed || self.pos + n <= usize::MAX
    }

    /// The state and result after writing `bytes` in one write.
    pub open spec fn write(self, bytes: Seq<u8>) -> (EncoderView, Result<(), EncodeError>) {
        let n = bytes.len();
        if !self.fixed {
            (
                EncoderView {
                    buf: self.buf + bytes,
                    pos: self.pos + n,
                    bytes_written: self.bytes_written + n,
                    ..self
                },
                Ok(()),
            )
        } else if self.pos + n <= self.buf.len() {
            (
                EncoderView {
                    buf: self.buf.take(self.pos as int) + bytes + self.buf.skip((self.pos + n) as int),
                    pos: self.pos + n,
                    bytes_written: self.bytes_written + n,
                    ..self
                },
                Ok(()),
            )
        } else {
            (
                EncoderView {
                    buf: self.buf.take(self.pos as int) + bytes.take(self.buf.len() - self.pos),
                    pos: self.buf.len(),
                    ..self
                },
                Err(EncodeError::WriteZero),
            )
        }
    }

    /// The state and result after writing the blocks one by one, stopping at
    /// the first write that fails.
    pub open spec fn write_blocks(self, blocks: Seq<Seq<u8>>) -> (EncoderView, Result<(), EncodeError>)
        decreases blocks.len(),
    {
        if blocks.len() == 0 {
            (self, Ok(()))
        } else {
            let (e, r) = self.write(blocks[0]);
            if r is Err {
                (e, r)
            } else {
                e.write_blocks(blocks.drop_first())
            }
        }
    }

    /// The state and result after writing the chain that `next` reaches.
    #[verifier::opaque]
    pub open spec fn write_chain(self, next: u64, chain: Seq<MagmaExtensibleStruct>) -> (EncoderView, Result<(), EncodeError>) {
        let (blocks, ok) = chain_blocks(next, chain);
        let (e, r) = self.write_blocks(blocks);
        if r is Err {
            (e, r)
        } else if ok {
            (e, Ok(()))
        } else {
            (e, Err(EncodeError::InvalidData))
        }
    }

    /// The state and result after writing `root` and then, when `next` is
    /// set, the chain that it reaches.
    pub open spec fn write_rooted(self, root: Seq<u8>, next: u64, chain: Seq<MagmaExtensibleStruct>) -> (EncoderView, Result<(), EncodeError>) {
        let (e, r) = self.write(root);
        if r is Err {
            (e, r)
        } else if next != 0 {
            e.write_chain(next, chain)
        } else {
            (e, Ok(()))
        }
    }
}

/// A write keeps the encoder well formed and never takes back bytes.
pub proof fn lemma_write_wf(e: EncoderView, bytes: Seq<u8>)
    requires
        e.wf(),
    ensures
        e.write(bytes).0.wf(),
        e.write(bytes).0.fixed == e.fixed,
        e.write(bytes).0.pos >= e.pos,
        e.write(bytes).0.bytes_written >= e.bytes_written,
        e.fixed ==> e.write(bytes).0.buf.len() == e.buf.len(),
        !e.fixed ==> e.write(bytes).0.pos == e.pos + bytes.len(),
{
}

/// Writing a run of blocks keeps the encoder well formed, never shrinks a
/// fixed buffer, and moves a growable one by the total length.
pub proof fn lemma_write_blocks_wf(e: EncoderView, blocks: Seq<Seq<u8>>)
    requires
        e.wf(),
    ensures
        e.write_blocks(blocks).0.wf(),
        e.write_blocks(blocks).0.fixed == e.fixed,
        e.fixed ==> e.write_blocks(blocks).0.buf.len() == e.buf.len(),
        !e.fixed ==> e.write_blocks(blocks).0.pos <= e.pos + blocks_len(blocks),
    decreases blocks.len(),
{
    if blocks.len() > 0 {
        lemma_write_wf(e, blocks[0]);
        lemma_write_blocks_wf(e.write(blocks[0]).0, blocks.drop_first());
    }
}

/// One step of writing a chain: the first structure's block, then the rest.
pub proof fn lemma_write_chain_step(e: EncoderView, curr: u64, s: Seq<MagmaExtensibleStruct>)
    requires
        curr != 0,
        s.len() > 0,
        s[0].spec_header().stype == s[0].spec_kind_tag(),
    ensures
        ({
            let next = s[0].spec_header().p_next;
            let b0 = s[0].spec_with_next(link_flag(next)).spec_bytes();
            &&& chain_total_len(curr, s) == b0.len() + chain_total_len(next, s.drop_first())
            &&& e.write_chain(curr, s) == (if e.write(b0).1 is Err {
                e.write(b0)
            } else {
                e.write(b0).0.write_chain(next, s.drop_first())
            })
        }),
{
    reveal(chain_blocks);
    reveal(EncoderView::write_chain);
    let next = s[0].spec_header().p_next;
    let b0 = s[0].spec_with_next(link_flag(next)).spec_bytes();
    let rest = chain_blocks(next, s.drop_first());
    let blocks = chain_blocks(curr, s).0;
    assert(blocks == seq![b0] + rest.0);
    assert(blocks[0] == b0);
    assert(blocks.drop_first() =~= rest.0);
}

/// A structure whose tag does not belong to its kind stops a chain at once.
pub proof fn lemma_write_chain_bad_tag(e: EncoderView, curr: u64, s: Seq<MagmaExtensibleStruct>)
    requires
        curr != 0,
        s.len() > 0,
        s[0].spec_header().stype != s[0].spec_kind_tag(),
    ensures
        e.write_chain(curr, s) == (e, Err::<(), EncodeError>(EncodeError::InvalidData)),
{
    reveal(chain_blocks);
    reveal(EncoderView::write_chain);
}

/// A chain that ends at once writes nothing.
pub proof fn lemma_write_chain_end(e: EncoderView, curr: u64, s: Seq<MagmaExtensibleStruct>)
    requires
        curr == 0 || s.len() == 0,
    ensures
        e.write_chain(curr, s) == (e, Ok::<(), EncodeError>(())),
{
    reveal(chain_blocks);
    reveal(EncoderView::write_chain);
}

/// Writes protocol messages, field after field, into a byte sink.
pub struct Encoder {
    writer: Vec<u8>,
    fixed: bool,
    pos: usize,
    bytes_written: usize,
}

impl View for Encoder {
    type V = EncoderView;

    closed spec fn view(&self) -> EncoderView {
        EncoderView {
            buf: self.writer@,
            fixed: self.fixed,
            pos: self.pos as nat,
            bytes_written: self.bytes_written as nat,
        }
    }
}

impl Encoder {
    /// Relation between the fields that every encoder keeps.
    pub open spec fn wf(&self) -> bool {
        self@.wf()
    }

    /// An encoder that appends to `writer`.
    pub fn new(writer: Vec<u8>) -> (e: Encoder)
        ensures
            e.wf(),
            e@.buf == writer@,
            !e@.fixed,
            e@.pos == writer@.len(),
            e@.bytes_written == 0,
    {
        let pos = writer.len();
        Encoder { writer, fixed: false, pos, bytes_written: 0 }
    }

    /// An encoder that fills `buf` from its start and never grows it.
    pub fn from_slice(buf: Vec<u8>) -> (e: Encoder)
        ensures
            e.wf(),
            e@.buf == buf@,
            e@.fixed,
            e@.pos == 0,
            e@.bytes_written == 0,
    {
        Encoder { writer: buf, fixed: true, pos: 0, bytes_written: 0 }
    }

    /// Total length of the writes that completed.
    pub fn bytes_written(&self) -> (n: usize)
        ensures
            n == self@.bytes_written,
    {
        self.bytes_written
    }

    /// The sink.
    pub fn writer(&self) -> (w: &Vec<u8>)
        ensures
            w@ == self@.buf,
    {
        &self.writer
    }

    /// Gives the sink back.
    pub fn into_inner(self) -> (w: Vec<u8>)
        ensures
            w@ == self@.buf,
    {
        self.writer
    }

    fn write_bytes(&mut self, bytes: &[u8]) -> (r: Result<(), EncodeError>)
        requires
            old(self).wf(),
            old(self)@.can_grow(bytes@.len()),
        ensures
            (final(self)@, r) == old(self)@.write(bytes@),
            final(self).wf(),
    {
        proof {
            lemma_write_wf(self@, bytes@);
        }
        if !self.fixed {
            let mut i: usize = 0;
            while i < bytes.len()
                invariant
                    i <= bytes@.len(),
                    self.writer@ == old(self).writer@ + bytes@.take(i as int),
                    self.fixed == old(self).fixed,
                    self.pos == old(self).pos,
                    self.bytes_written == old(self).bytes_written,
                decreases bytes.len() - i,
            {
                self.writer.push(bytes[i]);
                i = i + 1;
                assert(self.writer@ =~= old(self).writer@ + bytes@.take(i as int));
            }
            assert(bytes@.take(i as int) =~= bytes@);
            self.pos = self.pos + bytes.len();
            self.bytes_written = self.bytes_written + bytes.len();
            return Ok(());
        }
        let room = self.writer.len() - self.pos;
        let n = if bytes.len() <= room {
            bytes.len()
        } else {
            room
        };
        let mut i: usize = 0;
        while i < n
            invariant
                n <= bytes@.len(),
                self.pos + n <= self.writer@.len(),
                self.pos + n <= usize::MAX,
                i <= n,
                self.writer@.len() == old(self).writer@.len(),
                self.writer@ == old(self).writer@.take(self.pos as int) + bytes@.take(i as int)
                    + old(self).writer@.skip(self.pos + i),
                self.fixed == old(self).fixed,
                self.pos == old(self).pos,
                self.bytes_written == old(self).bytes_written,
            decreases n - i,
        {
            let at = self.pos + i;
            self.writer.set(at, bytes[i]);
            i = i + 1;
            assert(self.writer@ =~= old(self).writer@.take(self.pos as int) + bytes@.take(i as int)
                + old(self).writer@.skip(self.pos + i));
        }
        if bytes.len() <= room {
            assert(bytes@.take(i as int) =~= bytes@);
            self.pos = self.pos + n;
            self.bytes_written = self.bytes_written + n;
            Ok(())
        } else {
            assert(old(self).writer@.skip(self.pos + i) =~= Seq::<u8>::empty());
            assert(self.writer@ =~= old(self).writer@.take(self.pos as int) + bytes@.take(room as int));
            self.pos = self.pos + n;
            Err(EncodeError::WriteZero)
        }
    }

    /// Writes the chain of extensions that `curr` reaches through `chain`,
    /// each structure with its link turned into a flag, and fails with
    /// `InvalidData` at the first structure whose tag does not belong to its
    /// kind.
    pub fn encode_extensible_chain(&mut self, curr: u64, chain: &[MagmaExtensibleStruct]) -> (r: Result<(), EncodeError>)
        requires
            old(self).wf(),
            old(self)@.can_grow(chain_total_len(curr, chain@)),
        ensures
            final(self).wf(),
            (final(self)@, r) == old(self)@.write_chain(curr, chain@),
    {
        let ghost start = curr;
        let mut link = curr;
        let mut i: usize = 0;
        assert(chain@.skip(0) =~= chain@);
        while link != 0 && i < chain.len()
            invariant
                start == curr,
                i <= chain@.len(),
                self.wf(),
                self@.can_grow(chain_total_len(link, chain@.skip(i as int))),
                old(self)@.write_chain(start, chain@) == self@.write_chain(link, chain@.skip(i as int)),
            decreases chain.len() - i,
        {
            let ghost s = chain@.skip(i as int);
            assert(s[0] == chain@[i as int]);
            assert(s.drop_first() =~= chain@.skip(i as int + 1));
            let h = chain[i].header();
            let next = h.p_next;
            if h.stype != chain[i].kind_tag() {
                proof {
                    lemma_write_chain_bad_tag(self@, link, s);
                }
                return Err(EncodeError::InvalidData);
            }
            let flag: u64 = if next != 0 { 1 } else { 0 };
            let block = element_bytes(&chain[i], flag);
            proof {
                lemma_write_chain_step(self@, link, s);
                lemma_write_wf(self@, block@);
            }
            let r = self.write_bytes(&block);
            if r.is_err() {
                return r;
            }
            link = next;
            i = i + 1;
        }
        proof {
            lemma_write_chain_end(self@, link, chain@.skip(i as int));
        }
        Ok(())
    }

    /// Writes `msg` with its link turned into a flag (1 when an extension
    /// follows, 0 otherwise), then, when it links to one, the chain of
    /// extensions `chain`.
    pub fn encode_create_buffer_info(&mut self, msg: &MagmaCreateBufferInfo, chain: &[MagmaExtensibleStruct]) -> (r: Result<(), EncodeError>)
        requires
            old(self).wf(),
            old(self)@.can_grow(MagmaCreateBufferInfo::wire_size() + chain_total_len(msg.header.p_next, chain@)),
        ensures
            final(self).wf(),
            (final(self)@, r) == old(self)@.write_rooted(flagged_bytes_create_buffer_info(*msg), msg.header.p_next, chain@),
    {
        let mut obj = *msg;
        let p_next = obj.header.p_next;
        obj.header.p_next = if p_next != 0 { 1 } else { 0 };
        let bytes = obj.to_bytes();
        let r = self.write_bytes(&bytes);
        if r.is_err() {
            return r;
        }
        if p_next != 0 {
            return self.encode_extensible_chain(p_next, chain);
        }
        Ok(())
    }

    /// Writes `msg` with its link turned into a flag (1 when an extension
    /// follows, 0 otherwise), then, when it links to one, the chain of
    /// extensions `chain`.
    pub fn encode_device_create_info(&mut self, msg: &MagmaDeviceCreateInfo, chain: &[MagmaExtensibleStruct]) -> (r: Result<(), EncodeError>)
        requires
            old(self).wf(),
            old(self)@.can_grow(MagmaDeviceCreateInfo::wire_size() + chain_total_len(msg.header.p_next, chain@)),
        ensures
            final(self).wf(),
            (final(self)@, r) == old(self)@.write_rooted(flagged_bytes_device_create_info(*msg), msg.header.p_next, chain@),
    {
        let mut obj = *msg;
        let p_next = obj.header.p_next;
        obj.header.p_next = if p_next != 0 { 1 } else { 0 };
        let bytes = obj.to_bytes();
        let r = self.write_bytes(&bytes);
        if r.is_err() {
            return r;
        }
        if p_next != 0 {
            return self.encode_extensible_chain(p_next, chain);
        }
        Ok(())
    }

    /// Writes `msg` with its link turned into a flag (1 when an extension
    /// follows, 0 otherwise), then, when it links to one, the chain of
    /// extensions `chain`.
    pub fn encode_wire_submit_sync_info(&mut self, msg: &MagmaWireSubmitSyncInfo, chain: &[MagmaExtensibleStruct]) -> (r: Result<(), EncodeError>)
        requires
            old(self).wf(),
            old(self)@.can_grow(MagmaWireSubmitSyncInfo::wire_size() + chain_total_len(msg.header.p_next, chain@)),
        ensures
            final(self).wf(),
            (final(self)@, r) == old(self)@.write_rooted(flagged_bytes_wire_submit_sync_info(*msg), msg.header.p_next, chain@),
    {
        let mut obj = *msg;
        let p_next = obj.header.p_next;
        obj.header.p_next = if p_next != 0 { 1 } else { 0 };
        let bytes = obj.to_bytes();
        let r = self.write_bytes(&bytes);
        if r.is_err() {
            return r;
        }
        if p_next != 0 {
            return self.encode_extensible_chain(p_next, chain);
        }
        Ok(())
    }

    /// Writes `msg` with its link turned into a flag (1 when an extension
    /// follows, 0 otherwise), then, when it links to one, the chain of
    /// extensions `chain`.
    pub fn encode_wire_submit_info(&mut self, msg: &MagmaWireSubmitInfo, chain: &[MagmaExtensibleStruct]) -> (r: Result<(), EncodeError>)
        requires
            old(self).wf(),
            old(self)@.can_grow(MagmaWireSubmitInfo::wire_size() + chain_total_len(msg.header.p_next, chain@)),
        ensures
            final(self).wf(),
            (final(self)@, r) == old(self)@.write_rooted(flagged_bytes_wire_submit_info(*msg), msg.header.p_next, chain@),
    {
        let mut obj = *msg;
        let p_next = obj.header.p_next;
        obj.header.p_next = if p_next != 0 { 1 } else { 0 };
        let bytes = obj.to_bytes();
        let r = self.write_bytes(&bytes);
        if r.is_err() {
            return r;
        }
        if p_next != 0 {
            return self.encode_extensible_chain(p_next, chain);
        }
        Ok(())
    }

    /// Writes `msg` with its link turned into a flag (1 when an extension
    /// follows, 0 otherwise), then, when it links to one, the chain of
    /// extensions `chain`.
    pub fn encode_submit_address_space_info(&mut self, msg: &MagmaSubmitAddressSpaceInfo, chain: &[MagmaExtensibleStruct]) -> (r: Result<(), EncodeError>)
        requires
            old(self).wf(),
            old(self)@.can_grow(MagmaSubmitAddressSpaceInfo::wire_size() + chain_total_len(msg.header.p_next, chain@)),
        ensures
            final(self).wf(),
            (final(self)@, r) == old(self)@.write_rooted(flagged_bytes_submit_address_space_info(*msg), msg.header.p_next, chain@),
    {
        let mut obj = *msg;
        let p_next = obj.header.p_next;
        obj.header.p_next = if p_next != 0 { 1 } else { 0 };
        let bytes = obj.to_bytes();
        let r = self.write_bytes(&bytes);
        if r.is_err() {
            return r;
        }
        if p_next != 0 {
            return self.encode_extensible_chain(p_next, chain);
        }
        Ok(())
    }

    /// Writes `msg` with its link turned into a flag (1 when an extension
    /// follows, 0 otherwise), then, when it links to one, the chain of
    /// extensions `chain`.
    pub fn encode_wire_submit_buffer_info(&mut self, msg: &MagmaWireSubmitBufferInfo, chain: &[MagmaExtensibleStruct]) -> (r: Result<(), EncodeError>)
        requires
            old(self).wf(),
            old(self)@.can_grow(MagmaWireSubmitBufferInfo::wire_size() + chain_total_len(msg.header.p_next, chain@)),
        ensures
            final(self).wf(),
            (final(self)@, r) == old(self)@.write_rooted(flagged_bytes_wire_submit_buffer_info(*msg), msg.header.p_next, chain@),
    {
        let mut obj = *msg;
        let p_next = obj.header.p_next;
        obj.header.p_next = if p_next != 0 { 1 } else { 0 };
        let bytes = obj.to_bytes();
        let r = self.write_bytes(&bytes);
        if r.is_err() {
            return r;
        }
        if p_next != 0 {
            return self.encode_extensible_chain(p_next, chain);
        }
        Ok(())
    }

    /// Writes `msg` with its link turned into a flag (1 when an extension
    /// follows, 0 otherwise), then, when it links to one, the chain of
    /// extensions `chain`.
    pub fn encode_create_sync_obj_info(&mut self, msg: &MagmaCreateSyncObjInfo, chain: &[MagmaExtensibleStruct]) -> (r: Result<(), EncodeError>)
        requires
            old(self).wf(),
            old(self)@.can_grow(MagmaCreateSyncObjInfo::wire_size() + chain_total_len(msg.header.p_next, chain@)),
        ensures
            final(self).wf(),
            (final(self)@, r) == old(self)@.write_rooted(flagged_bytes_create_sync_obj_info(*msg), msg.header.p_next, chain@),
    {
        let mut obj = *msg;
        let p_next = obj.header.p_next;
        obj.header.p_next = if p_next != 0 { 1 } else { 0 };
        let bytes = obj.to_bytes();
        let r = self.write_bytes(&bytes);
        if r.is_err() {
            return r;
        }
        if p_next != 0 {
            return self.encode_extensible_chain(p_next, chain);
        }
        Ok(())
    }

    /// Writes `msg` with its link turned into a flag (1 when an extension
    /// follows, 0 otherwise), then, when it links to one, the chain of
    /// extensions `chain`.
    pub fn encode_sync_properties(&mut self, msg: &MagmaSyncProperties, chain: &[MagmaExtensibleStruct]) -> (r: Result<(), EncodeError>)
        requires
            old(self).wf(),
            old(self)@.can_grow(MagmaSyncProperties::wire_size() + chain_total_len(msg.header.p_next, chain@)),
        ensures
            final(self).wf(),
            (final(self)@, r) == old(self)@.write_rooted(flagged_bytes_sync_properties(*msg), msg.header.p_next, chain@),
    {
        let mut obj = *msg;
        let p_next = obj.header.p_next;
        obj.header.p_next = if p_next != 0 { 1 } else { 0 };
        let bytes = obj.to_bytes();
        let r = self.write_bytes(&bytes);
        if r.is_err() {
            return r;
        }
        if p_next != 0 {
            return self.encode_extensible_chain(p_next, chain);
        }
        Ok(())
    }

    /// Writes `msg` with its link turned into a flag (1 when an extension
    /// follows, 0 otherwise), then, when it links to one, the chain of
    /// extensions `chain`.
    pub fn encode_virt_capabilities(&mut self, msg: &MagmaVirtCapabilities, chain: &[MagmaExtensibleStruct]) -> (r: Result<(), EncodeError>)
        requires
            old(self).wf(),
            old(self)@.can_grow(MagmaVirtCapabilities::wire_size() + chain_total_len(msg.header.p_next, chain@)),
        ensures
            final(self).wf(),
            (final(self)@, r) == old(self)@.write_rooted(flagged_bytes_virt_capabilities(*msg), msg.header.p_next, chain@),
    {
        let mut obj = *msg;
        let p_next = obj.header.p_next;
        obj.header.p_next = if p_next != 0 { 1 } else { 0 };
        let bytes = obj.to_bytes();
        let r = self.write_bytes(&bytes);
        if r.is_err() {
            return r;
        }
        if p_next != 0 {
            return self.encode_extensible_chain(p_next, chain);
        }
        Ok(())
    }

    /// Writes `msg` with its link turned into a flag (1 when an extension
    /// follows, 0 otherwise), then, when it links to one, the chain of
    /// extensions `chain`.
    pub fn encode_physical_device_info(&mut self, msg: &MagmaPhysicalDeviceInfo, chain: &[MagmaExtensibleStruct]) -> (r: Result<(), EncodeError>)
        requires
            old(self).wf(),
            old(self)@.can_grow(MagmaPhysicalDeviceInfo::wire_size() + chain_total_len(msg.header.p_next, chain@)),
        ensures
            final(self).wf(),
            (final(self)@, r) == old(self)@.write_rooted(flagged_bytes_physical_device_info(*msg), msg.header.p_next, chain@),
    {
        let mut obj = *msg;
        let p_next = obj.header.p_next;
        obj.header.p_next = if p_next != 0 { 1 } else { 0 };
        let bytes = obj.to_bytes();
        let r = self.write_bytes(&bytes);
        if r.is_err() {
            return r;
        }
        if p_next != 0 {
            return self.encode_extensible_chain(p_next, chain);
        }
        Ok(())
    }

    /// Writes `msg` with its link turned into a flag (1 when an extension
    /// follows, 0 otherwise), then, when it links to one, the chain of
    /// extensions `chain`.
    pub fn encode_physical_device_memory_type(&mut self, msg: &MagmaPhysicalDeviceMemoryType, chain: &[MagmaExtensibleStruct]) -> (r: Result<(), EncodeError>)
        requires
            old(self).wf(),
            old(self)@.can_grow(MagmaPhysicalDeviceMemoryType::wire_size() + chain_total_len(msg.header.p_next, chain@)),
        ensures
            final(self).wf(),
            (final(self)@, r) == old(self)@.write_rooted(flagged_bytes_physical_device_memory_type(*msg), msg.header.p_next, chain@),
    {
        let mut obj = *msg;
        let p_next = obj.header.p_next;
        obj.header.p_next = if p_next != 0 { 1 } else { 0 };
        let bytes = obj.to_bytes();
        let r = self.write_bytes(&bytes);
        if r.is_err() {
            return r;
        }
        if p_next != 0 {
            return self.encode_extensible_chain(p_next, chain);
        }
        Ok(())
    }

    /// Writes `msg` with its link turned into a flag (1 when an extension
    /// follows, 0 otherwise), then, when it links to one, the chain of
    /// extensions `chain`.
    pub fn encode_physical_device_memory_heap(&mut self, msg: &MagmaPhysicalDeviceMemoryHeap, chain: &[MagmaExtensibleStruct]) -> (r: Result<(), EncodeError>)
        requires
            old(self).wf(),
            old(self)@.can_grow(MagmaPhysicalDeviceMemoryHeap::wire_size() + chain_total_len(msg.header.p_next, chain@)),
        ensures
            final(self).wf(),
            (final(self)@, r) == old(self)@.write_rooted(flagged_bytes_physical_device_memory_heap(*msg), msg.header.p_next, chain@),
    {
        let mut obj = *msg;
        let p_next = obj.header.p_next;
        obj.header.p_next = if p_next != 0 { 1 } else { 0 };
        let bytes = obj.to_bytes();
        let r = self.write_bytes(&bytes);
        if r.is_err() {
            return r;
        }
        if p_next != 0 {
            return self.encode_extensible_chain(p_next, chain);
        }
        Ok(())
    }

    /// Writes the wire bytes of `msg`.
    pub fn encode_create_device(&mut self, msg: &CreateDevice) -> (r: Result<(), EncodeError>)
        requires
            old(self).wf(),
            old(self)@.can_grow(CreateDevice::wire_size()),
        ensures
            final(self).wf(),
            (final(self)@, r) == old(self)@.write(msg.spec_bytes()),
    {
        let bytes = msg.to_bytes();
        self.write_bytes(&bytes)
    }

    /// Writes the wire bytes of `msg`.
    pub fn encode_get_memory_budget(&mut self, msg: &GetMemoryBudget) -> (r: Result<(), EncodeError>)
        requires
            old(self).wf(),
            old(self)@.can_grow(GetMemoryBudget::wire_size()),
        ensures
            final(self).wf(),
            (final(self)@, r) == old(self)@.write(msg.spec_bytes()),
    {
        let bytes = msg.to_bytes();
        self.write_bytes(&bytes)
    }

    /// Writes `msg`, with the link of its `info` turned into a flag, then,
    /// when that link is set, the chain of extensions `chain`.
    pub fn encode_create_buffer(&mut self, msg: &CreateBuffer, chain: &[MagmaExtensibleStruct]) -> (r: Result<(), EncodeError>)
        requires
            old(self).wf(),
            old(self)@.can_grow(CreateBuffer::wire_size() + chain_total_len(msg.info.header.p_next, chain@)),
        ensures
            final(self).wf(),
            (final(self)@, r) == old(self)@.write_rooted(flagged_bytes_create_buffer(*msg), msg.info.header.p_next, chain@),
    {
        let mut cmd = *msg;
        let p_next = cmd.info.header.p_next;
        cmd.info.header.p_next = if p_next != 0 { 1 } else { 0 };
        let bytes = cmd.to_bytes();
        let r = self.write_bytes(&bytes);
        if r.is_err() {
            return r;
        }
        if p_next != 0 {
            return self.encode_extensible_chain(p_next, chain);
        }
        Ok(())
    }

    /// Writes the wire bytes of `msg`.
    pub fn encode_create_address_space(&mut self, msg: &CreateAddressSpace) -> (r: Result<(), EncodeError>)
        requires
            old(self).wf(),
            old(self)@.can_grow(CreateAddressSpace::wire_size()),
        ensures
            final(self).wf(),
            (final(self)@, r) == old(self)@.write(msg.spec_bytes()),
    {
        let bytes = msg.to_bytes();
        self.write_bytes(&bytes)
    }

    /// Writes the wire bytes of `msg`.
    pub fn encode_create_queue(&mut self, msg: &CreateQueue) -> (r: Result<(), EncodeError>)
        requires
            old(self).wf(),
            old(self)@.can_grow(CreateQueue::wire_size()),
        ensures
            final(self).wf(),
            (final(self)@, r) == old(self)@.write(msg.spec_bytes()),
    {
        let bytes = msg.to_bytes();
        self.write_bytes(&bytes)
    }

    /// Writes the wire bytes of `msg`.
    pub fn encode_device_close(&mut self, msg: &DeviceClose) -> (r: Result<(), EncodeError>)
        requires
            old(self).wf(),
            old(self)@.can_grow(DeviceClose::wire_size()),
        ensures
            final(self).wf(),
            (final(self)@, r) == old(self)@.write(msg.spec_bytes()),
    {
        let bytes = msg.to_bytes();
        self.write_bytes(&bytes)
    }

    /// Writes the wire bytes of `msg`.
    pub fn encode_physical_device_close(&mut self, msg: &PhysicalDeviceClose) -> (r: Result<(), EncodeError>)
        requires
            old(self).wf(),
            old(self)@.can_grow(PhysicalDeviceClose::wire_size()),
        ensures
            final(self).wf(),
            (final(self)@, r) == old(self)@.write(msg.spec_bytes()),
    {
        let bytes = msg.to_bytes();
        self.write_bytes(&bytes)
    }

    /// Writes the wire bytes of `msg`.
    pub fn encode_buffer_close(&mut self, msg: &BufferClose) -> (r: Result<(), EncodeError>)
        requires
            old(self).wf(),
            old(self)@.can_grow(BufferClose::wire_size()),
        ensures
            final(self).wf(),
            (final(self)@, r) == old(self)@.write(msg.spec_bytes()),
    {
        let bytes = msg.to_bytes();
        self.write_bytes(&bytes)
    }

    /// Writes the wire bytes of `msg`.
    pub fn encode_queue_close(&mut self, msg: &QueueClose) -> (r: Result<(), EncodeError>)
        requires
            old(self).wf(),
            old(self)@.can_grow(QueueClose::wire_size()),
        ensures
            final(self).wf(),
            (final(self)@, r) == old(self)@.write(msg.spec_bytes()),
    {
        let bytes = msg.to_bytes();
        self.write_bytes(&bytes)
    }

    /// Writes the wire bytes of `msg`.
    pub fn encode_address_space_close(&mut self, msg: &AddressSpaceClose) -> (r: Result<(), EncodeError>)
        requires
            old(self).wf(),
            old(self)@.can_grow(AddressSpaceClose::wire_size()),
        ensures
            final(self).wf(),
            (final(self)@, r) == old(self)@.write(msg.spec_bytes()),
    {
        let bytes = msg.to_bytes();
        self.write_bytes(&bytes)
    }

    /// Writes the wire bytes of `msg`.
    pub fn encode_virtio_create_ring(&mut self, msg: &VirtioCreateRing) -> (r: Result<(), EncodeError>)
        requires
            old(self).wf(),
            old(self)@.can_grow(VirtioCreateRing::wire_size()),
        ensures
            final(self).wf(),
            (final(self)@, r) == old(self)@.write(msg.spec_bytes()),
    {
        let bytes = msg.to_bytes();
        self.write_bytes(&bytes)
    }

    /// Writes the wire bytes of `msg`.
    pub fn encode_map_buffer_gpu(&mut self, msg: &MapBufferGpu) -> (r: Result<(), EncodeError>)
        requires
            old(self).wf(),
            old(self)@.can_grow(MapBufferGpu::wire_size()),
        ensures
            final(self).wf(),
            (final(self)@, r) == old(self)@.write(msg.spec_bytes()),
    {
        let bytes = msg.to_bytes();
        self.write_bytes(&bytes)
    }

    /// Writes the wire bytes of `msg`.
    pub fn encode_unmap_buffer_gpu(&mut self, msg: &UnmapBufferGpu) -> (r: Result<(), EncodeError>)
        requires
            old(self).wf(),
            old(self)@.can_grow(UnmapBufferGpu::wire_size()),
        ensures
            final(self).wf(),
            (final(self)@, r) == old(self)@.write(msg.spec_bytes()),
    {
        let bytes = msg.to_bytes();
        self.write_bytes(&bytes)
    }

    /// Writes `msg`, with the link of its `submit_info` turned into a flag, then,
    /// when that link is set, the chain of extensions `chain`.
    pub fn encode_submit_command(&mut self, msg: &SubmitCommand, chain: &[MagmaExtensibleStruct]) -> (r: Result<(), EncodeError>)
        requires
            old(self).wf(),
            old(self)@.can_grow(SubmitCommand::wire_size() + chain_total_len(msg.submit_info.header.p_next, chain@)),
        ensures
            final(self).wf(),
            (final(self)@, r) == old(self)@.write_rooted(flagged_bytes_submit_command(*msg), msg.submit_info.header.p_next, chain@),
    {
        let mut cmd = *msg;
        let p_next = cmd.submit_info.header.p_next;
        cmd.submit_info.header.p_next = if p_next != 0 { 1 } else { 0 };
        let bytes = cmd.to_bytes();
        let r = self.write_bytes(&bytes);
        if r.is_err() {
            return r;
        }
        if p_next != 0 {
            return self.encode_extensible_chain(p_next, chain);
        }
        Ok(())
    }

    /// Writes `msg`, with the link of its `info` turned into a flag, then,
    /// when that link is set, the chain of extensions `chain`.
    pub fn encode_create_sync_obj(&mut self, msg: &CreateSyncObj, chain: &[MagmaExtensibleStruct]) -> (r: Result<(), EncodeError>)
        requires
            old(self).wf(),
            old(self)@.can_grow(CreateSyncObj::wire_size() + chain_total_len(msg.info.header.p_next, chain@)),
        ensures
            final(self).wf(),
            (final(self)@, r) == old(self)@.write_rooted(flagged_bytes_create_sync_obj(*msg), msg.info.header.p_next, chain@),
    {
        let mut cmd = *msg;
        let p_next = cmd.info.header.p_next;
        cmd.info.header.p_next = if p_next != 0 { 1 } else { 0 };
        let bytes = cmd.to_bytes();
        let r = self.write_bytes(&bytes);
        if r.is_err() {
            return r;
        }
        if p_next != 0 {
            return self.encode_extensible_chain(p_next, chain);
        }
        Ok(())
    }

    /// Writes the wire bytes of `msg`.
    pub fn encode_sync_obj_close(&mut self, msg: &SyncObjClose) -> (r: Result<(), EncodeError>)
        requires
            old(self).wf(),
            old(self)@.can_grow(SyncObjClose::wire_size()),
        ensures
            final(self).wf(),
            (final(self)@, r) == old(self)@.write(msg.spec_bytes()),
    {
        let bytes = msg.to_bytes();
        self.write_bytes(&bytes)
    }

    /// Writes the wire bytes of `msg`.
    pub fn encode_sync_obj_signal(&mut self, msg: &SyncObjSignal) -> (r: Result<(), EncodeError>)
        requires
            old(self).wf(),
            old(self)@.can_grow(SyncObjSignal::wire_size()),
        ensures
            final(self).wf(),
            (final(self)@, r) == old(self)@.write(msg.spec_bytes()),
    {
        let bytes = msg.to_bytes();
        self.write_bytes(&bytes)
    }

    /// Writes the wire bytes of `msg`.
    pub fn encode_sync_obj_timeline_wait(&mut self, msg: &SyncObjTimelineWait) -> (r: Result<(), EncodeError>)
        requires
            old(self).wf(),
            old(self)@.can_grow(SyncObjTimelineWait::wire_size()),
        ensures
            final(self).wf(),
            (final(self)@, r) == old(self)@.write(msg.spec_bytes()),
    {
        let bytes = msg.to_bytes();
        self.write_bytes(&bytes)
    }

    /// Writes the wire bytes of `msg`.
    pub fn encode_sync_obj_timeline_signal(&mut self, msg: &SyncObjTimelineSignal) -> (r: Result<(), EncodeError>)
        requires
            old(self).wf(),
            old(self)@.can_grow(SyncObjTimelineSignal::wire_size()),
        ensures
            final(self).wf(),
            (final(self)@, r) == old(self)@.write(msg.spec_bytes()),
    {
        let bytes = msg.to_bytes();
        self.write_bytes(&bytes)
    }

    /// Writes the wire bytes of `msg`.
    pub fn encode_sync_obj_timeline_query(&mut self, msg: &SyncObjTimelineQuery) -> (r: Result<(), EncodeError>)
        requires
            old(self).wf(),
            old(self)@.can_grow(SyncObjTimelineQuery::wire_size()),
        ensures
            final(self).wf(),
            (final(self)@, r) == old(self)@.write(msg.spec_bytes()),
    {
        let bytes = msg.to_bytes();
        self.write_bytes(&bytes)
    }

    /// Writes the wire bytes of `msg`.
    pub fn encode_queue_check_status(&mut self, msg: &QueueCheckStatus) -> (r: Result<(), EncodeError>)
        requires
            old(self).wf(),
            old(self)@.can_grow(QueueCheckStatus::wire_size()),
        ensures
            final(self).wf(),
            (final(self)@, r) == old(self)@.write(msg.spec_bytes()),
    {
        let bytes = msg.to_bytes();
        self.write_bytes(&bytes)
    }

    /// Writes the wire bytes of `msg`.
    pub fn encode_virtio_ping(&mut self, msg: &VirtioPing) -> (r: Result<(), EncodeError>)
        requires
            old(self).wf(),
            old(self)@.can_grow(VirtioPing::wire_size()),
        ensures
            final(self).wf(),
            (final(self)@, r) == old(self)@.write(msg.spec_bytes()),
    {
        let bytes = msg.to_bytes();
        self.write_bytes(&bytes)
    }

    /// Writes the wire bytes of `msg`.
    pub fn encode_virtio_create_fence(&mut self, msg: &VirtioCreateFence) -> (r: Result<(), EncodeError>)
        requires
            old(self).wf(),
            old(self)@.can_grow(VirtioCreateFence::wire_size()),
        ensures
            final(self).wf(),
            (final(self)@, r) == old(self)@.write(msg.spec_bytes()),
    {
        let bytes = msg.to_bytes();
        self.write_bytes(&bytes)
    }

    /// Writes the wire bytes of `msg`.
    pub fn encode_virtio_sync_obj_close(&mut self, msg: &VirtioSyncObjClose) -> (r: Result<(), EncodeError>)
        requires
            old(self).wf(),
            old(self)@.can_grow(VirtioSyncObjClose::wire_size()),
        ensures
            final(self).wf(),
            (final(self)@, r) == old(self)@.write(msg.spec_bytes()),
    {
        let bytes = msg.to_bytes();
        self.write_bytes(&bytes)
    }

    /// Writes the wire bytes of `msg`.
    pub fn encode_resp_create_device(&mut self, msg: &CreateDeviceResp) -> (r: Result<(), EncodeError>)
        requires
            old(self).wf(),
            old(self)@.can_grow(CreateDeviceResp::wire_size()),
        ensures
            final(self).wf(),
            (final(self)@, r) == old(self)@.write(msg.spec_bytes()),
    {
        let bytes = msg.to_bytes();
        self.write_bytes(&bytes)
    }

    /// Writes the wire bytes of `msg`.
    pub fn encode_resp_get_memory_budget(&mut self, msg: &GetMemoryBudgetResp) -> (r: Result<(), EncodeError>)
        requires
            old(self).wf(),
            old(self)@.can_grow(GetMemoryBudgetResp::wire_size()),
        ensures
            final(self).wf(),
            (final(self)@, r) == old(self)@.write(msg.spec_bytes()),
    {
        let bytes = msg.to_bytes();
        self.write_bytes(&bytes)
    }

    /// Writes the wire bytes of `msg`.
    pub fn encode_resp_create_buffer(&mut self, msg: &CreateBufferResp) -> (r: Result<(), EncodeError>)
        requires
            old(self).wf(),
            old(self)@.can_grow(CreateBufferResp::wire_size()),
        ensures
            final(self).wf(),
            (final(self)@, r) == old(self)@.write(msg.spec_bytes()),
    {
        let bytes = msg.to_bytes();
        self.write_bytes(&bytes)
    }

    /// Writes the wire bytes of `msg`.
    pub fn encode_resp_create_address_space(&mut self, msg: &CreateAddressSpaceResp) -> (r: Result<(), EncodeError>)
        requires
            old(self).wf(),
            old(self)@.can_grow(CreateAddressSpaceResp::wire_size()),
        ensures
            final(self).wf(),
            (final(self)@, r) == old(self)@.write(msg.spec_bytes()),
    {
        let bytes = msg.to_bytes();
        self.write_bytes(&bytes)
    }

    /// Writes the wire bytes of `msg`.
    pub fn encode_resp_create_queue(&mut self, msg: &CreateQueueResp) -> (r: Result<(), EncodeError>)
        requires
            old(self).wf(),
            old(self)@.can_grow(CreateQueueResp::wire_size()),
        ensures
            final(self).wf(),
            (final(self)@, r) == old(self)@.write(msg.spec_bytes()),
    {
        let bytes = msg.to_bytes();
        self.write_bytes(&bytes)
    }

    /// Writes the wire bytes of `msg`.
    pub fn encode_resp_map_buffer_gpu(&mut self, msg: &MapBufferGpuResp) -> (r: Result<(), EncodeError>)
        requires
            old(self).wf(),
            old(self)@.can_grow(MapBufferGpuResp::wire_size()),
        ensures
            final(self).wf(),
            (final(self)@, r) == old(self)@.write(msg.spec_bytes()),
    {
        let bytes = msg.to_bytes();
        self.write_bytes(&bytes)
    }

    /// Writes the wire bytes of `msg`.
    pub fn encode_resp_unmap_buffer_gpu(&mut self, msg: &UnmapBufferGpuResp) -> (r: Result<(), EncodeError>)
        requires
            old(self).wf(),
            old(self)@.can_grow(UnmapBufferGpuResp::wire_size()),
        ensures
            final(self).wf(),
            (final(self)@, r) == old(self)@.write(msg.spec_bytes()),
    {
        let bytes = msg.to_bytes();
        self.write_bytes(&bytes)
    }

    /// Writes the wire bytes of `msg`.
    pub fn encode_resp_submit_command(&mut self, msg: &SubmitCommandResp) -> (r: Result<(), EncodeError>)
        requires
            old(self).wf(),
            old(self)@.can_grow(SubmitCommandResp::wire_size()),
        ensures
            final(self).wf(),
            (final(self)@, r) == old(self)@.write(msg.spec_bytes()),
    {
        let bytes = msg.to_bytes();
        self.write_bytes(&bytes)
    }

    /// Writes the wire bytes of `msg`.
    pub fn encode_resp_create_sync_obj(&mut self, msg: &CreateSyncObjResp) -> (r: Result<(), EncodeError>)
        requires
            old(self).wf(),
            old(self)@.can_grow(CreateSyncObjResp::wire_size()),
        ensures
            final(self).wf(),
            (final(self)@, r) == old(self)@.write(msg.spec_bytes()),
    {
        let bytes = msg.to_bytes();
        self.write_bytes(&bytes)
    }

    /// Writes the wire bytes of `msg`.
    pub fn encode_resp_sync_obj_signal(&mut self, msg: &SyncObjSignalResp) -> (r: Result<(), EncodeError>)
        requires
            old(self).wf(),
            old(self)@.can_grow(SyncObjSignalResp::wire_size()),
        ensures
            final(self).wf(),
            (final(self)@, r) == old(self)@.write(msg.spec_bytes()),
    {
        let bytes = msg.to_bytes();
        self.write_bytes(&bytes)
    }

    /// Writes the wire bytes of `msg`.
    pub fn encode_resp_sync_obj_timeline_wait(&mut self, msg: &SyncObjTimelineWaitResp) -> (r: Result<(), EncodeError>)
        requires
            old(self).wf(),
            old(self)@.can_grow(SyncObjTimelineWaitResp::wire_size()),
        ensures
            final(self).wf(),
            (final(self)@, r) == old(self)@.write(msg.spec_bytes()),
    {
        let bytes = msg.to_bytes();
        self.write_bytes(&bytes)
    }

    /// Writes the wire bytes of `msg`.
    pub fn encode_resp_sync_obj_timeline_signal(&mut self, msg: &SyncObjTimelineSignalResp) -> (r: Result<(), EncodeError>)
        requires
            old(self).wf(),
            old(self)@.can_grow(SyncObjTimelineSignalResp::wire_size()),
        ensures
            final(self).wf(),
            (final(self)@, r) == old(self)@.write(msg.spec_bytes()),
    {
        let bytes = msg.to_bytes();
        self.write_bytes(&bytes)
    }

    /// Writes the wire bytes of `msg`.
    pub fn encode_resp_sync_obj_timeline_query(&mut self, msg: &SyncObjTimelineQueryResp) -> (r: Result<(), EncodeError>)
        requires
            old(self).wf(),
            old(self)@.can_grow(SyncObjTimelineQueryResp::wire_size()),
        ensures
            final(self).wf(),
            (final(self)@, r) == old(self)@.write(msg.spec_bytes()),
    {
        let bytes = msg.to_bytes();
        self.write_bytes(&bytes)
    }

    /// Writes the wire bytes of `msg`.
    pub fn encode_resp_queue_check_status(&mut self, msg: &QueueCheckStatusResp) -> (r: Result<(), EncodeError>)
        requires
            old(self).wf(),
            old(self)@.can_grow(QueueCheckStatusResp::wire_size()),
        ensures
            final(self).wf(),
            (final(self)@, r) == old(self)@.write(msg.spec_bytes()),
    {
        let bytes = msg.to_bytes();
        self.write_bytes(&bytes)
    }


    /// Writes any one command or response, with the chain of extensions that
    /// its extensible part links to.
    pub fn encode_msg(&mut self, msg: &MagmaProtocol, chain: &[MagmaExtensibleStruct]) -> (r: Result<(), EncodeError>)
        requires
            old(self).wf(),
            old(self)@.can_grow(msg_total_len(*msg, chain@)),
        ensures
            final(self).wf(),
            (final(self)@, r) == encode_msg_result(old(self)@, *msg, chain@),
    {
        match msg {
            MagmaProtocol::CreateDevice(m) => self.encode_create_device(m),
            MagmaProtocol::GetMemoryBudget(m) => self.encode_get_memory_budget(m),
            MagmaProtocol::CreateBuffer(m) => self.encode_create_buffer(m, chain),
            MagmaProtocol::CreateAddressSpace(m) => self.encode_create_address_space(m),
            MagmaProtocol::CreateQueue(m) => self.encode_create_queue(m),
            MagmaProtocol::DeviceClose(m) => self.encode_device_close(m),
            MagmaProtocol::PhysicalDeviceClose(m) => self.encode_physical_device_close(m),
            MagmaProtocol::BufferClose(m) => self.encode_buffer_close(m),
            MagmaProtocol::QueueClose(m) => self.encode_queue_close(m),
            MagmaProtocol::AddressSpaceClose(m) => self.encode_address_space_close(m),
            MagmaProtocol::VirtioCreateRing(m) => self.encode_virtio_create_ring(m),
            MagmaProtocol::MapBufferGpu(m) => self.encode_map_buffer_gpu(m),
            MagmaProtocol::UnmapBufferGpu(m) => self.encode_unmap_buffer_gpu(m),
            MagmaProtocol::SubmitCommand(m) => self.encode_submit_command(m, chain),
            MagmaProtocol::CreateSyncObj(m) => self.encode_create_sync_obj(m, chain),
            MagmaProtocol::SyncObjClose(m) => self.encode_sync_obj_close(m),
            MagmaProtocol::SyncObjSignal(m) => self.encode_sync_obj_signal(m),
            MagmaProtocol::SyncObjTimelineWait(m) => self.encode_sync_obj_timeline_wait(m),
            MagmaProtocol::SyncObjTimelineSignal(m) => self.encode_sync_obj_timeline_signal(m),
            MagmaProtocol::SyncObjTimelineQuery(m) => self.encode_sync_obj_timeline_query(m),
            MagmaProtocol::QueueCheckStatus(m) => self.encode_queue_check_status(m),
            MagmaProtocol::VirtioPing(m) => self.encode_virtio_ping(m),
            MagmaProtocol::VirtioCreateFence(m) => self.encode_virtio_create_fence(m),
            MagmaProtocol::VirtioSyncObjClose(m) => self.encode_virtio_sync_obj_close(m),
            MagmaProtocol::CreateDeviceResp(m) => self.encode_resp_create_device(m),
            MagmaProtocol::GetMemoryBudgetResp(m) => self.encode_resp_get_memory_budget(m),
            MagmaProtocol::CreateBufferResp(m) => self.encode_resp_create_buffer(m),
            MagmaProtocol::CreateAddressSpaceResp(m) => self.encode_resp_create_address_space(m),
            MagmaProtocol::CreateQueueResp(m) => self.encode_resp_create_queue(m),
            MagmaProtocol::MapBufferGpuResp(m) => self.encode_resp_map_buffer_gpu(m),
            MagmaProtocol::UnmapBufferGpuResp(m) => self.encode_resp_unmap_buffer_gpu(m),
            MagmaProtocol::SubmitCommandResp(m) => self.encode_resp_submit_command(m),
            MagmaProtocol::CreateSyncObjResp(m) => self.encode_resp_create_sync_obj(m),
            MagmaProtocol::SyncObjSignalResp(m) => self.encode_resp_sync_obj_signal(m),
            MagmaProtocol::SyncObjTimelineWaitResp(m) => self.encode_resp_sync_obj_timeline_wait(m),
            MagmaProtocol::SyncObjTimelineSignalResp(m) => self.encode_resp_sync_obj_timeline_signal(m),
            MagmaProtocol::SyncObjTimelineQueryResp(m) => self.encode_resp_sync_obj_timeline_query(m),
            MagmaProtocol::QueueCheckStatusResp(m) => self.encode_resp_queue_check_status(m),
        }
    }

    /// Writes any one extensible structure, with the chain of extensions that
    /// it links to.
    pub fn encode_extensible_struct(&mut self, msg: &MagmaExtensibleStruct, chain: &[MagmaExtensibleStruct]) -> (r: Result<(), EncodeError>)
        requires
            old(self).wf(),
            old(self)@.can_grow(ext_total_len(*msg, chain@)),
        ensures
            final(self).wf(),
            (final(self)@, r) == encode_ext_result(old(self)@, *msg, chain@),
    {
        match msg {
            MagmaExtensibleStruct::CreateBufferInfo(m) => self.encode_create_buffer_info(m, chain),
            MagmaExtensibleStruct::DeviceCreateInfo(m) => self.encode_device_create_info(m, chain),
            MagmaExtensibleStruct::WireSubmitSyncInfo(m) => self.encode_wire_submit_sync_info(m, chain),
            MagmaExtensibleStruct::WireSubmitInfo(m) => self.encode_wire_submit_info(m, chain),
            MagmaExtensibleStruct::SubmitAddressSpaceInfo(m) => self.encode_submit_address_space_info(m, chain),
            MagmaExtensibleStruct::WireSubmitBufferInfo(m) => self.encode_wire_submit_buffer_info(m, chain),
            MagmaExtensibleStruct::CreateSyncObjInfo(m) => self.encode_create_sync_obj_info(m, chain),
            MagmaExtensibleStruct::SyncProperties(m) => self.encode_sync_properties(m, chain),
            MagmaExtensibleStruct::VirtCapabilities(m) => self.encode_virt_capabilities(m, chain),
            MagmaExtensibleStruct::PhysicalDeviceInfo(m) => self.encode_physical_device_info(m, chain),
            MagmaExtensibleStruct::PhysicalDeviceMemoryType(m) => self.encode_physical_device_memory_type(m, chain),
            MagmaExtensibleStruct::PhysicalDeviceMemoryHeap(m) => self.encode_physical_device_memory_heap(m, chain),
        }
    }
}

/// The wire bytes of `e` with its link replaced by `link`.
pub fn element_bytes(e: &MagmaExtensibleStruct, link: u64) -> (b: Vec<u8>)
    ensures
        b@ == e.spec_with_next(link).spec_bytes(),
{
    match e {
        MagmaExtensibleStruct::CreateBufferInfo(s) => {
            let mut x = *s;
            x.header.p_next = link;
            x.to_bytes()
        },
        MagmaExtensibleStruct::DeviceCreateInfo(s) => {
            let mut x = *s;
            x.header.p_next = link;
            x.to_bytes()
        },
        MagmaExtensibleStruct::WireSubmitSyncInfo(s) => {
            let mut x = *s;
            x.header.p_next = link;
            x.to_bytes()
        },
        MagmaExtensibleStruct::WireSubmitInfo(s) => {
            let mut x = *s;
            x.header.p_next = link;
            x.to_bytes()
        },
        MagmaExtensibleStruct::SubmitAddressSpaceInfo(s) => {
            let mut x = *s;
            x.header.p_next = link;
            x.to_bytes()
        },
        MagmaExtensibleStruct::WireSubmitBufferInfo(s) => {
            let mut x = *s;
            x.header.p_next = link;
            x.to_bytes()
        },
        MagmaExtensibleStruct::CreateSyncObjInfo(s) => {
            let mut x = *s;
            x.header.p_next = link;
            x.to_bytes()
        },
        MagmaExtensibleStruct::SyncProperties(s) => {
            let mut x = *s;
            x.header.p_next = link;
            x.to_bytes()
        },
        MagmaExtensibleStruct::VirtCapabilities(s) => {
            let mut x = *s;
            x.header.p_next = link;
            x.to_bytes()
        },
        MagmaExtensibleStruct::PhysicalDeviceInfo(s) => {
            let mut x = *s;
            x.header.p_next = link;
            x.to_bytes()
        },
        MagmaExtensibleStruct::PhysicalDeviceMemoryType(s) => {
            let mut x = *s;
            x.header.p_next = link;
            x.to_bytes()
        },
        MagmaExtensibleStruct::PhysicalDeviceMemoryHeap(s) => {
            let mut x = *s;
            x.header.p_next = link;
            x.to_bytes()
        },
    }
}

/// Wire bytes of `msg` with its link turned into a flag.
pub open spec fn flagged_bytes_create_buffer_info(msg: MagmaCreateBufferInfo) -> Seq<u8> {
    MagmaCreateBufferInfo { header: MagmaStructureTypeHeader { p_next: link_flag(msg.header.p_next), ..msg.header }, ..msg }.spec_bytes()
}

/// Wire bytes of `msg` with its link turned into a flag.
pub open spec fn flagged_bytes_device_create_info(msg: MagmaDeviceCreateInfo) -> Seq<u8> {
    MagmaDeviceCreateInfo { header: MagmaStructureTypeHeader { p_next: link_flag(msg.header.p_next), ..msg.header }, ..msg }.spec_bytes()
}

/// Wire bytes of `msg` with its link turned into a flag.
pub open spec fn flagged_bytes_wire_submit_sync_info(msg: MagmaWireSubmitSyncInfo) -> Seq<u8> {
    MagmaWireSubmitSyncInfo { header: MagmaStructureTypeHeader { p_next: link_flag(msg.header.p_next), ..msg.header }, ..msg }.spec_bytes()
}

/// Wire bytes of `msg` with its link turned into a flag.
pub open spec fn flagged_bytes_wire_submit_info(msg: MagmaWireSubmitInfo) -> Seq<u8> {
    MagmaWireSubmitInfo { header: MagmaStructureTypeHeader { p_next: link_flag(msg.header.p_next), ..msg.header }, ..msg }.spec_bytes()
}

/// Wire bytes of `msg` with its link turned into a flag.
pub open spec fn flagged_bytes_submit_address_space_info(msg: MagmaSubmitAddressSpaceInfo) -> Seq<u8> {
    MagmaSubmitAddressSpaceInfo { header: MagmaStructureTypeHeader { p_next: link_flag(msg.header.p_next), ..msg.header }, ..msg }.spec_bytes()
}

/// Wire bytes of `msg` with its link turned into a flag.
pub open spec fn flagged_bytes_wire_submit_buffer_info(msg: MagmaWireSubmitBufferInfo) -> Seq<u8> {
    MagmaWireSubmitBufferInfo { header: MagmaStructureTypeHeader { p_next: link_flag(msg.header.p_next), ..msg.header }, ..msg }.spec_bytes()
}

/// Wire bytes of `msg` with its link turned into a flag.
pub open spec fn flagged_bytes_create_sync_obj_info(msg: MagmaCreateSyncObjInfo) -> Seq<u8> {
    MagmaCreateSyncObjInfo { header: MagmaStructureTypeHeader { p_next: link_flag(msg.header.p_next), ..msg.header }, ..msg }.spec_bytes()
}

/// Wire bytes of `msg` with its link turned into a flag.
pub open spec fn flagged_bytes_sync_properties(msg: MagmaSyncProperties) -> Seq<u8> {
    MagmaSyncProperties { header: MagmaStructureTypeHeader { p_next: link_flag(msg.header.p_next), ..msg.header }, ..msg }.spec_bytes()
}

/// Wire bytes of `msg` with its link turned into a flag.
pub open spec fn flagged_bytes_virt_capabilities(msg: MagmaVirtCapabilities) -> Seq<u8> {
    MagmaVirtCapabilities { header: MagmaStructureTypeHeader { p_next: link_flag(msg.header.p_next), ..msg.header }, ..msg }.spec_bytes()
}

/// Wire bytes of `msg` with its link turned into a flag.
pub open spec fn flagged_bytes_physical_device_info(msg: MagmaPhysicalDeviceInfo) -> Seq<u8> {
    MagmaPhysicalDeviceInfo { header: MagmaStructureTypeHeader { p_next: link_flag(msg.header.p_next), ..msg.header }, ..msg }.spec_bytes()
}

/// Wire bytes of `msg` with its link turned into a flag.
pub open spec fn flagged_bytes_physical_device_memory_type(msg: MagmaPhysicalDeviceMemoryType) -> Seq<u8> {
    MagmaPhysicalDeviceMemoryType { header: MagmaStructureTypeHeader { p_next: link_flag(msg.header.p_next), ..msg.header }, ..msg }.spec_bytes()
}

/// Wire bytes of `msg` with its link turned into a flag.
pub open spec fn flagged_bytes_physical_device_memory_heap(msg: MagmaPhysicalDeviceMemoryHeap) -> Seq<u8> {
    MagmaPhysicalDeviceMemoryHeap { header: MagmaStructureTypeHeader { p_next: link_flag(msg.header.p_next), ..msg.header }, ..msg }.spec_bytes()
}

/// Wire bytes of `msg` with the link of its `info` turned into a flag.
pub open spec fn flagged_bytes_create_buffer(msg: CreateBuffer) -> Seq<u8> {
    CreateBuffer { info: MagmaCreateBufferInfo { header: MagmaStructureTypeHeader { p_next: link_flag(msg.info.header.p_next), ..msg.info.header }, ..msg.info }, ..msg }.spec_bytes()
}

/// Wire bytes of `msg` with the link of its `submit_info` turned into a flag.
pub open spec fn flagged_bytes_submit_command(msg: SubmitCommand) -> Seq<u8> {
    SubmitCommand { submit_info: MagmaWireSubmitInfo { header: MagmaStructureTypeHeader { p_next: link_flag(msg.submit_info.header.p_next), ..msg.submit_info.header }, ..msg.submit_info }, ..msg }.spec_bytes()
}

/// Wire bytes of `msg` with the link of its `info` turned into a flag.
pub open spec fn flagged_bytes_create_sync_obj(msg: CreateSyncObj) -> Seq<u8> {
    CreateSyncObj { info: MagmaCreateSyncObjInfo { header: MagmaStructureTypeHeader { p_next: link_flag(msg.info.header.p_next), ..msg.info.header }, ..msg.info }, ..msg }.spec_bytes()
}

/// Number of bytes that `msg` and the chain it links to take on the wire.
pub open spec fn msg_total_len(msg: MagmaProtocol, chain: Seq<MagmaExtensibleStruct>) -> nat {
    match msg {
        MagmaProtocol::CreateDevice(m) => CreateDevice::wire_size(),
        MagmaProtocol::GetMemoryBudget(m) => GetMemoryBudget::wire_size(),
        MagmaProtocol::CreateBuffer(m) => CreateBuffer::wire_size() + chain_total_len(m.info.header.p_next, chain),
        MagmaProtocol::CreateAddressSpace(m) => CreateAddressSpace::wire_size(),
        MagmaProtocol::CreateQueue(m) => CreateQueue::wire_size(),
        MagmaProtocol::DeviceClose(m) => DeviceClose::wire_size(),
        MagmaProtocol::PhysicalDeviceClose(m) => PhysicalDeviceClose::wire_size(),
        MagmaProtocol::BufferClose(m) => BufferClose::wire_size(),
        MagmaProtocol::QueueClose(m) => QueueClose::wire_size(),
        MagmaProtocol::AddressSpaceClose(m) => AddressSpaceClose::wire_size(),
        MagmaProtocol::VirtioCreateRing(m) => VirtioCreateRing::wire_size(),
        MagmaProtocol::MapBufferGpu(m) => MapBufferGpu::wire_size(),
        MagmaProtocol::UnmapBufferGpu(m) => UnmapBufferGpu::wire_size(),
        MagmaProtocol::SubmitCommand(m) => SubmitCommand::wire_size() + chain_total_len(m.submit_info.header.p_next, chain),
        MagmaProtocol::CreateSyncObj(m) => CreateSyncObj::wire_size() + chain_total_len(m.info.header.p_next, chain),
        MagmaProtocol::SyncObjClose(m) => SyncObjClose::wire_size(),
        MagmaProtocol::SyncObjSignal(m) => SyncObjSignal::wire_size(),
        MagmaProtocol::SyncObjTimelineWait(m) => SyncObjTimelineWait::wire_size(),
        MagmaProtocol::SyncObjTimelineSignal(m) => SyncObjTimelineSignal::wire_size(),
        MagmaProtocol::SyncObjTimelineQuery(m) => SyncObjTimelineQuery::wire_size(),
        MagmaProtocol::QueueCheckStatus(m) => QueueCheckStatus::wire_size(),
        MagmaProtocol::VirtioPing(m) => VirtioPing::wire_size(),
        MagmaProtocol::VirtioCreateFence(m) => VirtioCreateFence::wire_size(),
        MagmaProtocol::VirtioSyncObjClose(m) => VirtioSyncObjClose::wire_size(),
        MagmaProtocol::CreateDeviceResp(m) => CreateDeviceResp::wire_size(),
        MagmaProtocol::GetMemoryBudgetResp(m) => GetMemoryBudgetResp::wire_size(),
        MagmaProtocol::CreateBufferResp(m) => CreateBufferResp::wire_size(),
        MagmaProtocol::CreateAddressSpaceResp(m) => CreateAddressSpaceResp::wire_size(),
        MagmaProtocol::CreateQueueResp(m) => CreateQueueResp::wire_size(),
        MagmaProtocol::MapBufferGpuResp(m) => MapBufferGpuResp::wire_size(),
        MagmaProtocol::UnmapBufferGpuResp(m) => UnmapBufferGpuResp::wire_size(),
        MagmaProtocol::SubmitCommandResp(m) => SubmitCommandResp::wire_size(),
        MagmaProtocol::CreateSyncObjResp(m) => CreateSyncObjResp::wire_size(),
        MagmaProtocol::SyncObjSignalResp(m) => SyncObjSignalResp::wire_size(),
        MagmaProtocol::SyncObjTimelineWaitResp(m) => SyncObjTimelineWaitResp::wire_size(),
        MagmaProtocol::SyncObjTimelineSignalResp(m) => SyncObjTimelineSignalResp::wire_size(),
        MagmaProtocol::SyncObjTimelineQueryResp(m) => SyncObjTimelineQueryResp::wire_size(),
        MagmaProtocol::QueueCheckStatusResp(m) => QueueCheckStatusResp::wire_size(),
    }
}

/// The state and result after encoding `msg` with its chain.
pub open spec fn encode_msg_result(e: EncoderView, msg: MagmaProtocol, chain: Seq<MagmaExtensibleStruct>) -> (EncoderView, Result<(), EncodeError>) {
    match msg {
        MagmaProtocol::CreateDevice(m) => e.write(m.spec_bytes()),
        MagmaProtocol::GetMemoryBudget(m) => e.write(m.spec_bytes()),
        MagmaProtocol::CreateBuffer(m) => e.write_rooted(flagged_bytes_create_buffer(m), m.info.header.p_next, chain),
        MagmaProtocol::CreateAddressSpace(m) => e.write(m.spec_bytes()),
        MagmaProtocol::CreateQueue(m) => e.write(m.spec_bytes()),
        MagmaProtocol::DeviceClose(m) => e.write(m.spec_bytes()),
        MagmaProtocol::PhysicalDeviceClose(m) => e.write(m.spec_bytes()),
        MagmaProtocol::BufferClose(m) => e.write(m.spec_bytes()),
        MagmaProtocol::QueueClose(m) => e.write(m.spec_bytes()),
        MagmaProtocol::AddressSpaceClose(m) => e.write(m.spec_bytes()),
        MagmaProtocol::VirtioCreateRing(m) => e.write(m.spec_bytes()),
        MagmaProtocol::MapBufferGpu(m) => e.write(m.spec_bytes()),
        MagmaProtocol::UnmapBufferGpu(m) => e.write(m.spec_bytes()),
        MagmaProtocol::SubmitCommand(m) => e.write_rooted(flagged_bytes_submit_command(m), m.submit_info.header.p_next, chain),
        MagmaProtocol::CreateSyncObj(m) => e.write_rooted(flagged_bytes_create_sync_obj(m), m.info.header.p_next, chain),
        MagmaProtocol::SyncObjClose(m) => e.write(m.spec_bytes()),
        MagmaProtocol::SyncObjSignal(m) => e.write(m.spec_bytes()),
        MagmaProtocol::SyncObjTimelineWait(m) => e.write(m.spec_bytes()),
        MagmaProtocol::SyncObjTimelineSignal(m) => e.write(m.spec_bytes()),
        MagmaProtocol::SyncObjTimelineQuery(m) => e.write(m.spec_bytes()),
        MagmaProtocol::QueueCheckStatus(m) => e.write(m.spec_bytes()),
        MagmaProtocol::VirtioPing(m) => e.write(m.spec_bytes()),
        MagmaProtocol::VirtioCreateFence(m) => e.write(m.spec_bytes()),
        MagmaProtocol::VirtioSyncObjClose(m) => e.write(m.spec_bytes()),
        MagmaProtocol::CreateDeviceResp(m) => e.write(m.spec_bytes()),
        MagmaProtocol::GetMemoryBudgetResp(m) => e.write(m.spec_bytes()),
        MagmaProtocol::CreateBufferResp(m) => e.write(m.spec_bytes()),
        MagmaProtocol::CreateAddressSpaceResp(m) => e.write(m.spec_bytes()),
        MagmaProtocol::CreateQueueResp(m) => e.write(m.spec_bytes()),
        MagmaProtocol::MapBufferGpuResp(m) => e.write(m.spec_bytes()),
        MagmaProtocol::UnmapBufferGpuResp(m) => e.write(m.spec_bytes()),
        MagmaProtocol::SubmitCommandResp(m) => e.write(m.spec_bytes()),
        MagmaProtocol::CreateSyncObjResp(m) => e.write(m.spec_bytes()),
        MagmaProtocol::SyncObjSignalResp(m) => e.write(m.spec_bytes()),
        MagmaProtocol::SyncObjTimelineWaitResp(m) => e.write(m.spec_bytes()),
        MagmaProtocol::SyncObjTimelineSignalResp(m) => e.write(m.spec_bytes()),
        MagmaProtocol::SyncObjTimelineQueryResp(m) => e.write(m.spec_bytes()),
        MagmaProtocol::QueueCheckStatusResp(m) => e.write(m.spec_bytes()),
    }
}

/// Number of bytes that `msg` and the chain it links to take on the wire.
pub open spec fn ext_total_len(msg: MagmaExtensibleStruct, chain: Seq<MagmaExtensibleStruct>) -> nat {
    match msg {
        MagmaExtensibleStruct::CreateBufferInfo(m) => MagmaCreateBufferInfo::wire_size() + chain_total_len(m.header.p_next, chain),
        MagmaExtensibleStruct::DeviceCreateInfo(m) => MagmaDeviceCreateInfo::wire_size() + chain_total_len(m.header.p_next, chain),
        MagmaExtensibleStruct::WireSubmitSyncInfo(m) => MagmaWireSubmitSyncInfo::wire_size() + chain_total_len(m.header.p_next, chain),
        MagmaExtensibleStruct::WireSubmitInfo(m) => MagmaWireSubmitInfo::wire_size() + chain_total_len(m.header.p_next, chain),
        MagmaExtensibleStruct::SubmitAddressSpaceInfo(m) => MagmaSubmitAddressSpaceInfo::wire_size() + chain_total_len(m.header.p_next, chain),
        MagmaExtensibleStruct::WireSubmitBufferInfo(m) => MagmaWireSubmitBufferInfo::wire_size() + chain_total_len(m.header.p_next, chain),
        MagmaExtensibleStruct::CreateSyncObjInfo(m) => MagmaCreateSyncObjInfo::wire_size() + chain_total_len(m.header.p_next, chain),
        MagmaExtensibleStruct::SyncProperties(m) => MagmaSyncProperties::wire_size() + chain_total_len(m.header.p_next, chain),
        MagmaExtensibleStruct::VirtCapabilities(m) => MagmaVirtCapabilities::wire_size() + chain_total_len(m.header.p_next, chain),
        MagmaExtensibleStruct::PhysicalDeviceInfo(m) => MagmaPhysicalDeviceInfo::wire_size() + chain_total_len(m.header.p_next, chain),
        MagmaExtensibleStruct::PhysicalDeviceMemoryType(m) => MagmaPhysicalDeviceMemoryType::wire_size() + chain_total_len(m.header.p_next, chain),
        MagmaExtensibleStruct::PhysicalDeviceMemoryHeap(m) => MagmaPhysicalDeviceMemoryHeap::wire_size() + chain_total_len(m.header.p_next, chain),
    }
}

/// The state and result after encoding `msg` with its chain.
pub open spec fn encode_ext_result(e: EncoderView, msg: MagmaExtensibleStruct, chain: Seq<MagmaExtensibleStruct>) -> (EncoderView, Result<(), EncodeError>) {
    match msg {
        MagmaExtensibleStruct::CreateBufferInfo(m) => e.write_rooted(flagged_bytes_create_buffer_info(m), m.header.p_next, chain),
        MagmaExtensibleStruct::DeviceCreateInfo(m) => e.write_rooted(flagged_bytes_device_create_info(m), m.header.p_next, chain),
        MagmaExtensibleStruct::WireSubmitSyncInfo(m) => e.write_rooted(flagged_bytes_wire_submit_sync_info(m), m.header.p_next, chain),
        MagmaExtensibleStruct::WireSubmitInfo(m) => e.write_rooted(flagged_bytes_wire_submit_info(m), m.header.p_next, chain),
        MagmaExtensibleStruct::SubmitAddressSpaceInfo(m) => e.write_rooted(flagged_bytes_submit_address_space_info(m), m.header.p_next, chain),
        MagmaExtensibleStruct::WireSubmitBufferInfo(m) => e.write_rooted(flagged_bytes_wire_submit_buffer_info(m), m.header.p_next, chain),
        MagmaExtensibleStruct::CreateSyncObjInfo(m) => e.write_rooted(flagged_bytes_create_sync_obj_info(m), m.header.p_next, chain),
        MagmaExtensibleStruct::SyncProperties(m) => e.write_rooted(flagged_bytes_sync_properties(m), m.header.p_next, chain),
        MagmaExtensibleStruct::VirtCapabilities(m) => e.write_rooted(flagged_bytes_virt_capabilities(m), m.header.p_next, chain),
        MagmaExtensibleStruct::PhysicalDeviceInfo(m) => e.write_rooted(flagged_bytes_physical_device_info(m), m.header.p_next, chain),
        MagmaExtensibleStruct::PhysicalDeviceMemoryType(m) => e.write_rooted(flagged_bytes_physical_device_memory_type(m), m.header.p_next, chain),
        MagmaExtensibleStruct::PhysicalDeviceMemoryHeap(m) => e.write_rooted(flagged_bytes_physical_device_memory_heap(m), m.header.p_next, chain),
    }
}

} // verus!
