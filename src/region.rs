use vstd::prelude::*;

use crate::error::DiskError;

verus! {

/// Where a seek is measured from, as a stream's seek offers it.
#[derive(Debug, Clone, Copy, PartialEq, Eq, Structural)]
pub enum SeekOrigin {
    /// An offset from the start of the region.
    Start(u64),
    /// A signed offset from the end of the region.
    End(i64),
    /// A signed offset from the cursor.
    Current(i64),
}

/// One step that a caller can take on a region.
#[derive(Debug, Clone, Copy, PartialEq, Eq, Structural)]
pub enum RegionOp {
    /// A seek.
    Seek(SeekOrigin),
    /// A read or a write that the underlying stream carried out for this
    /// many bytes.
    Transfer(u64),
}

/// A view of the byte range `[start, start + len)` of an underlying stream,
/// with a cursor relative to `start`.
///
/// It holds the position arithmetic only: the caller owns the underlying
/// stream, positions it at `absolute_pos()`, and limits each transfer to
/// `window(..)` bytes.
#[derive(Debug, Clone, Copy, PartialEq, Eq, Structural)]
pub struct PartitionSlice {
    start: u64,
    len: u64,
    pos: u64,
}

/// `base + off` for a signed offset, kept within `0..=u64::MAX`.
pub open spec fn saturating_offset(base: int, off: int) -> int {
    let t = base + off;
    if t < 0 {
        0
    } else if t > u64::MAX {
        u64::MAX as int
    } else {
        t
    }
}

/// The cursor that a seek leads to in a region of `len` bytes whose cursor
/// is `pos`: the target, saturated in `u64`, then clamped to `len`.
pub open spec fn seek_target(len: int, pos: int, origin: SeekOrigin) -> int {
    let raw = match origin {
        SeekOrigin::Start(o) => o as int,
        SeekOrigin::End(o) => saturating_offset(len, o as int),
        SeekOrigin::Current(o) => saturating_offset(pos, o as int),
    };
    if raw <= len { raw } else { len }
}

/// Bytes that a transfer of `requested` bytes may move from cursor `pos`.
pub open spec fn window_of(len: int, pos: int, requested: int) -> int {
    if requested <= len - pos { requested } else { len - pos }
}

impl PartitionSlice {
    /// Offset of the first byte of the region in the underlying stream.
    pub closed spec fn spec_start(self) -> int {
        self.start as int
    }

    /// Length of the region in bytes.
    pub closed spec fn spec_len(self) -> int {
        self.len as int
    }

    /// The cursor, relative to the start of the region.
    pub closed spec fn spec_pos(self) -> int {
        self.pos as int
    }

    /// The cursor lies within the region, and the whole region is
    /// addressable in the underlying stream.
    pub closed spec fn wf(self) -> bool {
        &&& self.pos <= self.len
        &&& self.start + self.len <= u64::MAX
    }

    /// The region after one step.
    pub closed spec fn step(self, op: RegionOp) -> PartitionSlice {
        match op {
            RegionOp::Seek(origin) => PartitionSlice {
                pos: seek_target(self.len as int, self.pos as int, origin) as u64,
                ..self
            },
            RegionOp::Transfer(n) => PartitionSlice {
                pos: (self.pos + window_of(self.len as int, self.pos as int, n as int)) as u64,
                ..self
            },
        }
    }

    /// The region after a sequence of steps.
    pub closed spec fn run(self, ops: Seq<RegionOp>) -> PartitionSlice
        decreases ops.len(),
    {
        if ops.len() == 0 {
            self
        } else {
            self.step(ops[0]).run(ops.drop_first())
        }
    }

    /// A region of `len` bytes from `start`, with its cursor at the start;
    /// fails where the region's end is not addressable.
    pub fn new(start: u64, len: u64) -> (r: Result<PartitionSlice, DiskError>)
        ensures
            r is Ok <==> start + len <= u64::MAX,
            r is Ok ==> {
                &&& r->Ok_0.wf()
                &&& r->Ok_0.spec_start() == start
                &&& r->Ok_0.spec_len() == len
                &&& r->Ok_0.spec_pos() == 0
            },
            r is Err ==> r->Err_0 == DiskError::OutOfRange,
    {
        if len > u64::MAX - start {
            Err(DiskError::OutOfRange)
        } else {
            Ok(PartitionSlice { start, len, pos: 0 })
        }
    }

    /// Offset of the first byte of the region in the underlying stream.
    pub fn start(&self) -> (r: u64)
        ensures
            r == self.spec_start(),
    {
        self.start
    }

    /// Length of the region in bytes.
    pub fn len(&self) -> (r: u64)
        ensures
            r == self.spec_len(),
    {
        self.len
    }

    /// The cursor, relative to the start of the region.
    pub fn pos(&self) -> (r: u64)
        ensures
            r == self.spec_pos(),
    {
        self.pos
    }

    /// Bytes left between the cursor and the end of the region.
    pub fn remaining(&self) -> (r: u64)
        requires
            self.wf(),
        ensures
            r == self.spec_len() - self.spec_pos(),
    {
        self.len - self.pos
    }

    /// Where the underlying stream must stand for the cursor: `start + pos`.
    pub fn absolute_pos(&self) -> (r: u64)
        requires
            self.wf(),
        ensures
            r == self.spec_start() + self.spec_pos(),
            self.spec_start() <= r <= self.spec_start() + self.spec_len(),
    {
        self.start + self.pos
    }

    /// Bytes that a read or write of `requested` bytes may move:
    /// `min(requested, len - pos)`, so zero once the cursor is at the end.
    pub fn window(&self, requested: usize) -> (r: usize)
        requires
            self.wf(),
        ensures
            r == window_of(self.spec_len(), self.spec_pos(), requested as int),
            r <= requested,
            r <= self.spec_len() - self.spec_pos(),
            self.spec_pos() == self.spec_len() ==> r == 0,
    {
        let remaining = self.len - self.pos;
        if (requested as u64) <= remaining {
            requested
        } else {
            remaining as usize
        }
    }

    /// Moves the cursor past `n` bytes that were read or written.
    pub fn advance(&mut self, n: u64)
        requires
            old(self).wf(),
            n <= old(self).spec_len() - old(self).spec_pos(),
        ensures
            final(self).wf(),
            *final(self) == old(self).step(RegionOp::Transfer(n)),
            final(self).spec_start() == old(self).spec_start(),
            final(self).spec_len() == old(self).spec_len(),
            final(self).spec_pos() == old(self).spec_pos() + n,
    {
        self.pos = self.pos + n;
    }

    /// Moves the cursor as `origin` says, saturating rather than wrapping and
    /// clamping to the end of the region rather than failing; returns the
    /// offset in the underlying stream that the cursor now stands for.
    pub fn seek(&mut self, origin: SeekOrigin) -> (r: u64)
        requires
            old(self).wf(),
        ensures
            final(self).wf(),
            *final(self) == old(self).step(RegionOp::Seek(origin)),
            final(self).spec_start() == old(self).spec_start(),
            final(self).spec_len() == old(self).spec_len(),
            final(self).spec_pos() == seek_target(
                old(self).spec_len(),
                old(self).spec_pos(),
                origin,
            ),
            r == final(self).spec_start() + final(self).spec_pos(),
    {
        let raw: u64 = match origin {
            SeekOrigin::Start(o) => o,
            SeekOrigin::End(o) => offset_from(self.len, o),
            SeekOrigin::Current(o) => offset_from(self.pos, o),
        };
        let clamped = if raw <= self.len { raw } else { self.len };
        self.pos = clamped;
        self.start + clamped
    }
}

/// `base + off`, saturating at both ends of `u64`.
fn offset_from(base: u64, off: i64) -> (r: u64)
    ensures
        r == saturating_offset(base as int, off as int),
{
    if off >= 0 {
        base.saturating_add(off as u64)
    } else {
        let back: u64 = if off == i64::MIN {
            (i64::MAX as u64) + 1
        } else {
            (-off) as u64
        };
        base.saturating_sub(back)
    }
}

/// However a caller seeks, reads and writes, the cursor stays within the
/// region, so the position of the underlying stream stays within
/// `[start, start + len]`; start and length never change.
pub proof fn lemma_run_stays_in_region(s: PartitionSlice, ops: Seq<RegionOp>)
    requires
        s.wf(),
    ensures
        s.run(ops).wf(),
        s.run(ops).spec_start() == s.spec_start(),
        s.run(ops).spec_len() == s.spec_len(),
        s.spec_start() <= s.run(ops).spec_start() + s.run(ops).spec_pos()
            <= s.spec_start() + s.spec_len(),
    decreases ops.len(),
{
    if ops.len() > 0 {
        lemma_run_stays_in_region(s.step(ops[0]), ops.drop_first());
    }
}

/// A well-formed region has its cursor within the region, and its end is
/// addressable in the underlying stream.
pub proof fn lemma_wf_bounds(s: PartitionSlice)
    requires
        s.wf(),
    ensures
        0 <= s.spec_pos() <= s.spec_len(),
        s.spec_start() + s.spec_len() <= u64::MAX,
{
}

/// Once the cursor is at the end of the region, a transfer moves nothing
/// and leaves the region as it was, whatever its size.
pub proof fn lemma_transfer_at_end(s: PartitionSlice, n: u64)
    requires
        s.wf(),
        s.spec_pos() == s.spec_len(),
    ensures
        window_of(s.spec_len(), s.spec_pos(), n as int) == 0,
        s.step(RegionOp::Transfer(n)) == s,
{
}

} // verus!
