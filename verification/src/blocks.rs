//! The byte-addressable backing store an export serves from.
//!
//! [`Blocks`] is the abstraction: positional reads and writes, a size, and a
//! flush. [`MemBlocks`] is the verified in-memory store. A file-backed store
//! implements the same trait outside the library, where the operating-system
//! calls live; its contract is the trait's.

use crate::proto::ErrorType;
use vstd::prelude::*;

verus! {

/// The contents of `contents` after writing `data` at offset `off`: bytes in
/// `[off, off + data.len())` come from `data`, all others are unchanged.
pub open spec fn spec_write_bytes(contents: Seq<u8>, off: int, data: Seq<u8>) -> Seq<u8> {
    Seq::new(
        contents.len(),
        |i: int|
            if off <= i < off + data.len() {
                data[i - off]
            } else {
                contents[i]
            },
    )
}

/// A byte array that can be exported, with positional reads and writes at
/// arbitrary offsets.
///
/// The store is modelled by `contents()`, the byte sequence it holds. Every
/// operation must reject a request that reaches past the end, must report
/// how it changed (or kept) the contents, and — when the store is
/// `reliable()`, that is, when no outside failure can intrude — must succeed
/// on every in-bounds request.
pub trait Blocks: Sized {
    /// The bytes the store holds.
    spec fn contents(&self) -> Seq<u8>;

    /// Whether operations on this store can fail for reasons other than
    /// bounds. An in-memory store is reliable; a file-backed one is not.
    spec fn reliable(&self) -> bool;

    /// The store never holds more than `u64::MAX` bytes.
    proof fn lemma_contents_len(&self)
        ensures
            self.contents().len() <= u64::MAX,
    ;

    /// Fill `buf` with the `buf.len()` bytes starting at `off`.
    fn read_at(&mut self, buf: &mut Vec<u8>, off: u64) -> (r: Result<(), ErrorType>)
        ensures
            final(self).contents() == old(self).contents(),
            final(self).reliable() == old(self).reliable(),
            final(buf)@.len() == old(buf)@.len(),
            r is Ok ==> off + old(buf)@.len() <= old(self).contents().len() && final(buf)@ == old(
                self,
            ).contents().subrange(off as int, off + old(buf)@.len()),
            off + old(buf)@.len() > old(self).contents().len() ==> r is Err,
            old(self).reliable() && off + old(buf)@.len() <= old(self).contents().len() ==> r
                is Ok,
            old(self).reliable() && r is Err ==> r == Err::<(), ErrorType>(ErrorType::EINVAL),
            r matches Err(e) ==> e != ErrorType::OK,
    ;

    /// Write all of `buf` starting at `off`.
    fn write_at(&mut self, buf: &Vec<u8>, off: u64) -> (r: Result<(), ErrorType>)
        ensures
            final(self).reliable() == old(self).reliable(),
            final(self).contents().len() == old(self).contents().len(),
            r is Ok ==> off + buf@.len() <= old(self).contents().len() && final(self).contents()
                == spec_write_bytes(old(self).contents(), off as int, buf@),
            r is Err ==> final(self).contents() == old(self).contents(),
            off + buf@.len() > old(self).contents().len() ==> r is Err,
            old(self).reliable() && off + buf@.len() <= old(self).contents().len() ==> r is Ok,
            old(self).reliable() && r is Err ==> r == Err::<(), ErrorType>(ErrorType::EINVAL),
            r matches Err(e) ==> e != ErrorType::OK,
    ;

    /// The store's size in bytes.
    fn size(&self) -> (r: Result<u64, ErrorType>)
        ensures
            r matches Ok(s) ==> s == self.contents().len(),
            self.reliable() ==> r is Ok,
            r matches Err(e) ==> e != ErrorType::OK,
    ;

    /// Return once every prior write is on stable storage. Never alters any
    /// readable byte, so consecutive flushes are idempotent.
    fn flush(&mut self) -> (r: Result<(), ErrorType>)
        ensures
            final(self).contents() == old(self).contents(),
            final(self).reliable() == old(self).reliable(),
            old(self).reliable() ==> r is Ok,
            r matches Err(e) ==> e != ErrorType::OK,
    ;
}

/// An in-memory backing store: a byte buffer with the trait's positional
/// interface. Its operations never fail on in-bounds requests, and a flush
/// is a no-op.
pub struct MemBlocks {
    data: Vec<u8>,
}

impl MemBlocks {
    /// A store holding exactly `data`.
    pub fn new(data: Vec<u8>) -> (r: MemBlocks)
        ensures
            r.contents() == data@,
            r.reliable(),
    {
        MemBlocks { data }
    }
}

impl Blocks for MemBlocks {
    closed spec fn contents(&self) -> Seq<u8> {
        self.data@
    }

    open spec fn reliable(&self) -> bool {
        true
    }

    proof fn lemma_contents_len(&self) {
        assert(self.data@.len() == vstd::std_specs::vec::spec_vec_len(&self.data));
    }

    fn read_at(&mut self, buf: &mut Vec<u8>, off: u64) -> (r: Result<(), ErrorType>)
    {
        let n = buf.len();
        if off > self.data.len() as u64 || n as u64 > self.data.len() as u64 - off {
            return Err(ErrorType::EINVAL);
        }
        let start = off as usize;
        let mut i: usize = 0;
        while i < n
            invariant
                i <= n,
                n == buf@.len(),
                start == off,
                start + n <= self.data@.len(),
                start + n <= usize::MAX,
                self == old(self),
                forall|k: int| 0 <= k < i ==> buf@[k] == self.data@[start + k],
                forall|k: int| i <= k < n ==> buf@[k] == old(buf)@[k],
            decreases n - i,
        {
            let b = self.data[start + i];
            buf.set(i, b);
            i = i + 1;
        }
        proof {
            assert(buf@ =~= self.data@.subrange(off as int, off + buf@.len()));
        }
        Ok(())
    }

    fn write_at(&mut self, buf: &Vec<u8>, off: u64) -> (r: Result<(), ErrorType>)
    {
        let n = buf.len();
        if off > self.data.len() as u64 || n as u64 > self.data.len() as u64 - off {
            return Err(ErrorType::EINVAL);
        }
        let start = off as usize;
        let mut i: usize = 0;
        while i < n
            invariant
                i <= n,
                n == buf@.len(),
                start == off,
                start + n <= self.data@.len(),
                start + n <= usize::MAX,
                self.data@.len() == old(self).data@.len(),
                forall|k: int|
                    0 <= k < self.data@.len() ==> self.data@[k] == (if start <= k < start + i {
                        buf@[k - start]
                    } else {
                        old(self).data@[k]
                    }),
            decreases n - i,
        {
            let b = buf[i];
            self.data.set(start + i, b);
            i = i + 1;
        }
        proof {
            assert(self.data@ =~= spec_write_bytes(old(self).data@, off as int, buf@));
        }
        Ok(())
    }

    fn size(&self) -> (r: Result<u64, ErrorType>) {
        Ok(self.data.len() as u64)
    }

    fn flush(&mut self) -> (r: Result<(), ErrorType>) {
        Ok(())
    }
}

/// Reading back a just-written range returns exactly the written data: the
/// write/read round trip over the store model.
pub proof fn lemma_write_read_round_trip(contents: Seq<u8>, off: int, data: Seq<u8>)
    requires
        0 <= off,
        off + data.len() <= contents.len(),
    ensures
        spec_write_bytes(contents, off, data).subrange(off, off + data.len()) == data,
{
    assert(spec_write_bytes(contents, off, data).subrange(off, off + data.len()) =~= data);
}

/// The contents after performing a sequence of writes, first to last.
pub open spec fn spec_write_all(c: Seq<u8>, ws: Seq<(int, Seq<u8>)>) -> Seq<u8>
    decreases ws.len(),
{
    if ws.len() == 0 {
        c
    } else {
        spec_write_all(spec_write_bytes(c, ws[0].0, ws[0].1), ws.drop_first())
    }
}

/// A sequence of writes, none of which reaches into `[lo, hi)`, leaves that
/// range unchanged.
pub proof fn lemma_write_all_untouched(c: Seq<u8>, ws: Seq<(int, Seq<u8>)>, lo: int, hi: int)
    requires
        0 <= lo <= hi <= c.len(),
        forall|j: int|
            0 <= j < ws.len() ==> 0 <= (#[trigger] ws[j]).0 && ws[j].0 + ws[j].1.len() <= c.len()
                && (ws[j].0 + ws[j].1.len() <= lo || hi <= ws[j].0),
    ensures
        spec_write_all(c, ws).subrange(lo, hi) == c.subrange(lo, hi),
    decreases ws.len(),
{
    if ws.len() > 0 {
        let c1 = spec_write_bytes(c, ws[0].0, ws[0].1);
        assert(c1.subrange(lo, hi) =~= c.subrange(lo, hi));
        assert(forall|j: int|
            0 <= j < ws.drop_first().len() ==> #[trigger] ws.drop_first()[j] == ws[j + 1]);
        lemma_write_all_untouched(c1, ws.drop_first(), lo, hi);
    }
}

/// Order preservation: after a pipelined sequence of writes to in-bounds,
/// pairwise disjoint ranges, the read at the i-th range — answered, like
/// every reply, in request order — returns exactly the i-th written payload.
pub proof fn lemma_order_preservation(c: Seq<u8>, ws: Seq<(int, Seq<u8>)>, i: int)
    requires
        forall|j: int|
            0 <= j < ws.len() ==> 0 <= (#[trigger] ws[j]).0 && ws[j].0 + ws[j].1.len() <= c.len(),
        forall|j: int, k: int|
            0 <= j < k < ws.len() ==> (#[trigger] ws[j]).0 + ws[j].1.len() <= (#[trigger] ws[k]).0
                || ws[k].0 + ws[k].1.len() <= ws[j].0,
        0 <= i < ws.len(),
    ensures
        spec_write_all(c, ws).subrange(ws[i].0, ws[i].0 + ws[i].1.len()) == ws[i].1,
    decreases i,
{
    let c1 = spec_write_bytes(c, ws[0].0, ws[0].1);
    assert(forall|j: int|
        0 <= j < ws.drop_first().len() ==> #[trigger] ws.drop_first()[j] == ws[j + 1]);
    if i == 0 {
        lemma_write_all_untouched(c1, ws.drop_first(), ws[0].0, ws[0].0 + ws[0].1.len());
        assert(c1.subrange(ws[0].0, ws[0].0 + ws[0].1.len()) =~= ws[0].1);
    } else {
        lemma_order_preservation(c1, ws.drop_first(), i - 1);
        assert(ws.drop_first()[i - 1] == ws[i]);
    }
}

} // verus!
