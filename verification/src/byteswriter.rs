//! A writer for efficiently building Python `bytes` objects.
//!
//! The writer holds a buffer and a position, as a file does: a write stores its bytes at the
//! position and moves the position past them, growing the buffer where it must, and a seek
//! moves the position alone. The finished buffer becomes a [`PyBytes`] object.
use crate::buffers::{
    concat_all, lemma_concat_all_push, lemma_concat_prefix_len, max_size, slices_view,
    vec_capacity,
};
use crate::types::bytes::PyBytes;
use vstd::prelude::*;

verus! {

/// Where a seek measures its offset from.
#[derive(PartialEq, Eq, Structural, Clone, Copy, Debug)]
pub enum SeekFrom {
    /// The start of the buffer, plus the given number of bytes.
    Start(u64),
    /// The end of the buffer, plus the given (possibly negative) number of bytes.
    End(i64),
    /// The current position, plus the given (possibly negative) number of bytes.
    Current(i64),
}

/// Why a write or a seek of a [`PyBytesWriter`] failed.
#[derive(PartialEq, Eq, Structural, Clone, Copy, Debug)]
pub enum WriterError {
    /// A seek would have moved the position before the start of the buffer, or beyond what
    /// a position can hold.
    InvalidSeekPosition,
    /// A write would have moved the position beyond what a position can hold.
    PositionOverflow,
    /// The buffer would have grown beyond the largest size of a Python object; Python raises
    /// `ValueError` for such a size.
    InvalidSize,
    /// The memory for a larger buffer could not be had.
    OutOfMemory,
}

/// The contents and the position of a [`PyBytesWriter`].
pub struct BytesWriterModel {
    pub data: Seq<u8>,
    pub pos: nat,
}

/// A writer for efficiently building Python `bytes` objects.
///
/// It writes data to a buffer that can later be converted into a `PyBytes` object.
pub struct PyBytesWriter {
    buffer: Vec<u8>,
    pos: usize,
    /// The capacity of `buffer`, as read after it last grew.
    cap: usize,
}

impl View for PyBytesWriter {
    type V = BytesWriterModel;

    closed spec fn view(&self) -> BytesWriterModel {
        BytesWriterModel { data: self.buffer@, pos: self.pos as nat }
    }
}

/// The bytes `data` become when `bytes` are written at position `pos`: the written bytes
/// replace what stood there, the buffer grows where they reach past its end, and a gap
/// between the old end and `pos` is filled with zeros.
pub open spec fn write_at(data: Seq<u8>, pos: int, bytes: Seq<u8>) -> Seq<u8> {
    let end = pos + bytes.len();
    let new_len = if end > data.len() {
        end
    } else {
        data.len() as int
    };
    Seq::new(
        new_len as nat,
        |i: int|
            if pos <= i < end {
                bytes[i - pos]
            } else if i < data.len() {
                data[i]
            } else {
                0u8
            },
    )
}

/// The position a seek aims at, before it is checked.
pub open spec fn seek_target(len: int, pos: int, from: SeekFrom) -> int {
    match from {
        SeekFrom::Start(offset) => offset as int,
        SeekFrom::End(offset) => len + offset,
        SeekFrom::Current(offset) => pos + offset,
    }
}

/// Where a seek aims: from the start, at the offset itself, whatever the data and the
/// position; from the end, at the length of the data plus the offset, whatever the
/// position (so `End(0)` is the end of the data even when the position lies past it); from
/// the current position, at the position plus the offset, whatever the data.
pub proof fn lemma_seek_targets(len: int, pos: int, other_len: int, other_pos: int, from: SeekFrom)
    ensures
        from matches SeekFrom::Start(o) ==> seek_target(len, pos, from) == o && seek_target(
            other_len,
            other_pos,
            from,
        ) == o,
        from matches SeekFrom::End(o) ==> seek_target(len, pos, from) == len + o && seek_target(
            len,
            other_pos,
            from,
        ) == seek_target(len, pos, from),
        from matches SeekFrom::Current(o) ==> seek_target(len, pos, from) == pos + o
            && seek_target(other_len, pos, from) == seek_target(len, pos, from),
        seek_target(len, pos, SeekFrom::End(0)) == len,
{
}

/// Writing `a` and then `b` right after it leaves what writing `a` and `b` together does.
pub proof fn lemma_write_at_concat(data: Seq<u8>, pos: int, a: Seq<u8>, b: Seq<u8>)
    requires
        0 <= pos,
    ensures
        write_at(write_at(data, pos, a), pos + a.len(), b) == write_at(data, pos, a + b),
{
    let first = write_at(data, pos, a);
    let lhs = write_at(first, pos + a.len(), b);
    let rhs = write_at(data, pos, a + b);
    assert(lhs.len() == rhs.len());
    assert forall|i: int| 0 <= i < lhs.len() implies lhs[i] == rhs[i] by {
        if pos + a.len() <= i < pos + a.len() + b.len() {
            assert((a + b)[i - pos] == b[i - pos - a.len()]);
        } else if pos <= i < pos + a.len() {
            assert((a + b)[i - pos] == a[i - pos]);
        }
    }
    assert(lhs =~= rhs);
}

/// Writing never shortens the buffer, and leaves it exactly as long as its old end or the
/// end of the written bytes, whichever is further.
pub proof fn lemma_write_at_len(data: Seq<u8>, pos: int, bytes: Seq<u8>)
    requires
        0 <= pos,
    ensures
        write_at(data, pos, bytes).len() >= data.len(),
        write_at(data, pos, bytes).len() >= pos + bytes.len(),
        write_at(data, pos, bytes).len() == data.len() || write_at(data, pos, bytes).len() == pos
            + bytes.len(),
{
}

/// After a write, the written bytes stand at the position, the bytes between the old end
/// and the position are zeros, and every other byte of the old buffer is unchanged.
pub proof fn lemma_write_at_contents(data: Seq<u8>, pos: int, bytes: Seq<u8>)
    requires
        0 <= pos,
    ensures
        write_at(data, pos, bytes).subrange(pos, pos + bytes.len()) == bytes,
        forall|i: int|
            0 <= i < data.len() && !(pos <= i < pos + bytes.len()) ==> #[trigger] write_at(
                data,
                pos,
                bytes,
            )[i] == data[i],
        forall|i: int|
            data.len() <= i < pos ==> #[trigger] write_at(data, pos, bytes)[i] == 0u8,
{
    assert(write_at(data, pos, bytes).subrange(pos, pos + bytes.len()) =~= bytes);
}

/// `data` grown with zeros to `n` bytes, where it is shorter.
pub open spec fn grown_to(data: Seq<u8>, n: int) -> Seq<u8> {
    if n <= data.len() {
        data
    } else {
        data + Seq::new((n - data.len()) as nat, |i: int| 0u8)
    }
}

/// Growing the buffer with zeros up to the end of a write changes nothing that the write
/// leaves.
proof fn lemma_write_at_grown(data: Seq<u8>, pos: int, bytes: Seq<u8>, n: int)
    requires
        0 <= pos,
        n <= pos + bytes.len(),
    ensures
        write_at(grown_to(data, n), pos, bytes) == write_at(data, pos, bytes),
{
    let lhs = write_at(grown_to(data, n), pos, bytes);
    let rhs = write_at(data, pos, bytes);
    assert(lhs.len() == rhs.len());
    assert forall|i: int| 0 <= i < lhs.len() implies lhs[i] == rhs[i] by {}
    assert(lhs =~= rhs);
}

impl PyBytesWriter {
    /// The number of bytes the buffer has room for: its capacity as read after it last grew,
    /// which is never less than the number of bytes it holds.
    pub closed spec fn allocated(&self) -> nat {
        if self.buffer@.len() <= self.cap {
            self.cap as nat
        } else {
            self.buffer@.len()
        }
    }

    /// Create a new `PyBytesWriter` with a default initial capacity.
    pub fn new() -> (w: PyBytesWriter)
        ensures
            w@.data == Seq::<u8>::empty(),
            w@.pos == 0,
    {
        let buffer: Vec<u8> = Vec::new();
        let cap = vec_capacity(&buffer);
        PyBytesWriter { buffer, pos: 0, cap }
    }

    /// Create a new `PyBytesWriter` with the specified initial capacity.
    ///
    /// Fails with `InvalidSize` where `capacity` exceeds the largest size of a Python object,
    /// and with `OutOfMemory` where the room cannot be had.
    pub fn with_capacity(capacity: usize) -> (r: Result<PyBytesWriter, WriterError>)
        ensures
            capacity > max_size() ==> r == Err::<PyBytesWriter, WriterError>(
                WriterError::InvalidSize,
            ),
            match r {
                Ok(w) => w@.data == Seq::<u8>::empty() && w@.pos == 0 && w.allocated()
                    >= capacity,
                Err(e) => capacity <= max_size() ==> e == WriterError::OutOfMemory,
            },
    {
        if capacity > isize::MAX as usize {
            return Err(WriterError::InvalidSize);
        }
        let mut buffer: Vec<u8> = Vec::new();
        if buffer.try_reserve(capacity).is_err() {
            return Err(WriterError::OutOfMemory);
        }
        let cap = vec_capacity(&buffer);
        // `try_reserve` documents that the capacity is then at least `capacity`, so this
        // branch is not taken.
        if cap < capacity {
            return Err(WriterError::OutOfMemory);
        }
        Ok(PyBytesWriter { buffer, pos: 0, cap })
    }

    /// Get the current length of the internal buffer.
    pub fn len(&self) -> (n: usize)
        ensures
            n == self@.data.len(),
    {
        self.buffer.len()
    }

    /// The number of bytes the writer can hold without growing its buffer.
    pub fn capacity(&self) -> (c: usize)
        ensures
            c == self.allocated(),
            c >= self@.data.len(),
    {
        let len = self.buffer.len();
        if len <= self.cap {
            self.cap
        } else {
            len
        }
    }

    /// The bytes written so far.
    pub fn as_bytes(&self) -> (b: &[u8])
        ensures
            b@ == self@.data,
    {
        self.buffer.as_slice()
    }

    /// The bytes written so far, to be changed in place.
    pub fn as_mut_bytes(&mut self) -> (b: &mut [u8])
        ensures
            b@ == old(self)@.data,
            final(self)@.data == final(b)@,
            final(self)@.pos == old(self)@.pos,
    {
        self.buffer.as_mut_slice()
    }

    /// Grows the buffer with zeros up to `amount` bytes past the position, where it is
    /// shorter.
    ///
    /// Where the room is there already, nothing is allocated and it succeeds. Fails with
    /// `OutOfMemory`, changing nothing, where the buffer cannot be grown.
    fn reserve_and_pad(&mut self, amount: usize) -> (r: Result<(), WriterError>)
        requires
            old(self)@.pos + amount <= usize::MAX,
        ensures
            old(self)@.pos + amount <= old(self).allocated() ==> r == Ok::<(), WriterError>(()),
            match r {
                Ok(()) => final(self)@.data == grown_to(
                    old(self)@.data,
                    old(self)@.pos + amount,
                ) && final(self)@.pos == old(self)@.pos,
                Err(e) => e == WriterError::OutOfMemory && final(self)@ == old(self)@,
            },
    {
        let len = self.buffer.len();
        let end = self.pos + amount;
        if end <= len {
            return Ok(());
        }
        if end > self.capacity() {
            if self.buffer.try_reserve(end - len).is_err() {
                return Err(WriterError::OutOfMemory);
            }
        }
        let ghost d0 = self.buffer@;
        let ghost p0 = self.pos;
        while self.buffer.len() < end
            invariant
                self.pos == p0,
                len == d0.len(),
                len <= self.buffer@.len() <= end,
                self.buffer@ == d0 + Seq::new((self.buffer@.len() - len) as nat, |i: int| 0u8),
            decreases end - self.buffer.len(),
        {
            self.buffer.push(0u8);
            assert(self.buffer@ =~= d0 + Seq::new((self.buffer@.len() - len) as nat, |i: int| 0u8));
        }
        self.cap = vec_capacity(&self.buffer);
        Ok(())
    }

    /// Writes all of `buf` at the current position and moves the position past it.
    ///
    /// Where the position lies past the end of the buffer, the gap is filled with zeros.
    /// Fails, changing nothing, with `PositionOverflow` where the new position would not fit
    /// in a `usize`, with `InvalidSize` where the buffer would exceed the largest size of a
    /// Python object, and with `OutOfMemory` where it cannot be grown. Where the bytes fall
    /// inside the room the buffer has, nothing is allocated and the write succeeds.
    pub fn write_all(&mut self, buf: &[u8]) -> (r: Result<(), WriterError>)
        ensures
            ({
                let end = old(self)@.pos + buf@.len();
                &&& end > usize::MAX ==> r == Err::<(), WriterError>(WriterError::PositionOverflow)
                &&& max_size() < end <= usize::MAX ==> r == Err::<(), WriterError>(
                    WriterError::InvalidSize,
                )
                &&& end <= old(self).allocated() && end <= max_size() ==> r == Ok::<
                    (),
                    WriterError,
                >(())
                &&& match r {
                    Ok(()) => final(self)@.data == write_at(
                        old(self)@.data,
                        old(self)@.pos as int,
                        buf@,
                    ) && final(self)@.pos == end,
                    Err(e) => final(self)@ == old(self)@ && (end <= max_size() ==> e
                        == WriterError::OutOfMemory),
                }
            }),
    {
        if buf.len() > usize::MAX - self.pos {
            return Err(WriterError::PositionOverflow);
        }
        if self.pos + buf.len() > isize::MAX as usize {
            return Err(WriterError::InvalidSize);
        }
        let ghost d0 = self.buffer@;
        let pos = self.pos;
        match self.reserve_and_pad(buf.len()) {
            Ok(()) => {},
            Err(e) => {
                return Err(e);
            },
        }
        let ghost padded = self.buffer@;
        let mut i: usize = 0;
        while i < buf.len()
            invariant
                self.pos == pos,
                pos + buf@.len() <= usize::MAX,
                padded == grown_to(d0, pos + buf@.len()),
                0 <= i <= buf@.len(),
                self.buffer@.len() == padded.len(),
                forall|j: int|
                    0 <= j < padded.len() ==> #[trigger] self.buffer@[j] == if pos <= j < pos + i {
                        buf@[j - pos]
                    } else {
                        padded[j]
                    },
            decreases buf.len() - i,
        {
            self.buffer.set(pos + i, buf[i]);
            i += 1;
        }
        assert(self.buffer@ =~= write_at(d0, pos as int, buf@));
        self.pos = pos + buf.len();
        Ok(())
    }

    /// Writes `buf` at the current position; returns how many bytes were written, which is
    /// all of them.
    ///
    /// Fails as [`Self::write_all`] does.
    pub fn write(&mut self, buf: &[u8]) -> (r: Result<usize, WriterError>)
        ensures
            ({
                let end = old(self)@.pos + buf@.len();
                &&& end > usize::MAX ==> r == Err::<usize, WriterError>(
                    WriterError::PositionOverflow,
                )
                &&& max_size() < end <= usize::MAX ==> r == Err::<usize, WriterError>(
                    WriterError::InvalidSize,
                )
                &&& end <= old(self).allocated() && end <= max_size() ==> r is Ok
                &&& match r {
                    Ok(n) => n == buf@.len() && final(self)@.data == write_at(
                        old(self)@.data,
                        old(self)@.pos as int,
                        buf@,
                    ) && final(self)@.pos == end,
                    Err(e) => final(self)@ == old(self)@ && (end <= max_size() ==> e
                        == WriterError::OutOfMemory),
                }
            }),
    {
        match self.write_all(buf) {
            Ok(()) => Ok(buf.len()),
            Err(e) => Err(e),
        }
    }

    /// Writes the buffers one after the other at the current position; returns the number
    /// of bytes written, which is all of them.
    ///
    /// Fails, changing nothing, as [`Self::write_all`] does for all the bytes together.
    pub fn write_vectored(&mut self, bufs: &[&[u8]]) -> (r: Result<usize, WriterError>)
        ensures
            ({
                let all = concat_all(slices_view(bufs@));
                let end = old(self)@.pos + all.len();
                &&& end > usize::MAX ==> r == Err::<usize, WriterError>(
                    WriterError::PositionOverflow,
                )
                &&& max_size() < end <= usize::MAX ==> r == Err::<usize, WriterError>(
                    WriterError::InvalidSize,
                )
                &&& end <= old(self).allocated() && end <= max_size() ==> r is Ok
                &&& match r {
                    Ok(n) => n == all.len() && final(self)@.data == write_at(
                        old(self)@.data,
                        old(self)@.pos as int,
                        all,
                    ) && final(self)@.pos == end,
                    Err(e) => final(self)@ == old(self)@ && (end <= max_size() ==> e
                        == WriterError::OutOfMemory),
                }
            }),
    {
        let ghost views = slices_view(bufs@);
        let ghost d0 = self@.data;
        let ghost p0 = self@.pos as int;
        let room = usize::MAX - self.pos;
        let mut total: usize = 0;
        let mut k: usize = 0;
        while k < bufs.len()
            invariant
                0 <= k <= bufs@.len(),
                views == slices_view(bufs@),
                room == usize::MAX - self.pos,
                total == concat_all(views.take(k as int)).len(),
                total <= room,
            decreases bufs.len() - k,
        {
            proof {
                lemma_concat_all_push(views, k as int);
            }
            if bufs[k].len() > room - total {
                proof {
                    lemma_concat_prefix_len(views, (k + 1) as int);
                }
                return Err(WriterError::PositionOverflow);
            }
            total = total + bufs[k].len();
            k += 1;
        }
        assert(views.take(bufs@.len() as int) =~= views);
        if self.pos + total > isize::MAX as usize {
            return Err(WriterError::InvalidSize);
        }
        // Even with nothing to write, a position past the end pads the buffer with zeros.
        match self.reserve_and_pad(total) {
            Ok(()) => {},
            Err(e) => {
                return Err(e);
            },
        }
        let ghost padded = self@.data;
        assert(views.take(0) =~= Seq::<Seq<u8>>::empty());
        assert(write_at(padded, p0, Seq::empty()) =~= padded);
        let mut j: usize = 0;
        while j < bufs.len()
            invariant
                0 <= j <= bufs@.len(),
                views == slices_view(bufs@),
                total == concat_all(views).len(),
                p0 + total <= max_size(),
                0 <= p0,
                padded == grown_to(d0, p0 + total),
                self@.data == write_at(padded, p0, concat_all(views.take(j as int))),
                self@.pos == p0 + concat_all(views.take(j as int)).len(),
            decreases bufs.len() - j,
        {
            proof {
                lemma_concat_all_push(views, j as int);
                lemma_concat_prefix_len(views, (j + 1) as int);
                lemma_write_at_concat(
                    padded,
                    p0,
                    concat_all(views.take(j as int)),
                    views[j as int],
                );
            }
            let _ = self.write_all(bufs[j]);
            j += 1;
        }
        proof {
            lemma_write_at_grown(d0, p0, concat_all(views), p0 + total);
        }
        Ok(total)
    }

    /// Writing goes straight to the buffer: there is nothing to flush.
    pub fn flush(&mut self) -> (r: Result<(), WriterError>)
        ensures
            r == Ok::<(), WriterError>(()),
            final(self)@ == old(self)@,
    {
        Ok(())
    }

    /// Moves the position; returns the new position.
    ///
    /// The position may go past the end of the buffer: the buffer does not change, and a
    /// later write fills the gap with zeros. Fails, changing nothing, where the new position
    /// would be negative or would not fit in a `usize`.
    pub fn seek(&mut self, from: SeekFrom) -> (r: Result<u64, WriterError>)
        ensures
            ({
                let t = seek_target(old(self)@.data.len() as int, old(self)@.pos as int, from);
                &&& 0 <= t <= usize::MAX ==> {
                    &&& r == Ok::<u64, WriterError>(t as u64)
                    &&& final(self)@.data == old(self)@.data
                    &&& final(self)@.pos == t
                }
                &&& !(0 <= t <= usize::MAX) ==> {
                    &&& r == Err::<u64, WriterError>(WriterError::InvalidSeekPosition)
                    &&& final(self)@ == old(self)@
                }
            }),
    {
        let target: i128 = match from {
            SeekFrom::Start(offset) => offset as i128,
            SeekFrom::End(offset) => self.buffer.len() as i128 + offset as i128,
            SeekFrom::Current(offset) => self.pos as i128 + offset as i128,
        };
        if target < 0 || target > usize::MAX as i128 {
            return Err(WriterError::InvalidSeekPosition);
        }
        self.pos = target as usize;
        Ok(self.pos as u64)
    }

    /// Moves the position back to the start of the buffer.
    pub fn rewind(&mut self) -> (r: Result<(), WriterError>)
        ensures
            r == Ok::<(), WriterError>(()),
            final(self)@.data == old(self)@.data,
            final(self)@.pos == 0,
    {
        self.pos = 0;
        Ok(())
    }

    /// The current position.
    pub fn stream_position(&mut self) -> (r: Result<u64, WriterError>)
        ensures
            r == Ok::<u64, WriterError>(old(self)@.pos as u64),
            final(self)@ == old(self)@,
    {
        Ok(self.pos as u64)
    }

    /// Moves the position by `offset` bytes from where it stands.
    pub fn seek_relative(&mut self, offset: i64) -> (r: Result<(), WriterError>)
        ensures
            ({
                let t = old(self)@.pos + offset;
                &&& 0 <= t <= usize::MAX ==> {
                    &&& r == Ok::<(), WriterError>(())
                    &&& final(self)@.data == old(self)@.data
                    &&& final(self)@.pos == t
                }
                &&& !(0 <= t <= usize::MAX) ==> {
                    &&& r == Err::<(), WriterError>(WriterError::InvalidSeekPosition)
                    &&& final(self)@ == old(self)@
                }
            }),
    {
        match self.seek(SeekFrom::Current(offset)) {
            Ok(_) => Ok(()),
            Err(e) => Err(e),
        }
    }

    /// Finishes the writer: the bytes written so far become a `bytes` object.
    pub fn into_pyobject(self) -> (b: PyBytes)
        ensures
            b@ == self@.data,
    {
        PyBytes::from_vec(self.buffer)
    }
}

} // verus!
