//! A writer that appends to a buffer of bytes which later becomes a Python `bytes` object.
use crate::buffers::{
    concat_all, lemma_concat_all_push, lemma_concat_prefix_len, max_size, slices_view,
    vec_capacity,
};
use crate::err::{PyErr, PyResult};
use crate::types::bytes::PyBytes;
use vstd::prelude::*;

verus! {

/// A writer that appends to a buffer of bytes which later becomes a Python `bytes` object.
pub struct PyBytesWriter {
    buffer: Vec<u8>,
    /// The capacity of `buffer`, as read after its last change.
    cap: usize,
}

impl View for PyBytesWriter {
    type V = Seq<u8>;

    closed spec fn view(&self) -> Seq<u8> {
        self.buffer@
    }
}

/// Appends the bytes of `bytes` to `buffer`, one by one.
fn push_all(buffer: &mut Vec<u8>, bytes: &[u8])
    ensures
        final(buffer)@ == old(buffer)@ + bytes@,
{
    let ghost d0 = buffer@;
    let mut i: usize = 0;
    while i < bytes.len()
        invariant
            0 <= i <= bytes@.len(),
            buffer@ == d0 + bytes@.take(i as int),
        decreases bytes.len() - i,
    {
        buffer.push(bytes[i]);
        assert(buffer@ =~= d0 + bytes@.take(i + 1));
        i += 1;
    }
    assert(bytes@.take(bytes@.len() as int) =~= bytes@);
}

impl PyBytesWriter {
    /// The number of bytes the buffer has room for: its capacity as read after its last
    /// change, which is never less than the number of bytes it holds.
    pub closed spec fn allocated(&self) -> nat {
        if self.buffer@.len() <= self.cap {
            self.cap as nat
        } else {
            self.buffer@.len()
        }
    }

    /// Takes the buffer out, leaving an empty one in its place.
    fn take_buffer(&mut self) -> (buffer: Vec<u8>)
        ensures
            buffer@ == old(self)@,
    {
        let mut buffer: Vec<u8> = Vec::new();
        std::mem::swap(&mut buffer, &mut self.buffer);
        buffer
    }

    /// Puts `buffer` in place, with the room it has now; returns that room.
    fn put_buffer(&mut self, buffer: Vec<u8>) -> (c: usize)
        ensures
            final(self)@ == buffer@,
            final(self).allocated() == c,
            c >= buffer@.len(),
    {
        let c = vec_capacity(&buffer);
        *self = PyBytesWriter { buffer, cap: c };
        c
    }

    /// Creates an empty writer.
    pub fn new() -> (w: PyBytesWriter)
        ensures
            w@ == Seq::<u8>::empty(),
    {
        let buffer: Vec<u8> = Vec::new();
        let cap = vec_capacity(&buffer);
        PyBytesWriter { buffer, cap }
    }

    /// Creates an empty writer with room for `capacity` bytes.
    ///
    /// Fails with `MemoryError` where `capacity` exceeds the largest size of a Python object,
    /// or the room cannot be had.
    pub fn with_capacity(capacity: usize) -> (r: PyResult<PyBytesWriter>)
        ensures
            capacity > max_size() ==> r is Err,
            match r {
                Ok(w) => w@ == Seq::<u8>::empty() && w.allocated() >= capacity,
                Err(e) => e == PyErr::MemoryError,
            },
    {
        let mut writer = Self::new();
        match writer.reserve(capacity) {
            Ok(()) => Ok(writer),
            Err(e) => Err(e),
        }
    }

    /// Makes room for `additional` more bytes; the bytes written do not change.
    ///
    /// Where the room is there already, nothing is allocated and it succeeds. Fails with
    /// `MemoryError` where the room asked for exceeds the largest size of a Python object, or
    /// cannot be had.
    pub fn reserve(&mut self, additional: usize) -> (r: PyResult<()>)
        ensures
            final(self)@ == old(self)@,
            old(self)@.len() + additional > max_size() ==> r is Err,
            old(self)@.len() + additional <= old(self).allocated() && old(self)@.len() + additional
                <= max_size() ==> r == Ok::<(), PyErr>(()),
            match r {
                Ok(()) => final(self).allocated() >= old(self)@.len() + additional,
                Err(e) => e == PyErr::MemoryError,
            },
    {
        let len = self.len();
        if len > isize::MAX as usize || additional > isize::MAX as usize - len {
            return Err(PyErr::MemoryError);
        }
        if additional <= self.capacity() - len {
            return Ok(());
        }
        let mut buffer = self.take_buffer();
        let reserved = buffer.try_reserve(additional);
        let c = self.put_buffer(buffer);
        match reserved {
            // `try_reserve` documents that the capacity is then at least `len + additional`,
            // so the first branch is not taken.
            Ok(()) => if c - len < additional {
                Err(PyErr::MemoryError)
            } else {
                Ok(())
            },
            Err(_) => Err(PyErr::MemoryError),
        }
    }

    /// The number of bytes written.
    pub fn len(&self) -> (n: usize)
        ensures
            n == self@.len(),
    {
        self.buffer.len()
    }

    /// The number of bytes the writer can hold without growing its buffer.
    pub fn capacity(&self) -> (c: usize)
        ensures
            c == self.allocated(),
            c >= self@.len(),
    {
        let len = self.buffer.len();
        if len <= self.cap {
            self.cap
        } else {
            len
        }
    }

    /// The bytes written, to be changed in place.
    pub fn as_mut_slice(&mut self) -> (s: &mut [u8])
        ensures
            s@ == old(self)@,
            final(self)@ == final(s)@,
    {
        self.buffer.as_mut_slice()
    }

    /// Appends `buf`; returns the number of bytes written, which is all of them.
    ///
    /// Where the room is there already, nothing is allocated and it succeeds. Fails with
    /// `MemoryError`, changing nothing, where the buffer would outgrow the largest size of a
    /// Python object or cannot be grown.
    pub fn write(&mut self, buf: &[u8]) -> (r: PyResult<usize>)
        ensures
            ({
                let end = old(self)@.len() + buf@.len();
                &&& end > max_size() ==> r == Err::<usize, PyErr>(PyErr::MemoryError)
                &&& end <= old(self).allocated() && end <= max_size() ==> r == Ok::<usize, PyErr>(
                    buf@.len() as usize,
                )
                &&& match r {
                    Ok(n) => n == buf@.len() && final(self)@ == old(self)@ + buf@,
                    Err(e) => e == PyErr::MemoryError && final(self)@ == old(self)@,
                }
            }),
    {
        let len = self.len();
        if len > isize::MAX as usize || buf.len() > isize::MAX as usize - len {
            return Err(PyErr::MemoryError);
        }
        let room = self.capacity();
        let mut buffer = self.take_buffer();
        if buf.len() > room - len {
            if buffer.try_reserve(buf.len()).is_err() {
                self.put_buffer(buffer);
                return Err(PyErr::MemoryError);
            }
        }
        push_all(&mut buffer, buf);
        self.put_buffer(buffer);
        Ok(buf.len())
    }

    /// Appends the buffers one after the other; returns the number of bytes written, which
    /// is all of them.
    ///
    /// Makes room for all of them first, and then cannot fail: where the room is there
    /// already, nothing is allocated and it succeeds. Fails with `MemoryError`, changing
    /// nothing, where the buffer would outgrow the largest size of a Python object or cannot
    /// be grown.
    pub fn write_vectored(&mut self, bufs: &[&[u8]]) -> (r: PyResult<usize>)
        requires
            old(self)@.len() + concat_all(slices_view(bufs@)).len() <= usize::MAX,
        ensures
            ({
                let all = concat_all(slices_view(bufs@));
                let end = old(self)@.len() + all.len();
                &&& end > max_size() ==> r == Err::<usize, PyErr>(PyErr::MemoryError)
                &&& end <= old(self).allocated() && end <= max_size() ==> r is Ok
                &&& match r {
                    Ok(n) => n == all.len() && final(self)@ == old(self)@ + all,
                    Err(e) => e == PyErr::MemoryError && final(self)@ == old(self)@,
                }
            }),
    {
        let ghost views = slices_view(bufs@);
        let ghost d0 = self@;
        let mut size: usize = 0;
        let mut k: usize = 0;
        while k < bufs.len()
            invariant
                0 <= k <= bufs@.len(),
                views == slices_view(bufs@),
                d0 == old(self)@,
                self@ == d0,
                d0.len() + concat_all(views).len() <= usize::MAX,
                size == concat_all(views.take(k as int)).len(),
            decreases bufs.len() - k,
        {
            proof {
                lemma_concat_all_push(views, k as int);
                lemma_concat_prefix_len(views, (k + 1) as int);
            }
            size = size + bufs[k].len();
            k += 1;
        }
        assert(views.take(bufs@.len() as int) =~= views);
        assert(views.take(0) =~= Seq::<Seq<u8>>::empty());
        match self.reserve(size) {
            Ok(()) => {},
            Err(e) => {
                return Err(e);
            },
        }
        let mut buffer = self.take_buffer();
        assert(buffer@ =~= d0 + concat_all(views.take(0)));
        let mut j: usize = 0;
        while j < bufs.len()
            invariant
                0 <= j <= bufs@.len(),
                views == slices_view(bufs@),
                buffer@ == d0 + concat_all(views.take(j as int)),
            decreases bufs.len() - j,
        {
            proof {
                lemma_concat_all_push(views, j as int);
            }
            push_all(&mut buffer, bufs[j]);
            assert(buffer@ =~= d0 + concat_all(views.take(j + 1)));
            j += 1;
        }
        self.put_buffer(buffer);
        Ok(size)
    }

    /// Sets the number of bytes written to `new_len`: a shorter buffer is cut, and a longer
    /// one is filled up with zeros. Both succeed where the room is there already.
    ///
    /// Fails with `ValueError`, changing nothing, where the buffer would grow beyond the
    /// largest size of a Python object, and with `MemoryError` where it cannot be grown.
    pub fn set_len(&mut self, new_len: usize) -> (r: PyResult<()>)
        ensures
            new_len <= old(self)@.len() ==> r == Ok::<(), PyErr>(()),
            new_len <= old(self).allocated() && new_len <= max_size() ==> r == Ok::<(), PyErr>(()),
            r == Err::<(), PyErr>(PyErr::ValueError) <==> (new_len > old(self)@.len() && new_len
                > max_size()),
            match r {
                Ok(()) => final(self)@ == if new_len <= old(self)@.len() {
                    old(self)@.take(new_len as int)
                } else {
                    old(self)@ + Seq::new((new_len - old(self)@.len()) as nat, |i: int| 0u8)
                },
                Err(e) => final(self)@ == old(self)@ && (e == PyErr::ValueError || e
                    == PyErr::MemoryError),
            },
    {
        let room = self.capacity();
        let mut buffer = self.take_buffer();
        let len = buffer.len();
        if new_len <= len {
            buffer.truncate(new_len);
            self.put_buffer(buffer);
            return Ok(());
        }
        if new_len > isize::MAX as usize {
            self.put_buffer(buffer);
            return Err(PyErr::ValueError);
        }
        if new_len > room {
            if buffer.try_reserve(new_len - len).is_err() {
                self.put_buffer(buffer);
                return Err(PyErr::MemoryError);
            }
        }
        let ghost d0 = buffer@;
        while buffer.len() < new_len
            invariant
                len == d0.len(),
                len <= buffer@.len() <= new_len,
                buffer@ == d0 + Seq::new((buffer@.len() - len) as nat, |i: int| 0u8),
            decreases new_len - buffer.len(),
        {
            buffer.push(0u8);
            assert(buffer@ =~= d0 + Seq::new((buffer@.len() - len) as nat, |i: int| 0u8));
        }
        self.put_buffer(buffer);
        Ok(())
    }

    /// Writing goes straight to the buffer: there is nothing to flush.
    pub fn flush(&mut self) -> (r: PyResult<()>)
        ensures
            r == Ok::<(), PyErr>(()),
            final(self)@ == old(self)@,
    {
        Ok(())
    }

    /// Finishes the writer: the bytes written become a `bytes` object.
    pub fn into_pyobject(self) -> (b: PyBytes)
        ensures
            b@ == self@,
    {
        PyBytes::from_vec(self.buffer)
    }
}

} // verus!
