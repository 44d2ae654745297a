//! Buffers and bookkeeping for batched writes.
use vstd::prelude::*;

verus! {

/// The bytes of several buffers, one after the other.
pub open spec fn flat(bufs: Seq<Seq<u8>>) -> Seq<u8>
    decreases bufs.len(),
{
    if bufs.len() == 0 {
        Seq::empty()
    } else {
        bufs[0] + flat(bufs.drop_first())
    }
}

/// The contents of a list of byte slices.
pub open spec fn buffer_views(bufs: Seq<&[u8]>) -> Seq<Seq<u8>> {
    bufs.map_values(|b: &[u8]| b@)
}

/// What is left to send when the write resumes in buffer `idx` at byte
/// `off`: the rest of that buffer, then every later buffer whole.
pub open spec fn remaining_from(bufs: Seq<Seq<u8>>, idx: int, off: int) -> Seq<u8> {
    if 0 <= idx < bufs.len() {
        bufs[idx].subrange(off, bufs[idx].len() as int) + flat(bufs.subrange(idx + 1, bufs.len() as int))
    } else {
        Seq::empty()
    }
}

/// After a vectored write of `n` bytes over `bufs`, where the write goes on:
/// the buffer `idx` and the offset `off` in it of the first byte not yet
/// written, so that exactly the `n` bytes written are skipped. Empty buffers
/// and buffers written whole are passed over; once every byte is written
/// the result is `(bufs.len(), 0)`.
pub fn advance_slices(bufs: &[&[u8]], n: usize) -> (r: (usize, usize))
    ensures
        r.0 <= bufs@.len(),
        r.0 < bufs@.len() ==> r.1 < bufs@[r.0 as int]@.len(),
        r.0 == bufs@.len() ==> r.1 == 0,
        n <= flat(buffer_views(bufs@)).len() ==> remaining_from(buffer_views(bufs@), r.0 as int, r.1 as int)
            == flat(buffer_views(bufs@)).subrange(n as int, flat(buffer_views(bufs@)).len() as int),
        n >= flat(buffer_views(bufs@)).len() ==> r.0 == bufs@.len(),
{
    let ghost s = buffer_views(bufs@);
    let ghost total = flat(s).len() as int;
    let mut rest: usize = n;
    let mut i: usize = 0;
    let m = bufs.len();
    proof {
        assert(s.subrange(0, s.len() as int) =~= s);
    }
    while i < m
        invariant
            m == bufs@.len(),
            s == buffer_views(bufs@),
            total == flat(s).len(),
            0 <= i <= m,
            (n <= total) == (rest <= flat(s.subrange(i as int, m as int)).len()),
            n <= total ==> flat(s).subrange(n as int, total) == flat(s.subrange(i as int, m as int)).subrange(
                rest as int,
                flat(s.subrange(i as int, m as int)).len() as int,
            ),
        decreases m - i,
    {
        let len = bufs[i].len();
        let ghost a = s[i as int];
        let ghost b = flat(s.subrange(i + 1, m as int));
        proof {
            assert(s.subrange(i as int, m as int).drop_first() =~= s.subrange(i + 1, m as int));
            assert(flat(s.subrange(i as int, m as int)) == a + b);
            assert(a.len() == len);
        }
        if rest < len {
            proof {
                assert((a + b).subrange(rest as int, (a + b).len() as int) =~= a.subrange(
                    rest as int,
                    a.len() as int,
                ) + b);
            }
            return (i, rest);
        }
        proof {
            if rest <= (a + b).len() {
                assert((a + b).subrange(rest as int, (a + b).len() as int) =~= b.subrange(
                    rest - len,
                    b.len() as int,
                ));
            }
        }
        rest = rest - len;
        i = i + 1;
    }
    proof {
        assert(s.subrange(m as int, m as int) =~= Seq::<Seq<u8>>::empty());
        assert(flat(s.subrange(m as int, m as int)).len() == 0);
        if n <= total {
            assert(flat(s).subrange(n as int, total) =~= Seq::<u8>::empty());
        }
    }
    (m, 0)
}

/// Capacity of a byte vector.
///
/// Trusted: `Vec::capacity`; its documentation guarantees that a vector can
/// always hold its current elements, so the capacity is at least the length.
/// How much more the allocator gave is not stated.
#[verifier::external_body]
fn vec_capacity(v: &Vec<u8>) -> (c: usize)
    ensures
        c >= v@.len(),
{
    v.capacity()
}

/// A growable byte buffer that is allocated once and reused.
pub struct VecBuffer {
    inner: Vec<u8>,
}

impl View for VecBuffer {
    type V = Seq<u8>;

    closed spec fn view(&self) -> Seq<u8> {
        self.inner@
    }
}

impl VecBuffer {
    /// An empty buffer with room for at least `capacity` bytes. The room is
    /// what `Vec::with_capacity` allocates; the allocation's size has no
    /// spec here, so only the contents are stated.
    pub fn with_capacity(capacity: usize) -> (buf: Self)
        ensures
            buf@ == Seq::<u8>::empty(),
    {
        VecBuffer { inner: Vec::with_capacity(capacity) }
    }

    /// Appends `data` at the end.
    pub fn push_slice(&mut self, data: &[u8])
        ensures
            final(self)@ == old(self)@ + data@,
    {
        let mut i: usize = 0;
        while i < data.len()
            invariant
                0 <= i <= data@.len(),
                self@ == old(self)@ + data@.subrange(0, i as int),
            decreases data@.len() - i,
        {
            self.inner.push(data[i]);
            proof {
                assert(data@.subrange(0, i + 1) == data@.subrange(0, i as int).push(data@[i as int]));
            }
            i = i + 1;
        }
        proof {
            assert(data@.subrange(0, data@.len() as int) == data@);
        }
    }

    /// Appends one byte.
    pub fn push_byte(&mut self, byte: u8)
        ensures
            final(self)@ == old(self)@.push(byte),
    {
        self.inner.push(byte);
    }

    /// The bytes written so far.
    pub fn as_slice(&self) -> (s: &[u8])
        ensures
            s@ == self@,
    {
        self.inner.as_slice()
    }

    /// The bytes written so far, for modification in place.
    pub fn as_mut_slice(&mut self) -> (s: &mut [u8])
        ensures
            s@ == old(self)@,
            final(self)@ == final(s)@,
    {
        self.inner.as_mut_slice()
    }

    /// Removes every byte; `Vec::clear` keeps the allocation, which has no
    /// spec here, so only the contents are stated.
    pub fn clear(&mut self)
        ensures
            final(self)@ == Seq::<u8>::empty(),
    {
        self.inner.clear();
    }

    /// Number of bytes held.
    pub fn len(&self) -> (n: usize)
        ensures
            n == self@.len(),
    {
        self.inner.len()
    }

    /// Whether no byte is held.
    pub fn is_empty(&self) -> (b: bool)
        ensures
            b == (self@.len() == 0),
    {
        self.inner.len() == 0
    }

    /// Number of bytes the buffer can hold without growing.
    pub fn capacity(&self) -> (c: usize)
        ensures
            c >= self@.len(),
    {
        vec_capacity(&self.inner)
    }

    /// Makes room for at least `additional` more bytes, by `Vec::reserve`;
    /// the contents stay. The allocation's size has no spec here, so only
    /// the contents are stated.
    pub fn reserve(&mut self, additional: usize)
        ensures
            final(self)@ == old(self)@,
    {
        self.inner.reserve(additional);
    }

    /// The bytes, as a vector.
    pub fn into_vec(self) -> (v: Vec<u8>)
        ensures
            v@ == self@,
    {
        self.inner
    }
}

impl Default for VecBuffer {
    fn default() -> (buf: Self)
        ensures
            buf@ == Seq::<u8>::empty(),
    {
        VecBuffer::with_capacity(4096)
    }
}

impl From<Vec<u8>> for VecBuffer {
    fn from(vec: Vec<u8>) -> (buf: Self)
        ensures
            buf@ == vec@,
    {
        VecBuffer { inner: vec }
    }
}

impl vstd::std_specs::convert::FromSpecImpl<Vec<u8>> for VecBuffer {
    open spec fn obeys_from_spec() -> bool {
        true
    }

    closed spec fn from_spec(v: Vec<u8>) -> VecBuffer {
        VecBuffer { inner: v }
    }
}

} // verus!
