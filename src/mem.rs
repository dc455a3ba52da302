//! Fixed-width little-endian values stored in byte buffers, and flat memory blocks.

use vstd::prelude::*;

verus! {

/// `s` with the bytes `b` written over it starting at `off`.
pub open spec fn put_bytes(s: Seq<u8>, off: int, b: Seq<u8>) -> Seq<u8> {
    s.subrange(0, off) + b + s.subrange(off + b.len(), s.len() as int)
}

/// `n` bytes of `image` from `start` on, zero past its end.
pub open spec fn image_block(image: Seq<u8>, start: int, n: nat) -> Seq<u8> {
    Seq::new(n, |i: int| if start + i < image.len() { image[start + i] } else { 0u8 })
}

/// A value that occupies a fixed number of bytes, stored little-endian.
pub trait MemSize: Sized + Copy {
    /// Number of bytes a value occupies.
    spec fn width() -> nat;

    /// The value stored little-endian in the first `width()` bytes of `b`.
    spec fn from_le(b: Seq<u8>) -> Self;

    /// The little-endian bytes of `v`.
    spec fn to_le(v: Self) -> Seq<u8>;

    /// Encoding gives `width()` bytes, and decoding them gives the value back.
    proof fn lemma_encode_decode(v: Self)
        ensures
            Self::to_le(v).len() == Self::width(),
            Self::from_le(Self::to_le(v)) == v,
    ;

    fn byte_size() -> (r: u8)
        ensures
            r as nat == Self::width(),
            1 <= r <= 2,
    ;

    /// Reads the value stored at `off`.
    fn read_le(buf: &[u8], off: usize) -> (r: Self)
        requires
            off + Self::width() <= buf@.len(),
        ensures
            r == Self::from_le(buf@.subrange(off as int, off + Self::width())),
    ;

    /// Stores `v` at `off`; every other byte is kept.
    fn write_le(buf: &mut Vec<u8>, off: usize, v: Self)
        requires
            off + Self::width() <= old(buf)@.len(),
        ensures
            final(buf)@ == put_bytes(old(buf)@, off as int, Self::to_le(v)),
            final(buf)@.len() == old(buf)@.len(),
    ;
}

impl MemSize for u8 {
    open spec fn width() -> nat {
        1
    }

    open spec fn from_le(b: Seq<u8>) -> u8 {
        b[0]
    }

    open spec fn to_le(v: u8) -> Seq<u8> {
        seq![v]
    }

    proof fn lemma_encode_decode(v: u8) {
    }

    fn byte_size() -> (r: u8) {
        1
    }

    fn read_le(buf: &[u8], off: usize) -> (r: u8) {
        buf[off]
    }

    fn write_le(buf: &mut Vec<u8>, off: usize, v: u8) {
        buf[off] = v;
        assert(buf@ =~= put_bytes(old(buf)@, off as int, seq![v]));
    }
}

impl MemSize for i8 {
    open spec fn width() -> nat {
        1
    }

    open spec fn from_le(b: Seq<u8>) -> i8 {
        b[0] as i8
    }

    open spec fn to_le(v: i8) -> Seq<u8> {
        seq![v as u8]
    }

    proof fn lemma_encode_decode(v: i8) {
        assert((v as u8) as i8 == v) by (bit_vector);
    }

    fn byte_size() -> (r: u8) {
        1
    }

    fn read_le(buf: &[u8], off: usize) -> (r: i8) {
        buf[off] as i8
    }

    fn write_le(buf: &mut Vec<u8>, off: usize, v: i8) {
        buf[off] = v as u8;
        assert(buf@ =~= put_bytes(old(buf)@, off as int, seq![v as u8]));
    }
}

impl MemSize for u16 {
    open spec fn width() -> nat {
        2
    }

    open spec fn from_le(b: Seq<u8>) -> u16 {
        (b[0] as int + 256 * b[1] as int) as u16
    }

    open spec fn to_le(v: u16) -> Seq<u8> {
        seq![(v % 256) as u8, (v / 256) as u8]
    }

    proof fn lemma_encode_decode(v: u16) {
    }

    fn byte_size() -> (r: u8) {
        2
    }

    fn read_le(buf: &[u8], off: usize) -> (r: u16) {
        let lo = buf[off];
        let hi = buf[off + 1];
        let r = (u16::from(hi) << 8) | u16::from(lo);
        assert(((hi as u16) << 8u16) | (lo as u16) == (lo as int + 256 * hi as int) as u16)
            by (bit_vector);
        r
    }

    fn write_le(buf: &mut Vec<u8>, off: usize, v: u16) {
        let lo = #[verifier::truncate] ((v & 0xFF) as u8);
        let hi = #[verifier::truncate] ((v >> 8) as u8);
        assert(lo == (v % 256) as u8 && hi == (v / 256) as u8) by (bit_vector)
            requires lo == (v & 0xFF) as u8, hi == (v >> 8) as u8;
        proof {
            assert(buf.len() == buf@.len());
        }
        buf[off] = lo;
        buf[off + 1] = hi;
        assert(buf@ =~= put_bytes(old(buf)@, off as int, seq![lo, hi]));
    }
}

/// Reading the bytes just written at the same offset gives the value back.
pub proof fn lemma_put_then_get<T: MemSize>(s: Seq<u8>, off: int, v: T)
    requires
        0 <= off,
        off + T::width() <= s.len(),
    ensures
        put_bytes(s, off, T::to_le(v)).len() == s.len(),
        T::from_le(put_bytes(s, off, T::to_le(v)).subrange(off, off + T::width())) == v,
{
    T::lemma_encode_decode(v);
    let t = put_bytes(s, off, T::to_le(v));
    assert(t.subrange(off, off + T::width()) =~= T::to_le(v));
}

/// A flat, zero-initialised block of bytes: a ROM bank, a RAM bank or high RAM.
pub struct Memory {
    data: Vec<u8>,
}

impl View for Memory {
    type V = Seq<u8>;

    closed spec fn view(&self) -> Seq<u8> {
        self.data@
    }
}

impl Memory {
    pub fn new(size: usize) -> (m: Memory)
        ensures
            m@ == Seq::new(size as nat, |i: int| 0u8),
    {
        let mut data: Vec<u8> = Vec::new();
        let mut i: usize = 0;
        while i < size
            invariant
                i <= size,
                data@ == Seq::new(i as nat, |j: int| 0u8),
            decreases size - i,
        {
            data.push(0);
            i = i + 1;
            assert(data@ =~= Seq::new(i as nat, |j: int| 0u8));
        }
        Memory { data }
    }

    /// A block of `size` bytes holding `image[start..]`, cut or zero-padded.
    pub fn with_image(image: &[u8], start: usize, size: usize) -> (m: Memory)
        ensures
            m@ == image_block(image@, start as int, size as nat),
    {
        let mut data: Vec<u8> = Vec::new();
        let mut i: usize = 0;
        while i < size
            invariant
                i <= size,
                data@ == image_block(image@, start as int, i as nat),
            decreases size - i,
        {
            let b = if start < image.len() && i < image.len() - start {
                image[start + i]
            } else {
                0
            };
            data.push(b);
            i = i + 1;
            assert(data@ =~= image_block(image@, start as int, i as nat));
        }
        Memory { data }
    }

    pub fn size(&self) -> (r: usize)
        ensures
            r == self@.len(),
    {
        self.data.len()
    }

    /// Reads the value stored at local offset `addr`.
    pub fn read<T: MemSize>(&self, addr: u16) -> (r: T)
        requires
            addr + T::width() <= self@.len(),
        ensures
            r == T::from_le(self@.subrange(addr as int, addr + T::width())),
    {
        T::read_le(self.data.as_slice(), addr as usize)
    }

    /// Stores `val` at local offset `addr`.
    pub fn write<T: MemSize>(&mut self, addr: u16, val: T)
        requires
            addr + T::width() <= old(self)@.len(),
        ensures
            final(self)@ == put_bytes(old(self)@, addr as int, T::to_le(val)),
            final(self)@.len() == old(self)@.len(),
    {
        T::write_le(&mut self.data, addr as usize, val);
    }
}

} // verus!
