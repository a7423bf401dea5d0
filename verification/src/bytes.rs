use vstd::prelude::*;
use crate::error::{LoadError, eof_message, err_view, unset_key};

verus! {

/// `n` bytes can be read at position `p` of `s`.
pub open spec fn avail(s: Seq<u8>, p: int, n: int) -> bool {
    0 <= p && p + n <= s.len()
}

pub open spec fn le_u16(s: Seq<u8>, p: int) -> u16 {
    (s[p] as int + 256 * (s[p + 1] as int)) as u16
}

pub open spec fn le_u32(s: Seq<u8>, p: int) -> u32 {
    (s[p] as int + 256 * (s[p + 1] as int) + 65536 * (s[p + 2] as int) + 16777216 * (
    s[p + 3] as int)) as u32
}

pub open spec fn le_u64(s: Seq<u8>, p: int) -> u64 {
    (le_u32(s, p) as int + 4294967296 * (le_u32(s, p + 4) as int)) as u64
}

/// The two's complement reading of a 16-bit pattern.
pub open spec fn as_i16(u: u16) -> i16 {
    if u < 0x8000 {
        u as i16
    } else {
        (u as int - 0x1_0000) as i16
    }
}

/// The two's complement reading of a 32-bit pattern.
pub open spec fn as_i32(u: u32) -> i32 {
    if u < 0x8000_0000 {
        u as i32
    } else {
        (u as int - 0x1_0000_0000) as i32
    }
}

pub open spec fn le_i16(s: Seq<u8>, p: int) -> i16 {
    as_i16(le_u16(s, p))
}

pub open spec fn le_i32(s: Seq<u8>, p: int) -> i32 {
    as_i32(le_u32(s, p))
}

/// How many bytes a partial read of `n` bytes at `p` copies.
pub open spec fn partial_len(s: Seq<u8>, p: int, n: int) -> int {
    if p >= s.len() {
        0
    } else if p + n <= s.len() {
        n
    } else {
        s.len() - p
    }
}

/// The bytes a partial read of `n` bytes at `p` copies.
pub open spec fn partial_bytes(s: Seq<u8>, p: int, n: int) -> Seq<u8> {
    if p >= s.len() {
        Seq::empty()
    } else {
        s.subrange(p, p + partial_len(s, p, n))
    }
}

/// `dest` with its first bytes replaced by what a partial read of `dest.len()` bytes at `p` copies.
pub open spec fn fill_partial(dest: Seq<u8>, s: Seq<u8>, p: int) -> Seq<u8> {
    let k = partial_len(s, p, dest.len() as int);
    partial_bytes(s, p, dest.len() as int) + dest.subrange(k, dest.len() as int)
}

/// A cursor over a byte buffer: reads move `pos` forward, and a read that runs past the
/// end fails with the end-of-buffer error and leaves `pos` at the end.
pub struct ByteReader<'a> {
    pub buf: &'a [u8],
    pub pos: usize,
}

impl<'a> ByteReader<'a> {
    pub open spec fn data(&self) -> Seq<u8> {
        self.buf@
    }

    pub open spec fn at(&self) -> int {
        self.pos as int
    }

    pub fn new(buf: &'a [u8]) -> (r: Self)
        ensures
            r.data() == buf@,
            r.at() == 0,
    {
        ByteReader { buf, pos: 0 }
    }

    pub fn position(&self) -> (r: usize)
        ensures
            r == self.at(),
    {
        self.pos
    }

    /// Seek to an absolute position (it may lie past the end).
    pub fn set_position(&mut self, pos: usize)
        ensures
            final(self).data() == old(self).data(),
            final(self).at() == pos,
    {
        self.pos = pos;
    }

    /// Seek relative to the current position; a target before the start is refused.
    pub fn seek_relative(&mut self, delta: i64) -> (r: Result<(), LoadError>)
        ensures
            final(self).data() == old(self).data(),
            old(self).at() + delta >= 0 && old(self).at() + delta <= usize::MAX ==> r is Ok
                && final(self).at() == old(self).at() + delta,
            !(old(self).at() + delta >= 0 && old(self).at() + delta <= usize::MAX) ==> r is Err
                && r->Err_0@ == err_view(seek_message(), unset_key()) && final(self).at()
                == old(self).at(),
    {
        if delta < 0 {
            let back: u64 = if delta == i64::MIN {
                0x8000_0000_0000_0000u64
            } else {
                (-delta) as u64
            };
            if (self.pos as u64) < back {
                return Err(LoadError::from_str_message(
                    "invalid seek to a negative or overflowing position",
                ));
            }
            self.pos = ((self.pos as u64) - back) as usize;
            Ok(())
        } else {
            let fwd = delta as u64;
            if fwd > (usize::MAX - self.pos) as u64 {
                return Err(LoadError::from_str_message(
                    "invalid seek to a negative or overflowing position",
                ));
            }
            self.pos = self.pos + (fwd as usize);
            Ok(())
        }
    }

    /// The number of bytes left after the position.
    pub fn remaining(&self) -> (r: usize)
        ensures
            r == (if self.at() >= self.data().len() {
                0
            } else {
                self.data().len() - self.at()
            }),
    {
        if self.pos >= self.buf.len() {
            0
        } else {
            self.buf.len() - self.pos
        }
    }

    fn fail(&mut self) -> (r: LoadError)
        ensures
            final(self).data() == old(self).data(),
            final(self).at() == old(self).data().len(),
            r@ == err_view(eof_message(), unset_key()),
    {
        self.pos = self.buf.len();
        LoadError::eof()
    }

    pub fn read_u8(&mut self) -> (r: Result<u8, LoadError>)
        ensures
            final(self).data() == old(self).data(),
            avail(old(self).data(), old(self).at(), 1) ==> r == Ok::<u8, LoadError>(
                old(self).data()[old(self).at()],
            ) && final(self).at() == old(self).at() + 1,
            !avail(old(self).data(), old(self).at(), 1) ==> r is Err && r->Err_0@ == err_view(
                eof_message(),
                unset_key(),
            ) && final(self).at() == old(self).data().len(),
    {
        if self.pos < self.buf.len() {
            let b = self.buf[self.pos];
            self.pos = self.pos + 1;
            Ok(b)
        } else {
            Err(self.fail())
        }
    }

    pub fn read_u16(&mut self) -> (r: Result<u16, LoadError>)
        ensures
            final(self).data() == old(self).data(),
            avail(old(self).data(), old(self).at(), 2) ==> r == Ok::<u16, LoadError>(
                le_u16(old(self).data(), old(self).at()),
            ) && final(self).at() == old(self).at() + 2,
            !avail(old(self).data(), old(self).at(), 2) ==> r is Err && r->Err_0@ == err_view(
                eof_message(),
                unset_key(),
            ) && final(self).at() == old(self).data().len(),
    {
        if self.pos < self.buf.len() && self.buf.len() - self.pos >= 2 {
            let p = self.pos;
            let v = (self.buf[p] as u16) + 256 * (self.buf[p + 1] as u16);
            self.pos = p + 2;
            Ok(v)
        } else {
            Err(self.fail())
        }
    }

    pub fn read_u32(&mut self) -> (r: Result<u32, LoadError>)
        ensures
            final(self).data() == old(self).data(),
            avail(old(self).data(), old(self).at(), 4) ==> r == Ok::<u32, LoadError>(
                le_u32(old(self).data(), old(self).at()),
            ) && final(self).at() == old(self).at() + 4,
            !avail(old(self).data(), old(self).at(), 4) ==> r is Err && r->Err_0@ == err_view(
                eof_message(),
                unset_key(),
            ) && final(self).at() == old(self).data().len(),
    {
        if self.pos < self.buf.len() && self.buf.len() - self.pos >= 4 {
            let p = self.pos;
            let v = (self.buf[p] as u32) + 256 * (self.buf[p + 1] as u32) + 65536 * (self.buf[p
                + 2] as u32) + 16777216 * (self.buf[p + 3] as u32);
            self.pos = p + 4;
            Ok(v)
        } else {
            Err(self.fail())
        }
    }

    pub fn read_u64(&mut self) -> (r: Result<u64, LoadError>)
        ensures
            final(self).data() == old(self).data(),
            avail(old(self).data(), old(self).at(), 8) ==> r == Ok::<u64, LoadError>(
                le_u64(old(self).data(), old(self).at()),
            ) && final(self).at() == old(self).at() + 8,
            !avail(old(self).data(), old(self).at(), 8) ==> r is Err && r->Err_0@ == err_view(
                eof_message(),
                unset_key(),
            ) && final(self).at() == old(self).data().len(),
    {
        if self.pos < self.buf.len() && self.buf.len() - self.pos >= 8 {
            let lo = self.read_u32();
            let hi = self.read_u32();
            match (lo, hi) {
                (Ok(lo), Ok(hi)) => Ok((lo as u64) + 4294967296 * (hi as u64)),
                _ => Err(self.fail()),
            }
        } else {
            Err(self.fail())
        }
    }

    pub fn read_i16(&mut self) -> (r: Result<i16, LoadError>)
        ensures
            final(self).data() == old(self).data(),
            avail(old(self).data(), old(self).at(), 2) ==> r == Ok::<i16, LoadError>(
                le_i16(old(self).data(), old(self).at()),
            ) && final(self).at() == old(self).at() + 2,
            !avail(old(self).data(), old(self).at(), 2) ==> r is Err && r->Err_0@ == err_view(
                eof_message(),
                unset_key(),
            ) && final(self).at() == old(self).data().len(),
    {
        let u = self.read_u16()?;
        Ok(u16_to_i16(u))
    }

    pub fn read_i32(&mut self) -> (r: Result<i32, LoadError>)
        ensures
            final(self).data() == old(self).data(),
            avail(old(self).data(), old(self).at(), 4) ==> r == Ok::<i32, LoadError>(
                le_i32(old(self).data(), old(self).at()),
            ) && final(self).at() == old(self).at() + 4,
            !avail(old(self).data(), old(self).at(), 4) ==> r is Err && r->Err_0@ == err_view(
                eof_message(),
                unset_key(),
            ) && final(self).at() == old(self).data().len(),
    {
        let u = self.read_u32()?;
        Ok(u32_to_i32(u))
    }

    /// Read exactly `n` bytes, or fail without taking any.
    pub fn read_exact(&mut self, n: usize) -> (r: Result<Vec<u8>, LoadError>)
        ensures
            final(self).data() == old(self).data(),
            avail(old(self).data(), old(self).at(), n as int) ==> r is Ok && r->Ok_0@ == old(
                self,
            ).data().subrange(old(self).at(), old(self).at() + n) && final(self).at() == old(
                self,
            ).at() + n,
            !avail(old(self).data(), old(self).at(), n as int) ==> r is Err && r->Err_0@
                == err_view(eof_message(), unset_key()) && final(self).at() == old(
                self,
            ).data().len(),
    {
        if self.pos <= self.buf.len() && self.buf.len() - self.pos >= n {
            let p = self.pos;
            let v = copy_range(self.buf, p, p + n);
            self.pos = p + n;
            Ok(v)
        } else {
            Err(self.fail())
        }
    }

    /// Read up to `n` bytes: as many as there are, never failing.
    pub fn read_partial(&mut self, n: usize) -> (r: Vec<u8>)
        ensures
            final(self).data() == old(self).data(),
            r@ == partial_bytes(old(self).data(), old(self).at(), n as int),
            final(self).at() == old(self).at() + partial_len(
                old(self).data(),
                old(self).at(),
                n as int,
            ),
    {
        if self.pos >= self.buf.len() {
            Vec::new()
        } else {
            let k = if self.buf.len() - self.pos >= n {
                n
            } else {
                self.buf.len() - self.pos
            };
            let p = self.pos;
            let v = copy_range(self.buf, p, p + k);
            self.pos = p + k;
            v
        }
    }
}

/// The value of a read that the caller has shown to succeed.
pub fn unwrap_read<T>(r: Result<T, LoadError>) -> (v: T)
    requires
        r is Ok,
    ensures
        r == Ok::<T, LoadError>(v),
{
    r.unwrap()
}

/// Message of a seek to a position before the start of the buffer.
pub open spec fn seek_message() -> Seq<char> {
    "invalid seek to a negative or overflowing position"@
}

pub fn u16_to_i16(u: u16) -> (r: i16)
    ensures
        r == as_i16(u),
{
    if u < 0x8000 {
        u as i16
    } else {
        let d: u16 = 0xFFFF - u;
        -(d as i16) - 1
    }
}

pub fn u32_to_i32(u: u32) -> (r: i32)
    ensures
        r == as_i32(u),
{
    if u < 0x8000_0000 {
        u as i32
    } else {
        let d: u32 = 0xFFFF_FFFF - u;
        -(d as i32) - 1
    }
}

/// A copy of `buf[lo..hi]`.
pub fn copy_range(buf: &[u8], lo: usize, hi: usize) -> (r: Vec<u8>)
    requires
        lo <= hi <= buf@.len(),
    ensures
        r@ == buf@.subrange(lo as int, hi as int),
{
    let mut v: Vec<u8> = Vec::with_capacity(hi - lo);
    let mut i = lo;
    while i < hi
        invariant
            lo <= i <= hi <= buf@.len(),
            v@ == buf@.subrange(lo as int, i as int),
        decreases hi - i,
    {
        v.push(buf[i]);
        i = i + 1;
    }
    v
}

/// `dest` with its first bytes replaced by a partial read from `r`.
pub fn read_partial_into(r: &mut ByteReader, dest: &mut [u8])
    ensures
        final(r).data() == old(r).data(),
        final(r).at() == old(r).at() + partial_len(old(r).data(), old(r).at(), old(dest)@.len() as int),
        final(dest)@ == fill_partial(old(dest)@, old(r).data(), old(r).at()),
{
    let n = dest.len();
    let got = r.read_partial(n);
    let k = got.len();
    let mut i: usize = 0;
    while i < k
        invariant
            k == got@.len(),
            k <= n == dest@.len(),
            got@ == partial_bytes(old(r).data(), old(r).at(), n as int),
            k == partial_len(old(r).data(), old(r).at(), n as int),
            dest@.len() == n,
            forall|j: int| 0 <= j < i ==> dest@[j] == got@[j],
            old(dest)@.len() == n,
            forall|j: int| i <= j < n ==> dest@[j] == old(dest)@[j],
            0 <= i <= k,
        decreases k - i,
    {
        dest[i] = got[i];
        i = i + 1;
    }
    assert(dest@ =~= fill_partial(old(dest)@, old(r).data(), old(r).at()));
}

/// Copies `src` over `dest`, which has the same length.
pub fn copy_into(dest: &mut [u8], src: &Vec<u8>)
    requires
        old(dest)@.len() == src@.len(),
    ensures
        final(dest)@ == src@,
{
    let n = src.len();
    let mut i: usize = 0;
    while i < n
        invariant
            n == src@.len(),
            dest@.len() == n,
            0 <= i <= n,
            forall|j: int| 0 <= j < i ==> dest@[j] == src@[j],
        decreases n - i,
    {
        dest[i] = src[i];
        i = i + 1;
    }
    assert(dest@ =~= src@);
}

/// An array of `N` zero bytes.
pub fn zero_bytes<const N: usize>() -> (r: [u8; N])
    ensures
        r@ == Seq::new(N as nat, |i: int| 0u8),
{
    let mut a = [0u8; N];
    let mut i: usize = 0;
    while i < N
        invariant
            i <= N,
            a@.len() == N,
            forall|j: int| 0 <= j < i ==> a@[j] == 0u8,
        decreases N - i,
    {
        a[i] = 0;
        i = i + 1;
    }
    assert(a@ =~= Seq::new(N as nat, |i: int| 0u8));
    a
}

} // verus!
