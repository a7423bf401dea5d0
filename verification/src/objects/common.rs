use vstd::prelude::*;
use vstd::string::StringExecFns;
use crate::bytes::{ByteReader, avail, le_u32};
use crate::error::{LoadError, err_view, unset_key};
use crate::text::{format_hex_byte, format_decimal, hex_byte_text, decimal_text};

verus! {

/// What loading an object out of its bytes comes to: the object's new state, with success
/// or the message of the failure; or an abort (which also stands for a load that never
/// ends).
pub enum Outcome<V> {
    Done(V),
    Failed(V, Seq<char>),
    Panics,
}

/// The outcome that a state and a result make.
pub open spec fn outcome_of<V>(v: V, r: Result<(), LoadError>) -> Outcome<V> {
    match r {
        Ok(()) => Outcome::Done(v),
        Err(e) => Outcome::Failed(v, e@.0),
    }
}

/// The result is a failure whose error has no key attached yet.
pub open spec fn keyless(r: Result<(), LoadError>) -> bool {
    r matches Err(e) ==> e@.1 == unset_key()
}

/// An object that can be loaded out of its bytes and unloaded again.
pub trait ArchetypeImpl: View + Sized {
    /// The outcome of loading the bytes `s` into an object in state `old`.
    spec fn load_spec(old: Self::V, s: Seq<u8>) -> Outcome<Self::V>;

    /// The state of an object in state `old` after unloading.
    spec fn unload_spec(old: Self::V) -> Self::V;

    fn load_from_buf(&mut self, buf: &[u8]) -> (r: Result<(), LoadError>)
        requires
            !(Self::load_spec(old(self)@, buf@) is Panics),
        ensures
            outcome_of(final(self)@, r) == Self::load_spec(old(self)@, buf@),
            keyless(r),
    ;

    fn unload(&mut self)
        ensures
            final(self)@ == Self::unload_spec(old(self)@),
    ;
}

/// A step that reads one item at a position: the item and the position after it, or the
/// message of the failure.
pub type Step<T> = spec_fn(Seq<u8>, int) -> Result<(T, int), Seq<char>>;

/// Reading `n` items one after the other from `p`: the items read, the position reached and,
/// if a read failed, its message (the items before it are kept).
pub open spec fn list_run<T>(s: Seq<u8>, p: int, n: nat, step: Step<T>) -> (Seq<T>, int, Option<Seq<char>>)
    decreases n,
{
    if n == 0 {
        (Seq::empty(), p, None)
    } else {
        let prev = list_run(s, p, (n - 1) as nat, step);
        if prev.2 is Some {
            prev
        } else {
            match step(s, prev.1) {
                Err(m) => (prev.0, prev.1, Some(m)),
                Ok((x, q)) => (prev.0.push(x), q, None),
            }
        }
    }
}

/// Once a read fails, reading more items changes nothing.
pub proof fn lemma_list_run_stops<T>(s: Seq<u8>, p: int, i: nat, n: nat, step: Step<T>)
    requires
        i <= n,
        list_run(s, p, i, step).2 is Some,
    ensures
        list_run(s, p, n, step) == list_run(s, p, i, step),
    decreases n - i,
{
    if i < n {
        lemma_list_run_stops(s, p, i, (n - 1) as nat, step);
    }
}

/// Three 32-bit floats, kept as their bit patterns.
#[derive(Debug, Clone, Copy, PartialEq, Eq, Structural)]
pub struct RawVec3 {
    pub x: u32,
    pub y: u32,
    pub z: u32,
}

/// A 4x4 matrix of 32-bit floats, kept as their bit patterns in the order they are stored.
#[derive(Debug, Clone, Copy)]
pub struct RawMat4 {
    pub cols: [u32; 16],
}

pub open spec fn vec3_at(s: Seq<u8>, p: int) -> RawVec3 {
    RawVec3 { x: le_u32(s, p), y: le_u32(s, p + 4), z: le_u32(s, p + 8) }
}

pub open spec fn mat4_at(s: Seq<u8>, p: int) -> RawMat4 {
    RawMat4 {
        cols: [
            le_u32(s, p),
            le_u32(s, p + 4),
            le_u32(s, p + 8),
            le_u32(s, p + 12),
            le_u32(s, p + 16),
            le_u32(s, p + 20),
            le_u32(s, p + 24),
            le_u32(s, p + 28),
            le_u32(s, p + 32),
            le_u32(s, p + 36),
            le_u32(s, p + 40),
            le_u32(s, p + 44),
            le_u32(s, p + 48),
            le_u32(s, p + 52),
            le_u32(s, p + 56),
            le_u32(s, p + 60),
        ],
    }
}

impl RawVec3 {
    pub fn zero() -> (r: Self)
        ensures
            r == (RawVec3 { x: 0, y: 0, z: 0 }),
    {
        RawVec3 { x: 0, y: 0, z: 0 }
    }
}

impl RawMat4 {
    /// The identity matrix.
    pub fn identity() -> (r: Self)
        ensures
            r == identity_mat4(),
    {
        let one: u32 = 0x3F80_0000;
        let r = RawMat4 { cols: [one, 0, 0, 0, 0, one, 0, 0, 0, 0, one, 0, 0, 0, 0, one] };
        assert(r.cols =~= identity_mat4().cols);
        r
    }

    pub fn zero() -> (r: Self)
        ensures
            r == zero_mat4(),
    {
        let r = RawMat4 { cols: [0u32, 0, 0, 0, 0, 0, 0, 0, 0, 0, 0, 0, 0, 0, 0, 0] };
        assert(r.cols =~= zero_mat4().cols);
        r
    }
}

/// The identity matrix (1.0 is the bit pattern 0x3F80_0000).
pub open spec fn identity_mat4() -> RawMat4 {
    RawMat4 {
        cols: [
            0x3F80_0000u32, 0, 0, 0, 0, 0x3F80_0000u32, 0, 0, 0, 0, 0x3F80_0000u32, 0, 0, 0, 0,
            0x3F80_0000u32,
        ],
    }
}

pub open spec fn zero_mat4() -> RawMat4 {
    RawMat4 { cols: [0u32, 0, 0, 0, 0, 0, 0, 0, 0, 0, 0, 0, 0, 0, 0, 0] }
}

/// Reads three floats.
pub fn read_vec3(r: &mut ByteReader) -> (res: Result<RawVec3, LoadError>)
    ensures
        final(r).data() == old(r).data(),
        avail(old(r).data(), old(r).at(), 12) ==> res == Ok::<RawVec3, LoadError>(vec3_at(old(r).data(), old(r).at()))
            && final(r).at() == old(r).at() + 12,
        !avail(old(r).data(), old(r).at(), 12) ==> res is Err && res->Err_0@ == err_view(
            crate::error::eof_message(),
            unset_key(),
        ),
{
    let x = r.read_u32()?;
    let y = r.read_u32()?;
    let z = r.read_u32()?;
    Ok(RawVec3 { x, y, z })
}

/// Reads a matrix of sixteen floats.
pub fn read_mat4(r: &mut ByteReader) -> (res: Result<RawMat4, LoadError>)
    ensures
        final(r).data() == old(r).data(),
        avail(old(r).data(), old(r).at(), 64) ==> res == Ok::<RawMat4, LoadError>(mat4_at(old(r).data(), old(r).at()))
            && final(r).at() == old(r).at() + 64,
        !avail(old(r).data(), old(r).at(), 64) ==> res is Err && res->Err_0@ == err_view(
            crate::error::eof_message(),
            unset_key(),
        ),
{
    let ghost s = r.data();
    let ghost p = r.at();
    let mut cols = [0u32, 0, 0, 0, 0, 0, 0, 0, 0, 0, 0, 0, 0, 0, 0, 0];
    let mut i: usize = 0;
    while i < 16
        invariant
            r.data() == s,
            s == old(r).data(),
            p == old(r).at(),
            0 <= i <= 16,
            r.at() == p + 4 * i,
            i > 0 ==> avail(s, p, 4 * i),
            forall|j: int| 0 <= j < i ==> cols@[j] == le_u32(s, p + 4 * j),
        decreases 16 - i,
    {
        cols[i] = r.read_u32()?;
        i = i + 1;
    }
    let m = RawMat4 { cols };
    assert(m.cols =~= mat4_at(s, p).cols);
    Ok(m)
}

/// An error whose message is `prefix` and a byte in `{:#04X}` form.
pub fn error_with_hex_byte(prefix: &str, v: u8) -> (r: LoadError)
    ensures
        r@ == err_view(prefix@ + hex_byte_text(v), unset_key()),
{
    let s = <String as StringExecFns>::from_str(prefix);
    let h = format_hex_byte(v);
    LoadError::from_message(s.concat(h.as_str()))
}

/// An error whose message is `prefix` and an integer in decimal.
pub fn error_with_decimal(prefix: &str, v: i128) -> (r: LoadError)
    ensures
        r@ == err_view(prefix@ + decimal_text(v as int), unset_key()),
{
    let s = <String as StringExecFns>::from_str(prefix);
    let h = format_decimal(v);
    LoadError::from_message(s.concat(h.as_str()))
}

} // verus!
