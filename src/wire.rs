//! The wire format as spec functions: how integers are laid out, what a
//! pointer token means, and what each read of the payload yields.
//!
//! A read is modelled as a function from a cursor position to either the
//! value read and the position after it, or the [`Fault`] that stops it.
use vstd::prelude::*;

use crate::error::{Error, Fault};
use crate::text::utf8_lossy;

verus! {

/// The token of an absent referent.
pub const NULL_TOKEN: u32 = 0x0000_0000;

/// The token saying "the referent follows here".
pub const INLINE_TOKEN: u32 = 0xFFFF_FFFF;

/// A rarer token with the same meaning as [`INLINE_TOKEN`].
pub const INLINE_TOKEN_ALT: u32 = 0xFFFF_FFFE;

/// What the readers need to know of a file besides its bytes: the byte order
/// of its integers and the sizes of the seven blocks its tokens address.
#[derive(Copy, Clone, Debug)]
pub struct Wire {
    pub little_endian: bool,
    pub block_size: [u32; 7],
}

/// The outcome of a modelled read: a value and the position after it.
pub type Read<V> = Result<(V, int), Fault>;

pub open spec fn u16_at(d: Seq<u8>, p: int, le: bool) -> u16 {
    if le {
        (d[p] as int + 0x100 * d[p + 1] as int) as u16
    } else {
        (d[p + 1] as int + 0x100 * d[p] as int) as u16
    }
}

pub open spec fn u32_at(d: Seq<u8>, p: int, le: bool) -> u32 {
    if le {
        (d[p] as int + 0x100 * d[p + 1] as int + 0x10000 * d[p + 2] as int + 0x1000000
            * d[p + 3] as int) as u32
    } else {
        (d[p + 3] as int + 0x100 * d[p + 2] as int + 0x10000 * d[p + 1] as int + 0x1000000
            * d[p] as int) as u32
    }
}

/// The two's complement reading of a 32-bit word.
pub open spec fn i32_of(v: u32) -> int {
    if v < 0x8000_0000 {
        v as int
    } else {
        v as int - 0x1_0000_0000
    }
}

/// The two's complement reading of a 16-bit word.
pub open spec fn i16_of(v: u16) -> int {
    if v < 0x8000 {
        v as int
    } else {
        v as int - 0x1_0000
    }
}

pub open spec fn rd_u8(d: Seq<u8>, p: int) -> Read<u8> {
    if 0 <= p && p + 1 <= d.len() {
        Ok((d[p], p + 1))
    } else {
        Err(Fault::Truncated)
    }
}

pub open spec fn rd_u16(w: Wire, d: Seq<u8>, p: int) -> Read<u16> {
    if 0 <= p && p + 2 <= d.len() {
        Ok((u16_at(d, p, w.little_endian), p + 2))
    } else {
        Err(Fault::Truncated)
    }
}

pub open spec fn rd_u32(w: Wire, d: Seq<u8>, p: int) -> Read<u32> {
    if 0 <= p && p + 4 <= d.len() {
        Ok((u32_at(d, p, w.little_endian), p + 4))
    } else {
        Err(Fault::Truncated)
    }
}

/// `n` bytes taken as they are.
pub open spec fn rd_bytes(d: Seq<u8>, p: int, n: int) -> Read<Seq<u8>> {
    if 0 <= p && 0 <= n && p + n <= d.len() {
        Ok((d.subrange(p, p + n), p + n))
    } else {
        Err(Fault::Truncated)
    }
}

/// The index of the first NUL byte at or after `i`, or -1 when there is none.
pub open spec fn first_nul(d: Seq<u8>, i: int) -> int
    decreases d.len() - i,
{
    if i < 0 || i >= d.len() {
        -1
    } else if d[i] == 0 {
        i
    } else {
        first_nul(d, i + 1)
    }
}

/// A NUL-terminated byte string: its bytes without the NUL, and the position
/// just past the NUL.
pub open spec fn rd_cstr(d: Seq<u8>, p: int) -> Read<Seq<u8>> {
    let n = first_nul(d, p);
    if n < 0 {
        Err(Fault::Truncated)
    } else {
        Ok((d.subrange(p, n), n + 1))
    }
}

pub open spec fn is_inline(token: u32) -> bool {
    token == INLINE_TOKEN || token == INLINE_TOKEN_ALT
}

/// The block a non-null token addresses: the top three bits of `token - 1`.
pub open spec fn token_block(token: u32) -> int {
    (token as int - 1) / 0x2000_0000
}

/// The offset within its block that a non-null token addresses: the low 29
/// bits of `token - 1`.
pub open spec fn token_offset(token: u32) -> int {
    (token as int - 1) % 0x2000_0000
}

/// The sum of the sizes of the first `n` blocks.
pub open spec fn block_start(blocks: [u32; 7], n: int) -> int
    decreases n,
{
    if n <= 0 {
        0
    } else {
        block_start(blocks, n - 1) + blocks[n - 1] as int
    }
}

/// The payload offset a non-null token addresses.
pub open spec fn resolved(blocks: [u32; 7], token: u32) -> int {
    block_start(blocks, token_block(token)) + token_offset(token)
}

/// A block's start is never negative, nor is any resolved offset.
pub proof fn lemma_resolved_nonneg(blocks: [u32; 7], token: u32)
    requires
        token != 0,
    ensures
        resolved(blocks, token) >= 0,
{
    lemma_block_start_nonneg(blocks, token_block(token));
}

pub proof fn lemma_block_start_nonneg(blocks: [u32; 7], n: int)
    ensures
        block_start(blocks, n) >= 0,
    decreases n,
{
    if n > 0 {
        lemma_block_start_nonneg(blocks, n - 1);
    }
}

/// Where the referent of a non-null token starts, seen from position `p`:
/// at `p` itself for an inline token, else at the resolved offset, which must
/// not lie past the end of the payload.
pub open spec fn rd_target(w: Wire, d: Seq<u8>, p: int, token: u32) -> Result<int, Fault> {
    if is_inline(token) {
        Ok(p)
    } else if resolved(w.block_size, token) > d.len() {
        Err(Fault::InvalidSeek { off: resolved(w.block_size, token) as u64, max: d.len() as u64 })
    } else {
        Ok(resolved(w.block_size, token))
    }
}

/// Follows a pointer token from position `p` and reads its referent with `f`.
/// A null token reads nothing. An inline token reads at `p` and leaves the
/// cursor after the referent. Any other token reads at its resolved offset
/// and leaves the cursor at `p`.
pub open spec fn rd_deref<V>(
    w: Wire,
    d: Seq<u8>,
    p: int,
    token: u32,
    f: spec_fn(int) -> Read<V>,
) -> Read<Option<V>> {
    if token == NULL_TOKEN {
        Ok((None, p))
    } else {
        match rd_target(w, d, p, token) {
            Err(e) => Err(e),
            Ok(t) => match f(t) {
                Err(e) => Err(e),
                Ok((v, end)) => Ok((Some(v), if is_inline(token) { end } else { p })),
            },
        }
    }
}

/// `n` reads one after the other, starting at `p`; `f(i, q)` is the read of
/// the item with index `i` starting at `q`.
pub open spec fn rd_repeat<V>(p: int, n: nat, f: spec_fn(int, int) -> Read<V>) -> Read<Seq<V>>
    decreases n,
{
    if n == 0 {
        Ok((Seq::empty(), p))
    } else {
        match rd_repeat(p, (n - 1) as nat, f) {
            Err(e) => Err(e),
            Ok((vs, q)) => match f((n - 1) as int, q) {
                Err(e) => Err(e),
                Ok((v, end)) => Ok((vs.push(v), end)),
            },
        }
    }
}

/// The conversion of the record with index `i` of an array of `size`-byte
/// records laid out from `t`: `conv(s, q)` converts the record whose raw
/// bytes start at `s`, reading on from `q`.
pub open spec fn shifted<V>(t: int, size: int, conv: spec_fn(int, int) -> Read<V>) -> spec_fn(
    int,
    int,
) -> Read<V> {
    |i: int, q: int| conv(t + size * i, q)
}

/// An array of `n` fixed-size records at `t`: first the `n * size` raw bytes
/// of all records, then, one record after the other, what converting each
/// reads.
pub open spec fn rd_records<V>(
    d: Seq<u8>,
    t: int,
    n: nat,
    size: int,
    conv: spec_fn(int, int) -> Read<V>,
) -> Read<Seq<V>> {
    if t < 0 || t + size * n > d.len() {
        Err(Fault::Truncated)
    } else {
        rd_repeat(t + size * n, n, shifted(t, size, conv))
    }
}

pub open spec fn rd_i32(w: Wire, d: Seq<u8>, p: int) -> Read<i32> {
    match rd_u32(w, d, p) {
        Err(e) => Err(e),
        Ok((v, q)) => Ok((i32_of(v) as i32, q)),
    }
}

pub open spec fn rd_i16(w: Wire, d: Seq<u8>, p: int) -> Read<i16> {
    match rd_u16(w, d, p) {
        Err(e) => Err(e),
        Ok((v, q)) => Ok((i16_of(v) as i16, q)),
    }
}

/// A NUL-terminated string decoded as lossy UTF-8.
pub open spec fn rd_text(d: Seq<u8>, p: int) -> Read<Seq<char>> {
    match rd_cstr(d, p) {
        Err(e) => Err(e),
        Ok((b, q)) => Ok((utf8_lossy(b), q)),
    }
}

/// A string pointer: the text its token refers to, or the empty string for
/// the null token.
pub open spec fn rd_xstring(w: Wire, d: Seq<u8>, p: int, token: u32) -> Read<Seq<char>> {
    or_empty(rd_deref(w, d, p, token, |t: int| rd_text(d, t)))
}

/// A pointer to `n` bytes: the bytes its token refers to, or nothing for the
/// null token.
pub open spec fn rd_byte_array(w: Wire, d: Seq<u8>, p: int, token: u32, n: int) -> Read<Seq<u8>> {
    or_empty(rd_deref(w, d, p, token, |t: int| rd_bytes(d, t, n)))
}

/// A flexible array of bytes: a 16-bit count, then that many bytes inline.
pub open spec fn rd_flexible_u16(w: Wire, d: Seq<u8>, p: int) -> Read<Seq<u8>> {
    match rd_u16(w, d, p) {
        Err(e) => Err(e),
        Ok((n, q)) => rd_bytes(d, q, n as int),
    }
}

/// A flexible array of bytes: a 32-bit count, then that many bytes inline.
pub open spec fn rd_flexible_u32(w: Wire, d: Seq<u8>, p: int) -> Read<Seq<u8>> {
    match rd_u32(w, d, p) {
        Err(e) => Err(e),
        Ok((n, q)) => rd_bytes(d, q, n as int),
    }
}

/// The value of an optional referent, with absence read as the empty
/// sequence.
pub open spec fn or_empty<V>(r: Read<Option<Seq<V>>>) -> Read<Seq<V>> {
    match r {
        Err(e) => Err(e),
        Ok((None, q)) => Ok((Seq::empty(), q)),
        Ok((Some(v), q)) => Ok((v, q)),
    }
}

/// A call returned what a modelled read yields, and `end` is the position
/// after it; or it failed with the error that reports the read's fault.
pub open spec fn yields<V>(r: Result<V, Error>, m: Read<V>, end: int) -> bool {
    match m {
        Ok((v, q)) => r == Ok::<V, Error>(v) && end == q,
        Err(f) => r is Err && r->Err_0.spec_kind().reports(f),
    }
}

/// As [`yields`], for a call whose result is related to the read by its view.
pub open spec fn yields_view<V: View>(r: Result<V, Error>, m: Read<V::V>, end: int) -> bool {
    match m {
        Ok((v, q)) => r is Ok && r->Ok_0@ == v && end == q,
        Err(f) => r is Err && r->Err_0.spec_kind().reports(f),
    }
}

/// The view of an optional boxed value.
pub open spec fn opt_view<T: View>(o: Option<Box<T>>) -> Option<T::V> {
    match o {
        Some(b) => Some(b@),
        None => None,
    }
}

/// As [`yields`], for a call that returns an optional boxed value.
pub open spec fn yields_opt<T: View>(
    r: Result<Option<Box<T>>, Error>,
    m: Read<Option<T::V>>,
    end: int,
) -> bool {
    match m {
        Ok((v, q)) => r is Ok && opt_view(r->Ok_0) == v && end == q,
        Err(f) => r is Err && r->Err_0.spec_kind().reports(f),
    }
}

/// As [`yields`], for a call that returns a vector whose items are related
/// to the read by their views.
pub open spec fn yields_seq<T: View>(r: Result<Vec<T>, Error>, m: Read<Seq<T::V>>, end: int) -> bool {
    match m {
        Ok((v, q)) => r is Ok && r->Ok_0@.map_values(|x: T| x@) == v && end == q,
        Err(f) => r is Err && r->Err_0.spec_kind().reports(f),
    }
}

/// Once a run of reads fails, every longer run fails the same way.
pub proof fn lemma_repeat_fails_on<V>(p: int, k: nat, n: nat, f: spec_fn(int, int) -> Read<V>)
    requires
        k <= n,
        rd_repeat(p, k, f) is Err,
    ensures
        rd_repeat(p, n, f) == rd_repeat(p, k, f),
    decreases n - k,
{
    if k < n {
        lemma_repeat_fails_on(p, k, (n - 1) as nat, f);
    }
}

/// A successful run of `n` reads yields exactly `n` values.
pub proof fn lemma_repeat_len<V>(p: int, n: nat, f: spec_fn(int, int) -> Read<V>)
    requires
        rd_repeat(p, n, f) is Ok,
    ensures
        rd_repeat(p, n, f)->Ok_0.0.len() == n,
    decreases n,
{
    if n > 0 {
        lemma_repeat_len(p, (n - 1) as nat, f);
    }
}

} // verus!
