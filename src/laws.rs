//! General properties of the format's readers, stated over the spec
//! functions that the readers' own contracts use, and proved.
use vstd::prelude::*;

use crate::error::{ErrorKind, Fault};
use crate::header::{header_fault, spec_magic_is_valid, XFileHeader, XFILE_VERSION_BE};
use crate::load::{asset_conv, payload_wire, rd_payload, rd_script_strings};
use crate::platform::XFilePlatform;
use crate::wire::{
    is_inline, lemma_repeat_len, lemma_resolved_nonneg, rd_deref, rd_records, rd_target, resolved,
    shifted, u32_at, Read, Wire, NULL_TOKEN,
};
use crate::xasset::{rd_asset_generic, AssetModel, XAssetType};

verus! {

/// Following a token that is neither null nor inline jumps to its referent
/// and comes back: when the read succeeds, the position after it is the
/// position before it.
pub proof fn lemma_seek_and_restores<V>(
    w: Wire,
    d: Seq<u8>,
    p: int,
    token: u32,
    f: spec_fn(int) -> Read<V>,
)
    requires
        token != NULL_TOKEN,
        !is_inline(token),
        rd_deref(w, d, p, token, f) is Ok,
    ensures
        rd_deref(w, d, p, token, f)->Ok_0.1 == p,
{
}

/// A token that is neither null nor inline, and whose resolved offset is a
/// position inside the payload, is followed to exactly that offset, which
/// is smaller than the payload's length.
pub proof fn lemma_resolved_in_stream(w: Wire, d: Seq<u8>, p: int, token: u32)
    requires
        token != NULL_TOKEN,
        !is_inline(token),
        resolved(w.block_size, token) != d.len(),
        rd_target(w, d, p, token) is Ok,
    ensures
        rd_target(w, d, p, token) == Ok::<int, Fault>(resolved(w.block_size, token)),
        0 <= rd_target(w, d, p, token)->Ok_0 < d.len(),
{
    lemma_resolved_nonneg(w.block_size, token);
}

/// The null token reads nothing: the referent is absent and the position
/// stays where it is.
pub proof fn lemma_null_token_reads_nothing<V>(w: Wire, d: Seq<u8>, p: int, f: spec_fn(int) -> Read<V>)
    ensures
        rd_deref(w, d, p, NULL_TOKEN, f) == Ok::<(Option<V>, int), Fault>((None, p)),
{
}

/// An inline token reads its referent at the current position, and the
/// position moves past it.
pub proof fn lemma_inline_token_reads_here<V>(
    w: Wire,
    d: Seq<u8>,
    p: int,
    token: u32,
    f: spec_fn(int) -> Read<V>,
)
    requires
        is_inline(token),
    ensures
        rd_deref(w, d, p, token, f) == match f(p) {
            Err(e) => Err(e),
            Ok((v, end)) => Ok::<(Option<V>, int), Fault>((Some(v), end)),
        },
{
}

/// A successful pass yields as many assets as the envelope declares,
/// whenever the envelope's asset pointer is not null.
pub proof fn lemma_asset_count(le: bool, pc: bool, d: Seq<u8>)
    requires
        rd_payload(le, pc, d) is Ok,
        u32_at(d, 48, le) != NULL_TOKEN,
    ensures
        rd_payload(le, pc, d)->Ok_0.0.1.len() == u32_at(d, 44, le),
{
    let w = payload_wire(le, d);
    let strings = rd_script_strings(w, d, 52, u32_at(d, 36, le), u32_at(d, 40, le));
    let q1 = strings->Ok_0.1;
    let n = u32_at(d, 44, le) as nat;
    let token = u32_at(d, 48, le);
    let t = rd_target(w, d, q1, token)->Ok_0;
    let inner = rd_records(d, t, n, 8, asset_conv(w, d, pc));
    assert(inner is Ok);
    lemma_repeat_len(t + 8 * n, n, shifted(t, 8, asset_conv(w, d, pc)));
}

/// A tag outside the closed set of asset kinds is reported as invalid,
/// with the tag.
pub proof fn lemma_unknown_tag_invalid(w: Wire, d: Seq<u8>, p: int, tag: u32, token: u32)
    requires
        XAssetType::spec_from_u32(tag) is None,
    ensures
        rd_asset_generic(w, d, p, tag, token) == Err::<(AssetModel, int), Fault>(
            Fault::InvalidXAssetType(tag),
        ),
{
}

/// Changing any one byte of a valid magic makes it invalid, and a header
/// with such a magic is rejected for its magic on every readable platform. The
/// one change that keeps a magic valid is swapping the compression byte
/// between `u` and `0`.
pub proof fn lemma_mutated_magic_rejected(h: XFileHeader, m: XFileHeader, i: int, p: XFilePlatform)
    requires
        spec_magic_is_valid(h.magic),
        0 <= i < 8,
        m.magic[i] != h.magic[i],
        forall|j: int| 0 <= j < 8 && j != i ==> m.magic[j] == h.magic[j],
        !(i == 4 && (m.magic[4] == 0x75u8 || m.magic[4] == 0x30u8)),
        p != XFilePlatform::Wii,
    ensures
        !spec_magic_is_valid(m.magic),
        header_fault(m, p) is None,
{
}

/// On a PC platform, a version word whose bytes are in big-endian order is
/// reported as the wrong byte order for the platform, whatever the magic.
pub proof fn lemma_opposite_endianness_rejected(h: XFileHeader, p: XFilePlatform)
    requires
        p == XFilePlatform::Windows || p == XFilePlatform::macOS,
        spec_magic_is_valid(h.magic),
        h.version == XFILE_VERSION_BE,
    ensures
        header_fault(h, p) == Some(ErrorKind::WrongEndiannessForPlatform(p)),
{
}

} // verus!
