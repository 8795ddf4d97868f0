//! A whole pass: the payload's header, the script string table, and the
//! asset list; and, before it, checking and inflating a FastFile.
use vstd::prelude::*;

use crate::deserializer::{same_image, T5XFileDeserializer};
use crate::error::{Error, ErrorKind, Fault};
use crate::header::{file_header, header_fault, header_ok, XFileHeader};
use crate::platform::XFilePlatform;
use crate::schemas::{FatPointerCountFirstU32, Ptr32, XString};
use crate::wire::{
    lemma_repeat_fails_on, or_empty, rd_deref, rd_records,
    rd_repeat, rd_xstring, shifted, u32_at, yields_seq, Read, Wire, NULL_TOKEN,
};
use crate::xasset::{rd_asset, XAsset, XAssetModel, XAssetRaw};
use crate::xfile::XFile;

verus! {

/// The two fat pointers after the payload's header: to the script strings,
/// and to the asset records.
#[derive(Copy, Clone, Debug)]
pub struct XAssetListRaw {
    pub strings: FatPointerCountFirstU32<XString>,
    pub assets: FatPointerCountFirstU32<XAssetRaw>,
}

/// The 36-byte payload header at `p`: total size, external size, and the
/// seven block sizes.
pub open spec fn xfile_at(le: bool, d: Seq<u8>, p: int) -> XFile {
    XFile {
        size: u32_at(d, p, le),
        external_size: u32_at(d, p + 4, le),
        block_size: [
            u32_at(d, p + 8, le),
            u32_at(d, p + 12, le),
            u32_at(d, p + 16, le),
            u32_at(d, p + 20, le),
            u32_at(d, p + 24, le),
            u32_at(d, p + 28, le),
            u32_at(d, p + 32, le),
        ],
    }
}

/// The header at the start of a payload.
pub open spec fn payload_xfile(le: bool, d: Seq<u8>) -> XFile {
    xfile_at(le, d, 0)
}

/// The byte order and block sizes of a payload whose integers have byte
/// order `le`.
pub open spec fn payload_wire(le: bool, d: Seq<u8>) -> Wire {
    Wire { little_endian: le, block_size: payload_xfile(le, d).block_size }
}

/// Decoding the script string whose token starts at `s`, from `q` on.
pub open spec fn string_conv(w: Wire, d: Seq<u8>) -> spec_fn(int, int) -> Read<Seq<char>> {
    |s: int, q: int| rd_xstring(w, d, q, u32_at(d, s, w.little_endian))
}

/// Decoding the asset whose record starts at `s`, from `q` on.
pub open spec fn asset_conv(w: Wire, d: Seq<u8>, pc: bool) -> spec_fn(int, int) -> Read<XAssetModel> {
    |s: int, q: int|
        rd_asset(w, d, q, u32_at(d, s, w.little_endian), u32_at(d, s + 4, w.little_endian), pc)
}

/// The script string table: `count` string tokens at the pointer's
/// referent, then each string.
pub open spec fn rd_script_strings(w: Wire, d: Seq<u8>, p: int, count: u32, token: u32) -> Read<
    Seq<Seq<char>>,
> {
    or_empty(rd_deref(w, d, p, token, |t: int| rd_records(d, t, count as nat, 4, string_conv(w, d))))
}

/// The asset list: `count` asset records at the pointer's referent, then
/// each asset.
pub open spec fn rd_asset_list(w: Wire, d: Seq<u8>, p: int, count: u32, token: u32, pc: bool) -> Read<
    Seq<XAssetModel>,
> {
    or_empty(
        rd_deref(w, d, p, token, |t: int| rd_records(d, t, count as nat, 8, asset_conv(w, d, pc))),
    )
}

/// A whole payload: the 36-byte header and the 16-byte list envelope, then
/// the script strings, then the assets. The result is the script string
/// table and the assets, with the position the pass ends at.
pub open spec fn rd_payload(le: bool, pc: bool, d: Seq<u8>) -> Read<(Seq<Seq<char>>, Seq<XAssetModel>)> {
    if d.len() < 52 {
        Err(Fault::Truncated)
    } else {
        let w = payload_wire(le, d);
        match rd_script_strings(w, d, 52, u32_at(d, 36, le), u32_at(d, 40, le)) {
            Err(e) => Err(e),
            Ok((strings, q1)) => match rd_asset_list(
                w,
                d,
                q1,
                u32_at(d, 44, le),
                u32_at(d, 48, le),
                pc,
            ) {
                Err(e) => Err(e),
                Ok((assets, q2)) => Ok(((strings, assets), q2)),
            },
        }
    }
}

/// Reads `n` script string tokens at the cursor, then each string.
fn read_string_records(de: &mut T5XFileDeserializer, n: u32) -> (r: Result<Vec<String>, Error>)
    requires
        old(de).wf(),
    ensures
        final(de).wf(),
        same_image(*final(de), *old(de)),
        yields_seq(
            r,
            rd_records(old(de).bytes(), old(de).pos(), n as nat, 4, string_conv(old(de).wire(), old(de).bytes())),
            final(de).pos(),
        ),
{
    let ghost w = de.wire();
    let ghost d = de.bytes();
    let ghost f = shifted(de.pos(), 4, string_conv(w, d));
    let t = de.stream_pos();
    if n as usize > (de.stream_len() - t) / 4 {
        return Err(de.truncated("read_string_records"));
    }
    let count = n as usize;
    let mut raws: Vec<u32> = Vec::new();
    let mut i: usize = 0;
    while i < count
        invariant
            de.wf(),
            same_image(*de, *old(de)),
            w == de.wire(),
            d == de.bytes(),
            t == old(de).pos(),
            count == n,
            t + 4 * count <= d.len(),
            i <= count,
            de.pos() == t + 4 * i,
            raws@.len() == i,
            forall|j: int| 0 <= j < i ==> #[trigger] raws@[j] == u32_at(d, t + 4 * j, w.little_endian),
        decreases count - i,
    {
        let token = match de.read_u32() {
            Ok(v) => v,
            Err(e) => return Err(e),
        };
        raws.push(token);
        i += 1;
    }
    let mut out: Vec<String> = Vec::new();
    assert(out@.map_values(|x: String| x@) =~= Seq::<Seq<char>>::empty());
    let mut j: usize = 0;
    while j < count
        invariant
            de.wf(),
            same_image(*de, *old(de)),
            w == de.wire(),
            d == de.bytes(),
            w == old(de).wire(),
            d == old(de).bytes(),
            t == old(de).pos(),
            count == n,
            f == shifted(t as int, 4, string_conv(w, d)),
            t + 4 * count <= d.len(),
            j <= count,
            out@.len() == j,
            raws@.len() == count,
            forall|k: int| 0 <= k < count ==> #[trigger] raws@[k] == u32_at(d, t + 4 * k, w.little_endian),
            rd_repeat(t + 4 * count, j as nat, f) == Ok::<(Seq<Seq<char>>, int), Fault>(
                (out@.map_values(|x: String| x@), de.pos()),
            ),
        decreases count - j,
    {
        let ghost q = de.pos();
        assert(f(j as int, q) == string_conv(w, d)(t + 4 * j, q));
        let s = match de.read_xstring(raws[j]) {
            Ok(v) => v,
            Err(e) => {
                proof {
                    assert(f(j as int, q) is Err);
                    assert(rd_repeat(t + 4 * count, (j + 1) as nat, f) == Err::<
                        (Seq<Seq<char>>, int),
                        Fault,
                    >(f(j as int, q)->Err_0));
                    lemma_repeat_fails_on(t + 4 * count, (j + 1) as nat, count as nat, f);
                }
                return Err(e);
            },
        };
        let ghost before = out@;
        out.push(s);
        assert(out@.map_values(|x: String| x@) =~= before.map_values(|x: String| x@).push(
            out@[j as int]@,
        ));
        j += 1;
    }
    Ok(out)
}

/// Reads `n` asset records at the cursor, then each asset.
fn read_asset_records(de: &mut T5XFileDeserializer, n: u32, platform: XFilePlatform) -> (r: Result<
    Vec<XAsset>,
    Error,
>)
    requires
        old(de).wf(),
    ensures
        final(de).wf(),
        same_image(*final(de), *old(de)),
        yields_seq(
            r,
            rd_records(
                old(de).bytes(),
                old(de).pos(),
                n as nat,
                8,
                asset_conv(old(de).wire(), old(de).bytes(), !platform.spec_is_console()),
            ),
            final(de).pos(),
        ),
{
    let ghost w = de.wire();
    let ghost d = de.bytes();
    let ghost pc = !platform.spec_is_console();
    let ghost f = shifted(de.pos(), 8, asset_conv(w, d, pc));
    let t = de.stream_pos();
    if n as usize > (de.stream_len() - t) / 8 {
        return Err(de.truncated("read_asset_records"));
    }
    let count = n as usize;
    let mut raws: Vec<XAssetRaw> = Vec::new();
    let mut i: usize = 0;
    while i < count
        invariant
            de.wf(),
            same_image(*de, *old(de)),
            w == de.wire(),
            d == de.bytes(),
            t == old(de).pos(),
            count == n,
            t + 8 * count <= d.len(),
            i <= count,
            de.pos() == t + 8 * i,
            raws@.len() == i,
            forall|j: int|
                0 <= j < i ==> (#[trigger] raws@[j]).asset_type == u32_at(d, t + 8 * j, w.little_endian)
                    && raws@[j].asset_data == u32_at(d, t + 8 * j + 4, w.little_endian),
        decreases count - i,
    {
        let asset_type = match de.read_u32() {
            Ok(v) => v,
            Err(e) => return Err(e),
        };
        let asset_data = match de.read_u32() {
            Ok(v) => v,
            Err(e) => return Err(e),
        };
        raws.push(XAssetRaw { asset_type, asset_data });
        i += 1;
    }
    let mut out: Vec<XAsset> = Vec::new();
    assert(out@.map_values(|x: XAsset| x@) =~= Seq::<XAssetModel>::empty());
    let mut j: usize = 0;
    while j < count
        invariant
            de.wf(),
            same_image(*de, *old(de)),
            w == de.wire(),
            d == de.bytes(),
            w == old(de).wire(),
            d == old(de).bytes(),
            t == old(de).pos(),
            count == n,
            pc == !platform.spec_is_console(),
            f == shifted(t as int, 8, asset_conv(w, d, pc)),
            t + 8 * count <= d.len(),
            j <= count,
            out@.len() == j,
            raws@.len() == count,
            forall|k: int|
                0 <= k < count ==> (#[trigger] raws@[k]).asset_type == u32_at(d, t + 8 * k, w.little_endian)
                    && raws@[k].asset_data == u32_at(d, t + 8 * k + 4, w.little_endian),
            rd_repeat(t + 8 * count, j as nat, f) == Ok::<(Seq<XAssetModel>, int), Fault>(
                (out@.map_values(|x: XAsset| x@), de.pos()),
            ),
        decreases count - j,
    {
        let ghost q = de.pos();
        assert(f(j as int, q) == asset_conv(w, d, pc)(t + 8 * j, q));
        let a = match XAsset::try_get(de, raws[j], platform) {
            Ok(v) => v,
            Err(e) => {
                proof {
                    assert(f(j as int, q) is Err);
                    assert(rd_repeat(t + 8 * count, (j + 1) as nat, f) == Err::<
                        (Seq<XAssetModel>, int),
                        Fault,
                    >(f(j as int, q)->Err_0));
                    lemma_repeat_fails_on(t + 8 * count, (j + 1) as nat, count as nat, f);
                }
                return Err(e);
            },
        };
        let ghost before = out@;
        out.push(a);
        assert(out@.map_values(|x: XAsset| x@) =~= before.map_values(|x: XAsset| x@).push(
            out@[j as int]@,
        ));
        j += 1;
    }
    Ok(out)
}

impl T5XFileDeserializer {
    /// Reads the payload's 36-byte header at the cursor.
    pub fn read_xfile(&mut self) -> (r: Result<XFile, Error>)
        requires
            old(self).wf(),
        ensures
            final(self).wf(),
            same_image(*final(self), *old(self)),
            old(self).pos() + 36 <= old(self).bytes().len() ==> r == Ok::<XFile, Error>(
                xfile_at(old(self).wire().little_endian, old(self).bytes(), old(self).pos()),
            ) && final(self).pos() == old(self).pos() + 36,
            old(self).pos() + 36 > old(self).bytes().len() ==> r is Err && r->Err_0.spec_kind() is Decode,
    {
        let ghost d = self.bytes();
        let ghost p = self.pos();
        let ghost le = self.wire().little_endian;
        let mut words: [u32; 9] = [0u32; 9];
        let mut i: usize = 0;
        while i < 9
            invariant
                self.wf(),
                same_image(*self, *old(self)),
                d == self.bytes(),
                p == old(self).pos(),
                le == self.wire().little_endian,
                i <= 9,
                self.pos() == p + 4 * i,
                forall|j: int| 0 <= j < i ==> #[trigger] words[j] == u32_at(d, p + 4 * j, le),
            decreases 9 - i,
        {
            let v = match self.read_u32() {
                Ok(v) => v,
                Err(err) => return Err(err),
            };
            words[i] = v;
            i += 1;
        }
        let xfile = XFile {
            size: words[0],
            external_size: words[1],
            block_size: [words[2], words[3], words[4], words[5], words[6], words[7], words[8]],
        };
        assert(xfile == xfile_at(le, d, p));
        Ok(xfile)
    }

    /// Reads the list envelope at the cursor.
    pub fn read_asset_list_raw(&mut self) -> (r: Result<XAssetListRaw, Error>)
        requires
            old(self).wf(),
        ensures
            final(self).wf(),
            same_image(*final(self), *old(self)),
            old(self).pos() + 16 <= old(self).bytes().len() ==> (r matches Ok(l) && {
                let d = old(self).bytes();
                let p = old(self).pos();
                let le = old(self).wire().little_endian;
                &&& l.strings.size == u32_at(d, p, le)
                &&& l.strings.p.spec_token() == u32_at(d, p + 4, le)
                &&& l.assets.size == u32_at(d, p + 8, le)
                &&& l.assets.p.spec_token() == u32_at(d, p + 12, le)
                &&& final(self).pos() == p + 16
            }),
            old(self).pos() + 16 > old(self).bytes().len() ==> r is Err && r->Err_0.spec_kind() is Decode,
    {
        let strings_size = match self.read_u32() {
            Ok(v) => v,
            Err(e) => return Err(e),
        };
        let strings_p = match self.read_u32() {
            Ok(v) => v,
            Err(e) => return Err(e),
        };
        let assets_size = match self.read_u32() {
            Ok(v) => v,
            Err(e) => return Err(e),
        };
        let assets_p = match self.read_u32() {
            Ok(v) => v,
            Err(e) => return Err(e),
        };
        Ok(
            XAssetListRaw {
                strings: FatPointerCountFirstU32 { size: strings_size, p: Ptr32::from_u32(strings_p) },
                assets: FatPointerCountFirstU32 { size: assets_size, p: Ptr32::from_u32(assets_p) },
            },
        )
    }

    /// Reads the script string table that `strings` points to and keeps it.
    pub fn read_script_string_table(&mut self, strings: FatPointerCountFirstU32<XString>) -> (r: Result<
        (),
        Error,
    >)
        requires
            old(self).wf(),
        ensures
            final(self).wf(),
            final(self).bytes() == old(self).bytes(),
            final(self).wire() == old(self).wire(),
            final(self).platform() == old(self).platform(),
            final(self).spec_xfile() == old(self).spec_xfile(),
            match rd_script_strings(
                old(self).wire(),
                old(self).bytes(),
                old(self).pos(),
                strings.size,
                strings.p.spec_token(),
            ) {
                Ok((table, q)) => r is Ok && final(self).strings() == table && final(self).pos() == q,
                Err(f) => r is Err && r->Err_0.spec_kind().reports(f),
            },
    {
        let table = if strings.p.as_u32() == NULL_TOKEN {
            let v: Vec<String> = Vec::new();
            assert(v@.map_values(|x: String| x@) =~= Seq::<Seq<char>>::empty());
            v
        } else {
            let back = match self.enter(strings.p.as_u32()) {
                Ok(b) => b,
                Err(e) => return Err(e),
            };
            let r = read_string_records(self, strings.size);
            self.leave(back);
            match r {
                Ok(v) => v,
                Err(e) => return Err(e),
            }
        };
        assert(table@.map_values(|x: String| x@) =~= table@.map_values(|s: String| s@));
        self.set_script_strings(table);
        Ok(())
    }

    /// Reads the assets that `assets` points to, in the order of their
    /// records.
    pub fn read_assets(&mut self, assets: FatPointerCountFirstU32<XAssetRaw>) -> (r: Result<
        Vec<XAsset>,
        Error,
    >)
        requires
            old(self).wf(),
        ensures
            final(self).wf(),
            same_image(*final(self), *old(self)),
            yields_seq(
                r,
                rd_asset_list(
                    old(self).wire(),
                    old(self).bytes(),
                    old(self).pos(),
                    assets.size,
                    assets.p.spec_token(),
                    !old(self).platform().spec_is_console(),
                ),
                final(self).pos(),
            ),
    {
        let platform = self.platform_of();
        if assets.p.as_u32() == NULL_TOKEN {
            let v: Vec<XAsset> = Vec::new();
            assert(v@.map_values(|x: XAsset| x@) =~= Seq::<XAssetModel>::empty());
            return Ok(v);
        }
        let back = match self.enter(assets.p.as_u32()) {
            Ok(b) => b,
            Err(e) => return Err(e),
        };
        let r = read_asset_records(self, assets.size, platform);
        self.leave(back);
        r
    }

    /// Reads a whole payload from its start: its header, whose block sizes
    /// the rest of the pass resolves tokens with; the script string table,
    /// which is kept; and the assets, which are returned in the order of
    /// their records. The cursor ends where the pass ends.
    pub fn deserialize(&mut self) -> (r: Result<Vec<XAsset>, Error>)
        requires
            old(self).wf(),
            old(self).pos() == 0,
        ensures
            final(self).wf(),
            final(self).bytes() == old(self).bytes(),
            final(self).platform() == old(self).platform(),
            match rd_payload(
                old(self).wire().little_endian,
                !old(self).platform().spec_is_console(),
                old(self).bytes(),
            ) {
                Ok(((strings, assets), q)) => {
                    &&& r is Ok
                    &&& r->Ok_0@.map_values(|x: XAsset| x@) == assets
                    &&& final(self).strings() == strings
                    &&& final(self).pos() == q
                    &&& final(self).spec_xfile() == payload_xfile(
                        old(self).wire().little_endian,
                        old(self).bytes(),
                    )
                },
                Err(f) => r is Err && r->Err_0.spec_kind().reports(f),
            },
    {
        let ghost d = self.bytes();
        let ghost le = self.wire().little_endian;
        let ghost pc = !self.platform().spec_is_console();
        assert(d.subrange(0, d.len() as int) =~= d);
        let xfile = match self.read_xfile() {
            Ok(x) => x,
            Err(e) => return Err(e),
        };
        self.set_xfile(xfile);
        let list = match self.read_asset_list_raw() {
            Ok(l) => l,
            Err(e) => return Err(e),
        };
        let ghost w = self.wire();
        assert(w == payload_wire(le, d));
        match self.read_script_string_table(list.strings) {
            Ok(()) => {},
            Err(e) => return Err(e),
        }
        let assets = match self.read_assets(list.assets) {
            Ok(v) => v,
            Err(e) => return Err(e),
        };
        Ok(assets)
    }
}

/// What `inflate::inflate_bytes_zlib` makes of a zlib stream: the inflated
/// bytes, or nothing when it rejects the stream.
pub uninterp spec fn zlib_inflated(data: Seq<u8>) -> Option<Seq<u8>>;

/// Relies on `inflate::inflate_bytes_zlib`: inflates a zlib stream, whose
/// result depends on the stream alone; a rejected stream comes back as a
/// message.
#[verifier::external_body]
fn inflate_zlib(data: &[u8]) -> (r: Result<Vec<u8>, String>)
    ensures
        match r {
            Ok(v) => zlib_inflated(data@) == Some(v@),
            Err(_) => zlib_inflated(data@) is None,
        },
{
    inflate::inflate_bytes_zlib(data)
}

/// Checks a FastFile's header against the platform the caller expects and
/// inflates the rest of the file into the payload.
pub fn inflate_xfile(file: &[u8], platform: XFilePlatform) -> (r: Result<Vec<u8>, Error>)
    ensures
        file@.len() < 12 ==> r is Err && r->Err_0.spec_kind() is Decode,
        file@.len() >= 12 ==> {
            let h = file_header(file@);
            let rest = file@.skip(12);
            &&& r is Ok <==> header_ok(h, platform) && zlib_inflated(rest) is Some
            &&& r matches Ok(v) ==> zlib_inflated(rest) == Some(v@)
            &&& header_fault(h, platform) matches Some(k) ==> (r matches Err(e) && e.spec_kind() == k)
            &&& header_fault(h, platform) is None && !header_ok(h, platform) ==> (r matches Err(e)
                && e.spec_kind() is BadHeaderMagic)
            &&& header_ok(h, platform) && zlib_inflated(rest) is None ==> (r matches Err(e)
                && e.spec_kind() is Inflate)
        },
{
    let header = match XFileHeader::from_bytes(file) {
        Some(h) => h,
        None => {
            return Err(
                Error::new(
                    "inflate_xfile".to_owned(),
                    0,
                    ErrorKind::Decode("file shorter than its header".to_owned()),
                ),
            )
        },
    };
    match header.check(platform) {
        Ok(()) => {},
        Err(e) => return Err(e),
    }
    let mut rest: Vec<u8> = Vec::new();
    let mut i: usize = 12;
    while i < file.len()
        invariant
            12 <= i <= file@.len(),
            rest@ == file@.subrange(12, i as int),
        decreases file@.len() - i,
    {
        rest.push(file[i]);
        i += 1;
        assert(rest@ =~= file@.subrange(12, i as int));
    }
    assert(rest@ =~= file@.skip(12));
    match inflate_zlib(rest.as_slice()) {
        Ok(v) => Ok(v),
        Err(msg) => Err(Error::new("inflate_xfile".to_owned(), 12, ErrorKind::Inflate(msg))),
    }
}

/// Checks, inflates and reads a whole FastFile for `platform`.
pub fn deserialize_xfile(file: &[u8], platform: XFilePlatform) -> (r: Result<Vec<XAsset>, Error>)
    ensures
        r is Ok ==> {
            &&& file@.len() >= 12
            &&& header_ok(file_header(file@), platform)
            &&& zlib_inflated(file@.skip(12)) matches Some(payload) && rd_payload(
                platform.spec_is_le(),
                !platform.spec_is_console(),
                payload,
            ) matches Ok(((strings, assets), q)) && r->Ok_0@.map_values(|x: XAsset| x@) == assets
        },
        file@.len() >= 12 && header_ok(file_header(file@), platform) ==> match zlib_inflated(
            file@.skip(12),
        ) {
            None => r matches Err(e) && e.spec_kind() is Inflate,
            Some(payload) => match rd_payload(
                platform.spec_is_le(),
                !platform.spec_is_console(),
                payload,
            ) {
                Ok(((strings, assets), q)) => r matches Ok(v) && v@.map_values(|x: XAsset| x@)
                    == assets,
                Err(f) => r matches Err(e) && e.spec_kind().reports(f),
            },
        },
        file@.len() >= 12 ==> (header_fault(file_header(file@), platform) matches Some(k) ==> r matches Err(e)
            && e.spec_kind() == k),
        file@.len() < 12 ==> r is Err && r->Err_0.spec_kind() is Decode,
{
    let payload = match inflate_xfile(file, platform) {
        Ok(p) => p,
        Err(e) => return Err(e),
    };
    let mut de = T5XFileDeserializer::new(payload, platform);
    de.deserialize()
}

} // verus!
