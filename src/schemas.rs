//! The asset layouts this library reads. Each has a raw form that mirrors
//! its fixed-size bytes on the wire, a decoded form that owns its strings
//! and children, and a model of both reads in terms of [`crate::wire`].
use vstd::prelude::*;

use crate::deserializer::{same_image, T5XFileDeserializer};
use crate::error::{Error, ErrorKind, Fault};
use crate::text::{lossy_string, utf8_lossy};
use crate::wire::{
    i32_of, is_inline, lemma_repeat_fails_on, or_empty, rd_byte_array, rd_deref, rd_i16,
    rd_records, rd_repeat, rd_xstring, shifted, u32_at, yields_opt, yields_seq,
    yields_view, Read, Wire, NULL_TOKEN,
};

verus! {

/// A pointer field: a 32-bit token that is null, inline, or an address.
#[derive(Debug)]
pub struct Ptr32<T> {
    token: u32,
    _target: core::marker::PhantomData<T>,
}

impl<T> Clone for Ptr32<T> {
    fn clone(&self) -> (r: Ptr32<T>)
        ensures
            r.spec_token() == self.spec_token(),
    {
        Ptr32::from_u32(self.token)
    }
}

impl<T> Copy for Ptr32<T> {
}

impl<T> Ptr32<T> {
    pub closed spec fn spec_token(&self) -> u32 {
        self.token
    }

    pub fn from_u32(value: u32) -> (r: Ptr32<T>)
        ensures
            r.spec_token() == value,
    {
        Ptr32 { token: value, _target: core::marker::PhantomData }
    }

    pub fn as_u32(&self) -> (r: u32)
        ensures
            r == self.spec_token(),
    {
        self.token
    }

    /// The same token, read as pointing to another type.
    pub fn cast<U>(self) -> (r: Ptr32<U>)
        ensures
            r.spec_token() == self.spec_token(),
    {
        Ptr32 { token: self.token, _target: core::marker::PhantomData }
    }

    /// The same token, read as pointing to `size` values one after the other.
    pub fn to_array(self, size: usize) -> (r: Ptr32Array<T>)
        ensures
            r.p.spec_token() == self.spec_token(),
            r.size == size,
    {
        Ptr32Array { p: self, size }
    }
}

/// A pointer to `size` values.
#[derive(Copy, Clone, Debug)]
pub struct Ptr32Array<T> {
    pub p: Ptr32<T>,
    pub size: usize,
}

/// A pointer to a NUL-terminated string.
#[derive(Copy, Clone, Debug)]
pub struct XString(Ptr32<u8>);

impl XString {
    pub closed spec fn spec_token(&self) -> u32 {
        self.0.spec_token()
    }

    pub fn from_u32(value: u32) -> (r: XString)
        ensures
            r.spec_token() == value,
    {
        XString(Ptr32::from_u32(value))
    }

    pub fn as_u32(self) -> (r: u32)
        ensures
            r == self.spec_token(),
    {
        self.0.as_u32()
    }

    /// The string this pointer refers to; empty for the null token.
    pub fn xfile_into(self, de: &mut T5XFileDeserializer) -> (r: Result<String, Error>)
        requires
            old(de).wf(),
        ensures
            final(de).wf(),
            same_image(*final(de), *old(de)),
            yields_view(
                r,
                rd_xstring(old(de).wire(), old(de).bytes(), old(de).pos(), self.spec_token()),
                final(de).pos(),
            ),
    {
        de.read_xstring(self.0.as_u32())
    }
}

// ---------------------------------------------------------------------------
// Localized strings.

/// The raw layout of a localized string: two string pointers.
#[derive(Copy, Clone, Debug)]
pub struct LocalizeEntryRaw {
    pub value: XString,
    pub name: XString,
}

#[derive(Clone, Debug)]
pub struct LocalizeEntry {
    pub value: String,
    pub name: String,
}

pub struct LocalizeEntryModel {
    pub value: Seq<char>,
    pub name: Seq<char>,
}

impl View for LocalizeEntry {
    type V = LocalizeEntryModel;

    open spec fn view(&self) -> LocalizeEntryModel {
        LocalizeEntryModel { value: self.value@, name: self.name@ }
    }
}

/// The raw bytes of a localized string at `p`: its two tokens.
pub open spec fn rd_localize_entry_raw(w: Wire, d: Seq<u8>, p: int) -> Read<(u32, u32)> {
    if p < 0 || p + 8 > d.len() {
        Err(Fault::Truncated)
    } else {
        Ok(((u32_at(d, p, w.little_endian), u32_at(d, p + 4, w.little_endian)), p + 8))
    }
}

/// Decoding a localized string whose raw tokens are `raw`, from `q` on:
/// first the value, then the name.
pub open spec fn cv_localize_entry(w: Wire, d: Seq<u8>, q: int, raw: (u32, u32)) -> Read<
    LocalizeEntryModel,
> {
    match rd_xstring(w, d, q, raw.0) {
        Err(e) => Err(e),
        Ok((value, q1)) => match rd_xstring(w, d, q1, raw.1) {
            Err(e) => Err(e),
            Ok((name, q2)) => Ok((LocalizeEntryModel { value, name }, q2)),
        },
    }
}

/// A localized string at `p`: its raw bytes, then what decoding them reads.
pub open spec fn rd_localize_entry(w: Wire, d: Seq<u8>, p: int) -> Read<LocalizeEntryModel> {
    match rd_localize_entry_raw(w, d, p) {
        Err(e) => Err(e),
        Ok((raw, q)) => cv_localize_entry(w, d, q, raw),
    }
}

impl LocalizeEntryRaw {
    pub fn read(de: &mut T5XFileDeserializer) -> (r: Result<LocalizeEntryRaw, Error>)
        requires
            old(de).wf(),
        ensures
            final(de).wf(),
            same_image(*final(de), *old(de)),
            match rd_localize_entry_raw(old(de).wire(), old(de).bytes(), old(de).pos()) {
                Ok((raw, q)) => r matches Ok(v) && v.value.spec_token() == raw.0
                    && v.name.spec_token() == raw.1 && final(de).pos() == q,
                Err(f) => r is Err && r->Err_0.spec_kind().reports(f),
            },
    {
        let value = match de.read_u32() {
            Ok(v) => v,
            Err(e) => return Err(e),
        };
        let name = match de.read_u32() {
            Ok(v) => v,
            Err(e) => return Err(e),
        };
        Ok(LocalizeEntryRaw { value: XString::from_u32(value), name: XString::from_u32(name) })
    }

    pub fn xfile_into(self, de: &mut T5XFileDeserializer) -> (r: Result<LocalizeEntry, Error>)
        requires
            old(de).wf(),
        ensures
            final(de).wf(),
            same_image(*final(de), *old(de)),
            yields_view(
                r,
                cv_localize_entry(
                    old(de).wire(),
                    old(de).bytes(),
                    old(de).pos(),
                    (self.value.spec_token(), self.name.spec_token()),
                ),
                final(de).pos(),
            ),
    {
        let value = match self.value.xfile_into(de) {
            Ok(v) => v,
            Err(e) => return Err(e),
        };
        let name = match self.name.xfile_into(de) {
            Ok(v) => v,
            Err(e) => return Err(e),
        };
        Ok(LocalizeEntry { value, name })
    }
}

/// Reads the localized string a pointer token refers to.
pub fn read_localize_entry_ptr(de: &mut T5XFileDeserializer, token: u32) -> (r: Result<
    Option<Box<LocalizeEntry>>,
    Error,
>)
    requires
        old(de).wf(),
    ensures
        final(de).wf(),
        same_image(*final(de), *old(de)),
        yields_opt(
            r,
            rd_deref(
                old(de).wire(),
                old(de).bytes(),
                old(de).pos(),
                token,
                |t: int| rd_localize_entry(old(de).wire(), old(de).bytes(), t),
            ),
            final(de).pos(),
        ),
        !is_inline(token) ==> final(de).pos() == old(de).pos(),
{
    if token == NULL_TOKEN {
        return Ok(None);
    }
    let back = match de.enter(token) {
        Ok(b) => b,
        Err(e) => return Err(e),
    };
    let r = match LocalizeEntryRaw::read(de) {
        Ok(raw) => raw.xfile_into(de),
        Err(e) => Err(e),
    };
    de.leave(back);
    match r {
        Ok(v) => Ok(Some(Box::new(v))),
        Err(e) => Err(e),
    }
}

// ---------------------------------------------------------------------------
// Fat pointers.

/// A 32-bit count followed by a pointer to that many values.
#[derive(Copy, Clone, Debug)]
pub struct FatPointerCountFirstU32<T> {
    pub size: u32,
    pub p: Ptr32<T>,
}

/// A pointer followed by the 32-bit count of the values it points to.
#[derive(Copy, Clone, Debug)]
pub struct FatPointerCountLastU32<T> {
    pub p: Ptr32<T>,
    pub size: u32,
}

/// A byte buffer read as text: one trailing NUL is dropped, and any other
/// NUL makes the text malformed.
pub open spec fn text_of_bytes(b: Seq<u8>) -> Result<Seq<char>, Fault> {
    if exists|i: int| 0 <= i < text_body(b).len() && #[trigger] text_body(b)[i] == 0 {
        Err(Fault::Malformed)
    } else {
        Ok(utf8_lossy(text_body(b)))
    }
}

/// The bytes of a text buffer without its trailing NUL, if it has one.
pub open spec fn text_body(b: Seq<u8>) -> Seq<u8> {
    if b.len() > 0 && b.last() == 0 {
        b.drop_last()
    } else {
        b
    }
}

/// The text held in a byte buffer, as [`text_of_bytes`] gives it.
fn text_from_bytes(de: &T5XFileDeserializer, b: Vec<u8>) -> (r: Result<String, Error>)
    ensures
        match text_of_bytes(b@) {
            Ok(t) => r is Ok && r->Ok_0@ == t,
            Err(f) => r is Err && r->Err_0.spec_kind().reports(f),
        },
{
    let ghost body = text_body(b@);
    let mut v = b;
    let n = v.len();
    if n > 0 && v[n - 1] == 0 {
        v.pop();
    }
    assert(v@ == body);
    let mut i: usize = 0;
    while i < v.len()
        invariant
            v@ == body,
            body == text_body(b@),
            i <= v@.len(),
            forall|k: int| 0 <= k < i ==> v@[k] != 0,
        decreases v@.len() - i,
    {
        if v[i] == 0 {
            assert(text_body(b@)[i as int] == 0);
            return Err(
                de.fail("text_from_bytes", ErrorKind::BrokenInvariant("NUL inside text".to_owned())),
            );
        }
        i += 1;
    }
    Ok(lossy_string(v.as_slice()))
}

// ---------------------------------------------------------------------------
// Raw files.

/// The raw layout of a raw file: a name pointer and a counted byte buffer.
#[derive(Copy, Clone, Debug)]
pub struct RawFileRaw {
    pub name: XString,
    pub buffer: FatPointerCountFirstU32<u8>,
}

#[derive(Clone, Debug)]
pub struct RawFile {
    pub name: String,
    pub buffer: Vec<u8>,
}

pub struct RawFileModel {
    pub name: Seq<char>,
    pub buffer: Seq<u8>,
}

impl View for RawFile {
    type V = RawFileModel;

    open spec fn view(&self) -> RawFileModel {
        RawFileModel { name: self.name@, buffer: self.buffer@ }
    }
}

/// The raw words of a raw file at `p`: name token, byte count, buffer token.
pub open spec fn rd_raw_file_raw(w: Wire, d: Seq<u8>, p: int) -> Read<(u32, u32, u32)> {
    if p < 0 || p + 12 > d.len() {
        Err(Fault::Truncated)
    } else {
        Ok(
            (
                (
                    u32_at(d, p, w.little_endian),
                    u32_at(d, p + 4, w.little_endian),
                    u32_at(d, p + 8, w.little_endian),
                ),
                p + 12,
            ),
        )
    }
}

/// Decoding a raw file from `q` on: its name, then its bytes.
pub open spec fn cv_raw_file(w: Wire, d: Seq<u8>, q: int, raw: (u32, u32, u32)) -> Read<
    RawFileModel,
> {
    match rd_xstring(w, d, q, raw.0) {
        Err(e) => Err(e),
        Ok((name, q1)) => match rd_byte_array(w, d, q1, raw.2, raw.1 as int) {
            Err(e) => Err(e),
            Ok((buffer, q2)) => Ok((RawFileModel { name, buffer }, q2)),
        },
    }
}

pub open spec fn rd_raw_file(w: Wire, d: Seq<u8>, p: int) -> Read<RawFileModel> {
    match rd_raw_file_raw(w, d, p) {
        Err(e) => Err(e),
        Ok((raw, q)) => cv_raw_file(w, d, q, raw),
    }
}

impl RawFileRaw {
    pub open spec fn spec_words(&self) -> (u32, u32, u32) {
        (self.name.spec_token(), self.buffer.size, self.buffer.p.spec_token())
    }

    pub fn read(de: &mut T5XFileDeserializer) -> (r: Result<RawFileRaw, Error>)
        requires
            old(de).wf(),
        ensures
            final(de).wf(),
            same_image(*final(de), *old(de)),
            match rd_raw_file_raw(old(de).wire(), old(de).bytes(), old(de).pos()) {
                Ok((raw, q)) => r matches Ok(v) && v.spec_words() == raw && final(de).pos() == q,
                Err(f) => r is Err && r->Err_0.spec_kind().reports(f),
            },
    {
        let name = match de.read_u32() {
            Ok(v) => v,
            Err(e) => return Err(e),
        };
        let size = match de.read_u32() {
            Ok(v) => v,
            Err(e) => return Err(e),
        };
        let p = match de.read_u32() {
            Ok(v) => v,
            Err(e) => return Err(e),
        };
        Ok(
            RawFileRaw {
                name: XString::from_u32(name),
                buffer: FatPointerCountFirstU32 { size, p: Ptr32::from_u32(p) },
            },
        )
    }

    pub fn xfile_into(self, de: &mut T5XFileDeserializer) -> (r: Result<RawFile, Error>)
        requires
            old(de).wf(),
        ensures
            final(de).wf(),
            same_image(*final(de), *old(de)),
            yields_view(
                r,
                cv_raw_file(old(de).wire(), old(de).bytes(), old(de).pos(), self.spec_words()),
                final(de).pos(),
            ),
    {
        let name = match self.name.xfile_into(de) {
            Ok(v) => v,
            Err(e) => return Err(e),
        };
        let buffer = match de.read_byte_array(self.buffer.p.as_u32(), self.buffer.size as usize) {
            Ok(v) => v,
            Err(e) => return Err(e),
        };
        Ok(RawFile { name, buffer })
    }
}

/// Reads the raw file a pointer token refers to.
pub fn read_raw_file_ptr(de: &mut T5XFileDeserializer, token: u32) -> (r: Result<
    Option<Box<RawFile>>,
    Error,
>)
    requires
        old(de).wf(),
    ensures
        final(de).wf(),
        same_image(*final(de), *old(de)),
        yields_opt(
            r,
            rd_deref(
                old(de).wire(),
                old(de).bytes(),
                old(de).pos(),
                token,
                |t: int| rd_raw_file(old(de).wire(), old(de).bytes(), t),
            ),
            final(de).pos(),
        ),
        !is_inline(token) ==> final(de).pos() == old(de).pos(),
{
    if token == NULL_TOKEN {
        return Ok(None);
    }
    let back = match de.enter(token) {
        Ok(b) => b,
        Err(e) => return Err(e),
    };
    let r = match RawFileRaw::read(de) {
        Ok(raw) => raw.xfile_into(de),
        Err(e) => Err(e),
    };
    de.leave(back);
    match r {
        Ok(v) => Ok(Some(Box::new(v))),
        Err(e) => Err(e),
    }
}

// ---------------------------------------------------------------------------
// Map entities.

/// The raw layout of a map's entity string: a name pointer and a byte buffer
/// whose count follows its pointer.
#[derive(Copy, Clone, Debug)]
pub struct MapEntsRaw {
    pub name: XString,
    pub entity_string: FatPointerCountLastU32<u8>,
}

#[derive(Clone, Debug)]
pub struct MapEnts {
    pub name: String,
    pub entity_string: String,
}

pub struct MapEntsModel {
    pub name: Seq<char>,
    pub entity_string: Seq<char>,
}

impl View for MapEnts {
    type V = MapEntsModel;

    open spec fn view(&self) -> MapEntsModel {
        MapEntsModel { name: self.name@, entity_string: self.entity_string@ }
    }
}

/// The raw words of map entities at `p`: name token, buffer token, count.
pub open spec fn rd_map_ents_raw(w: Wire, d: Seq<u8>, p: int) -> Read<(u32, u32, u32)> {
    rd_raw_file_raw(w, d, p)
}

/// Decoding map entities from `q` on: the name, then the entity text.
pub open spec fn cv_map_ents(w: Wire, d: Seq<u8>, q: int, raw: (u32, u32, u32)) -> Read<
    MapEntsModel,
> {
    match rd_xstring(w, d, q, raw.0) {
        Err(e) => Err(e),
        Ok((name, q1)) => match rd_byte_array(w, d, q1, raw.1, raw.2 as int) {
            Err(e) => Err(e),
            Ok((bytes, q2)) => match text_of_bytes(bytes) {
                Err(e) => Err(e),
                Ok(entity_string) => Ok((MapEntsModel { name, entity_string }, q2)),
            },
        },
    }
}

pub open spec fn rd_map_ents(w: Wire, d: Seq<u8>, p: int) -> Read<MapEntsModel> {
    match rd_map_ents_raw(w, d, p) {
        Err(e) => Err(e),
        Ok((raw, q)) => cv_map_ents(w, d, q, raw),
    }
}

impl MapEntsRaw {
    pub open spec fn spec_words(&self) -> (u32, u32, u32) {
        (self.name.spec_token(), self.entity_string.p.spec_token(), self.entity_string.size)
    }

    pub fn read(de: &mut T5XFileDeserializer) -> (r: Result<MapEntsRaw, Error>)
        requires
            old(de).wf(),
        ensures
            final(de).wf(),
            same_image(*final(de), *old(de)),
            match rd_map_ents_raw(old(de).wire(), old(de).bytes(), old(de).pos()) {
                Ok((raw, q)) => r matches Ok(v) && v.spec_words() == raw && final(de).pos() == q,
                Err(f) => r is Err && r->Err_0.spec_kind().reports(f),
            },
    {
        let name = match de.read_u32() {
            Ok(v) => v,
            Err(e) => return Err(e),
        };
        let p = match de.read_u32() {
            Ok(v) => v,
            Err(e) => return Err(e),
        };
        let size = match de.read_u32() {
            Ok(v) => v,
            Err(e) => return Err(e),
        };
        Ok(
            MapEntsRaw {
                name: XString::from_u32(name),
                entity_string: FatPointerCountLastU32 { p: Ptr32::from_u32(p), size },
            },
        )
    }

    pub fn xfile_into(self, de: &mut T5XFileDeserializer) -> (r: Result<MapEnts, Error>)
        requires
            old(de).wf(),
        ensures
            final(de).wf(),
            same_image(*final(de), *old(de)),
            yields_view(
                r,
                cv_map_ents(old(de).wire(), old(de).bytes(), old(de).pos(), self.spec_words()),
                final(de).pos(),
            ),
    {
        let name = match self.name.xfile_into(de) {
            Ok(v) => v,
            Err(e) => return Err(e),
        };
        let bytes = match de.read_byte_array(
            self.entity_string.p.as_u32(),
            self.entity_string.size as usize,
        ) {
            Ok(v) => v,
            Err(e) => return Err(e),
        };
        let entity_string = match text_from_bytes(de, bytes) {
            Ok(v) => v,
            Err(e) => return Err(e),
        };
        Ok(MapEnts { name, entity_string })
    }
}

/// Reads the map entities a pointer token refers to.
pub fn read_map_ents_ptr(de: &mut T5XFileDeserializer, token: u32) -> (r: Result<
    Option<Box<MapEnts>>,
    Error,
>)
    requires
        old(de).wf(),
    ensures
        final(de).wf(),
        same_image(*final(de), *old(de)),
        yields_opt(
            r,
            rd_deref(
                old(de).wire(),
                old(de).bytes(),
                old(de).pos(),
                token,
                |t: int| rd_map_ents(old(de).wire(), old(de).bytes(), t),
            ),
            final(de).pos(),
        ),
        !is_inline(token) ==> final(de).pos() == old(de).pos(),
{
    if token == NULL_TOKEN {
        return Ok(None);
    }
    let back = match de.enter(token) {
        Ok(b) => b,
        Err(e) => return Err(e),
    };
    let r = match MapEntsRaw::read(de) {
        Ok(raw) => raw.xfile_into(de),
        Err(e) => Err(e),
    };
    de.leave(back);
    match r {
        Ok(v) => Ok(Some(Box::new(v))),
        Err(e) => Err(e),
    }
}

// ---------------------------------------------------------------------------
// String tables.

/// The raw layout of one cell of a string table: a string pointer and the
/// string's hash.
#[derive(Copy, Clone, Debug)]
pub struct StringTableCellRaw {
    pub name: XString,
    pub hash: i32,
}

#[derive(Clone, Debug)]
pub struct StringTableCell {
    pub name: String,
    pub hash: i32,
}

pub struct StringTableCellModel {
    pub name: Seq<char>,
    pub hash: i32,
}

impl View for StringTableCell {
    type V = StringTableCellModel;

    open spec fn view(&self) -> StringTableCellModel {
        StringTableCellModel { name: self.name@, hash: self.hash }
    }
}

/// Decoding the cell whose raw bytes start at `s`, reading on from `q`.
pub open spec fn cell_conv(w: Wire, d: Seq<u8>) -> spec_fn(int, int) -> Read<StringTableCellModel> {
    |s: int, q: int|
        match rd_xstring(w, d, q, u32_at(d, s, w.little_endian)) {
            Err(e) => Err(e),
            Ok((name, q1)) => Ok(
                (
                    StringTableCellModel {
                        name,
                        hash: i32_of(u32_at(d, s + 4, w.little_endian)) as i32,
                    },
                    q1,
                ),
            ),
        }
}

/// One 16-bit signed value per item.
pub open spec fn i16_step(w: Wire, d: Seq<u8>) -> spec_fn(int, int) -> Read<i16> {
    |i: int, q: int| rd_i16(w, d, q)
}

/// Decodes the cell whose raw bytes start at `s`, reading on from the cursor.
fn convert_cell(de: &mut T5XFileDeserializer, raw: StringTableCellRaw, Ghost(s): Ghost<int>) -> (r:
    Result<StringTableCell, Error>)
    requires
        old(de).wf(),
        raw.name.spec_token() == u32_at(old(de).bytes(), s, old(de).wire().little_endian),
        raw.hash == i32_of(u32_at(old(de).bytes(), s + 4, old(de).wire().little_endian)) as i32,
    ensures
        final(de).wf(),
        same_image(*final(de), *old(de)),
        yields_view(r, cell_conv(old(de).wire(), old(de).bytes())(s, old(de).pos()), final(de).pos()),
{
    let name = match raw.name.xfile_into(de) {
        Ok(v) => v,
        Err(e) => return Err(e),
    };
    Ok(StringTableCell { name, hash: raw.hash })
}

/// Reads `n` string table cells at the cursor: all raw cells first, then
/// the string of each.
fn read_cells(de: &mut T5XFileDeserializer, n: u64) -> (r: Result<Vec<StringTableCell>, Error>)
    requires
        old(de).wf(),
    ensures
        final(de).wf(),
        same_image(*final(de), *old(de)),
        yields_seq(
            r,
            rd_records(old(de).bytes(), old(de).pos(), n as nat, 8, cell_conv(old(de).wire(), old(de).bytes())),
            final(de).pos(),
        ),
{
    let ghost w = de.wire();
    let ghost d = de.bytes();
    let ghost f = shifted(de.pos(), 8, cell_conv(w, d));
    let t = de.stream_pos();
    if n > ((de.stream_len() - t) / 8) as u64 {
        return Err(de.truncated("read_cells"));
    }
    let count = n as usize;
    let mut raws: Vec<StringTableCellRaw> = Vec::new();
    let mut i: usize = 0;
    while i < count
        invariant
            de.wf(),
            same_image(*de, *old(de)),
            w == de.wire(),
            d == de.bytes(),
            t == old(de).pos(),
            count == n,
            t + 8 * count <= d.len(),
            i <= count,
            de.pos() == t + 8 * i,
            raws@.len() == i,
            forall|j: int|
                0 <= j < i ==> (#[trigger] raws@[j]).name.spec_token() == u32_at(d, t + 8 * j, w.little_endian)
                    && raws@[j].hash == i32_of(u32_at(d, t + 8 * j + 4, w.little_endian)) as i32,
        decreases count - i,
    {
        let name = match de.read_u32() {
            Ok(v) => v,
            Err(e) => return Err(e),
        };
        let hash = match de.read_i32() {
            Ok(v) => v,
            Err(e) => return Err(e),
        };
        raws.push(StringTableCellRaw { name: XString::from_u32(name), hash });
        i += 1;
    }
    let mut out: Vec<StringTableCell> = Vec::new();
    assert(out@.map_values(|x: StringTableCell| x@) =~= Seq::<StringTableCellModel>::empty());
    let mut j: usize = 0;
    while j < count
        invariant
            de.wf(),
            same_image(*de, *old(de)),
            w == de.wire(),
            d == de.bytes(),
            w == old(de).wire(),
            d == old(de).bytes(),
            t == old(de).pos(),
            count == n,
            f == shifted(t as int, 8, cell_conv(w, d)),
            t + 8 * count <= d.len(),
            j <= count,
            out@.len() == j,
            raws@.len() == count,
            forall|k: int|
                0 <= k < count ==> (#[trigger] raws@[k]).name.spec_token() == u32_at(d, t + 8 * k, w.little_endian)
                    && raws@[k].hash == i32_of(u32_at(d, t + 8 * k + 4, w.little_endian)) as i32,
            rd_repeat(t + 8 * count, j as nat, f) == Ok::<(Seq<StringTableCellModel>, int), Fault>(
                (out@.map_values(|x: StringTableCell| x@), de.pos()),
            ),
        decreases count - j,
    {
        let raw = raws[j];
        let ghost q = de.pos();
        assert(f(j as int, q) == cell_conv(w, d)(t + 8 * j, q));
        let cell = match convert_cell(de, raw, Ghost(t + 8 * j)) {
            Ok(v) => v,
            Err(e) => {
                proof {
                    assert(f(j as int, q) is Err);
                    assert(rd_repeat(t + 8 * count, (j + 1) as nat, f) == Err::<
                        (Seq<StringTableCellModel>, int),
                        Fault,
                    >(f(j as int, q)->Err_0));
                    lemma_repeat_fails_on(t + 8 * count, (j + 1) as nat, count as nat, f);
                }
                return Err(e);
            },
        };
        let ghost before = out@;
        out.push(cell);
        assert(out@.map_values(|x: StringTableCell| x@) =~= before.map_values(
            |x: StringTableCell| x@,
        ).push(out@[j as int]@));
        j += 1;
    }
    Ok(out)
}

/// Reads `n` signed 16-bit values at the cursor.
fn read_i16s(de: &mut T5XFileDeserializer, n: u64) -> (r: Result<Vec<i16>, Error>)
    requires
        old(de).wf(),
    ensures
        final(de).wf(),
        same_image(*final(de), *old(de)),
        yields_view(
            r,
            rd_repeat(old(de).pos(), n as nat, i16_step(old(de).wire(), old(de).bytes())),
            final(de).pos(),
        ),
{
    let ghost f = i16_step(de.wire(), de.bytes());
    let ghost p0 = de.pos();
    let mut out: Vec<i16> = Vec::new();
    let mut i: u64 = 0;
    while i < n
        invariant
            de.wf(),
            same_image(*de, *old(de)),
            f == i16_step(de.wire(), de.bytes()),
            p0 == old(de).pos(),
            i <= n,
            rd_repeat(p0, i as nat, f) == Ok::<(Seq<i16>, int), Fault>((out@, de.pos())),
        decreases n - i,
    {
        let v = match de.read_i16() {
            Ok(v) => v,
            Err(e) => {
                proof {
                    lemma_repeat_fails_on(p0, (i + 1) as nat, n as nat, f);
                }
                return Err(e);
            },
        };
        out.push(v);
        i += 1;
    }
    Ok(out)
}

/// The raw layout of a string table.
#[derive(Copy, Clone, Debug)]
pub struct StringTableRaw {
    pub name: XString,
    pub column_count: i32,
    pub row_count: i32,
    pub values: Ptr32<StringTableCellRaw>,
    pub cell_index: Ptr32<i16>,
}

#[derive(Clone, Debug)]
pub struct StringTable {
    pub name: String,
    pub column_count: usize,
    pub row_count: usize,
    pub values: Vec<StringTableCell>,
    pub cell_index: Vec<i16>,
}

pub struct StringTableModel {
    pub name: Seq<char>,
    pub column_count: usize,
    pub row_count: usize,
    pub values: Seq<StringTableCellModel>,
    pub cell_index: Seq<i16>,
}

impl View for StringTable {
    type V = StringTableModel;

    open spec fn view(&self) -> StringTableModel {
        StringTableModel {
            name: self.name@,
            column_count: self.column_count,
            row_count: self.row_count,
            values: self.values@.map_values(|x: StringTableCell| x@),
            cell_index: self.cell_index@,
        }
    }
}

/// The raw words of a string table at `p`: name token, column count, row
/// count, cells token, index token.
pub open spec fn rd_string_table_raw(w: Wire, d: Seq<u8>, p: int) -> Read<(u32, i32, i32, u32, u32)> {
    if p < 0 || p + 20 > d.len() {
        Err(Fault::Truncated)
    } else {
        Ok(
            (
                (
                    u32_at(d, p, w.little_endian),
                    i32_of(u32_at(d, p + 4, w.little_endian)) as i32,
                    i32_of(u32_at(d, p + 8, w.little_endian)) as i32,
                    u32_at(d, p + 12, w.little_endian),
                    u32_at(d, p + 16, w.little_endian),
                ),
                p + 20,
            ),
        )
    }
}

/// Decoding a string table from `q` on. A negative count is malformed.
/// Otherwise the table has `columns * rows` cells: its name is read, then
/// its cells, then its index of as many 16-bit values.
pub open spec fn cv_string_table(w: Wire, d: Seq<u8>, q: int, raw: (u32, i32, i32, u32, u32)) -> Read<
    StringTableModel,
> {
    if raw.1 < 0 || raw.2 < 0 {
        Err(Fault::Malformed)
    } else {
        let n = (raw.1 as int * raw.2 as int) as nat;
        match rd_xstring(w, d, q, raw.0) {
            Err(e) => Err(e),
            Ok((name, q1)) => match or_empty(
                rd_deref(w, d, q1, raw.3, |t: int| rd_records(d, t, n, 8, cell_conv(w, d))),
            ) {
                Err(e) => Err(e),
                Ok((values, q2)) => match or_empty(
                    rd_deref(w, d, q2, raw.4, |t: int| rd_repeat(t, n, i16_step(w, d))),
                ) {
                    Err(e) => Err(e),
                    Ok((cell_index, q3)) => Ok(
                        (
                            StringTableModel {
                                name,
                                column_count: raw.1 as usize,
                                row_count: raw.2 as usize,
                                values,
                                cell_index,
                            },
                            q3,
                        ),
                    ),
                },
            },
        }
    }
}

pub open spec fn rd_string_table(w: Wire, d: Seq<u8>, p: int) -> Read<StringTableModel> {
    match rd_string_table_raw(w, d, p) {
        Err(e) => Err(e),
        Ok((raw, q)) => cv_string_table(w, d, q, raw),
    }
}

impl StringTableRaw {
    pub open spec fn spec_words(&self) -> (u32, i32, i32, u32, u32) {
        (
            self.name.spec_token(),
            self.column_count,
            self.row_count,
            self.values.spec_token(),
            self.cell_index.spec_token(),
        )
    }

    pub fn read(de: &mut T5XFileDeserializer) -> (r: Result<StringTableRaw, Error>)
        requires
            old(de).wf(),
        ensures
            final(de).wf(),
            same_image(*final(de), *old(de)),
            match rd_string_table_raw(old(de).wire(), old(de).bytes(), old(de).pos()) {
                Ok((raw, q)) => r matches Ok(v) && v.spec_words() == raw && final(de).pos() == q,
                Err(f) => r is Err && r->Err_0.spec_kind().reports(f),
            },
    {
        let name = match de.read_u32() {
            Ok(v) => v,
            Err(e) => return Err(e),
        };
        let column_count = match de.read_i32() {
            Ok(v) => v,
            Err(e) => return Err(e),
        };
        let row_count = match de.read_i32() {
            Ok(v) => v,
            Err(e) => return Err(e),
        };
        let values = match de.read_u32() {
            Ok(v) => v,
            Err(e) => return Err(e),
        };
        let cell_index = match de.read_u32() {
            Ok(v) => v,
            Err(e) => return Err(e),
        };
        Ok(
            StringTableRaw {
                name: XString::from_u32(name),
                column_count,
                row_count,
                values: Ptr32::from_u32(values),
                cell_index: Ptr32::from_u32(cell_index),
            },
        )
    }

    pub fn xfile_into(self, de: &mut T5XFileDeserializer) -> (r: Result<StringTable, Error>)
        requires
            old(de).wf(),
        ensures
            final(de).wf(),
            same_image(*final(de), *old(de)),
            yields_view(
                r,
                cv_string_table(old(de).wire(), old(de).bytes(), old(de).pos(), self.spec_words()),
                final(de).pos(),
            ),
    {
        if self.column_count < 0 || self.row_count < 0 {
            return Err(
                de.fail(
                    "StringTableRaw::xfile_into",
                    ErrorKind::BrokenInvariant("negative string table size".to_owned()),
                ),
            );
        }
        let columns = self.column_count as u64;
        let rows = self.row_count as u64;
        assert(columns * rows <= 0x7FFF_FFFF * 0x7FFF_FFFF) by (nonlinear_arith)
            requires
                columns <= 0x7FFF_FFFF,
                rows <= 0x7FFF_FFFF,
        ;
        let size: u64 = columns * rows;
        assert(size as int == self.column_count as int * self.row_count as int);
        let name = match self.name.xfile_into(de) {
            Ok(v) => v,
            Err(e) => return Err(e),
        };
        let values = if self.values.as_u32() == NULL_TOKEN {
            let v: Vec<StringTableCell> = Vec::new();
            assert(v@.map_values(|x: StringTableCell| x@) =~= Seq::<StringTableCellModel>::empty());
            v
        } else {
            let back = match de.enter(self.values.as_u32()) {
                Ok(b) => b,
                Err(e) => return Err(e),
            };
            let r = read_cells(de, size);
            de.leave(back);
            match r {
                Ok(v) => v,
                Err(e) => return Err(e),
            }
        };
        let cell_index = if self.cell_index.as_u32() == NULL_TOKEN {
            Vec::new()
        } else {
            let back = match de.enter(self.cell_index.as_u32()) {
                Ok(b) => b,
                Err(e) => return Err(e),
            };
            let r = read_i16s(de, size);
            de.leave(back);
            match r {
                Ok(v) => v,
                Err(e) => return Err(e),
            }
        };
        let r = StringTable {
            name,
            column_count: self.column_count as usize,
            row_count: self.row_count as usize,
            values,
            cell_index,
        };
        Ok(r)
    }
}

/// Reads the string table a pointer token refers to.
pub fn read_string_table_ptr(de: &mut T5XFileDeserializer, token: u32) -> (r: Result<
    Option<Box<StringTable>>,
    Error,
>)
    requires
        old(de).wf(),
    ensures
        final(de).wf(),
        same_image(*final(de), *old(de)),
        yields_opt(
            r,
            rd_deref(
                old(de).wire(),
                old(de).bytes(),
                old(de).pos(),
                token,
                |t: int| rd_string_table(old(de).wire(), old(de).bytes(), t),
            ),
            final(de).pos(),
        ),
        !is_inline(token) ==> final(de).pos() == old(de).pos(),
{
    if token == NULL_TOKEN {
        return Ok(None);
    }
    let back = match de.enter(token) {
        Ok(b) => b,
        Err(e) => return Err(e),
    };
    let r = match StringTableRaw::read(de) {
        Ok(raw) => raw.xfile_into(de),
        Err(e) => Err(e),
    };
    de.leave(back);
    match r {
        Ok(v) => Ok(Some(Box::new(v))),
        Err(e) => Err(e),
    }
}

// ---------------------------------------------------------------------------
// Pack indices.

/// The raw header of a pack index.
#[derive(Copy, Clone, Debug)]
pub struct PackIndexHeaderRaw {
    pub magic: u32,
    pub timestamp: u32,
    pub count: u32,
    pub alignment: u32,
    pub data_start: u32,
}

#[derive(Copy, Clone, Debug, PartialEq, Eq, Structural)]
pub struct PackIndexHeader {
    pub magic: u32,
    pub timestamp: u32,
    pub count: usize,
    pub alignment: usize,
    pub data_start: usize,
}

impl PackIndexHeaderRaw {
    pub open spec fn spec_into(self) -> PackIndexHeader {
        PackIndexHeader {
            magic: self.magic,
            timestamp: self.timestamp,
            count: self.count as usize,
            alignment: self.alignment as usize,
            data_start: self.data_start as usize,
        }
    }

    pub fn into(self) -> (r: PackIndexHeader)
        ensures
            r == self.spec_into(),
    {
        PackIndexHeader {
            magic: self.magic,
            timestamp: self.timestamp,
            count: self.count as usize,
            alignment: self.alignment as usize,
            data_start: self.data_start as usize,
        }
    }
}

/// The raw layout of one pack index entry.
#[derive(Copy, Clone, Debug)]
pub struct PackIndexEntryRaw {
    pub hash: u32,
    pub offset: u32,
    pub size: u32,
}

#[derive(Copy, Clone, Debug, PartialEq, Eq, Structural)]
pub struct PackIndexEntry {
    pub hash: u32,
    pub offset: usize,
    pub size: usize,
}

impl PackIndexEntryRaw {
    pub fn into(self) -> (r: PackIndexEntry)
        ensures
            r == (PackIndexEntry {
                hash: self.hash,
                offset: self.offset as usize,
                size: self.size as usize,
            }),
    {
        PackIndexEntry { hash: self.hash, offset: self.offset as usize, size: self.size as usize }
    }
}

/// One pack index entry: three words, read as they are.
pub open spec fn entry_step(w: Wire, d: Seq<u8>) -> spec_fn(int, int) -> Read<PackIndexEntry> {
    |i: int, q: int|
        if q < 0 || q + 12 > d.len() {
            Err(Fault::Truncated)
        } else {
            Ok(
                (
                    PackIndexEntry {
                        hash: u32_at(d, q, w.little_endian),
                        offset: u32_at(d, q + 4, w.little_endian) as usize,
                        size: u32_at(d, q + 8, w.little_endian) as usize,
                    },
                    q + 12,
                ),
            )
        }
}

/// Reads `n` pack index entries at the cursor.
fn read_entries(de: &mut T5XFileDeserializer, n: u32) -> (r: Result<Vec<PackIndexEntry>, Error>)
    requires
        old(de).wf(),
    ensures
        final(de).wf(),
        same_image(*final(de), *old(de)),
        yields_view(
            r,
            rd_repeat(old(de).pos(), n as nat, entry_step(old(de).wire(), old(de).bytes())),
            final(de).pos(),
        ),
{
    let ghost f = entry_step(de.wire(), de.bytes());
    let ghost p0 = de.pos();
    let mut out: Vec<PackIndexEntry> = Vec::new();
    let mut i: u32 = 0;
    while i < n
        invariant
            de.wf(),
            same_image(*de, *old(de)),
            f == entry_step(de.wire(), de.bytes()),
            p0 == old(de).pos(),
            i <= n,
            rd_repeat(p0, i as nat, f) == Ok::<(Seq<PackIndexEntry>, int), Fault>((out@, de.pos())),
        decreases n - i,
    {
        let ghost q = de.pos();
        assert(f(i as int, q) == entry_step(de.wire(), de.bytes())(i as int, q));
        let hash = de.read_u32();
        let offset = de.read_u32();
        let size = de.read_u32();
        match (hash, offset, size) {
            (Ok(hash), Ok(offset), Ok(size)) => {
                let raw = PackIndexEntryRaw { hash, offset, size };
                out.push(raw.into());
            },
            (Err(e), _, _) | (_, Err(e), _) | (_, _, Err(e)) => {
                proof {
                    lemma_repeat_fails_on(p0, (i + 1) as nat, n as nat, f);
                }
                return Err(e);
            },
        }
        i += 1;
    }
    Ok(out)
}

/// The raw layout of a pack index: a name pointer, the header, and a
/// pointer to the header's count of entries.
#[derive(Copy, Clone, Debug)]
pub struct PackIndexRaw {
    pub name: XString,
    pub header: PackIndexHeaderRaw,
    pub entries: Ptr32<PackIndexEntryRaw>,
}

#[derive(Clone, Debug)]
pub struct PackIndex {
    pub name: String,
    pub header: PackIndexHeader,
    pub entries: Vec<PackIndexEntry>,
}

pub struct PackIndexModel {
    pub name: Seq<char>,
    pub header: PackIndexHeader,
    pub entries: Seq<PackIndexEntry>,
}

impl View for PackIndex {
    type V = PackIndexModel;

    open spec fn view(&self) -> PackIndexModel {
        PackIndexModel { name: self.name@, header: self.header, entries: self.entries@ }
    }
}

/// The raw words of a pack index at `p`: name token, the five header
/// words, entries token.
pub open spec fn rd_pack_index_raw(w: Wire, d: Seq<u8>, p: int) -> Read<(u32, PackIndexHeaderRaw, u32)> {
    if p < 0 || p + 28 > d.len() {
        Err(Fault::Truncated)
    } else {
        Ok(
            (
                (
                    u32_at(d, p, w.little_endian),
                    PackIndexHeaderRaw {
                        magic: u32_at(d, p + 4, w.little_endian),
                        timestamp: u32_at(d, p + 8, w.little_endian),
                        count: u32_at(d, p + 12, w.little_endian),
                        alignment: u32_at(d, p + 16, w.little_endian),
                        data_start: u32_at(d, p + 20, w.little_endian),
                    },
                    u32_at(d, p + 24, w.little_endian),
                ),
                p + 28,
            ),
        )
    }
}

/// Decoding a pack index from `q` on: its name, then its entries.
pub open spec fn cv_pack_index(w: Wire, d: Seq<u8>, q: int, raw: (u32, PackIndexHeaderRaw, u32)) -> Read<
    PackIndexModel,
> {
    match rd_xstring(w, d, q, raw.0) {
        Err(e) => Err(e),
        Ok((name, q1)) => match or_empty(
            rd_deref(w, d, q1, raw.2, |t: int| rd_repeat(t, raw.1.count as nat, entry_step(w, d))),
        ) {
            Err(e) => Err(e),
            Ok((entries, q2)) => Ok(
                (PackIndexModel { name, header: raw.1.spec_into(), entries }, q2),
            ),
        },
    }
}

pub open spec fn rd_pack_index(w: Wire, d: Seq<u8>, p: int) -> Read<PackIndexModel> {
    match rd_pack_index_raw(w, d, p) {
        Err(e) => Err(e),
        Ok((raw, q)) => cv_pack_index(w, d, q, raw),
    }
}

impl PackIndexRaw {
    pub open spec fn spec_words(&self) -> (u32, PackIndexHeaderRaw, u32) {
        (self.name.spec_token(), self.header, self.entries.spec_token())
    }

    pub fn read(de: &mut T5XFileDeserializer) -> (r: Result<PackIndexRaw, Error>)
        requires
            old(de).wf(),
        ensures
            final(de).wf(),
            same_image(*final(de), *old(de)),
            match rd_pack_index_raw(old(de).wire(), old(de).bytes(), old(de).pos()) {
                Ok((raw, q)) => r matches Ok(v) && v.spec_words() == raw && final(de).pos() == q,
                Err(f) => r is Err && r->Err_0.spec_kind().reports(f),
            },
    {
        let name = match de.read_u32() {
            Ok(v) => v,
            Err(e) => return Err(e),
        };
        let magic = match de.read_u32() {
            Ok(v) => v,
            Err(e) => return Err(e),
        };
        let timestamp = match de.read_u32() {
            Ok(v) => v,
            Err(e) => return Err(e),
        };
        let count = match de.read_u32() {
            Ok(v) => v,
            Err(e) => return Err(e),
        };
        let alignment = match de.read_u32() {
            Ok(v) => v,
            Err(e) => return Err(e),
        };
        let data_start = match de.read_u32() {
            Ok(v) => v,
            Err(e) => return Err(e),
        };
        let entries = match de.read_u32() {
            Ok(v) => v,
            Err(e) => return Err(e),
        };
        Ok(
            PackIndexRaw {
                name: XString::from_u32(name),
                header: PackIndexHeaderRaw { magic, timestamp, count, alignment, data_start },
                entries: Ptr32::from_u32(entries),
            },
        )
    }

    pub fn xfile_into(self, de: &mut T5XFileDeserializer) -> (r: Result<PackIndex, Error>)
        requires
            old(de).wf(),
        ensures
            final(de).wf(),
            same_image(*final(de), *old(de)),
            yields_view(
                r,
                cv_pack_index(old(de).wire(), old(de).bytes(), old(de).pos(), self.spec_words()),
                final(de).pos(),
            ),
    {
        let name = match self.name.xfile_into(de) {
            Ok(v) => v,
            Err(e) => return Err(e),
        };
        let entries = if self.entries.as_u32() == NULL_TOKEN {
            Vec::new()
        } else {
            let back = match de.enter(self.entries.as_u32()) {
                Ok(b) => b,
                Err(e) => return Err(e),
            };
            let r = read_entries(de, self.header.count);
            de.leave(back);
            match r {
                Ok(v) => v,
                Err(e) => return Err(e),
            }
        };
        Ok(PackIndex { name, header: self.header.into(), entries })
    }
}

/// Reads the pack index a pointer token refers to.
pub fn read_pack_index_ptr(de: &mut T5XFileDeserializer, token: u32) -> (r: Result<
    Option<Box<PackIndex>>,
    Error,
>)
    requires
        old(de).wf(),
    ensures
        final(de).wf(),
        same_image(*final(de), *old(de)),
        yields_opt(
            r,
            rd_deref(
                old(de).wire(),
                old(de).bytes(),
                old(de).pos(),
                token,
                |t: int| rd_pack_index(old(de).wire(), old(de).bytes(), t),
            ),
            final(de).pos(),
        ),
        !is_inline(token) ==> final(de).pos() == old(de).pos(),
{
    if token == NULL_TOKEN {
        return Ok(None);
    }
    let back = match de.enter(token) {
        Ok(b) => b,
        Err(e) => return Err(e),
    };
    let r = match PackIndexRaw::read(de) {
        Ok(raw) => raw.xfile_into(de),
        Err(e) => Err(e),
    };
    de.leave(back);
    match r {
        Ok(v) => Ok(Some(Box::new(v))),
        Err(e) => Err(e),
    }
}

// ---------------------------------------------------------------------------
// Global settings.

/// The raw layout of the global settings. The clear colour's components are
/// kept as the bit patterns of their 32-bit floats.
#[derive(Copy, Clone, Debug)]
pub struct XGlobalsRaw {
    pub name: XString,
    pub xanim_stream_buffer_size: i32,
    pub cinematic_max_width: i32,
    pub cinematic_max_height: i32,
    pub extracam_resolution: i32,
    pub gump_reserve: i32,
    pub screen_clear_color: [u32; 4],
}

/// The global settings. The clear colour's components are the bit patterns
/// of their 32-bit floats (`f32::from_bits` gives the values).
#[derive(Clone, Debug)]
pub struct XGlobals {
    pub name: String,
    pub xanim_stream_buffer_size: i32,
    pub cinematic_max_width: i32,
    pub cinematic_max_height: i32,
    pub extracam_resolution: i32,
    pub gump_reserve: i32,
    pub screen_clear_color: [u32; 4],
}

pub struct XGlobalsModel {
    pub name: Seq<char>,
    pub xanim_stream_buffer_size: i32,
    pub cinematic_max_width: i32,
    pub cinematic_max_height: i32,
    pub extracam_resolution: i32,
    pub gump_reserve: i32,
    pub screen_clear_color: [u32; 4],
}

impl View for XGlobals {
    type V = XGlobalsModel;

    open spec fn view(&self) -> XGlobalsModel {
        XGlobalsModel {
            name: self.name@,
            xanim_stream_buffer_size: self.xanim_stream_buffer_size,
            cinematic_max_width: self.cinematic_max_width,
            cinematic_max_height: self.cinematic_max_height,
            extracam_resolution: self.extracam_resolution,
            gump_reserve: self.gump_reserve,
            screen_clear_color: self.screen_clear_color,
        }
    }
}

/// The signed word at `p`.
pub open spec fn i32_at(w: Wire, d: Seq<u8>, p: int) -> i32 {
    i32_of(u32_at(d, p, w.little_endian)) as i32
}

/// The global settings at `p`: ten words, then the name they point to.
pub open spec fn rd_xglobals(w: Wire, d: Seq<u8>, p: int) -> Read<XGlobalsModel> {
    if p < 0 || p + 40 > d.len() {
        Err(Fault::Truncated)
    } else {
        match rd_xstring(w, d, p + 40, u32_at(d, p, w.little_endian)) {
            Err(e) => Err(e),
            Ok((name, q)) => Ok(
                (
                    XGlobalsModel {
                        name,
                        xanim_stream_buffer_size: i32_at(w, d, p + 4),
                        cinematic_max_width: i32_at(w, d, p + 8),
                        cinematic_max_height: i32_at(w, d, p + 12),
                        extracam_resolution: i32_at(w, d, p + 16),
                        gump_reserve: i32_at(w, d, p + 20),
                        screen_clear_color: [
                            u32_at(d, p + 24, w.little_endian),
                            u32_at(d, p + 28, w.little_endian),
                            u32_at(d, p + 32, w.little_endian),
                            u32_at(d, p + 36, w.little_endian),
                        ],
                    },
                    q,
                ),
            ),
        }
    }
}

impl XGlobalsRaw {
    pub fn read(de: &mut T5XFileDeserializer) -> (r: Result<XGlobalsRaw, Error>)
        requires
            old(de).wf(),
        ensures
            final(de).wf(),
            same_image(*final(de), *old(de)),
            ({
                let w = old(de).wire();
                let d = old(de).bytes();
                let p = old(de).pos();
                if p + 40 <= d.len() {
                    r matches Ok(v) && {
                        &&& v.name.spec_token() == u32_at(d, p, w.little_endian)
                        &&& v.xanim_stream_buffer_size == i32_at(w, d, p + 4)
                        &&& v.cinematic_max_width == i32_at(w, d, p + 8)
                        &&& v.cinematic_max_height == i32_at(w, d, p + 12)
                        &&& v.extracam_resolution == i32_at(w, d, p + 16)
                        &&& v.gump_reserve == i32_at(w, d, p + 20)
                        &&& v.screen_clear_color == [
                            u32_at(d, p + 24, w.little_endian),
                            u32_at(d, p + 28, w.little_endian),
                            u32_at(d, p + 32, w.little_endian),
                            u32_at(d, p + 36, w.little_endian),
                        ]
                        &&& final(de).pos() == p + 40
                    }
                } else {
                    r is Err && r->Err_0.spec_kind() is Decode
                }
            }),
    {
        let name = match de.read_u32() {
            Ok(v) => v,
            Err(e) => return Err(e),
        };
        let xanim_stream_buffer_size = match de.read_i32() {
            Ok(v) => v,
            Err(e) => return Err(e),
        };
        let cinematic_max_width = match de.read_i32() {
            Ok(v) => v,
            Err(e) => return Err(e),
        };
        let cinematic_max_height = match de.read_i32() {
            Ok(v) => v,
            Err(e) => return Err(e),
        };
        let extracam_resolution = match de.read_i32() {
            Ok(v) => v,
            Err(e) => return Err(e),
        };
        let gump_reserve = match de.read_i32() {
            Ok(v) => v,
            Err(e) => return Err(e),
        };
        let c0 = match de.read_u32() {
            Ok(v) => v,
            Err(e) => return Err(e),
        };
        let c1 = match de.read_u32() {
            Ok(v) => v,
            Err(e) => return Err(e),
        };
        let c2 = match de.read_u32() {
            Ok(v) => v,
            Err(e) => return Err(e),
        };
        let c3 = match de.read_u32() {
            Ok(v) => v,
            Err(e) => return Err(e),
        };
        Ok(
            XGlobalsRaw {
                name: XString::from_u32(name),
                xanim_stream_buffer_size,
                cinematic_max_width,
                cinematic_max_height,
                extracam_resolution,
                gump_reserve,
                screen_clear_color: [c0, c1, c2, c3],
            },
        )
    }
}

/// Reads the global settings a pointer token refers to.
pub fn read_xglobals_ptr(de: &mut T5XFileDeserializer, token: u32) -> (r: Result<
    Option<Box<XGlobals>>,
    Error,
>)
    requires
        old(de).wf(),
    ensures
        final(de).wf(),
        same_image(*final(de), *old(de)),
        yields_opt(
            r,
            rd_deref(
                old(de).wire(),
                old(de).bytes(),
                old(de).pos(),
                token,
                |t: int| rd_xglobals(old(de).wire(), old(de).bytes(), t),
            ),
            final(de).pos(),
        ),
        !is_inline(token) ==> final(de).pos() == old(de).pos(),
{
    if token == NULL_TOKEN {
        return Ok(None);
    }
    let back = match de.enter(token) {
        Ok(b) => b,
        Err(e) => return Err(e),
    };
    let r = match XGlobalsRaw::read(de) {
        Ok(raw) => match raw.name.xfile_into(de) {
            Ok(name) => Ok(
                XGlobals {
                    name,
                    xanim_stream_buffer_size: raw.xanim_stream_buffer_size,
                    cinematic_max_width: raw.cinematic_max_width,
                    cinematic_max_height: raw.cinematic_max_height,
                    extracam_resolution: raw.extracam_resolution,
                    gump_reserve: raw.gump_reserve,
                    screen_clear_color: raw.screen_clear_color,
                },
            ),
            Err(e) => Err(e),
        },
        Err(e) => Err(e),
    };
    de.leave(back);
    match r {
        Ok(v) => Ok(Some(Box::new(v))),
        Err(e) => Err(e),
    }
}

} // verus!
