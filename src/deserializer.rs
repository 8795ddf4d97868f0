use vstd::prelude::*;

use crate::error::{Error, ErrorKind, Fault};
use crate::platform::XFilePlatform;
use crate::text::lossy_string;
use crate::wire::{
    first_nul, is_inline, rd_flexible_u16, rd_flexible_u32, rd_byte_array, rd_bytes, rd_i16, rd_i32, rd_target, rd_text, rd_u16, rd_u32,
    rd_u8, rd_xstring, yields, yields_view, Wire, INLINE_TOKEN, INLINE_TOKEN_ALT, NULL_TOKEN,
};
use crate::xfile::XFile;

verus! {

/// A handle into the script string table: its 16-bit index.
#[derive(Copy, Clone, Debug, PartialEq, Eq, Structural)]
pub struct ScriptString(pub u16);

/// The state of one pass over an inflated payload: the payload, the cursor
/// into it, the byte order and block sizes that pointer tokens are read
/// with, and the script string table once it has been read.
pub struct T5XFileDeserializer {
    data: Vec<u8>,
    pos: usize,
    little_endian: bool,
    xfile: XFile,
    script_strings: Vec<String>,
    platform: XFilePlatform,
}

/// `a` and `b` differ at most in the cursor position.
pub open spec fn same_image(a: T5XFileDeserializer, b: T5XFileDeserializer) -> bool {
    &&& a.bytes() == b.bytes()
    &&& a.wire() == b.wire()
    &&& a.strings() == b.strings()
    &&& a.platform() == b.platform()
    &&& a.spec_xfile() == b.spec_xfile()
}

impl T5XFileDeserializer {
    /// The payload.
    pub closed spec fn bytes(&self) -> Seq<u8> {
        self.data@
    }

    /// The cursor position.
    pub closed spec fn pos(&self) -> int {
        self.pos as int
    }

    pub closed spec fn wire(&self) -> Wire {
        Wire { little_endian: self.little_endian, block_size: self.xfile.block_size }
    }

    pub closed spec fn spec_xfile(&self) -> XFile {
        self.xfile
    }

    /// The script string table.
    pub closed spec fn strings(&self) -> Seq<Seq<char>> {
        self.script_strings@.map_values(|s: String| s@)
    }

    pub closed spec fn platform(&self) -> XFilePlatform {
        self.platform
    }

    /// The cursor lies within the payload, whose byte order is that of the
    /// platform.
    pub open spec fn wf(&self) -> bool {
        &&& 0 <= self.pos() <= self.bytes().len()
        &&& self.platform() != XFilePlatform::Wii
        &&& self.wire().little_endian == self.platform().spec_is_le()
    }

    /// A pass over `payload` for `platform`, with the cursor at its start, no
    /// block sizes and no script strings yet.
    pub fn new(payload: Vec<u8>, platform: XFilePlatform) -> (r: T5XFileDeserializer)
        requires
            platform != XFilePlatform::Wii,
        ensures
            r.wf(),
            r.bytes() == payload@,
            r.pos() == 0,
            r.wire().little_endian == platform.spec_is_le(),
            r.strings() == Seq::<Seq<char>>::empty(),
            r.platform() == platform,
    {
        let little_endian = platform.is_le();
        let r = T5XFileDeserializer {
            data: payload,
            pos: 0,
            little_endian,
            xfile: XFile { size: 0, external_size: 0, block_size: [0u32; 7] },
            script_strings: Vec::new(),
            platform,
        };
        assert(r.strings() =~= Seq::<Seq<char>>::empty());
        r
    }

    pub fn stream_pos(&self) -> (r: usize)
        ensures
            r as int == self.pos(),
            self.wf() ==> r <= self.bytes().len(),
    {
        self.pos
    }

    pub fn stream_len(&self) -> (r: usize)
        ensures
            r as int == self.bytes().len(),
    {
        self.data.len()
    }

    /// Whether the payload's integers are little-endian.
    pub fn little_endian(&self) -> (r: bool)
        ensures
            r == self.wire().little_endian,
    {
        self.little_endian
    }

    pub fn platform_of(&self) -> (r: XFilePlatform)
        ensures
            r == self.platform(),
    {
        self.platform
    }

    pub fn xfile(&self) -> (r: XFile)
        ensures
            r == self.spec_xfile(),
    {
        self.xfile
    }

    /// The script string table, in order.
    pub fn script_strings(&self) -> (r: &Vec<String>)
        ensures
            r@.map_values(|s: String| s@) == self.strings(),
    {
        &self.script_strings
    }

    pub(crate) fn fail(&self, where_: &str, kind: ErrorKind) -> (r: Error)
        ensures
            r.spec_kind() == kind,
    {
        Error::new(where_.to_owned(), self.pos as u32, kind)
    }

    pub(crate) fn truncated(&self, where_: &str) -> (r: Error)
        ensures
            r.spec_kind().reports(Fault::Truncated),
    {
        self.fail(where_, ErrorKind::Decode("unexpected end of the payload".to_owned()))
    }

    /// Consumes `n` bytes at the cursor.
    pub fn read_exact(&mut self, n: usize) -> (r: Result<Vec<u8>, Error>)
        requires
            old(self).wf(),
        ensures
            final(self).wf(),
            same_image(*final(self), *old(self)),
            yields_view(r, rd_bytes(old(self).bytes(), old(self).pos(), n as int), final(self).pos()),
    {
        if n > self.data.len() - self.pos {
            return Err(self.truncated("T5XFileDeserializer::read_exact"));
        }
        let p = self.pos;
        let mut v: Vec<u8> = Vec::new();
        let mut i: usize = 0;
        while i < n
            invariant
                p + n <= self.data.len(),
                i <= n,
                v@ == self.data@.subrange(p as int, p + i),
            decreases n - i,
        {
            v.push(self.data[p + i]);
            i += 1;
            assert(v@ =~= self.data@.subrange(p as int, p + i));
        }
        self.pos = p + n;
        Ok(v)
    }

    pub fn read_u8(&mut self) -> (r: Result<u8, Error>)
        requires
            old(self).wf(),
        ensures
            final(self).wf(),
            same_image(*final(self), *old(self)),
            yields(r, rd_u8(old(self).bytes(), old(self).pos()), final(self).pos()),
    {
        if self.pos >= self.data.len() {
            return Err(self.truncated("T5XFileDeserializer::read_u8"));
        }
        let b = self.data[self.pos];
        self.pos = self.pos + 1;
        Ok(b)
    }

    pub fn read_u16(&mut self) -> (r: Result<u16, Error>)
        requires
            old(self).wf(),
        ensures
            final(self).wf(),
            same_image(*final(self), *old(self)),
            yields(r, rd_u16(old(self).wire(), old(self).bytes(), old(self).pos()), final(self).pos()),
    {
        if self.data.len() - self.pos < 2 {
            return Err(self.truncated("T5XFileDeserializer::read_u16"));
        }
        let p = self.pos;
        let (lo, hi) = if self.little_endian {
            (self.data[p], self.data[p + 1])
        } else {
            (self.data[p + 1], self.data[p])
        };
        self.pos = p + 2;
        Ok(lo as u16 + 0x100u16 * hi as u16)
    }

    pub fn read_u32(&mut self) -> (r: Result<u32, Error>)
        requires
            old(self).wf(),
        ensures
            final(self).wf(),
            same_image(*final(self), *old(self)),
            yields(r, rd_u32(old(self).wire(), old(self).bytes(), old(self).pos()), final(self).pos()),
    {
        if self.data.len() - self.pos < 4 {
            return Err(self.truncated("T5XFileDeserializer::read_u32"));
        }
        let p = self.pos;
        let (b0, b1, b2, b3) = if self.little_endian {
            (self.data[p], self.data[p + 1], self.data[p + 2], self.data[p + 3])
        } else {
            (self.data[p + 3], self.data[p + 2], self.data[p + 1], self.data[p])
        };
        self.pos = p + 4;
        Ok(b0 as u32 + 0x100u32 * b1 as u32 + 0x10000u32 * b2 as u32 + 0x1000000u32 * b3 as u32)
    }

    pub fn read_i32(&mut self) -> (r: Result<i32, Error>)
        requires
            old(self).wf(),
        ensures
            final(self).wf(),
            same_image(*final(self), *old(self)),
            yields(r, rd_i32(old(self).wire(), old(self).bytes(), old(self).pos()), final(self).pos()),
    {
        match self.read_u32() {
            Err(e) => Err(e),
            Ok(v) => Ok(
                if v < 0x8000_0000 {
                    v as i32
                } else {
                    (v - 0x8000_0000) as i32 - 0x7FFF_FFFF - 1
                },
            ),
        }
    }

    pub fn read_i16(&mut self) -> (r: Result<i16, Error>)
        requires
            old(self).wf(),
        ensures
            final(self).wf(),
            same_image(*final(self), *old(self)),
            yields(r, rd_i16(old(self).wire(), old(self).bytes(), old(self).pos()), final(self).pos()),
    {
        match self.read_u16() {
            Err(e) => Err(e),
            Ok(v) => Ok(
                if v < 0x8000 {
                    v as i16
                } else {
                    (v - 0x8000) as i16 - 0x7FFF - 1
                },
            ),
        }
    }

    /// Reads a flexible array of bytes: a 16-bit count, then the bytes.
    pub fn read_flexible_array_u16(&mut self) -> (r: Result<Vec<u8>, Error>)
        requires
            old(self).wf(),
        ensures
            final(self).wf(),
            same_image(*final(self), *old(self)),
            yields_view(r, rd_flexible_u16(old(self).wire(), old(self).bytes(), old(self).pos()), final(self).pos()),
    {
        match self.read_u16() {
            Ok(n) => self.read_exact(n as usize),
            Err(e) => Err(e),
        }
    }

    /// Reads a flexible array of bytes: a 32-bit count, then the bytes.
    pub fn read_flexible_array_u32(&mut self) -> (r: Result<Vec<u8>, Error>)
        requires
            old(self).wf(),
        ensures
            final(self).wf(),
            same_image(*final(self), *old(self)),
            yields_view(r, rd_flexible_u32(old(self).wire(), old(self).bytes(), old(self).pos()), final(self).pos()),
    {
        match self.read_u32() {
            Ok(n) => self.read_exact(n as usize),
            Err(e) => Err(e),
        }
    }

    /// Reads a NUL-terminated string at the cursor and decodes it as lossy
    /// UTF-8; the cursor ends up past the NUL.
    fn read_text(&mut self) -> (r: Result<String, Error>)
        requires
            old(self).wf(),
        ensures
            final(self).wf(),
            same_image(*final(self), *old(self)),
            yields_view(r, rd_text(old(self).bytes(), old(self).pos()), final(self).pos()),
    {
        let p = self.pos;
        let mut i: usize = p;
        while i < self.data.len() && self.data[i] != 0
            invariant
                p <= i <= self.data@.len(),
                first_nul(self.data@, p as int) == first_nul(self.data@, i as int),
            decreases self.data@.len() - i,
        {
            i += 1;
        }
        if i >= self.data.len() {
            return Err(self.truncated("T5XFileDeserializer::read_text"));
        }
        let bytes = match self.read_exact(i - p) {
            Ok(b) => b,
            Err(e) => return Err(e),
        };
        self.pos = i + 1;
        Ok(lossy_string(bytes.as_slice()))
    }

    /// Moves the cursor to the referent of a non-null token. Returns where to
    /// come back to: nothing for an inline token, whose referent starts at
    /// the cursor, else the cursor position before the move.
    pub(crate) fn enter(&mut self, token: u32) -> (r: Result<Option<usize>, Error>)
        requires
            old(self).wf(),
            token != NULL_TOKEN,
        ensures
            final(self).wf(),
            same_image(*final(self), *old(self)),
            match rd_target(old(self).wire(), old(self).bytes(), old(self).pos(), token) {
                Ok(t) => {
                    &&& r == Ok::<Option<usize>, Error>(
                        if is_inline(token) {
                            None
                        } else {
                            Some(old(self).pos() as usize)
                        },
                    )
                    &&& final(self).pos() == t
                },
                Err(f) => r is Err && r->Err_0.spec_kind().reports(f) && final(self).pos() == old(
                    self,
                ).pos(),
            },
            r matches Ok(Some(b)) ==> b == old(self).pos() && b <= old(self).bytes().len(),
    {
        if token == INLINE_TOKEN || token == INLINE_TOKEN_ALT {
            return Ok(None);
        }
        let (_, off) = self.xfile.resolve(token);
        if off > self.data.len() as u64 {
            return Err(
                self.fail(
                    "T5XFileDeserializer::enter",
                    ErrorKind::InvalidSeek { off, max: self.data.len() as u64 },
                ),
            );
        }
        let back = self.pos;
        self.pos = off as usize;
        Ok(Some(back))
    }

    /// Returns the cursor to where [`Self::enter`] left it from, if it moved.
    pub(crate) fn leave(&mut self, back: Option<usize>)
        requires
            old(self).wf(),
            back matches Some(b) ==> b <= old(self).bytes().len(),
        ensures
            final(self).wf(),
            same_image(*final(self), *old(self)),
            final(self).pos() == match back {
                Some(b) => b as int,
                None => old(self).pos(),
            },
    {
        if let Some(b) = back {
            self.pos = b;
        }
    }

    /// Reads the string a string pointer refers to; the null token gives the
    /// empty string. After any token but an inline one the cursor is where
    /// it was, also when the read fails.
    pub fn read_xstring(&mut self, token: u32) -> (r: Result<String, Error>)
        requires
            old(self).wf(),
        ensures
            final(self).wf(),
            same_image(*final(self), *old(self)),
            yields_view(
                r,
                rd_xstring(old(self).wire(), old(self).bytes(), old(self).pos(), token),
                final(self).pos(),
            ),
            !is_inline(token) ==> final(self).pos() == old(self).pos(),
    {
        if token == NULL_TOKEN {
            let s = String::new();
            return Ok(s);
        }
        let back = match self.enter(token) {
            Ok(b) => b,
            Err(e) => return Err(e),
        };
        let r = self.read_text();
        self.leave(back);
        r
    }

    /// Reads the `count` bytes a byte-array pointer refers to; the null
    /// token gives no bytes. After any token but an inline one the cursor is
    /// where it was, also when the read fails.
    pub fn read_byte_array(&mut self, token: u32, count: usize) -> (r: Result<Vec<u8>, Error>)
        requires
            old(self).wf(),
        ensures
            final(self).wf(),
            same_image(*final(self), *old(self)),
            yields_view(
                r,
                rd_byte_array(old(self).wire(), old(self).bytes(), old(self).pos(), token, count as int),
                final(self).pos(),
            ),
            !is_inline(token) ==> final(self).pos() == old(self).pos(),
    {
        if token == NULL_TOKEN {
            return Ok(Vec::new());
        }
        let back = match self.enter(token) {
            Ok(b) => b,
            Err(e) => return Err(e),
        };
        let r = self.read_exact(count);
        self.leave(back);
        r
    }

    /// Records the payload's header: from now on, pointer tokens are
    /// resolved with its block sizes.
    pub(crate) fn set_xfile(&mut self, xfile: XFile)
        requires
            old(self).wf(),
        ensures
            final(self).wf(),
            final(self).bytes() == old(self).bytes(),
            final(self).pos() == old(self).pos(),
            final(self).strings() == old(self).strings(),
            final(self).platform() == old(self).platform(),
            final(self).spec_xfile() == xfile,
            final(self).wire() == (Wire {
                little_endian: old(self).wire().little_endian,
                block_size: xfile.block_size,
            }),
    {
        self.xfile = xfile;
    }

    /// Records the script string table.
    pub(crate) fn set_script_strings(&mut self, strings: Vec<String>)
        requires
            old(self).wf(),
        ensures
            final(self).wf(),
            final(self).bytes() == old(self).bytes(),
            final(self).pos() == old(self).pos(),
            final(self).wire() == old(self).wire(),
            final(self).platform() == old(self).platform(),
            final(self).spec_xfile() == old(self).spec_xfile(),
            final(self).strings() == strings@.map_values(|s: String| s@),
    {
        self.script_strings = strings;
    }
}

impl ScriptString {
    /// The string this handle names in the script string table.
    pub fn to_string(self, de: &T5XFileDeserializer) -> (r: Result<String, Error>)
        ensures
            match r {
                Ok(s) => self.0 < de.strings().len() && s@ == de.strings()[self.0 as int],
                Err(e) => self.0 >= de.strings().len() && e.spec_kind() == ErrorKind::BadScriptString(
                    self.0,
                ),
            },
    {
        let i = self.0 as usize;
        if i < de.script_strings.len() {
            Ok(de.script_strings[i].clone())
        } else {
            Err(de.fail("ScriptString::to_string", ErrorKind::BadScriptString(self.0)))
        }
    }
}

} // verus!
