use vstd::prelude::*;

use crate::error::{Error, ErrorKind};
use crate::platform::XFilePlatform;
use crate::text::push_char;

verus! {

/// The one version of the format this reader understands.
pub const XFILE_VERSION: u32 = 0x000001D9;

/// [`XFILE_VERSION`] as it reads when its bytes are stored little-endian.
pub const XFILE_VERSION_LE: u32 = 0x000001D9;

/// [`XFILE_VERSION`] as it reads, little-endian, when its bytes are stored
/// big-endian.
pub const XFILE_VERSION_BE: u32 = 0xD9010000;

/// The twelve plain bytes at the start of every FastFile.
#[derive(Copy, Clone, Debug)]
pub struct XFileHeader {
    pub magic: [u8; 8],
    /// The version word, decoded little-endian.
    pub version: u32,
}

/// `IWff`, then `u` or `0`, then `100`.
pub open spec fn spec_magic_is_valid(m: [u8; 8]) -> bool {
    &&& m[0] == 0x49u8
    &&& m[1] == 0x57u8
    &&& m[2] == 0x66u8
    &&& m[3] == 0x66u8
    &&& (m[4] == 0x75u8 || m[4] == 0x30u8)
    &&& m[5] == 0x31u8
    &&& m[6] == 0x30u8
    &&& m[7] == 0x30u8
}

/// The version word, decoded little-endian, that a file for `p` carries.
pub open spec fn expected_version(p: XFilePlatform) -> u32 {
    if p.spec_is_le() {
        XFILE_VERSION_LE
    } else {
        XFILE_VERSION_BE
    }
}

/// The version word decoded little-endian from four bytes.
pub open spec fn le_u32(b0: u8, b1: u8, b2: u8, b3: u8) -> u32 {
    (b0 as int + 0x100 * b1 as int + 0x10000 * b2 as int + 0x1000000 * b3 as int) as u32
}

/// How a header is judged, in order: the platform must be readable, the magic
/// valid, the version in the byte order of the platform, and the version the
/// right one. This is the error the first broken rule gives; it is `None`
/// when no rule is broken, and also when the magic is the first broken rule,
/// whose error carries the magic as text (see [`XFileHeader::check`]).
pub open spec fn header_fault(h: XFileHeader, p: XFilePlatform) -> Option<ErrorKind> {
    if p == XFilePlatform::Wii {
        Some(ErrorKind::UnimplementedPlatform(p))
    } else if !spec_magic_is_valid(h.magic) {
        None
    } else if h.version == (if p.spec_is_le() { XFILE_VERSION_BE } else { XFILE_VERSION_LE }) {
        Some(ErrorKind::WrongEndiannessForPlatform(p))
    } else if h.version != expected_version(p) {
        Some(ErrorKind::WrongVersion(h.version))
    } else {
        None
    }
}

/// A header a file for `p` may start with.
pub open spec fn header_ok(h: XFileHeader, p: XFilePlatform) -> bool {
    p != XFilePlatform::Wii && spec_magic_is_valid(h.magic) && h.version == expected_version(p)
}

/// The header that a file's first twelve bytes hold.
pub open spec fn file_header(f: Seq<u8>) -> XFileHeader {
    XFileHeader {
        magic: [f[0], f[1], f[2], f[3], f[4], f[5], f[6], f[7]],
        version: le_u32(f[8], f[9], f[10], f[11]),
    }
}

/// The two byte orders a valid version word can have.
enum XFileVersion {
    LE,
    BE,
}

impl XFileVersion {
    spec fn spec_as_u32(&self) -> u32 {
        match self {
            XFileVersion::LE => XFILE_VERSION_LE,
            XFileVersion::BE => XFILE_VERSION_BE,
        }
    }

    fn is_valid(version: u32, platform: XFilePlatform) -> (r: bool)
        requires
            platform != XFilePlatform::Wii,
        ensures
            r == (version == expected_version(platform)),
    {
        let v = match XFileVersion::from_u32(version) {
            Some(v) => v.as_u32(),
            None => 0xFFFFFFFF,
        };
        v == XFileVersion::from_platform(platform).as_u32()
    }

    fn is_other_endian(version: u32, platform: XFilePlatform) -> (r: bool)
        requires
            platform != XFilePlatform::Wii,
        ensures
            r == (version == (if platform.spec_is_le() { XFILE_VERSION_BE } else { XFILE_VERSION_LE })),
    {
        if platform.is_le() {
            version == XFileVersion::BE.as_u32()
        } else {
            version == XFileVersion::LE.as_u32()
        }
    }

    fn from_u32(value: u32) -> (r: Option<XFileVersion>)
        ensures
            match r {
                Some(v) => v.spec_as_u32() == value,
                None => value != XFILE_VERSION_LE && value != XFILE_VERSION_BE,
            },
    {
        if value == XFILE_VERSION_LE {
            Some(XFileVersion::LE)
        } else if value == XFILE_VERSION_BE {
            Some(XFileVersion::BE)
        } else {
            None
        }
    }

    fn from_platform(platform: XFilePlatform) -> (r: XFileVersion)
        requires
            platform != XFilePlatform::Wii,
        ensures
            r.spec_as_u32() == expected_version(platform),
    {
        match platform {
            XFilePlatform::Windows | XFilePlatform::macOS => XFileVersion::LE,
            _ => XFileVersion::BE,
        }
    }

    fn as_u32(&self) -> (r: u32)
        ensures
            r == self.spec_as_u32(),
    {
        match self {
            XFileVersion::LE => XFILE_VERSION_LE,
            XFileVersion::BE => XFILE_VERSION_BE,
        }
    }
}

impl XFileHeader {
    /// The header a file for `platform` starts with.
    pub fn new(platform: XFilePlatform) -> (r: XFileHeader)
        requires
            platform != XFilePlatform::Wii,
        ensures
            r.magic == [0x49u8, 0x57u8, 0x66u8, 0x66u8, 0x75u8, 0x31u8, 0x30u8, 0x30u8],
            r.version == expected_version(platform),
    {
        let magic: [u8; 8] = [0x49u8, 0x57u8, 0x66u8, 0x66u8, 0x75u8, 0x31u8, 0x30u8, 0x30u8];
        let version = XFileVersion::from_platform(platform).as_u32();
        XFileHeader { magic, version }
    }

    /// Decodes the header from the first twelve bytes of a file; `None` when
    /// there are fewer.
    pub fn from_bytes(bytes: &[u8]) -> (r: Option<XFileHeader>)
        ensures
            match r {
                Some(h) => {
                    &&& bytes@.len() >= 12
                    &&& forall|i: int| 0 <= i < 8 ==> h.magic[i] == bytes@[i]
                    &&& h.version == le_u32(bytes@[8], bytes@[9], bytes@[10], bytes@[11])
                },
                None => bytes@.len() < 12,
            },
    {
        if bytes.len() < 12 {
            return None;
        }
        let magic: [u8; 8] = [
            bytes[0],
            bytes[1],
            bytes[2],
            bytes[3],
            bytes[4],
            bytes[5],
            bytes[6],
            bytes[7],
        ];
        let version: u32 = bytes[8] as u32 + 0x100u32 * bytes[9] as u32 + 0x10000u32
            * bytes[10] as u32 + 0x1000000u32 * bytes[11] as u32;
        Some(XFileHeader { magic, version })
    }

    /// The magic bytes, each read as one character.
    pub fn magic_string(&self) -> (r: String)
        ensures
            r@ == self.magic@.map(|i: int, c: u8| c as char),
    {
        let mut s = String::new();
        let mut i: usize = 0;
        while i < 8
            invariant
                i <= 8,
                s@ == self.magic@.subrange(0, i as int).map(|k: int, c: u8| c as char),
            decreases 8 - i,
        {
            push_char(&mut s, self.magic[i] as char);
            i += 1;
            assert(s@ =~= self.magic@.subrange(0, i as int).map(|k: int, c: u8| c as char));
        }
        assert(self.magic@.subrange(0, 8) =~= self.magic@);
        s
    }

    pub fn magic_is_valid(&self) -> (r: bool)
        ensures
            r == spec_magic_is_valid(self.magic),
    {
        self.magic[0] == 0x49u8 && self.magic[1] == 0x57u8 && self.magic[2] == 0x66u8
            && self.magic[3] == 0x66u8 && (self.magic[4] == 0x75u8 || self.magic[4] == 0x30u8)
            && self.magic[5] == 0x31u8 && self.magic[6] == 0x30u8 && self.magic[7] == 0x30u8
    }

    /// Checks the header against the platform the caller expects, in the
    /// order [`header_fault`] gives. A bad magic is reported with the magic
    /// read as text.
    pub fn check(&self, platform: XFilePlatform) -> (r: Result<(), Error>)
        ensures
            match r {
                Ok(_) => header_ok(*self, platform),
                Err(e) => match header_fault(*self, platform) {
                    Some(k) => e.spec_kind() == k,
                    None => e.spec_kind() == ErrorKind::BadHeaderMagic(
                        e.spec_kind()->BadHeaderMagic_0,
                    ) && e.spec_kind()->BadHeaderMagic_0@ == self.magic@.map(
                        |i: int, c: u8| c as char,
                    ),
                },
            },
            r is Ok <==> header_ok(*self, platform),
    {
        if platform == XFilePlatform::Wii {
            return Err(Error::new("XFileHeader::check".to_owned(), 0, ErrorKind::UnimplementedPlatform(platform)));
        }
        if !self.magic_is_valid() {
            return Err(Error::new("XFileHeader::check".to_owned(), 0, ErrorKind::BadHeaderMagic(self.magic_string())));
        }
        if XFileVersion::is_other_endian(self.version, platform) {
            return Err(Error::new("XFileHeader::check".to_owned(), 0, ErrorKind::WrongEndiannessForPlatform(platform)));
        }
        if !XFileVersion::is_valid(self.version, platform) {
            return Err(Error::new("XFileHeader::check".to_owned(), 0, ErrorKind::WrongVersion(self.version)));
        }
        Ok(())
    }
}

/// Whether the header's magic is valid; the free-standing form of
/// [`XFileHeader::magic_is_valid`].
pub fn xfile_header_magic_is_valid(header: &XFileHeader) -> (r: bool)
    ensures
        r == spec_magic_is_valid(header.magic),
{
    header.magic_is_valid()
}

/// Whether the header carries [`XFILE_VERSION`] as read little-endian.
pub fn xfile_is_correct_version(header: &XFileHeader) -> (r: bool)
    ensures
        r == (header.version == XFILE_VERSION),
{
    header.version == XFILE_VERSION
}

} // verus!
