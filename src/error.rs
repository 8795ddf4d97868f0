use vstd::prelude::*;

use crate::platform::XFilePlatform;
use crate::xasset::XAssetType;

verus! {

/// Everything that can make a read of a FastFile fail.
#[derive(Debug)]
#[non_exhaustive]
pub enum ErrorKind {
    /// Reading the file itself failed.
    Io(String),
    /// A primitive value could not be decoded: the stream ended first.
    Decode(String),
    /// The payload could not be inflated.
    Inflate(String),
    /// An integer did not map to any variant of a closed enum.
    BadFromPrimitive(i64),
    /// Bits outside a flag set's mask were set.
    BadBitflags(u32),
    /// A character was encoded outside its valid range.
    BadChar(u32),
    /// An internal consistency check failed.
    BrokenInvariant(String),
    /// A pointer resolved to an offset past the end of the payload.
    InvalidSeek { off: u64, max: u64 },
    /// The header's magic is not `IWffu100` or `IWff0100`.
    BadHeaderMagic(String),
    /// The header's version is not the one this reader understands.
    WrongVersion(u32),
    /// The header's version has the byte order of another platform family.
    WrongEndiannessForPlatform(XFilePlatform),
    /// The platform cannot be read yet (the Wii).
    UnimplementedPlatform(XFilePlatform),
    /// The platform is not supported.
    UnsupportedPlatform(XFilePlatform),
    /// The reader for this part of the format does not exist yet.
    Todo(String),
    /// A script string handle is past the end of the script string table.
    BadScriptString(u16),
    /// An asset's tag is not a variant of [`XAssetType`].
    InvalidXAssetType(u32),
    /// An asset's tag is a variant of [`XAssetType`] that this version of the
    /// format never emits.
    UnusedXAssetType(XAssetType),
}

/// The reasons a read can fail, as the spec functions of the wire format
/// name them. [`ErrorKind::reports`] relates an error to its reason.
pub enum Fault {
    Truncated,
    InvalidSeek { off: u64, max: u64 },
    BadScriptString(u16),
    InvalidXAssetType(u32),
    UnusedXAssetType(XAssetType),
    Unimplemented(XAssetType),
    Malformed,
}

impl ErrorKind {
    /// Whether this error is the one that reports `f`.
    pub open spec fn reports(self, f: Fault) -> bool {
        match f {
            Fault::Truncated => self is Decode,
            Fault::InvalidSeek { off, max } => self == (ErrorKind::InvalidSeek { off, max }),
            Fault::BadScriptString(i) => self == ErrorKind::BadScriptString(i),
            Fault::InvalidXAssetType(t) => self == ErrorKind::InvalidXAssetType(t),
            Fault::UnusedXAssetType(t) => self == ErrorKind::UnusedXAssetType(t),
            Fault::Unimplemented(_) => self is Todo,
            Fault::Malformed => self is BrokenInvariant,
        }
    }
}

/// An error together with where it was raised and the stream offset at
/// which it happened.
#[derive(Debug)]
pub struct Error {
    where_: String,
    kind: ErrorKind,
    off: u32,
}

impl Error {
    pub closed spec fn spec_kind(&self) -> ErrorKind {
        self.kind
    }

    pub closed spec fn spec_off(&self) -> u32 {
        self.off
    }

    pub fn new(where_: String, off: u32, kind: ErrorKind) -> (r: Error)
        ensures
            r.spec_kind() == kind,
            r.spec_off() == off,
    {
        Error { where_, kind, off }
    }

    pub fn kind(&self) -> (r: &ErrorKind)
        ensures
            *r == self.spec_kind(),
    {
        &self.kind
    }

    pub fn where_(&self) -> String {
        self.where_.clone()
    }

    pub fn off(&self) -> (r: u32)
        ensures
            r == self.spec_off(),
    {
        self.off
    }
}

} // verus!
