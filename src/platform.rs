use vstd::prelude::*;

verus! {

/// The platforms a FastFile can be built for.
#[allow(non_camel_case_types)]
#[derive(Copy, Clone, Debug, PartialEq, Eq, Structural)]
pub enum XFilePlatform {
    Windows,
    macOS,
    Xbox360,
    PS3,
    Wii,
}

impl XFilePlatform {
    /// Little-endian platforms: Windows and macOS.
    pub open spec fn spec_is_le(self) -> bool {
        self == XFilePlatform::Windows || self == XFilePlatform::macOS
    }

    /// Console platforms: Xbox 360, PS3 and Wii.
    pub open spec fn spec_is_console(self) -> bool {
        self == XFilePlatform::Xbox360 || self == XFilePlatform::PS3 || self == XFilePlatform::Wii
    }

    /// Whether the platform stores its values little-endian. The byte order
    /// of the Wii is unknown, so it is not asked about.
    pub fn is_le(&self) -> (r: bool)
        requires
            *self != XFilePlatform::Wii,
        ensures
            r == self.spec_is_le(),
    {
        match self {
            XFilePlatform::Windows | XFilePlatform::macOS => true,
            XFilePlatform::Xbox360 | XFilePlatform::PS3 => false,
            XFilePlatform::Wii => false,
        }
    }

    /// Whether the platform stores its values big-endian (Xbox 360, PS3).
    pub fn is_be(&self) -> (r: bool)
        requires
            *self != XFilePlatform::Wii,
        ensures
            r == !self.spec_is_le(),
    {
        !self.is_le()
    }

    pub fn is_console(&self) -> (r: bool)
        ensures
            r == self.spec_is_console(),
    {
        match self {
            XFilePlatform::Xbox360 | XFilePlatform::PS3 | XFilePlatform::Wii => true,
            XFilePlatform::Windows | XFilePlatform::macOS => false,
        }
    }

    /// The platform's name as people write it.
    pub fn name(&self) -> (r: &'static str)
        ensures
            r@ == match *self {
                XFilePlatform::Windows => "Windows"@,
                XFilePlatform::macOS => "macOS"@,
                XFilePlatform::Xbox360 => "Xbox 360"@,
                XFilePlatform::PS3 => "PS3"@,
                XFilePlatform::Wii => "Wii"@,
            },
    {
        match self {
            XFilePlatform::Windows => "Windows",
            XFilePlatform::macOS => "macOS",
            XFilePlatform::Xbox360 => "Xbox 360",
            XFilePlatform::PS3 => "PS3",
            XFilePlatform::Wii => "Wii",
        }
    }

    pub fn is_pc(&self) -> (r: bool)
        ensures
            r == !self.spec_is_console(),
    {
        !self.is_console()
    }
}

} // verus!
