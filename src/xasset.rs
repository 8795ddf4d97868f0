use vstd::prelude::*;

use crate::deserializer::{same_image, T5XFileDeserializer};
use crate::error::{Error, ErrorKind, Fault};
use crate::platform::XFilePlatform;
use crate::schemas::{
    rd_localize_entry, rd_map_ents, rd_pack_index, rd_raw_file, rd_string_table,
    read_localize_entry_ptr, read_map_ents_ptr, read_pack_index_ptr, read_raw_file_ptr,
    read_string_table_ptr, read_xglobals_ptr, rd_xglobals, XGlobals, XGlobalsModel, LocalizeEntry, LocalizeEntryModel, MapEnts, MapEntsModel, PackIndex,
    PackIndexModel, RawFile, RawFileModel, StringTable, StringTableModel,
};
use crate::wire::{opt_view, rd_deref, Read, Wire};

verus! {

/// The kinds of asset a FastFile can hold, in the order of their tags
/// (`XMODELPIECES` is tag 0, `ASSETLIST` is tag 0x2C).
#[allow(non_camel_case_types)]
#[derive(Copy, Clone, Debug, PartialEq, Eq, Structural)]
pub enum XAssetType {
    XMODELPIECES,
    PHYSPRESET,
    PHYSCONSTRAINTS,
    DESTRUCTIBLEDEF,
    XANIMPARTS,
    XMODEL,
    MATERIAL,
    TECHNIQUE_SET,
    IMAGE,
    SOUND,
    SOUND_PATCH,
    CLIPMAP,
    CLIPMAP_PVS,
    COMWORLD,
    GAMEWORLD_SP,
    GAMEWORLD_MP,
    MAP_ENTS,
    GFXWORLD,
    LIGHT_DEF,
    UI_MAP,
    FONT,
    MENULIST,
    MENU,
    LOCALIZE_ENTRY,
    WEAPON,
    WEAPONDEF,
    WEAPON_VARIANT,
    SNDDRIVER_GLOBALS,
    FX,
    IMPACT_FX,
    AITYPE,
    MPTYPE,
    MPBODY,
    MPHEAD,
    CHARACTER,
    XMODELALIAS,
    RAWFILE,
    STRINGTABLE,
    PACKINDEX,
    XGLOBALS,
    DDL,
    GLASSES,
    EMBLEMSET,
    STRING,
    ASSETLIST,
}

impl XAssetType {
    /// The tag that stands for this kind on the wire.
    pub open spec fn spec_as_u32(self) -> u32 {
        match self {
            XAssetType::XMODELPIECES => 0x0,
            XAssetType::PHYSPRESET => 0x1,
            XAssetType::PHYSCONSTRAINTS => 0x2,
            XAssetType::DESTRUCTIBLEDEF => 0x3,
            XAssetType::XANIMPARTS => 0x4,
            XAssetType::XMODEL => 0x5,
            XAssetType::MATERIAL => 0x6,
            XAssetType::TECHNIQUE_SET => 0x7,
            XAssetType::IMAGE => 0x8,
            XAssetType::SOUND => 0x9,
            XAssetType::SOUND_PATCH => 0xa,
            XAssetType::CLIPMAP => 0xb,
            XAssetType::CLIPMAP_PVS => 0xc,
            XAssetType::COMWORLD => 0xd,
            XAssetType::GAMEWORLD_SP => 0xe,
            XAssetType::GAMEWORLD_MP => 0xf,
            XAssetType::MAP_ENTS => 0x10,
            XAssetType::GFXWORLD => 0x11,
            XAssetType::LIGHT_DEF => 0x12,
            XAssetType::UI_MAP => 0x13,
            XAssetType::FONT => 0x14,
            XAssetType::MENULIST => 0x15,
            XAssetType::MENU => 0x16,
            XAssetType::LOCALIZE_ENTRY => 0x17,
            XAssetType::WEAPON => 0x18,
            XAssetType::WEAPONDEF => 0x19,
            XAssetType::WEAPON_VARIANT => 0x1a,
            XAssetType::SNDDRIVER_GLOBALS => 0x1b,
            XAssetType::FX => 0x1c,
            XAssetType::IMPACT_FX => 0x1d,
            XAssetType::AITYPE => 0x1e,
            XAssetType::MPTYPE => 0x1f,
            XAssetType::MPBODY => 0x20,
            XAssetType::MPHEAD => 0x21,
            XAssetType::CHARACTER => 0x22,
            XAssetType::XMODELALIAS => 0x23,
            XAssetType::RAWFILE => 0x24,
            XAssetType::STRINGTABLE => 0x25,
            XAssetType::PACKINDEX => 0x26,
            XAssetType::XGLOBALS => 0x27,
            XAssetType::DDL => 0x28,
            XAssetType::GLASSES => 0x29,
            XAssetType::EMBLEMSET => 0x2a,
            XAssetType::STRING => 0x2b,
            XAssetType::ASSETLIST => 0x2c,
        }
    }

    /// Whether this version of the format ever emits assets of this kind.
    pub open spec fn spec_is_used(self) -> bool {
        !(self == XAssetType::XMODELPIECES || self == XAssetType::UI_MAP || self == XAssetType::WEAPONDEF || self == XAssetType::WEAPON_VARIANT || self == XAssetType::AITYPE || self == XAssetType::MPTYPE || self == XAssetType::MPBODY || self == XAssetType::MPHEAD || self == XAssetType::CHARACTER || self == XAssetType::XMODELALIAS || self == XAssetType::STRING || self == XAssetType::ASSETLIST)
    }

    /// The kind whose tag is `value`, if there is one.
    pub open spec fn spec_from_u32(value: u32) -> Option<XAssetType> {
        if value == 0x0 {
            Some(XAssetType::XMODELPIECES)
        } else if value == 0x1 {
            Some(XAssetType::PHYSPRESET)
        } else if value == 0x2 {
            Some(XAssetType::PHYSCONSTRAINTS)
        } else if value == 0x3 {
            Some(XAssetType::DESTRUCTIBLEDEF)
        } else if value == 0x4 {
            Some(XAssetType::XANIMPARTS)
        } else if value == 0x5 {
            Some(XAssetType::XMODEL)
        } else if value == 0x6 {
            Some(XAssetType::MATERIAL)
        } else if value == 0x7 {
            Some(XAssetType::TECHNIQUE_SET)
        } else if value == 0x8 {
            Some(XAssetType::IMAGE)
        } else if value == 0x9 {
            Some(XAssetType::SOUND)
        } else if value == 0xa {
            Some(XAssetType::SOUND_PATCH)
        } else if value == 0xb {
            Some(XAssetType::CLIPMAP)
        } else if value == 0xc {
            Some(XAssetType::CLIPMAP_PVS)
        } else if value == 0xd {
            Some(XAssetType::COMWORLD)
        } else if value == 0xe {
            Some(XAssetType::GAMEWORLD_SP)
        } else if value == 0xf {
            Some(XAssetType::GAMEWORLD_MP)
        } else if value == 0x10 {
            Some(XAssetType::MAP_ENTS)
        } else if value == 0x11 {
            Some(XAssetType::GFXWORLD)
        } else if value == 0x12 {
            Some(XAssetType::LIGHT_DEF)
        } else if value == 0x13 {
            Some(XAssetType::UI_MAP)
        } else if value == 0x14 {
            Some(XAssetType::FONT)
        } else if value == 0x15 {
            Some(XAssetType::MENULIST)
        } else if value == 0x16 {
            Some(XAssetType::MENU)
        } else if value == 0x17 {
            Some(XAssetType::LOCALIZE_ENTRY)
        } else if value == 0x18 {
            Some(XAssetType::WEAPON)
        } else if value == 0x19 {
            Some(XAssetType::WEAPONDEF)
        } else if value == 0x1a {
            Some(XAssetType::WEAPON_VARIANT)
        } else if value == 0x1b {
            Some(XAssetType::SNDDRIVER_GLOBALS)
        } else if value == 0x1c {
            Some(XAssetType::FX)
        } else if value == 0x1d {
            Some(XAssetType::IMPACT_FX)
        } else if value == 0x1e {
            Some(XAssetType::AITYPE)
        } else if value == 0x1f {
            Some(XAssetType::MPTYPE)
        } else if value == 0x20 {
            Some(XAssetType::MPBODY)
        } else if value == 0x21 {
            Some(XAssetType::MPHEAD)
        } else if value == 0x22 {
            Some(XAssetType::CHARACTER)
        } else if value == 0x23 {
            Some(XAssetType::XMODELALIAS)
        } else if value == 0x24 {
            Some(XAssetType::RAWFILE)
        } else if value == 0x25 {
            Some(XAssetType::STRINGTABLE)
        } else if value == 0x26 {
            Some(XAssetType::PACKINDEX)
        } else if value == 0x27 {
            Some(XAssetType::XGLOBALS)
        } else if value == 0x28 {
            Some(XAssetType::DDL)
        } else if value == 0x29 {
            Some(XAssetType::GLASSES)
        } else if value == 0x2a {
            Some(XAssetType::EMBLEMSET)
        } else if value == 0x2b {
            Some(XAssetType::STRING)
        } else if value == 0x2c {
            Some(XAssetType::ASSETLIST)
        } else {
            None
        }
    }

    /// The kind whose tag is `value`, if there is one.
    pub fn from_u32(value: u32) -> (r: Option<XAssetType>)
        ensures
            r == XAssetType::spec_from_u32(value),
            match r {
                Some(t) => t.spec_as_u32() == value,
                None => value > 0x2c,
            },
    {
        match value {
            0x0 => Some(XAssetType::XMODELPIECES),
            0x1 => Some(XAssetType::PHYSPRESET),
            0x2 => Some(XAssetType::PHYSCONSTRAINTS),
            0x3 => Some(XAssetType::DESTRUCTIBLEDEF),
            0x4 => Some(XAssetType::XANIMPARTS),
            0x5 => Some(XAssetType::XMODEL),
            0x6 => Some(XAssetType::MATERIAL),
            0x7 => Some(XAssetType::TECHNIQUE_SET),
            0x8 => Some(XAssetType::IMAGE),
            0x9 => Some(XAssetType::SOUND),
            0xa => Some(XAssetType::SOUND_PATCH),
            0xb => Some(XAssetType::CLIPMAP),
            0xc => Some(XAssetType::CLIPMAP_PVS),
            0xd => Some(XAssetType::COMWORLD),
            0xe => Some(XAssetType::GAMEWORLD_SP),
            0xf => Some(XAssetType::GAMEWORLD_MP),
            0x10 => Some(XAssetType::MAP_ENTS),
            0x11 => Some(XAssetType::GFXWORLD),
            0x12 => Some(XAssetType::LIGHT_DEF),
            0x13 => Some(XAssetType::UI_MAP),
            0x14 => Some(XAssetType::FONT),
            0x15 => Some(XAssetType::MENULIST),
            0x16 => Some(XAssetType::MENU),
            0x17 => Some(XAssetType::LOCALIZE_ENTRY),
            0x18 => Some(XAssetType::WEAPON),
            0x19 => Some(XAssetType::WEAPONDEF),
            0x1a => Some(XAssetType::WEAPON_VARIANT),
            0x1b => Some(XAssetType::SNDDRIVER_GLOBALS),
            0x1c => Some(XAssetType::FX),
            0x1d => Some(XAssetType::IMPACT_FX),
            0x1e => Some(XAssetType::AITYPE),
            0x1f => Some(XAssetType::MPTYPE),
            0x20 => Some(XAssetType::MPBODY),
            0x21 => Some(XAssetType::MPHEAD),
            0x22 => Some(XAssetType::CHARACTER),
            0x23 => Some(XAssetType::XMODELALIAS),
            0x24 => Some(XAssetType::RAWFILE),
            0x25 => Some(XAssetType::STRINGTABLE),
            0x26 => Some(XAssetType::PACKINDEX),
            0x27 => Some(XAssetType::XGLOBALS),
            0x28 => Some(XAssetType::DDL),
            0x29 => Some(XAssetType::GLASSES),
            0x2a => Some(XAssetType::EMBLEMSET),
            0x2b => Some(XAssetType::STRING),
            0x2c => Some(XAssetType::ASSETLIST),
            _ => None,
        }
    }

    /// The tag of this kind.
    pub fn as_u32(&self) -> (r: u32)
        ensures
            r == self.spec_as_u32(),
    {
        match self {
            XAssetType::XMODELPIECES => 0x0,
            XAssetType::PHYSPRESET => 0x1,
            XAssetType::PHYSCONSTRAINTS => 0x2,
            XAssetType::DESTRUCTIBLEDEF => 0x3,
            XAssetType::XANIMPARTS => 0x4,
            XAssetType::XMODEL => 0x5,
            XAssetType::MATERIAL => 0x6,
            XAssetType::TECHNIQUE_SET => 0x7,
            XAssetType::IMAGE => 0x8,
            XAssetType::SOUND => 0x9,
            XAssetType::SOUND_PATCH => 0xa,
            XAssetType::CLIPMAP => 0xb,
            XAssetType::CLIPMAP_PVS => 0xc,
            XAssetType::COMWORLD => 0xd,
            XAssetType::GAMEWORLD_SP => 0xe,
            XAssetType::GAMEWORLD_MP => 0xf,
            XAssetType::MAP_ENTS => 0x10,
            XAssetType::GFXWORLD => 0x11,
            XAssetType::LIGHT_DEF => 0x12,
            XAssetType::UI_MAP => 0x13,
            XAssetType::FONT => 0x14,
            XAssetType::MENULIST => 0x15,
            XAssetType::MENU => 0x16,
            XAssetType::LOCALIZE_ENTRY => 0x17,
            XAssetType::WEAPON => 0x18,
            XAssetType::WEAPONDEF => 0x19,
            XAssetType::WEAPON_VARIANT => 0x1a,
            XAssetType::SNDDRIVER_GLOBALS => 0x1b,
            XAssetType::FX => 0x1c,
            XAssetType::IMPACT_FX => 0x1d,
            XAssetType::AITYPE => 0x1e,
            XAssetType::MPTYPE => 0x1f,
            XAssetType::MPBODY => 0x20,
            XAssetType::MPHEAD => 0x21,
            XAssetType::CHARACTER => 0x22,
            XAssetType::XMODELALIAS => 0x23,
            XAssetType::RAWFILE => 0x24,
            XAssetType::STRINGTABLE => 0x25,
            XAssetType::PACKINDEX => 0x26,
            XAssetType::XGLOBALS => 0x27,
            XAssetType::DDL => 0x28,
            XAssetType::GLASSES => 0x29,
            XAssetType::EMBLEMSET => 0x2a,
            XAssetType::STRING => 0x2b,
            XAssetType::ASSETLIST => 0x2c,
        }
    }

    /// Whether this version of the format ever emits assets of this kind.
    pub fn is_used(&self) -> (r: bool)
        ensures
            r == self.spec_is_used(),
    {
        match self {
            XAssetType::XMODELPIECES
            | XAssetType::UI_MAP
            | XAssetType::WEAPONDEF
            | XAssetType::WEAPON_VARIANT
            | XAssetType::AITYPE
            | XAssetType::MPTYPE
            | XAssetType::MPBODY
            | XAssetType::MPHEAD
            | XAssetType::CHARACTER
            | XAssetType::XMODELALIAS
            | XAssetType::STRING
            | XAssetType::ASSETLIST => false,
            _ => true,
        }
    }
}

impl Default for XAssetType {
    fn default() -> (r: XAssetType)
        ensures
            r == XAssetType::XMODELPIECES,
    {
        XAssetType::XMODELPIECES
    }
}


/// A decoded asset of one of the kinds this library reads. A kind's value is
/// absent when the asset's pointer is null.
#[derive(Clone, Debug)]
pub enum XAssetGeneric {
    MapEnts(Option<Box<MapEnts>>),
    LocalizeEntry(Option<Box<LocalizeEntry>>),
    RawFile(Option<Box<RawFile>>),
    StringTable(Option<Box<StringTable>>),
    PackIndex(Option<Box<PackIndex>>),
    XGlobals(Option<Box<XGlobals>>),
}

pub enum AssetModel {
    MapEnts(Option<MapEntsModel>),
    LocalizeEntry(Option<LocalizeEntryModel>),
    RawFile(Option<RawFileModel>),
    StringTable(Option<StringTableModel>),
    PackIndex(Option<PackIndexModel>),
    XGlobals(Option<XGlobalsModel>),
}

impl View for XAssetGeneric {
    type V = AssetModel;

    open spec fn view(&self) -> AssetModel {
        match self {
            XAssetGeneric::MapEnts(a) => AssetModel::MapEnts(opt_view(*a)),
            XAssetGeneric::LocalizeEntry(a) => AssetModel::LocalizeEntry(opt_view(*a)),
            XAssetGeneric::RawFile(a) => AssetModel::RawFile(opt_view(*a)),
            XAssetGeneric::StringTable(a) => AssetModel::StringTable(opt_view(*a)),
            XAssetGeneric::PackIndex(a) => AssetModel::PackIndex(opt_view(*a)),
            XAssetGeneric::XGlobals(a) => AssetModel::XGlobals(opt_view(*a)),
        }
    }
}

/// An asset together with the platform family it was decoded for.
#[derive(Clone, Debug)]
pub enum XAsset {
    PC(XAssetGeneric),
    Console(XAssetGeneric),
}

pub struct XAssetModel {
    pub pc: bool,
    pub asset: AssetModel,
}

impl View for XAsset {
    type V = XAssetModel;

    open spec fn view(&self) -> XAssetModel {
        match self {
            XAsset::PC(a) => XAssetModel { pc: true, asset: a@ },
            XAsset::Console(a) => XAssetModel { pc: false, asset: a@ },
        }
    }
}

/// The value of an asset record with tag `tag` and data token `token`, read
/// from `p`. A tag outside the closed set of kinds is invalid; a kind that
/// this version of the format never emits is unused; a kind this library has
/// no layout for is unimplemented. Any other kind is read through its token.
pub open spec fn rd_asset_generic(w: Wire, d: Seq<u8>, p: int, tag: u32, token: u32) -> Read<
    AssetModel,
> {
    match XAssetType::spec_from_u32(tag) {
        None => Err(Fault::InvalidXAssetType(tag)),
        Some(t) => if !t.spec_is_used() {
            Err(Fault::UnusedXAssetType(t))
        } else if t == XAssetType::MAP_ENTS {
            match rd_deref(w, d, p, token, |x: int| rd_map_ents(w, d, x)) {
                Err(e) => Err(e),
                Ok((v, q)) => Ok((AssetModel::MapEnts(v), q)),
            }
        } else if t == XAssetType::LOCALIZE_ENTRY {
            match rd_deref(w, d, p, token, |x: int| rd_localize_entry(w, d, x)) {
                Err(e) => Err(e),
                Ok((v, q)) => Ok((AssetModel::LocalizeEntry(v), q)),
            }
        } else if t == XAssetType::RAWFILE {
            match rd_deref(w, d, p, token, |x: int| rd_raw_file(w, d, x)) {
                Err(e) => Err(e),
                Ok((v, q)) => Ok((AssetModel::RawFile(v), q)),
            }
        } else if t == XAssetType::STRINGTABLE {
            match rd_deref(w, d, p, token, |x: int| rd_string_table(w, d, x)) {
                Err(e) => Err(e),
                Ok((v, q)) => Ok((AssetModel::StringTable(v), q)),
            }
        } else if t == XAssetType::PACKINDEX {
            match rd_deref(w, d, p, token, |x: int| rd_pack_index(w, d, x)) {
                Err(e) => Err(e),
                Ok((v, q)) => Ok((AssetModel::PackIndex(v), q)),
            }
        } else if t == XAssetType::XGLOBALS {
            match rd_deref(w, d, p, token, |x: int| rd_xglobals(w, d, x)) {
                Err(e) => Err(e),
                Ok((v, q)) => Ok((AssetModel::XGlobals(v), q)),
            }
        } else {
            Err(Fault::Unimplemented(t))
        },
    }
}

/// [`rd_asset_generic`], marked with the platform family.
pub open spec fn rd_asset(w: Wire, d: Seq<u8>, p: int, tag: u32, token: u32, pc: bool) -> Read<
    XAssetModel,
> {
    match rd_asset_generic(w, d, p, tag, token) {
        Err(e) => Err(e),
        Ok((a, q)) => Ok((XAssetModel { pc, asset: a }, q)),
    }
}

/// The raw layout of an asset record: its tag and a token for its data.
#[derive(Copy, Clone, Debug)]
pub struct XAssetRaw {
    pub asset_type: u32,
    pub asset_data: u32,
}

impl XAssetRaw {
    /// Decodes the asset this record describes, reading from the cursor.
    pub fn xfile_deserialize_into(&self, de: &mut T5XFileDeserializer) -> (r: Result<
        XAssetGeneric,
        Error,
    >)
        requires
            old(de).wf(),
        ensures
            final(de).wf(),
            same_image(*final(de), *old(de)),
            match rd_asset_generic(
                old(de).wire(),
                old(de).bytes(),
                old(de).pos(),
                self.asset_type,
                self.asset_data,
            ) {
                Ok((v, q)) => r is Ok && r->Ok_0@ == v && final(de).pos() == q,
                Err(f) => r is Err && r->Err_0.spec_kind().reports(f),
            },
    {
        let asset_type = match XAssetType::from_u32(self.asset_type) {
            Some(t) => t,
            None => {
                return Err(
                    de.fail(
                        "XAssetRaw::xfile_deserialize_into",
                        ErrorKind::InvalidXAssetType(self.asset_type),
                    ),
                )
            },
        };
        if !asset_type.is_used() {
            return Err(
                de.fail(
                    "XAssetRaw::xfile_deserialize_into",
                    ErrorKind::UnusedXAssetType(asset_type),
                ),
            );
        }
        match asset_type {
            XAssetType::MAP_ENTS => match read_map_ents_ptr(de, self.asset_data) {
                Ok(v) => Ok(XAssetGeneric::MapEnts(v)),
                Err(e) => Err(e),
            },
            XAssetType::LOCALIZE_ENTRY => match read_localize_entry_ptr(de, self.asset_data) {
                Ok(v) => Ok(XAssetGeneric::LocalizeEntry(v)),
                Err(e) => Err(e),
            },
            XAssetType::RAWFILE => match read_raw_file_ptr(de, self.asset_data) {
                Ok(v) => Ok(XAssetGeneric::RawFile(v)),
                Err(e) => Err(e),
            },
            XAssetType::STRINGTABLE => match read_string_table_ptr(de, self.asset_data) {
                Ok(v) => Ok(XAssetGeneric::StringTable(v)),
                Err(e) => Err(e),
            },
            XAssetType::PACKINDEX => match read_pack_index_ptr(de, self.asset_data) {
                Ok(v) => Ok(XAssetGeneric::PackIndex(v)),
                Err(e) => Err(e),
            },
            XAssetType::XGLOBALS => match read_xglobals_ptr(de, self.asset_data) {
                Ok(v) => Ok(XAssetGeneric::XGlobals(v)),
                Err(e) => Err(e),
            },
            _ => Err(
                de.fail(
                    "XAssetRaw::xfile_deserialize_into",
                    ErrorKind::Todo("no reader for this asset kind".to_owned()),
                ),
            ),
        }
    }
}

impl XAsset {
    /// Decodes the asset a record describes, for the platform's family.
    pub fn try_get(de: &mut T5XFileDeserializer, xasset_raw: XAssetRaw, platform: XFilePlatform) -> (r:
        Result<XAsset, Error>)
        requires
            old(de).wf(),
        ensures
            final(de).wf(),
            same_image(*final(de), *old(de)),
            match rd_asset(
                old(de).wire(),
                old(de).bytes(),
                old(de).pos(),
                xasset_raw.asset_type,
                xasset_raw.asset_data,
                !platform.spec_is_console(),
            ) {
                Ok((v, q)) => r is Ok && r->Ok_0@ == v && final(de).pos() == q,
                Err(f) => r is Err && r->Err_0.spec_kind().reports(f),
            },
    {
        let a = match xasset_raw.xfile_deserialize_into(de) {
            Ok(a) => a,
            Err(e) => return Err(e),
        };
        if platform.is_pc() {
            Ok(XAsset::PC(a))
        } else {
            Ok(XAsset::Console(a))
        }
    }

    pub open spec fn spec_generic(&self) -> XAssetGeneric {
        match self {
            XAsset::PC(a) => *a,
            XAsset::Console(a) => *a,
        }
    }

    pub fn name(&self) -> (r: Option<&str>)
        ensures
            match self.spec_generic().spec_name() {
                Some(n) => r matches Some(s) && s@ == n,
                None => r is None,
            },
    {
        match self {
            XAsset::PC(a) => a.name(),
            XAsset::Console(a) => a.name(),
        }
    }

    pub fn is_some(&self) -> (r: bool)
        ensures
            r == self.spec_generic().spec_is_some(),
    {
        match self {
            XAsset::PC(a) => a.is_some(),
            XAsset::Console(a) => a.is_some(),
        }
    }

    pub fn is_none(&self) -> (r: bool)
        ensures
            r == !self.spec_generic().spec_is_some(),
    {
        !self.is_some()
    }

    pub fn is_pc(&self) -> (r: bool)
        ensures
            r == (self is PC),
    {
        match self {
            XAsset::PC(_) => true,
            _ => false,
        }
    }

    pub fn is_console(&self) -> (r: bool)
        ensures
            r == (self is Console),
    {
        !self.is_pc()
    }
}

impl XAssetGeneric {
    /// Whether the asset's pointer was not null.
    pub open spec fn spec_is_some(&self) -> bool {
        match self {
            XAssetGeneric::MapEnts(p) => p is Some,
            XAssetGeneric::LocalizeEntry(p) => p is Some,
            XAssetGeneric::RawFile(p) => p is Some,
            XAssetGeneric::StringTable(p) => p is Some,
            XAssetGeneric::PackIndex(p) => p is Some,
            XAssetGeneric::XGlobals(p) => p is Some,
        }
    }

    /// The asset's name, when it is present.
    pub open spec fn spec_name(&self) -> Option<Seq<char>> {
        match self {
            XAssetGeneric::MapEnts(Some(p)) => Some(p.name@),
            XAssetGeneric::LocalizeEntry(Some(p)) => Some(p.name@),
            XAssetGeneric::RawFile(Some(p)) => Some(p.name@),
            XAssetGeneric::StringTable(Some(p)) => Some(p.name@),
            XAssetGeneric::PackIndex(Some(p)) => Some(p.name@),
            XAssetGeneric::XGlobals(Some(p)) => Some(p.name@),
            _ => None,
        }
    }

    pub fn is_some(&self) -> (r: bool)
        ensures
            r == self.spec_is_some(),
    {
        match self {
            XAssetGeneric::MapEnts(p) => p.is_some(),
            XAssetGeneric::LocalizeEntry(p) => p.is_some(),
            XAssetGeneric::RawFile(p) => p.is_some(),
            XAssetGeneric::StringTable(p) => p.is_some(),
            XAssetGeneric::PackIndex(p) => p.is_some(),
            XAssetGeneric::XGlobals(p) => p.is_some(),
        }
    }

    pub fn is_none(&self) -> (r: bool)
        ensures
            r == !self.spec_is_some(),
    {
        !self.is_some()
    }

    pub fn name(&self) -> (r: Option<&str>)
        ensures
            match self.spec_name() {
                Some(n) => r matches Some(s) && s@ == n,
                None => r is None,
            },
    {
        match self {
            XAssetGeneric::MapEnts(Some(p)) => Some(p.name.as_str()),
            XAssetGeneric::LocalizeEntry(Some(p)) => Some(p.name.as_str()),
            XAssetGeneric::RawFile(Some(p)) => Some(p.name.as_str()),
            XAssetGeneric::StringTable(Some(p)) => Some(p.name.as_str()),
            XAssetGeneric::PackIndex(Some(p)) => Some(p.name.as_str()),
            XAssetGeneric::XGlobals(Some(p)) => Some(p.name.as_str()),
            _ => None,
        }
    }
}

} // verus!
