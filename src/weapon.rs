//! The closed enumerations of weapon definitions. Each is stored on the
//! wire as a 32-bit integer; [`from_u32`](WeapType::from_u32) maps an integer
//! to its variant, and a value outside the enumeration has none.
use vstd::prelude::*;

verus! {

#[allow(non_camel_case_types)]
#[derive(Copy, Clone, Debug, PartialEq, Eq, Structural)]
pub enum WeaponIconRatioType {
    ONE_TO_ONE,
    TWO_TO_ONE,
    FOUR_TO_ONE,
    COUNT,
}

impl WeaponIconRatioType {
    /// The integer that stands for this variant.
    pub open spec fn spec_as_u32(self) -> u32 {
        match self {
            WeaponIconRatioType::ONE_TO_ONE => 0,
            WeaponIconRatioType::TWO_TO_ONE => 1,
            WeaponIconRatioType::FOUR_TO_ONE => 2,
            WeaponIconRatioType::COUNT => 3,
        }
    }

    /// The variant that `value` stands for, if any.
    pub open spec fn spec_from_u32(value: u32) -> Option<WeaponIconRatioType> {
        if value == 0 {
            Some(WeaponIconRatioType::ONE_TO_ONE)
        } else if value == 1 {
            Some(WeaponIconRatioType::TWO_TO_ONE)
        } else if value == 2 {
            Some(WeaponIconRatioType::FOUR_TO_ONE)
        } else if value == 3 {
            Some(WeaponIconRatioType::COUNT)
        } else {
            None
        }
    }

    pub fn from_u32(value: u32) -> (r: Option<WeaponIconRatioType>)
        ensures
            r == WeaponIconRatioType::spec_from_u32(value),
            r matches Some(v) ==> v.spec_as_u32() == value,
            r is None <==> value >= 4,
    {
        match value {
            0 => Some(WeaponIconRatioType::ONE_TO_ONE),
            1 => Some(WeaponIconRatioType::TWO_TO_ONE),
            2 => Some(WeaponIconRatioType::FOUR_TO_ONE),
            3 => Some(WeaponIconRatioType::COUNT),
            _ => None,
        }
    }

    pub fn as_u32(&self) -> (r: u32)
        ensures
            r == self.spec_as_u32(),
    {
        match self {
            WeaponIconRatioType::ONE_TO_ONE => 0,
            WeaponIconRatioType::TWO_TO_ONE => 1,
            WeaponIconRatioType::FOUR_TO_ONE => 2,
            WeaponIconRatioType::COUNT => 3,
        }
    }
}

impl Default for WeaponIconRatioType {
    fn default() -> (r: WeaponIconRatioType)
        ensures
            r == WeaponIconRatioType::ONE_TO_ONE,
    {
        WeaponIconRatioType::ONE_TO_ONE
    }
}

#[allow(non_camel_case_types)]
#[derive(Copy, Clone, Debug, PartialEq, Eq, Structural)]
pub enum WeapType {
    BULLET,
    GRENADE,
    PROJECTILE,
    BINOCULARS,
    GAS,
    BOMB,
    MINE,
    MELEE,
    NUM,
}

impl WeapType {
    /// The integer that stands for this variant.
    pub open spec fn spec_as_u32(self) -> u32 {
        match self {
            WeapType::BULLET => 0,
            WeapType::GRENADE => 1,
            WeapType::PROJECTILE => 2,
            WeapType::BINOCULARS => 3,
            WeapType::GAS => 4,
            WeapType::BOMB => 5,
            WeapType::MINE => 6,
            WeapType::MELEE => 7,
            WeapType::NUM => 8,
        }
    }

    /// The variant that `value` stands for, if any.
    pub open spec fn spec_from_u32(value: u32) -> Option<WeapType> {
        if value == 0 {
            Some(WeapType::BULLET)
        } else if value == 1 {
            Some(WeapType::GRENADE)
        } else if value == 2 {
            Some(WeapType::PROJECTILE)
        } else if value == 3 {
            Some(WeapType::BINOCULARS)
        } else if value == 4 {
            Some(WeapType::GAS)
        } else if value == 5 {
            Some(WeapType::BOMB)
        } else if value == 6 {
            Some(WeapType::MINE)
        } else if value == 7 {
            Some(WeapType::MELEE)
        } else if value == 8 {
            Some(WeapType::NUM)
        } else {
            None
        }
    }

    pub fn from_u32(value: u32) -> (r: Option<WeapType>)
        ensures
            r == WeapType::spec_from_u32(value),
            r matches Some(v) ==> v.spec_as_u32() == value,
            r is None <==> value >= 9,
    {
        match value {
            0 => Some(WeapType::BULLET),
            1 => Some(WeapType::GRENADE),
            2 => Some(WeapType::PROJECTILE),
            3 => Some(WeapType::BINOCULARS),
            4 => Some(WeapType::GAS),
            5 => Some(WeapType::BOMB),
            6 => Some(WeapType::MINE),
            7 => Some(WeapType::MELEE),
            8 => Some(WeapType::NUM),
            _ => None,
        }
    }

    pub fn as_u32(&self) -> (r: u32)
        ensures
            r == self.spec_as_u32(),
    {
        match self {
            WeapType::BULLET => 0,
            WeapType::GRENADE => 1,
            WeapType::PROJECTILE => 2,
            WeapType::BINOCULARS => 3,
            WeapType::GAS => 4,
            WeapType::BOMB => 5,
            WeapType::MINE => 6,
            WeapType::MELEE => 7,
            WeapType::NUM => 8,
        }
    }
}

impl Default for WeapType {
    fn default() -> (r: WeapType)
        ensures
            r == WeapType::BULLET,
    {
        WeapType::BULLET
    }
}

#[allow(non_camel_case_types)]
#[derive(Copy, Clone, Debug, PartialEq, Eq, Structural)]
pub enum WeapClass {
    RIFLE,
    MG,
    SMG,
    SPREAD,
    PISTOL,
    GRENADE,
    ROCKETLAUNCHER,
    TURRET,
    NON_PLAYER,
    GAS,
    ITEM,
    MELEE,
    KILLSTREAK_ALT_STORED_WEAPON,
    NUM,
}

impl WeapClass {
    /// The integer that stands for this variant.
    pub open spec fn spec_as_u32(self) -> u32 {
        match self {
            WeapClass::RIFLE => 0,
            WeapClass::MG => 1,
            WeapClass::SMG => 2,
            WeapClass::SPREAD => 3,
            WeapClass::PISTOL => 4,
            WeapClass::GRENADE => 5,
            WeapClass::ROCKETLAUNCHER => 6,
            WeapClass::TURRET => 7,
            WeapClass::NON_PLAYER => 8,
            WeapClass::GAS => 9,
            WeapClass::ITEM => 10,
            WeapClass::MELEE => 11,
            WeapClass::KILLSTREAK_ALT_STORED_WEAPON => 12,
            WeapClass::NUM => 13,
        }
    }

    /// The variant that `value` stands for, if any.
    pub open spec fn spec_from_u32(value: u32) -> Option<WeapClass> {
        if value == 0 {
            Some(WeapClass::RIFLE)
        } else if value == 1 {
            Some(WeapClass::MG)
        } else if value == 2 {
            Some(WeapClass::SMG)
        } else if value == 3 {
            Some(WeapClass::SPREAD)
        } else if value == 4 {
            Some(WeapClass::PISTOL)
        } else if value == 5 {
            Some(WeapClass::GRENADE)
        } else if value == 6 {
            Some(WeapClass::ROCKETLAUNCHER)
        } else if value == 7 {
            Some(WeapClass::TURRET)
        } else if value == 8 {
            Some(WeapClass::NON_PLAYER)
        } else if value == 9 {
            Some(WeapClass::GAS)
        } else if value == 10 {
            Some(WeapClass::ITEM)
        } else if value == 11 {
            Some(WeapClass::MELEE)
        } else if value == 12 {
            Some(WeapClass::KILLSTREAK_ALT_STORED_WEAPON)
        } else if value == 13 {
            Some(WeapClass::NUM)
        } else {
            None
        }
    }

    pub fn from_u32(value: u32) -> (r: Option<WeapClass>)
        ensures
            r == WeapClass::spec_from_u32(value),
            r matches Some(v) ==> v.spec_as_u32() == value,
            r is None <==> value >= 14,
    {
        match value {
            0 => Some(WeapClass::RIFLE),
            1 => Some(WeapClass::MG),
            2 => Some(WeapClass::SMG),
            3 => Some(WeapClass::SPREAD),
            4 => Some(WeapClass::PISTOL),
            5 => Some(WeapClass::GRENADE),
            6 => Some(WeapClass::ROCKETLAUNCHER),
            7 => Some(WeapClass::TURRET),
            8 => Some(WeapClass::NON_PLAYER),
            9 => Some(WeapClass::GAS),
            10 => Some(WeapClass::ITEM),
            11 => Some(WeapClass::MELEE),
            12 => Some(WeapClass::KILLSTREAK_ALT_STORED_WEAPON),
            13 => Some(WeapClass::NUM),
            _ => None,
        }
    }

    pub fn as_u32(&self) -> (r: u32)
        ensures
            r == self.spec_as_u32(),
    {
        match self {
            WeapClass::RIFLE => 0,
            WeapClass::MG => 1,
            WeapClass::SMG => 2,
            WeapClass::SPREAD => 3,
            WeapClass::PISTOL => 4,
            WeapClass::GRENADE => 5,
            WeapClass::ROCKETLAUNCHER => 6,
            WeapClass::TURRET => 7,
            WeapClass::NON_PLAYER => 8,
            WeapClass::GAS => 9,
            WeapClass::ITEM => 10,
            WeapClass::MELEE => 11,
            WeapClass::KILLSTREAK_ALT_STORED_WEAPON => 12,
            WeapClass::NUM => 13,
        }
    }
}

impl Default for WeapClass {
    fn default() -> (r: WeapClass)
        ensures
            r == WeapClass::RIFLE,
    {
        WeapClass::RIFLE
    }
}

#[allow(non_camel_case_types)]
#[derive(Copy, Clone, Debug, PartialEq, Eq, Structural)]
pub enum PenetrateType {
    NONE,
    SMALL,
    MEDIUM,
    LARGE,
    COUNT,
}

impl PenetrateType {
    /// The integer that stands for this variant.
    pub open spec fn spec_as_u32(self) -> u32 {
        match self {
            PenetrateType::NONE => 0,
            PenetrateType::SMALL => 1,
            PenetrateType::MEDIUM => 2,
            PenetrateType::LARGE => 3,
            PenetrateType::COUNT => 4,
        }
    }

    /// The variant that `value` stands for, if any.
    pub open spec fn spec_from_u32(value: u32) -> Option<PenetrateType> {
        if value == 0 {
            Some(PenetrateType::NONE)
        } else if value == 1 {
            Some(PenetrateType::SMALL)
        } else if value == 2 {
            Some(PenetrateType::MEDIUM)
        } else if value == 3 {
            Some(PenetrateType::LARGE)
        } else if value == 4 {
            Some(PenetrateType::COUNT)
        } else {
            None
        }
    }

    pub fn from_u32(value: u32) -> (r: Option<PenetrateType>)
        ensures
            r == PenetrateType::spec_from_u32(value),
            r matches Some(v) ==> v.spec_as_u32() == value,
            r is None <==> value >= 5,
    {
        match value {
            0 => Some(PenetrateType::NONE),
            1 => Some(PenetrateType::SMALL),
            2 => Some(PenetrateType::MEDIUM),
            3 => Some(PenetrateType::LARGE),
            4 => Some(PenetrateType::COUNT),
            _ => None,
        }
    }

    pub fn as_u32(&self) -> (r: u32)
        ensures
            r == self.spec_as_u32(),
    {
        match self {
            PenetrateType::NONE => 0,
            PenetrateType::SMALL => 1,
            PenetrateType::MEDIUM => 2,
            PenetrateType::LARGE => 3,
            PenetrateType::COUNT => 4,
        }
    }
}

impl Default for PenetrateType {
    fn default() -> (r: PenetrateType)
        ensures
            r == PenetrateType::NONE,
    {
        PenetrateType::NONE
    }
}

#[allow(non_camel_case_types)]
#[derive(Copy, Clone, Debug, PartialEq, Eq, Structural)]
pub enum ImpactType {
    NONE,
    BULLET_SMALL,
    BULLET_LARGE,
    BULLET_AP,
    BULLET_XTREME,
    SHOTGUN,
    GRENADE_BOUNCE,
    GRENADE_EXPLODE,
    RIFLE_GRENADE,
    ROCKET_EXPLODE,
    ROCKET_EXPLODE_XTREME,
    PROJECTILE_DUD,
    MORTAR_SHELL,
    TANK_SHELL,
    BOLT,
    BLADE,
    COUNT,
}

impl ImpactType {
    /// The integer that stands for this variant.
    pub open spec fn spec_as_u32(self) -> u32 {
        match self {
            ImpactType::NONE => 0,
            ImpactType::BULLET_SMALL => 1,
            ImpactType::BULLET_LARGE => 2,
            ImpactType::BULLET_AP => 3,
            ImpactType::BULLET_XTREME => 4,
            ImpactType::SHOTGUN => 5,
            ImpactType::GRENADE_BOUNCE => 6,
            ImpactType::GRENADE_EXPLODE => 7,
            ImpactType::RIFLE_GRENADE => 8,
            ImpactType::ROCKET_EXPLODE => 9,
            ImpactType::ROCKET_EXPLODE_XTREME => 10,
            ImpactType::PROJECTILE_DUD => 11,
            ImpactType::MORTAR_SHELL => 12,
            ImpactType::TANK_SHELL => 13,
            ImpactType::BOLT => 14,
            ImpactType::BLADE => 15,
            ImpactType::COUNT => 16,
        }
    }

    /// The variant that `value` stands for, if any.
    pub open spec fn spec_from_u32(value: u32) -> Option<ImpactType> {
        if value == 0 {
            Some(ImpactType::NONE)
        } else if value == 1 {
            Some(ImpactType::BULLET_SMALL)
        } else if value == 2 {
            Some(ImpactType::BULLET_LARGE)
        } else if value == 3 {
            Some(ImpactType::BULLET_AP)
        } else if value == 4 {
            Some(ImpactType::BULLET_XTREME)
        } else if value == 5 {
            Some(ImpactType::SHOTGUN)
        } else if value == 6 {
            Some(ImpactType::GRENADE_BOUNCE)
        } else if value == 7 {
            Some(ImpactType::GRENADE_EXPLODE)
        } else if value == 8 {
            Some(ImpactType::RIFLE_GRENADE)
        } else if value == 9 {
            Some(ImpactType::ROCKET_EXPLODE)
        } else if value == 10 {
            Some(ImpactType::ROCKET_EXPLODE_XTREME)
        } else if value == 11 {
            Some(ImpactType::PROJECTILE_DUD)
        } else if value == 12 {
            Some(ImpactType::MORTAR_SHELL)
        } else if value == 13 {
            Some(ImpactType::TANK_SHELL)
        } else if value == 14 {
            Some(ImpactType::BOLT)
        } else if value == 15 {
            Some(ImpactType::BLADE)
        } else if value == 16 {
            Some(ImpactType::COUNT)
        } else {
            None
        }
    }

    pub fn from_u32(value: u32) -> (r: Option<ImpactType>)
        ensures
            r == ImpactType::spec_from_u32(value),
            r matches Some(v) ==> v.spec_as_u32() == value,
            r is None <==> value >= 17,
    {
        match value {
            0 => Some(ImpactType::NONE),
            1 => Some(ImpactType::BULLET_SMALL),
            2 => Some(ImpactType::BULLET_LARGE),
            3 => Some(ImpactType::BULLET_AP),
            4 => Some(ImpactType::BULLET_XTREME),
            5 => Some(ImpactType::SHOTGUN),
            6 => Some(ImpactType::GRENADE_BOUNCE),
            7 => Some(ImpactType::GRENADE_EXPLODE),
            8 => Some(ImpactType::RIFLE_GRENADE),
            9 => Some(ImpactType::ROCKET_EXPLODE),
            10 => Some(ImpactType::ROCKET_EXPLODE_XTREME),
            11 => Some(ImpactType::PROJECTILE_DUD),
            12 => Some(ImpactType::MORTAR_SHELL),
            13 => Some(ImpactType::TANK_SHELL),
            14 => Some(ImpactType::BOLT),
            15 => Some(ImpactType::BLADE),
            16 => Some(ImpactType::COUNT),
            _ => None,
        }
    }

    pub fn as_u32(&self) -> (r: u32)
        ensures
            r == self.spec_as_u32(),
    {
        match self {
            ImpactType::NONE => 0,
            ImpactType::BULLET_SMALL => 1,
            ImpactType::BULLET_LARGE => 2,
            ImpactType::BULLET_AP => 3,
            ImpactType::BULLET_XTREME => 4,
            ImpactType::SHOTGUN => 5,
            ImpactType::GRENADE_BOUNCE => 6,
            ImpactType::GRENADE_EXPLODE => 7,
            ImpactType::RIFLE_GRENADE => 8,
            ImpactType::ROCKET_EXPLODE => 9,
            ImpactType::ROCKET_EXPLODE_XTREME => 10,
            ImpactType::PROJECTILE_DUD => 11,
            ImpactType::MORTAR_SHELL => 12,
            ImpactType::TANK_SHELL => 13,
            ImpactType::BOLT => 14,
            ImpactType::BLADE => 15,
            ImpactType::COUNT => 16,
        }
    }
}

impl Default for ImpactType {
    fn default() -> (r: ImpactType)
        ensures
            r == ImpactType::NONE,
    {
        ImpactType::NONE
    }
}

#[allow(non_camel_case_types)]
#[derive(Copy, Clone, Debug, PartialEq, Eq, Structural)]
pub enum WeapInventoryType {
    PRIMARY,
    OFFHAND,
    ITEM,
    ALTMODE,
    MELEE,
    COUNT,
}

impl WeapInventoryType {
    /// The integer that stands for this variant.
    pub open spec fn spec_as_u32(self) -> u32 {
        match self {
            WeapInventoryType::PRIMARY => 0,
            WeapInventoryType::OFFHAND => 1,
            WeapInventoryType::ITEM => 2,
            WeapInventoryType::ALTMODE => 3,
            WeapInventoryType::MELEE => 4,
            WeapInventoryType::COUNT => 5,
        }
    }

    /// The variant that `value` stands for, if any.
    pub open spec fn spec_from_u32(value: u32) -> Option<WeapInventoryType> {
        if value == 0 {
            Some(WeapInventoryType::PRIMARY)
        } else if value == 1 {
            Some(WeapInventoryType::OFFHAND)
        } else if value == 2 {
            Some(WeapInventoryType::ITEM)
        } else if value == 3 {
            Some(WeapInventoryType::ALTMODE)
        } else if value == 4 {
            Some(WeapInventoryType::MELEE)
        } else if value == 5 {
            Some(WeapInventoryType::COUNT)
        } else {
            None
        }
    }

    pub fn from_u32(value: u32) -> (r: Option<WeapInventoryType>)
        ensures
            r == WeapInventoryType::spec_from_u32(value),
            r matches Some(v) ==> v.spec_as_u32() == value,
            r is None <==> value >= 6,
    {
        match value {
            0 => Some(WeapInventoryType::PRIMARY),
            1 => Some(WeapInventoryType::OFFHAND),
            2 => Some(WeapInventoryType::ITEM),
            3 => Some(WeapInventoryType::ALTMODE),
            4 => Some(WeapInventoryType::MELEE),
            5 => Some(WeapInventoryType::COUNT),
            _ => None,
        }
    }

    pub fn as_u32(&self) -> (r: u32)
        ensures
            r == self.spec_as_u32(),
    {
        match self {
            WeapInventoryType::PRIMARY => 0,
            WeapInventoryType::OFFHAND => 1,
            WeapInventoryType::ITEM => 2,
            WeapInventoryType::ALTMODE => 3,
            WeapInventoryType::MELEE => 4,
            WeapInventoryType::COUNT => 5,
        }
    }
}

impl Default for WeapInventoryType {
    fn default() -> (r: WeapInventoryType)
        ensures
            r == WeapInventoryType::PRIMARY,
    {
        WeapInventoryType::PRIMARY
    }
}

#[allow(non_camel_case_types)]
#[derive(Copy, Clone, Debug, PartialEq, Eq, Structural)]
pub enum WeapFireType {
    FULLAUTO,
    SINGLESHOT,
    BURSTFIRE2,
    BURSTFIRE3,
    BURSTFIRE4,
    STACKED,
    MINIGUN,
    COUNT,
}

impl WeapFireType {
    /// The integer that stands for this variant.
    pub open spec fn spec_as_u32(self) -> u32 {
        match self {
            WeapFireType::FULLAUTO => 0,
            WeapFireType::SINGLESHOT => 1,
            WeapFireType::BURSTFIRE2 => 2,
            WeapFireType::BURSTFIRE3 => 3,
            WeapFireType::BURSTFIRE4 => 4,
            WeapFireType::STACKED => 5,
            WeapFireType::MINIGUN => 6,
            WeapFireType::COUNT => 7,
        }
    }

    /// The variant that `value` stands for, if any.
    pub open spec fn spec_from_u32(value: u32) -> Option<WeapFireType> {
        if value == 0 {
            Some(WeapFireType::FULLAUTO)
        } else if value == 1 {
            Some(WeapFireType::SINGLESHOT)
        } else if value == 2 {
            Some(WeapFireType::BURSTFIRE2)
        } else if value == 3 {
            Some(WeapFireType::BURSTFIRE3)
        } else if value == 4 {
            Some(WeapFireType::BURSTFIRE4)
        } else if value == 5 {
            Some(WeapFireType::STACKED)
        } else if value == 6 {
            Some(WeapFireType::MINIGUN)
        } else if value == 7 {
            Some(WeapFireType::COUNT)
        } else {
            None
        }
    }

    pub fn from_u32(value: u32) -> (r: Option<WeapFireType>)
        ensures
            r == WeapFireType::spec_from_u32(value),
            r matches Some(v) ==> v.spec_as_u32() == value,
            r is None <==> value >= 8,
    {
        match value {
            0 => Some(WeapFireType::FULLAUTO),
            1 => Some(WeapFireType::SINGLESHOT),
            2 => Some(WeapFireType::BURSTFIRE2),
            3 => Some(WeapFireType::BURSTFIRE3),
            4 => Some(WeapFireType::BURSTFIRE4),
            5 => Some(WeapFireType::STACKED),
            6 => Some(WeapFireType::MINIGUN),
            7 => Some(WeapFireType::COUNT),
            _ => None,
        }
    }

    pub fn as_u32(&self) -> (r: u32)
        ensures
            r == self.spec_as_u32(),
    {
        match self {
            WeapFireType::FULLAUTO => 0,
            WeapFireType::SINGLESHOT => 1,
            WeapFireType::BURSTFIRE2 => 2,
            WeapFireType::BURSTFIRE3 => 3,
            WeapFireType::BURSTFIRE4 => 4,
            WeapFireType::STACKED => 5,
            WeapFireType::MINIGUN => 6,
            WeapFireType::COUNT => 7,
        }
    }
}

impl Default for WeapFireType {
    fn default() -> (r: WeapFireType)
        ensures
            r == WeapFireType::FULLAUTO,
    {
        WeapFireType::FULLAUTO
    }
}

#[allow(non_camel_case_types)]
#[derive(Copy, Clone, Debug, PartialEq, Eq, Structural)]
pub enum WeapClipType {
    BOTTOM,
    TOP,
    LEFT,
    DP28,
    PTRS,
    LMG,
    COUNT,
}

impl WeapClipType {
    /// The integer that stands for this variant.
    pub open spec fn spec_as_u32(self) -> u32 {
        match self {
            WeapClipType::BOTTOM => 0,
            WeapClipType::TOP => 1,
            WeapClipType::LEFT => 2,
            WeapClipType::DP28 => 3,
            WeapClipType::PTRS => 4,
            WeapClipType::LMG => 5,
            WeapClipType::COUNT => 6,
        }
    }

    /// The variant that `value` stands for, if any.
    pub open spec fn spec_from_u32(value: u32) -> Option<WeapClipType> {
        if value == 0 {
            Some(WeapClipType::BOTTOM)
        } else if value == 1 {
            Some(WeapClipType::TOP)
        } else if value == 2 {
            Some(WeapClipType::LEFT)
        } else if value == 3 {
            Some(WeapClipType::DP28)
        } else if value == 4 {
            Some(WeapClipType::PTRS)
        } else if value == 5 {
            Some(WeapClipType::LMG)
        } else if value == 6 {
            Some(WeapClipType::COUNT)
        } else {
            None
        }
    }

    pub fn from_u32(value: u32) -> (r: Option<WeapClipType>)
        ensures
            r == WeapClipType::spec_from_u32(value),
            r matches Some(v) ==> v.spec_as_u32() == value,
            r is None <==> value >= 7,
    {
        match value {
            0 => Some(WeapClipType::BOTTOM),
            1 => Some(WeapClipType::TOP),
            2 => Some(WeapClipType::LEFT),
            3 => Some(WeapClipType::DP28),
            4 => Some(WeapClipType::PTRS),
            5 => Some(WeapClipType::LMG),
            6 => Some(WeapClipType::COUNT),
            _ => None,
        }
    }

    pub fn as_u32(&self) -> (r: u32)
        ensures
            r == self.spec_as_u32(),
    {
        match self {
            WeapClipType::BOTTOM => 0,
            WeapClipType::TOP => 1,
            WeapClipType::LEFT => 2,
            WeapClipType::DP28 => 3,
            WeapClipType::PTRS => 4,
            WeapClipType::LMG => 5,
            WeapClipType::COUNT => 6,
        }
    }
}

impl Default for WeapClipType {
    fn default() -> (r: WeapClipType)
        ensures
            r == WeapClipType::BOTTOM,
    {
        WeapClipType::BOTTOM
    }
}

#[allow(non_camel_case_types)]
#[derive(Copy, Clone, Debug, PartialEq, Eq, Structural)]
pub enum OffhandClass {
    NONE,
    FRAG_GRENADE,
    SMOKE_GRENADE,
    FLASH_GRENADE,
    GEAR,
    COUNT,
}

impl OffhandClass {
    /// The integer that stands for this variant.
    pub open spec fn spec_as_u32(self) -> u32 {
        match self {
            OffhandClass::NONE => 0,
            OffhandClass::FRAG_GRENADE => 1,
            OffhandClass::SMOKE_GRENADE => 2,
            OffhandClass::FLASH_GRENADE => 3,
            OffhandClass::GEAR => 4,
            OffhandClass::COUNT => 5,
        }
    }

    /// The variant that `value` stands for, if any.
    pub open spec fn spec_from_u32(value: u32) -> Option<OffhandClass> {
        if value == 0 {
            Some(OffhandClass::NONE)
        } else if value == 1 {
            Some(OffhandClass::FRAG_GRENADE)
        } else if value == 2 {
            Some(OffhandClass::SMOKE_GRENADE)
        } else if value == 3 {
            Some(OffhandClass::FLASH_GRENADE)
        } else if value == 4 {
            Some(OffhandClass::GEAR)
        } else if value == 5 {
            Some(OffhandClass::COUNT)
        } else {
            None
        }
    }

    pub fn from_u32(value: u32) -> (r: Option<OffhandClass>)
        ensures
            r == OffhandClass::spec_from_u32(value),
            r matches Some(v) ==> v.spec_as_u32() == value,
            r is None <==> value >= 6,
    {
        match value {
            0 => Some(OffhandClass::NONE),
            1 => Some(OffhandClass::FRAG_GRENADE),
            2 => Some(OffhandClass::SMOKE_GRENADE),
            3 => Some(OffhandClass::FLASH_GRENADE),
            4 => Some(OffhandClass::GEAR),
            5 => Some(OffhandClass::COUNT),
            _ => None,
        }
    }

    pub fn as_u32(&self) -> (r: u32)
        ensures
            r == self.spec_as_u32(),
    {
        match self {
            OffhandClass::NONE => 0,
            OffhandClass::FRAG_GRENADE => 1,
            OffhandClass::SMOKE_GRENADE => 2,
            OffhandClass::FLASH_GRENADE => 3,
            OffhandClass::GEAR => 4,
            OffhandClass::COUNT => 5,
        }
    }
}

impl Default for OffhandClass {
    fn default() -> (r: OffhandClass)
        ensures
            r == OffhandClass::NONE,
    {
        OffhandClass::NONE
    }
}

#[allow(non_camel_case_types)]
#[derive(Copy, Clone, Debug, PartialEq, Eq, Structural)]
pub enum OffhandSlot {
    NONE,
    LETHAL_GRENADE,
    TACTICAL_GRENADE,
    EQUIPMENT,
    SPECIFIC_USE,
    COUNT,
}

impl OffhandSlot {
    /// The integer that stands for this variant.
    pub open spec fn spec_as_u32(self) -> u32 {
        match self {
            OffhandSlot::NONE => 0,
            OffhandSlot::LETHAL_GRENADE => 1,
            OffhandSlot::TACTICAL_GRENADE => 2,
            OffhandSlot::EQUIPMENT => 3,
            OffhandSlot::SPECIFIC_USE => 4,
            OffhandSlot::COUNT => 5,
        }
    }

    /// The variant that `value` stands for, if any.
    pub open spec fn spec_from_u32(value: u32) -> Option<OffhandSlot> {
        if value == 0 {
            Some(OffhandSlot::NONE)
        } else if value == 1 {
            Some(OffhandSlot::LETHAL_GRENADE)
        } else if value == 2 {
            Some(OffhandSlot::TACTICAL_GRENADE)
        } else if value == 3 {
            Some(OffhandSlot::EQUIPMENT)
        } else if value == 4 {
            Some(OffhandSlot::SPECIFIC_USE)
        } else if value == 5 {
            Some(OffhandSlot::COUNT)
        } else {
            None
        }
    }

    pub fn from_u32(value: u32) -> (r: Option<OffhandSlot>)
        ensures
            r == OffhandSlot::spec_from_u32(value),
            r matches Some(v) ==> v.spec_as_u32() == value,
            r is None <==> value >= 6,
    {
        match value {
            0 => Some(OffhandSlot::NONE),
            1 => Some(OffhandSlot::LETHAL_GRENADE),
            2 => Some(OffhandSlot::TACTICAL_GRENADE),
            3 => Some(OffhandSlot::EQUIPMENT),
            4 => Some(OffhandSlot::SPECIFIC_USE),
            5 => Some(OffhandSlot::COUNT),
            _ => None,
        }
    }

    pub fn as_u32(&self) -> (r: u32)
        ensures
            r == self.spec_as_u32(),
    {
        match self {
            OffhandSlot::NONE => 0,
            OffhandSlot::LETHAL_GRENADE => 1,
            OffhandSlot::TACTICAL_GRENADE => 2,
            OffhandSlot::EQUIPMENT => 3,
            OffhandSlot::SPECIFIC_USE => 4,
            OffhandSlot::COUNT => 5,
        }
    }
}

impl Default for OffhandSlot {
    fn default() -> (r: OffhandSlot)
        ensures
            r == OffhandSlot::NONE,
    {
        OffhandSlot::NONE
    }
}

#[allow(non_camel_case_types)]
#[derive(Copy, Clone, Debug, PartialEq, Eq, Structural)]
pub enum WeapStance {
    STAND,
    DUCK,
    PRONE,
    NUM,
}

impl WeapStance {
    /// The integer that stands for this variant.
    pub open spec fn spec_as_u32(self) -> u32 {
        match self {
            WeapStance::STAND => 0,
            WeapStance::DUCK => 1,
            WeapStance::PRONE => 2,
            WeapStance::NUM => 3,
        }
    }

    /// The variant that `value` stands for, if any.
    pub open spec fn spec_from_u32(value: u32) -> Option<WeapStance> {
        if value == 0 {
            Some(WeapStance::STAND)
        } else if value == 1 {
            Some(WeapStance::DUCK)
        } else if value == 2 {
            Some(WeapStance::PRONE)
        } else if value == 3 {
            Some(WeapStance::NUM)
        } else {
            None
        }
    }

    pub fn from_u32(value: u32) -> (r: Option<WeapStance>)
        ensures
            r == WeapStance::spec_from_u32(value),
            r matches Some(v) ==> v.spec_as_u32() == value,
            r is None <==> value >= 4,
    {
        match value {
            0 => Some(WeapStance::STAND),
            1 => Some(WeapStance::DUCK),
            2 => Some(WeapStance::PRONE),
            3 => Some(WeapStance::NUM),
            _ => None,
        }
    }

    pub fn as_u32(&self) -> (r: u32)
        ensures
            r == self.spec_as_u32(),
    {
        match self {
            WeapStance::STAND => 0,
            WeapStance::DUCK => 1,
            WeapStance::PRONE => 2,
            WeapStance::NUM => 3,
        }
    }
}

impl Default for WeapStance {
    fn default() -> (r: WeapStance)
        ensures
            r == WeapStance::STAND,
    {
        WeapStance::STAND
    }
}

#[allow(non_camel_case_types)]
#[derive(Copy, Clone, Debug, PartialEq, Eq, Structural)]
pub enum ActiveReticleType {
    NONE,
    PIP_ON_A_STICK,
    BOUNCING_DIAMOND,
    COUNT,
}

impl ActiveReticleType {
    /// The integer that stands for this variant.
    pub open spec fn spec_as_u32(self) -> u32 {
        match self {
            ActiveReticleType::NONE => 0,
            ActiveReticleType::PIP_ON_A_STICK => 1,
            ActiveReticleType::BOUNCING_DIAMOND => 2,
            ActiveReticleType::COUNT => 3,
        }
    }

    /// The variant that `value` stands for, if any.
    pub open spec fn spec_from_u32(value: u32) -> Option<ActiveReticleType> {
        if value == 0 {
            Some(ActiveReticleType::NONE)
        } else if value == 1 {
            Some(ActiveReticleType::PIP_ON_A_STICK)
        } else if value == 2 {
            Some(ActiveReticleType::BOUNCING_DIAMOND)
        } else if value == 3 {
            Some(ActiveReticleType::COUNT)
        } else {
            None
        }
    }

    pub fn from_u32(value: u32) -> (r: Option<ActiveReticleType>)
        ensures
            r == ActiveReticleType::spec_from_u32(value),
            r matches Some(v) ==> v.spec_as_u32() == value,
            r is None <==> value >= 4,
    {
        match value {
            0 => Some(ActiveReticleType::NONE),
            1 => Some(ActiveReticleType::PIP_ON_A_STICK),
            2 => Some(ActiveReticleType::BOUNCING_DIAMOND),
            3 => Some(ActiveReticleType::COUNT),
            _ => None,
        }
    }

    pub fn as_u32(&self) -> (r: u32)
        ensures
            r == self.spec_as_u32(),
    {
        match self {
            ActiveReticleType::NONE => 0,
            ActiveReticleType::PIP_ON_A_STICK => 1,
            ActiveReticleType::BOUNCING_DIAMOND => 2,
            ActiveReticleType::COUNT => 3,
        }
    }
}

impl Default for ActiveReticleType {
    fn default() -> (r: ActiveReticleType)
        ensures
            r == ActiveReticleType::NONE,
    {
        ActiveReticleType::NONE
    }
}

#[allow(non_camel_case_types)]
#[derive(Copy, Clone, Debug, PartialEq, Eq, Structural)]
pub enum AmmoCounterClipType {
    NONE,
    MAGAZINE,
    SHORTMAGAZINE,
    SHOTGUN,
    ROCKET,
    BELTFED,
    ALTWEAPON,
    COUNT,
}

impl AmmoCounterClipType {
    /// The integer that stands for this variant.
    pub open spec fn spec_as_u32(self) -> u32 {
        match self {
            AmmoCounterClipType::NONE => 0,
            AmmoCounterClipType::MAGAZINE => 1,
            AmmoCounterClipType::SHORTMAGAZINE => 2,
            AmmoCounterClipType::SHOTGUN => 3,
            AmmoCounterClipType::ROCKET => 4,
            AmmoCounterClipType::BELTFED => 5,
            AmmoCounterClipType::ALTWEAPON => 6,
            AmmoCounterClipType::COUNT => 7,
        }
    }

    /// The variant that `value` stands for, if any.
    pub open spec fn spec_from_u32(value: u32) -> Option<AmmoCounterClipType> {
        if value == 0 {
            Some(AmmoCounterClipType::NONE)
        } else if value == 1 {
            Some(AmmoCounterClipType::MAGAZINE)
        } else if value == 2 {
            Some(AmmoCounterClipType::SHORTMAGAZINE)
        } else if value == 3 {
            Some(AmmoCounterClipType::SHOTGUN)
        } else if value == 4 {
            Some(AmmoCounterClipType::ROCKET)
        } else if value == 5 {
            Some(AmmoCounterClipType::BELTFED)
        } else if value == 6 {
            Some(AmmoCounterClipType::ALTWEAPON)
        } else if value == 7 {
            Some(AmmoCounterClipType::COUNT)
        } else {
            None
        }
    }

    pub fn from_u32(value: u32) -> (r: Option<AmmoCounterClipType>)
        ensures
            r == AmmoCounterClipType::spec_from_u32(value),
            r matches Some(v) ==> v.spec_as_u32() == value,
            r is None <==> value >= 8,
    {
        match value {
            0 => Some(AmmoCounterClipType::NONE),
            1 => Some(AmmoCounterClipType::MAGAZINE),
            2 => Some(AmmoCounterClipType::SHORTMAGAZINE),
            3 => Some(AmmoCounterClipType::SHOTGUN),
            4 => Some(AmmoCounterClipType::ROCKET),
            5 => Some(AmmoCounterClipType::BELTFED),
            6 => Some(AmmoCounterClipType::ALTWEAPON),
            7 => Some(AmmoCounterClipType::COUNT),
            _ => None,
        }
    }

    pub fn as_u32(&self) -> (r: u32)
        ensures
            r == self.spec_as_u32(),
    {
        match self {
            AmmoCounterClipType::NONE => 0,
            AmmoCounterClipType::MAGAZINE => 1,
            AmmoCounterClipType::SHORTMAGAZINE => 2,
            AmmoCounterClipType::SHOTGUN => 3,
            AmmoCounterClipType::ROCKET => 4,
            AmmoCounterClipType::BELTFED => 5,
            AmmoCounterClipType::ALTWEAPON => 6,
            AmmoCounterClipType::COUNT => 7,
        }
    }
}

impl Default for AmmoCounterClipType {
    fn default() -> (r: AmmoCounterClipType)
        ensures
            r == AmmoCounterClipType::NONE,
    {
        AmmoCounterClipType::NONE
    }
}

#[allow(non_camel_case_types)]
#[derive(Copy, Clone, Debug, PartialEq, Eq, Structural)]
pub enum WeapOverlayReticle {
    NONE,
    CROSSHAIR,
    NUM,
}

impl WeapOverlayReticle {
    /// The integer that stands for this variant.
    pub open spec fn spec_as_u32(self) -> u32 {
        match self {
            WeapOverlayReticle::NONE => 0,
            WeapOverlayReticle::CROSSHAIR => 1,
            WeapOverlayReticle::NUM => 2,
        }
    }

    /// The variant that `value` stands for, if any.
    pub open spec fn spec_from_u32(value: u32) -> Option<WeapOverlayReticle> {
        if value == 0 {
            Some(WeapOverlayReticle::NONE)
        } else if value == 1 {
            Some(WeapOverlayReticle::CROSSHAIR)
        } else if value == 2 {
            Some(WeapOverlayReticle::NUM)
        } else {
            None
        }
    }

    pub fn from_u32(value: u32) -> (r: Option<WeapOverlayReticle>)
        ensures
            r == WeapOverlayReticle::spec_from_u32(value),
            r matches Some(v) ==> v.spec_as_u32() == value,
            r is None <==> value >= 3,
    {
        match value {
            0 => Some(WeapOverlayReticle::NONE),
            1 => Some(WeapOverlayReticle::CROSSHAIR),
            2 => Some(WeapOverlayReticle::NUM),
            _ => None,
        }
    }

    pub fn as_u32(&self) -> (r: u32)
        ensures
            r == self.spec_as_u32(),
    {
        match self {
            WeapOverlayReticle::NONE => 0,
            WeapOverlayReticle::CROSSHAIR => 1,
            WeapOverlayReticle::NUM => 2,
        }
    }
}

impl Default for WeapOverlayReticle {
    fn default() -> (r: WeapOverlayReticle)
        ensures
            r == WeapOverlayReticle::NONE,
    {
        WeapOverlayReticle::NONE
    }
}

#[allow(non_camel_case_types)]
#[derive(Copy, Clone, Debug, PartialEq, Eq, Structural)]
pub enum WeapOverlayInterface {
    NONE,
    JAVELIN,
    TURRETSCOPE,
    COUNT,
}

impl WeapOverlayInterface {
    /// The integer that stands for this variant.
    pub open spec fn spec_as_u32(self) -> u32 {
        match self {
            WeapOverlayInterface::NONE => 0,
            WeapOverlayInterface::JAVELIN => 1,
            WeapOverlayInterface::TURRETSCOPE => 2,
            WeapOverlayInterface::COUNT => 3,
        }
    }

    /// The variant that `value` stands for, if any.
    pub open spec fn spec_from_u32(value: u32) -> Option<WeapOverlayInterface> {
        if value == 0 {
            Some(WeapOverlayInterface::NONE)
        } else if value == 1 {
            Some(WeapOverlayInterface::JAVELIN)
        } else if value == 2 {
            Some(WeapOverlayInterface::TURRETSCOPE)
        } else if value == 3 {
            Some(WeapOverlayInterface::COUNT)
        } else {
            None
        }
    }

    pub fn from_u32(value: u32) -> (r: Option<WeapOverlayInterface>)
        ensures
            r == WeapOverlayInterface::spec_from_u32(value),
            r matches Some(v) ==> v.spec_as_u32() == value,
            r is None <==> value >= 4,
    {
        match value {
            0 => Some(WeapOverlayInterface::NONE),
            1 => Some(WeapOverlayInterface::JAVELIN),
            2 => Some(WeapOverlayInterface::TURRETSCOPE),
            3 => Some(WeapOverlayInterface::COUNT),
            _ => None,
        }
    }

    pub fn as_u32(&self) -> (r: u32)
        ensures
            r == self.spec_as_u32(),
    {
        match self {
            WeapOverlayInterface::NONE => 0,
            WeapOverlayInterface::JAVELIN => 1,
            WeapOverlayInterface::TURRETSCOPE => 2,
            WeapOverlayInterface::COUNT => 3,
        }
    }
}

impl Default for WeapOverlayInterface {
    fn default() -> (r: WeapOverlayInterface)
        ensures
            r == WeapOverlayInterface::NONE,
    {
        WeapOverlayInterface::NONE
    }
}

#[allow(non_camel_case_types)]
#[derive(Copy, Clone, Debug, PartialEq, Eq, Structural)]
pub enum WeapProjExplosion {
    GRENADE,
    ROCKET,
    FLASHBANG,
    NONE,
    DUD,
    SMOKE,
    HEAVY,
    FIRE,
    NAPALMBLOB,
    BOLT,
    NUM,
}

impl WeapProjExplosion {
    /// The integer that stands for this variant.
    pub open spec fn spec_as_u32(self) -> u32 {
        match self {
            WeapProjExplosion::GRENADE => 0,
            WeapProjExplosion::ROCKET => 1,
            WeapProjExplosion::FLASHBANG => 2,
            WeapProjExplosion::NONE => 3,
            WeapProjExplosion::DUD => 4,
            WeapProjExplosion::SMOKE => 5,
            WeapProjExplosion::HEAVY => 6,
            WeapProjExplosion::FIRE => 7,
            WeapProjExplosion::NAPALMBLOB => 8,
            WeapProjExplosion::BOLT => 9,
            WeapProjExplosion::NUM => 10,
        }
    }

    /// The variant that `value` stands for, if any.
    pub open spec fn spec_from_u32(value: u32) -> Option<WeapProjExplosion> {
        if value == 0 {
            Some(WeapProjExplosion::GRENADE)
        } else if value == 1 {
            Some(WeapProjExplosion::ROCKET)
        } else if value == 2 {
            Some(WeapProjExplosion::FLASHBANG)
        } else if value == 3 {
            Some(WeapProjExplosion::NONE)
        } else if value == 4 {
            Some(WeapProjExplosion::DUD)
        } else if value == 5 {
            Some(WeapProjExplosion::SMOKE)
        } else if value == 6 {
            Some(WeapProjExplosion::HEAVY)
        } else if value == 7 {
            Some(WeapProjExplosion::FIRE)
        } else if value == 8 {
            Some(WeapProjExplosion::NAPALMBLOB)
        } else if value == 9 {
            Some(WeapProjExplosion::BOLT)
        } else if value == 10 {
            Some(WeapProjExplosion::NUM)
        } else {
            None
        }
    }

    pub fn from_u32(value: u32) -> (r: Option<WeapProjExplosion>)
        ensures
            r == WeapProjExplosion::spec_from_u32(value),
            r matches Some(v) ==> v.spec_as_u32() == value,
            r is None <==> value >= 11,
    {
        match value {
            0 => Some(WeapProjExplosion::GRENADE),
            1 => Some(WeapProjExplosion::ROCKET),
            2 => Some(WeapProjExplosion::FLASHBANG),
            3 => Some(WeapProjExplosion::NONE),
            4 => Some(WeapProjExplosion::DUD),
            5 => Some(WeapProjExplosion::SMOKE),
            6 => Some(WeapProjExplosion::HEAVY),
            7 => Some(WeapProjExplosion::FIRE),
            8 => Some(WeapProjExplosion::NAPALMBLOB),
            9 => Some(WeapProjExplosion::BOLT),
            10 => Some(WeapProjExplosion::NUM),
            _ => None,
        }
    }

    pub fn as_u32(&self) -> (r: u32)
        ensures
            r == self.spec_as_u32(),
    {
        match self {
            WeapProjExplosion::GRENADE => 0,
            WeapProjExplosion::ROCKET => 1,
            WeapProjExplosion::FLASHBANG => 2,
            WeapProjExplosion::NONE => 3,
            WeapProjExplosion::DUD => 4,
            WeapProjExplosion::SMOKE => 5,
            WeapProjExplosion::HEAVY => 6,
            WeapProjExplosion::FIRE => 7,
            WeapProjExplosion::NAPALMBLOB => 8,
            WeapProjExplosion::BOLT => 9,
            WeapProjExplosion::NUM => 10,
        }
    }
}

impl Default for WeapProjExplosion {
    fn default() -> (r: WeapProjExplosion)
        ensures
            r == WeapProjExplosion::GRENADE,
    {
        WeapProjExplosion::GRENADE
    }
}

#[allow(non_camel_case_types)]
#[derive(Copy, Clone, Debug, PartialEq, Eq, Structural)]
pub enum WeapStickinessType {
    NONE,
    ALL,
    ALL_NO_SENTIENTS,
    GROUND,
    GROUND_WITH_YAW,
    FLESH,
    COUNT,
}

impl WeapStickinessType {
    /// The integer that stands for this variant.
    pub open spec fn spec_as_u32(self) -> u32 {
        match self {
            WeapStickinessType::NONE => 0,
            WeapStickinessType::ALL => 1,
            WeapStickinessType::ALL_NO_SENTIENTS => 2,
            WeapStickinessType::GROUND => 3,
            WeapStickinessType::GROUND_WITH_YAW => 4,
            WeapStickinessType::FLESH => 5,
            WeapStickinessType::COUNT => 6,
        }
    }

    /// The variant that `value` stands for, if any.
    pub open spec fn spec_from_u32(value: u32) -> Option<WeapStickinessType> {
        if value == 0 {
            Some(WeapStickinessType::NONE)
        } else if value == 1 {
            Some(WeapStickinessType::ALL)
        } else if value == 2 {
            Some(WeapStickinessType::ALL_NO_SENTIENTS)
        } else if value == 3 {
            Some(WeapStickinessType::GROUND)
        } else if value == 4 {
            Some(WeapStickinessType::GROUND_WITH_YAW)
        } else if value == 5 {
            Some(WeapStickinessType::FLESH)
        } else if value == 6 {
            Some(WeapStickinessType::COUNT)
        } else {
            None
        }
    }

    pub fn from_u32(value: u32) -> (r: Option<WeapStickinessType>)
        ensures
            r == WeapStickinessType::spec_from_u32(value),
            r matches Some(v) ==> v.spec_as_u32() == value,
            r is None <==> value >= 7,
    {
        match value {
            0 => Some(WeapStickinessType::NONE),
            1 => Some(WeapStickinessType::ALL),
            2 => Some(WeapStickinessType::ALL_NO_SENTIENTS),
            3 => Some(WeapStickinessType::GROUND),
            4 => Some(WeapStickinessType::GROUND_WITH_YAW),
            5 => Some(WeapStickinessType::FLESH),
            6 => Some(WeapStickinessType::COUNT),
            _ => None,
        }
    }

    pub fn as_u32(&self) -> (r: u32)
        ensures
            r == self.spec_as_u32(),
    {
        match self {
            WeapStickinessType::NONE => 0,
            WeapStickinessType::ALL => 1,
            WeapStickinessType::ALL_NO_SENTIENTS => 2,
            WeapStickinessType::GROUND => 3,
            WeapStickinessType::GROUND_WITH_YAW => 4,
            WeapStickinessType::FLESH => 5,
            WeapStickinessType::COUNT => 6,
        }
    }
}

impl Default for WeapStickinessType {
    fn default() -> (r: WeapStickinessType)
        ensures
            r == WeapStickinessType::NONE,
    {
        WeapStickinessType::NONE
    }
}

#[allow(non_camel_case_types)]
#[derive(Copy, Clone, Debug, PartialEq, Eq, Structural)]
pub enum WeapRotateType {
    GRENADE_ROTATE,
    BLADE_ROTATE,
    CYLINDER_ROTATE,
    COUNT,
}

impl WeapRotateType {
    /// The integer that stands for this variant.
    pub open spec fn spec_as_u32(self) -> u32 {
        match self {
            WeapRotateType::GRENADE_ROTATE => 0,
            WeapRotateType::BLADE_ROTATE => 1,
            WeapRotateType::CYLINDER_ROTATE => 2,
            WeapRotateType::COUNT => 3,
        }
    }

    /// The variant that `value` stands for, if any.
    pub open spec fn spec_from_u32(value: u32) -> Option<WeapRotateType> {
        if value == 0 {
            Some(WeapRotateType::GRENADE_ROTATE)
        } else if value == 1 {
            Some(WeapRotateType::BLADE_ROTATE)
        } else if value == 2 {
            Some(WeapRotateType::CYLINDER_ROTATE)
        } else if value == 3 {
            Some(WeapRotateType::COUNT)
        } else {
            None
        }
    }

    pub fn from_u32(value: u32) -> (r: Option<WeapRotateType>)
        ensures
            r == WeapRotateType::spec_from_u32(value),
            r matches Some(v) ==> v.spec_as_u32() == value,
            r is None <==> value >= 4,
    {
        match value {
            0 => Some(WeapRotateType::GRENADE_ROTATE),
            1 => Some(WeapRotateType::BLADE_ROTATE),
            2 => Some(WeapRotateType::CYLINDER_ROTATE),
            3 => Some(WeapRotateType::COUNT),
            _ => None,
        }
    }

    pub fn as_u32(&self) -> (r: u32)
        ensures
            r == self.spec_as_u32(),
    {
        match self {
            WeapRotateType::GRENADE_ROTATE => 0,
            WeapRotateType::BLADE_ROTATE => 1,
            WeapRotateType::CYLINDER_ROTATE => 2,
            WeapRotateType::COUNT => 3,
        }
    }
}

impl Default for WeapRotateType {
    fn default() -> (r: WeapRotateType)
        ensures
            r == WeapRotateType::GRENADE_ROTATE,
    {
        WeapRotateType::GRENADE_ROTATE
    }
}

#[allow(non_camel_case_types)]
#[derive(Copy, Clone, Debug, PartialEq, Eq, Structural)]
pub enum GuidedMissileType {
    NONE,
    SIDEWINDER,
    HELLFIRE,
    JAVELIN,
    BALLISTIC,
    WIREGUIDED,
    TVGUIDED,
    COUNT,
}

impl GuidedMissileType {
    /// The integer that stands for this variant.
    pub open spec fn spec_as_u32(self) -> u32 {
        match self {
            GuidedMissileType::NONE => 0,
            GuidedMissileType::SIDEWINDER => 1,
            GuidedMissileType::HELLFIRE => 2,
            GuidedMissileType::JAVELIN => 3,
            GuidedMissileType::BALLISTIC => 4,
            GuidedMissileType::WIREGUIDED => 5,
            GuidedMissileType::TVGUIDED => 6,
            GuidedMissileType::COUNT => 7,
        }
    }

    /// The variant that `value` stands for, if any.
    pub open spec fn spec_from_u32(value: u32) -> Option<GuidedMissileType> {
        if value == 0 {
            Some(GuidedMissileType::NONE)
        } else if value == 1 {
            Some(GuidedMissileType::SIDEWINDER)
        } else if value == 2 {
            Some(GuidedMissileType::HELLFIRE)
        } else if value == 3 {
            Some(GuidedMissileType::JAVELIN)
        } else if value == 4 {
            Some(GuidedMissileType::BALLISTIC)
        } else if value == 5 {
            Some(GuidedMissileType::WIREGUIDED)
        } else if value == 6 {
            Some(GuidedMissileType::TVGUIDED)
        } else if value == 7 {
            Some(GuidedMissileType::COUNT)
        } else {
            None
        }
    }

    pub fn from_u32(value: u32) -> (r: Option<GuidedMissileType>)
        ensures
            r == GuidedMissileType::spec_from_u32(value),
            r matches Some(v) ==> v.spec_as_u32() == value,
            r is None <==> value >= 8,
    {
        match value {
            0 => Some(GuidedMissileType::NONE),
            1 => Some(GuidedMissileType::SIDEWINDER),
            2 => Some(GuidedMissileType::HELLFIRE),
            3 => Some(GuidedMissileType::JAVELIN),
            4 => Some(GuidedMissileType::BALLISTIC),
            5 => Some(GuidedMissileType::WIREGUIDED),
            6 => Some(GuidedMissileType::TVGUIDED),
            7 => Some(GuidedMissileType::COUNT),
            _ => None,
        }
    }

    pub fn as_u32(&self) -> (r: u32)
        ensures
            r == self.spec_as_u32(),
    {
        match self {
            GuidedMissileType::NONE => 0,
            GuidedMissileType::SIDEWINDER => 1,
            GuidedMissileType::HELLFIRE => 2,
            GuidedMissileType::JAVELIN => 3,
            GuidedMissileType::BALLISTIC => 4,
            GuidedMissileType::WIREGUIDED => 5,
            GuidedMissileType::TVGUIDED => 6,
            GuidedMissileType::COUNT => 7,
        }
    }
}

impl Default for GuidedMissileType {
    fn default() -> (r: GuidedMissileType)
        ensures
            r == GuidedMissileType::NONE,
    {
        GuidedMissileType::NONE
    }
}

} // verus!
