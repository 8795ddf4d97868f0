use t5_xfile::com_world::{ComBurnableCell, ComBurnableHeader, ComWaterCell, ComWaterHeader};
use t5_xfile::deserializer::T5XFileDeserializer;
use t5_xfile::platform::XFilePlatform;
use t5_xfile::weapon::{GuidedMissileType, WeapClass, WeapType, WeaponIconRatioType};

#[test]
fn weapon_enumerations_map_integers() {
    assert_eq!(WeapType::from_u32(7), Some(WeapType::MELEE));
    assert_eq!(WeapType::from_u32(9), None);
    assert_eq!(WeapClass::from_u32(12), Some(WeapClass::KILLSTREAK_ALT_STORED_WEAPON));
    assert_eq!(WeapClass::NUM.as_u32(), 13);
    assert_eq!(GuidedMissileType::from_u32(6), Some(GuidedMissileType::TVGUIDED));
    assert_eq!(WeaponIconRatioType::default(), WeaponIconRatioType::ONE_TO_ONE);
}

#[test]
fn water_and_burnable_grids() {
    let mut bytes = Vec::new();
    for v in [-1i32, 2, 3, 4] {
        bytes.extend_from_slice(&v.to_le_bytes());
    }
    bytes.extend_from_slice(&(-5i16).to_le_bytes());
    bytes.extend_from_slice(&[6, 7, 1, 2, 3, 4]);
    bytes.extend_from_slice(&9i32.to_le_bytes());
    bytes.extend_from_slice(&10i32.to_le_bytes());
    bytes.extend_from_slice(&0xFFFF_FFFFu32.to_le_bytes());
    bytes.extend((0..32).map(|i| i as u8));
    let mut de = T5XFileDeserializer::new(bytes, XFilePlatform::Windows);
    let h = ComWaterHeader::read(&mut de).unwrap();
    assert_eq!((h.minx, h.miny, h.maxx, h.maxy), (-1, 2, 3, 4));
    let c = ComWaterCell::read(&mut de).unwrap();
    assert_eq!((c.waterheight, c.flooroffset, c.shoredist, c.color), (-5, 6, 7, [1, 2, 3, 4]));
    let cell = ComBurnableCell::read(&mut de).unwrap();
    assert_eq!((cell.x, cell.y), (9, 10));
    let data = cell.data.unwrap();
    assert_eq!(data.len(), 32);
    assert_eq!(data[31].state, 31);
    assert_eq!(de.stream_pos(), de.stream_len());
    let mut be = T5XFileDeserializer::new(vec![0, 0, 0, 1, 0, 0, 0, 2, 0, 0, 0, 3, 255, 255, 255, 255], XFilePlatform::PS3);
    let b = ComBurnableHeader::read(&mut be).unwrap();
    assert_eq!((b.minx, b.miny, b.maxx, b.maxy), (1, 2, 3, -1));
}
