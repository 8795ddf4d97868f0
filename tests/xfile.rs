use t5_xfile::deserializer::{ScriptString, T5XFileDeserializer};
use t5_xfile::error::ErrorKind;
use t5_xfile::header::{xfile_header_magic_is_valid, xfile_is_correct_version, XFileHeader};
use t5_xfile::load::{deserialize_xfile, inflate_xfile};
use t5_xfile::platform::XFilePlatform;
use t5_xfile::xasset::{XAsset, XAssetGeneric, XAssetType};
use t5_xfile::xfile::{convert_offset_to_ptr, XFile};

const INLINE: u32 = 0xFFFF_FFFF;

/// Wraps `data` in a zlib stream made of stored DEFLATE blocks.
fn zlib_stored(data: &[u8]) -> Vec<u8> {
    let mut out = vec![0x78, 0x01];
    let chunks: Vec<&[u8]> = if data.is_empty() { vec![&data[..]] } else { data.chunks(0xFFFF).collect() };
    for (i, chunk) in chunks.iter().enumerate() {
        let last = if i + 1 == chunks.len() { 1u8 } else { 0u8 };
        out.push(last);
        let len = chunk.len() as u16;
        out.extend_from_slice(&len.to_le_bytes());
        out.extend_from_slice(&(!len).to_le_bytes());
        out.extend_from_slice(chunk);
    }
    let (mut a, mut b) = (1u32, 0u32);
    for &byte in data {
        a = (a + byte as u32) % 65521;
        b = (b + a) % 65521;
    }
    out.extend_from_slice(&((b << 16) | a).to_be_bytes());
    out
}

/// A payload under construction, little-endian.
struct Payload(Vec<u8>);

impl Payload {
    /// The 36-byte header (size and block 0 patched by `finish`) and the
    /// list envelope.
    fn new(strings: (u32, u32), assets: (u32, u32)) -> Payload {
        let mut p = Payload(Vec::new());
        for _ in 0..9 {
            p.u32(0);
        }
        p.u32(strings.0);
        p.u32(strings.1);
        p.u32(assets.0);
        p.u32(assets.1);
        p
    }

    fn u32(&mut self, v: u32) -> &mut Payload {
        self.0.extend_from_slice(&v.to_le_bytes());
        self
    }

    fn i32(&mut self, v: i32) -> &mut Payload {
        self.0.extend_from_slice(&v.to_le_bytes());
        self
    }

    fn i16(&mut self, v: i16) -> &mut Payload {
        self.0.extend_from_slice(&v.to_le_bytes());
        self
    }

    fn bytes(&mut self, b: &[u8]) -> &mut Payload {
        self.0.extend_from_slice(b);
        self
    }

    /// Sets the total size and block 0 to the payload's length.
    fn finish(&mut self) -> Vec<u8> {
        let n = (self.0.len() as u32).to_le_bytes();
        self.0[0..4].copy_from_slice(&n);
        self.0[8..12].copy_from_slice(&n);
        self.0.clone()
    }
}

fn header_le() -> Vec<u8> {
    vec![0x49, 0x57, 0x66, 0x66, 0x75, 0x31, 0x30, 0x30, 0xD9, 0x01, 0x00, 0x00]
}

fn file_of(payload: &[u8]) -> Vec<u8> {
    let mut f = header_le();
    f.extend_from_slice(&zlib_stored(payload));
    f
}

fn run(payload: Vec<u8>) -> (Result<Vec<XAsset>, t5_xfile::error::Error>, T5XFileDeserializer) {
    let mut de = T5XFileDeserializer::new(payload, XFilePlatform::Windows);
    let r = de.deserialize();
    (r, de)
}

fn raw_file(a: &XAsset) -> &t5_xfile::schemas::RawFile {
    match a {
        XAsset::PC(XAssetGeneric::RawFile(Some(f))) => f,
        _ => panic!("not a raw file"),
    }
}

#[test]
fn minimal_file_has_no_assets() {
    let payload = Payload::new((0, 0), (0, 0)).finish();
    assert_eq!(payload.len(), 52);
    let file = file_of(&payload);
    let inflated = inflate_xfile(&file, XFilePlatform::Windows).unwrap();
    assert_eq!(inflated, payload);
    let mut de = T5XFileDeserializer::new(inflated, XFilePlatform::Windows);
    let assets = de.deserialize().unwrap();
    assert!(assets.is_empty());
    assert_eq!(de.stream_pos(), 52);
    assert_eq!(de.xfile().size, 52);
    assert_eq!(de.xfile().block_size, [52, 0, 0, 0, 0, 0, 0]);
    assert!(deserialize_xfile(&file, XFilePlatform::Windows).unwrap().is_empty());
}

fn one_raw_file_payload() -> Vec<u8> {
    let mut p = Payload::new((0, 0), (1, INLINE));
    p.u32(0x24).u32(INLINE);
    p.u32(INLINE).u32(5).u32(INLINE);
    p.bytes(b"hello\0").bytes(b"world");
    p.finish()
}

#[test]
fn one_raw_file_asset() {
    let payload = one_raw_file_payload();
    let assets = deserialize_xfile(&file_of(&payload), XFilePlatform::Windows).unwrap();
    assert_eq!(assets.len(), 1);
    let f = raw_file(&assets[0]);
    assert_eq!(f.name, "hello");
    assert_eq!(f.buffer, b"world".to_vec());
    assert_eq!(assets[0].name(), Some("hello"));
    assert!(assets[0].is_pc());
    assert!(!assets[0].is_console());
    assert!(assets[0].is_some());
    let (r, de) = run(payload.clone());
    assert!(r.is_ok());
    assert_eq!(de.stream_pos(), payload.len());
    assert_eq!(de.stream_pos(), 83);
}

#[test]
fn asset_count_matches_envelope() {
    let mut p = Payload::new((0, 0), (3, INLINE));
    p.u32(0x24).u32(INLINE).u32(0x24).u32(0).u32(0x17).u32(INLINE);
    p.u32(INLINE).u32(2).u32(INLINE).bytes(b"a\0").bytes(b"xy");
    p.u32(INLINE).u32(INLINE).bytes(b"v\0").bytes(b"n\0");
    let payload = p.finish();
    let (r, de) = run(payload.clone());
    let assets = r.unwrap();
    assert_eq!(assets.len(), 3);
    assert!(assets[1].is_none());
    match &assets[2] {
        XAsset::PC(XAssetGeneric::LocalizeEntry(Some(e))) => {
            assert_eq!(e.value, "v");
            assert_eq!(e.name, "n");
        }
        _ => panic!("not a localized string"),
    }
    assert_eq!(de.stream_pos(), payload.len());
}

fn strings_payload() -> Vec<u8> {
    let mut p = Payload::new((2, INLINE), (0, 0));
    p.u32(INLINE).u32(INLINE).bytes(b"alpha\0").bytes(b"beta\0");
    p.finish()
}

#[test]
fn script_string_fan_out() {
    let (r, de) = run(strings_payload());
    assert!(r.unwrap().is_empty());
    assert_eq!(de.script_strings(), &vec!["alpha".to_string(), "beta".to_string()]);
    assert_eq!(ScriptString(1).to_string(&de).unwrap(), "beta");
    assert_eq!(ScriptString(0).to_string(&de).unwrap(), "alpha");
    let e = ScriptString(2).to_string(&de).unwrap_err();
    assert!(matches!(e.kind(), ErrorKind::BadScriptString(2)));
}

#[test]
fn script_string_index_equal_to_length_is_rejected() {
    let (_, de) = run(strings_payload());
    let n = de.script_strings().len() as u16;
    let e = ScriptString(n).to_string(&de).unwrap_err();
    assert!(matches!(e.kind(), ErrorKind::BadScriptString(i) if *i == n));
}

#[test]
fn wrong_endianness_for_windows() {
    let mut file = vec![0x49, 0x57, 0x66, 0x66, 0x75, 0x31, 0x30, 0x30, 0x00, 0x00, 0x01, 0xD9];
    // What follows is not a zlib stream: the header must be rejected first.
    file.extend_from_slice(&[1, 2, 3]);
    let e = inflate_xfile(&file, XFilePlatform::Windows).unwrap_err();
    assert!(matches!(e.kind(), ErrorKind::WrongEndiannessForPlatform(XFilePlatform::Windows)));
    let e = deserialize_xfile(&file, XFilePlatform::macOS).unwrap_err();
    assert!(matches!(e.kind(), ErrorKind::WrongEndiannessForPlatform(XFilePlatform::macOS)));
    let h = XFileHeader::from_bytes(&file).unwrap();
    assert_eq!(h.version, 0xD901_0000);
}

#[test]
fn little_endian_version_on_console_is_wrong_endianness() {
    let file = file_of(&Payload::new((0, 0), (0, 0)).finish());
    let e = inflate_xfile(&file, XFilePlatform::Xbox360).unwrap_err();
    assert!(matches!(e.kind(), ErrorKind::WrongEndiannessForPlatform(XFilePlatform::Xbox360)));
}

#[test]
fn out_of_range_pointer() {
    let mut p = Payload::new((0, 0), (1, INLINE));
    p.u32(0x24).u32(INLINE);
    // The name token resolves to offset 200 in block 0.
    p.u32(201).u32(0).u32(0);
    let payload = p.finish();
    let len = payload.len() as u64;
    let e = run(payload).0.unwrap_err();
    match e.kind() {
        ErrorKind::InvalidSeek { off, max } => {
            assert_eq!(*off, 200);
            assert_eq!(*max, len);
        }
        k => panic!("unexpected error {:?}", k),
    }
}

#[test]
fn nested_inline_pointers() {
    // A localized string inline after its record, whose two strings follow
    // it inline in turn.
    let mut p = Payload::new((0, 0), (1, INLINE));
    p.u32(0x17).u32(INLINE);
    p.u32(INLINE).u32(INLINE);
    p.bytes(b"A\0").bytes(b"BB\0");
    let payload = p.finish();
    let (r, de) = run(payload.clone());
    let assets = r.unwrap();
    match &assets[0] {
        XAsset::PC(XAssetGeneric::LocalizeEntry(Some(e))) => {
            assert_eq!(e.value, "A");
            assert_eq!(e.name, "BB");
        }
        _ => panic!("not a localized string"),
    }
    assert_eq!(de.stream_pos(), 52 + 8 + 8 + 2 + 3);
    assert_eq!(de.stream_pos(), payload.len());
}

#[test]
fn absolute_pointer_restores_position() {
    // The raw file's name lives at offset 52 + 8 + 12 = 72, reached by an
    // absolute token; its buffer is inline right after the record.
    let mut p = Payload::new((0, 0), (1, INLINE));
    p.u32(0x24).u32(INLINE);
    p.u32(1 + 72 + 3).u32(3).u32(INLINE);
    p.bytes(b"abc");
    p.bytes(b"name\0");
    let payload = p.finish();
    let (r, de) = run(payload);
    let assets = r.unwrap();
    let f = raw_file(&assets[0]);
    assert_eq!(f.name, "name");
    assert_eq!(f.buffer, b"abc".to_vec());
    assert_eq!(de.stream_pos(), 75);
}

#[test]
fn null_token_reads_nothing() {
    let payload = Payload::new((0, 0), (0, 0)).finish();
    let mut de = T5XFileDeserializer::new(payload, XFilePlatform::Windows);
    let before = de.stream_pos();
    assert_eq!(de.read_xstring(0).unwrap(), "");
    assert_eq!(de.read_byte_array(0, 5).unwrap(), Vec::<u8>::new());
    assert_eq!(de.stream_pos(), before);
}

#[test]
fn both_inline_tokens_read_in_place() {
    for token in [0xFFFF_FFFFu32, 0xFFFF_FFFE] {
        let mut de = T5XFileDeserializer::new(b"xyz\0rest".to_vec(), XFilePlatform::Windows);
        assert_eq!(de.read_xstring(token).unwrap(), "xyz");
        assert_eq!(de.stream_pos(), 4);
        assert_eq!(de.read_byte_array(token, 2).unwrap(), b"re".to_vec());
        assert_eq!(de.stream_pos(), 6);
    }
}

#[test]
fn unknown_asset_tag_is_invalid() {
    let mut p = Payload::new((0, 0), (1, INLINE));
    p.u32(0x2D).u32(0);
    let e = run(p.finish()).0.unwrap_err();
    assert!(matches!(e.kind(), ErrorKind::InvalidXAssetType(0x2D)));
}

#[test]
fn unused_asset_tag_is_reported() {
    let mut p = Payload::new((0, 0), (1, INLINE));
    p.u32(0x00).u32(0);
    let e = run(p.finish()).0.unwrap_err();
    assert!(matches!(e.kind(), ErrorKind::UnusedXAssetType(XAssetType::XMODELPIECES)));
}

#[test]
fn asset_kind_without_reader_is_todo() {
    let mut p = Payload::new((0, 0), (1, INLINE));
    p.u32(0x14).u32(INLINE);
    let e = run(p.finish()).0.unwrap_err();
    assert!(matches!(e.kind(), ErrorKind::Todo(_)));
}

#[test]
fn every_magic_byte_mutation_is_rejected() {
    let good = header_le();
    for i in 0..8 {
        let mut file = good.clone();
        file[i] = file[i].wrapping_add(1);
        if i == 4 {
            assert_eq!(file[4], b'v');
        }
        let e = inflate_xfile(&file, XFilePlatform::Windows).unwrap_err();
        match e.kind() {
            ErrorKind::BadHeaderMagic(s) => {
                let expected: String = file[0..8].iter().map(|c| *c as char).collect();
                assert_eq!(s, &expected);
            }
            k => panic!("unexpected error {:?}", k),
        }
    }
    let mut console = good.clone();
    console[4] = b'0';
    assert!(XFileHeader::from_bytes(&console).unwrap().magic_is_valid());
}

#[test]
fn wrong_version_is_reported() {
    let mut file = header_le();
    file[8] = 0xDA;
    let e = inflate_xfile(&file, XFilePlatform::Windows).unwrap_err();
    assert!(matches!(e.kind(), ErrorKind::WrongVersion(0x1DA)));
}

#[test]
fn wii_is_unimplemented() {
    let file = file_of(&Payload::new((0, 0), (0, 0)).finish());
    let e = inflate_xfile(&file, XFilePlatform::Wii).unwrap_err();
    assert!(matches!(e.kind(), ErrorKind::UnimplementedPlatform(XFilePlatform::Wii)));
}

#[test]
fn short_file_is_a_decode_error() {
    let e = inflate_xfile(&[0x49, 0x57], XFilePlatform::Windows).unwrap_err();
    assert!(matches!(e.kind(), ErrorKind::Decode(_)));
}

#[test]
fn bad_zlib_stream_is_an_inflate_error() {
    let mut file = header_le();
    file.extend_from_slice(&[0x78, 0x01, 0xFF, 0xFF, 0xFF]);
    let e = inflate_xfile(&file, XFilePlatform::Windows).unwrap_err();
    assert!(matches!(e.kind(), ErrorKind::Inflate(_)));
}

#[test]
fn truncated_payload_is_a_decode_error() {
    let e = run(vec![0u8; 40]).0.unwrap_err();
    assert!(matches!(e.kind(), ErrorKind::Decode(_)));
    let mut p = Payload::new((0, 0), (1, INLINE));
    p.u32(0x24).u32(INLINE).u32(INLINE);
    let e = run(p.finish()).0.unwrap_err();
    assert!(matches!(e.kind(), ErrorKind::Decode(_)));
}

#[test]
fn big_endian_payload_on_console() {
    let mut payload = Vec::new();
    let words: [u32; 13] = [60, 0, 60, 0, 0, 0, 0, 0, 0, 0, 0, 1, INLINE];
    for w in words {
        payload.extend_from_slice(&w.to_be_bytes());
    }
    payload.extend_from_slice(&0x24u32.to_be_bytes());
    payload.extend_from_slice(&0u32.to_be_bytes());
    let mut file = vec![0x49, 0x57, 0x66, 0x66, 0x30, 0x31, 0x30, 0x30, 0x00, 0x00, 0x01, 0xD9];
    file.extend_from_slice(&zlib_stored(&payload));
    let assets = deserialize_xfile(&file, XFilePlatform::PS3).unwrap();
    assert_eq!(assets.len(), 1);
    assert!(assets[0].is_console());
    assert!(assets[0].is_none());
    assert_eq!(assets[0].name(), None);
}

#[test]
fn string_table_decodes_cells_and_index() {
    let mut p = Payload::new((0, 0), (1, INLINE));
    p.u32(0x25).u32(INLINE);
    p.u32(INLINE).i32(2).i32(1).u32(INLINE).u32(INLINE);
    p.bytes(b"tbl\0");
    p.u32(INLINE).i32(-7).u32(INLINE).i32(9);
    p.bytes(b"a\0").bytes(b"b\0");
    p.i16(-1).i16(1);
    let payload = p.finish();
    let (r, de) = run(payload.clone());
    let assets = r.unwrap();
    match &assets[0] {
        XAsset::PC(XAssetGeneric::StringTable(Some(t))) => {
            assert_eq!(t.name, "tbl");
            assert_eq!(t.column_count, 2);
            assert_eq!(t.row_count, 1);
            assert_eq!(t.values.len(), 2);
            assert_eq!(t.values[0].name, "a");
            assert_eq!(t.values[0].hash, -7);
            assert_eq!(t.values[1].name, "b");
            assert_eq!(t.values[1].hash, 9);
            assert_eq!(t.cell_index, vec![-1, 1]);
        }
        _ => panic!("not a string table"),
    }
    assert_eq!(de.stream_pos(), payload.len());
}

#[test]
fn negative_string_table_size_is_broken() {
    let mut p = Payload::new((0, 0), (1, INLINE));
    p.u32(0x25).u32(INLINE);
    p.u32(0).i32(-1).i32(1).u32(0).u32(0);
    let e = run(p.finish()).0.unwrap_err();
    assert!(matches!(e.kind(), ErrorKind::BrokenInvariant(_)));
}

#[test]
fn pack_index_decodes_header_and_entries() {
    let mut p = Payload::new((0, 0), (1, INLINE));
    p.u32(0x26).u32(INLINE);
    p.u32(INLINE).u32(0xABCD).u32(7).u32(2).u32(16).u32(64).u32(INLINE);
    p.bytes(b"pi\0");
    p.u32(1).u32(2).u32(3).u32(4).u32(5).u32(6);
    let payload = p.finish();
    let (r, de) = run(payload.clone());
    let assets = r.unwrap();
    match &assets[0] {
        XAsset::PC(XAssetGeneric::PackIndex(Some(pi))) => {
            assert_eq!(pi.name, "pi");
            assert_eq!(pi.header.magic, 0xABCD);
            assert_eq!(pi.header.timestamp, 7);
            assert_eq!(pi.header.count, 2);
            assert_eq!(pi.header.alignment, 16);
            assert_eq!(pi.header.data_start, 64);
            assert_eq!(pi.entries.len(), 2);
            assert_eq!((pi.entries[1].hash, pi.entries[1].offset, pi.entries[1].size), (4, 5, 6));
        }
        _ => panic!("not a pack index"),
    }
    assert_eq!(de.stream_pos(), payload.len());
}

#[test]
fn map_entities_text() {
    let mut p = Payload::new((0, 0), (1, INLINE));
    p.u32(0x10).u32(INLINE);
    p.u32(INLINE).u32(INLINE).u32(4);
    p.bytes(b"mp\0").bytes(b"{ }\0");
    let (r, _) = run(p.finish());
    match &r.unwrap()[0] {
        XAsset::PC(XAssetGeneric::MapEnts(Some(m))) => {
            assert_eq!(m.name, "mp");
            assert_eq!(m.entity_string, "{ }");
        }
        _ => panic!("not map entities"),
    }
    let mut p = Payload::new((0, 0), (1, INLINE));
    p.u32(0x10).u32(INLINE);
    p.u32(0).u32(INLINE).u32(3);
    p.bytes(b"a\0b");
    let e = run(p.finish()).0.unwrap_err();
    assert!(matches!(e.kind(), ErrorKind::BrokenInvariant(_)));
}

#[test]
fn invalid_utf8_is_replaced() {
    let mut de = T5XFileDeserializer::new(vec![b'a', 0xFF, b'b', 0], XFilePlatform::Windows);
    assert_eq!(de.read_xstring(INLINE).unwrap(), "a\u{FFFD}b");
}

#[test]
fn resolve_formula() {
    let xfile = XFile { size: 0, external_size: 0, block_size: [10, 20, 30, 40, 50, 60, 70] };
    assert_eq!(xfile.resolve(1), (0, 0));
    assert_eq!(xfile.resolve(0x2000_0005), (1, 14));
    assert_eq!(convert_offset_to_ptr(0x4000_0001, &xfile), (2, 30));
    assert_eq!(xfile.resolve(0xE000_0001), (7, 280));
    assert_eq!(xfile.resolve(0xFFFF_FFFD), (7, 280 + 0x1FFF_FFFC));
}

#[test]
fn fixed_width_reads_follow_byte_order() {
    let bytes = vec![0x01, 0x02, 0x03, 0x04, 0xFF, 0xFF];
    let mut le = T5XFileDeserializer::new(bytes.clone(), XFilePlatform::Windows);
    assert_eq!(le.read_u32().unwrap(), 0x0403_0201);
    assert_eq!(le.read_i16().unwrap(), -1);
    assert!(matches!(le.read_u8().unwrap_err().kind(), ErrorKind::Decode(_)));
    let mut be = T5XFileDeserializer::new(bytes, XFilePlatform::Xbox360);
    assert_eq!(be.read_u16().unwrap(), 0x0102);
    assert_eq!(be.read_u8().unwrap(), 0x03);
    assert_eq!(be.read_exact(3).unwrap(), vec![0x04, 0xFF, 0xFF]);
    let mut neg = T5XFileDeserializer::new(vec![0xFE, 0xFF, 0xFF, 0xFF], XFilePlatform::Windows);
    assert_eq!(neg.read_i32().unwrap(), -2);
}

#[test]
fn header_helpers() {
    let h = XFileHeader::new(XFilePlatform::Windows);
    assert_eq!(h.magic_string(), "IWffu100");
    assert!(h.magic_is_valid());
    assert!(xfile_header_magic_is_valid(&h));
    assert!(xfile_is_correct_version(&h));
    assert!(h.check(XFilePlatform::Windows).is_ok());
    let c = XFileHeader::new(XFilePlatform::PS3);
    assert_eq!(c.version, 0xD901_0000);
    assert!(!xfile_is_correct_version(&c));
    assert!(c.check(XFilePlatform::Xbox360).is_ok());
    assert!(XFileHeader::from_bytes(&[0u8; 11]).is_none());
}

#[test]
fn platform_classes() {
    assert!(XFilePlatform::Windows.is_le() && XFilePlatform::macOS.is_le());
    assert!(XFilePlatform::Xbox360.is_be() && XFilePlatform::PS3.is_be());
    assert!(XFilePlatform::Wii.is_console() && XFilePlatform::PS3.is_console());
    assert!(XFilePlatform::Windows.is_pc() && !XFilePlatform::Xbox360.is_pc());
}

#[test]
fn asset_type_tags() {
    assert!(matches!(XAssetType::from_u32(0x24), Some(XAssetType::RAWFILE)));
    assert!(matches!(XAssetType::from_u32(0x2C), Some(XAssetType::ASSETLIST)));
    assert!(XAssetType::from_u32(0x2D).is_none());
    assert_eq!(XAssetType::FONT.as_u32(), 0x14);
    assert!(!XAssetType::UI_MAP.is_used());
    assert!(XAssetType::FONT.is_used());
}

#[test]
fn global_settings_keep_colour_bits() {
    let mut p = Payload::new((0, 0), (1, INLINE));
    p.u32(0x27).u32(INLINE);
    p.u32(INLINE).i32(1).i32(640).i32(480).i32(-3).i32(5);
    for c in [0.0f32, 0.5, 1.0, -2.0] {
        p.u32(c.to_bits());
    }
    p.bytes(b"globals\0");
    let payload = p.finish();
    let (r, de) = run(payload.clone());
    match &r.unwrap()[0] {
        XAsset::PC(XAssetGeneric::XGlobals(Some(g))) => {
            assert_eq!(g.name, "globals");
            assert_eq!(g.xanim_stream_buffer_size, 1);
            assert_eq!((g.cinematic_max_width, g.cinematic_max_height), (640, 480));
            assert_eq!(g.extracam_resolution, -3);
            assert_eq!(g.gump_reserve, 5);
            assert_eq!(f32::from_bits(g.screen_clear_color[1]), 0.5);
            assert_eq!(f32::from_bits(g.screen_clear_color[3]), -2.0);
        }
        _ => panic!("not global settings"),
    }
    assert_eq!(de.stream_pos(), payload.len());
}
