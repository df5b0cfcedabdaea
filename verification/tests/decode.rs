use xnb_assets::reader::{encode_varint, Reader};
use xnb_assets::xnb::asset::bi_tree_model::BiTreeNode;
use xnb_assets::xnb::asset::model::read_bone_ref;
use xnb_assets::xnb::asset::level_model::{
    mesh_setting_lookup, LevelModelLightKind, MeshSetting, MovementProperties,
};
use xnb_assets::xnb::asset::texture_2d::{bgra8_to_rgba8, decode_pixels, PixelFormat, Texture2D};
use xnb_assets::xnb::asset::vertex_decl::{
    ElementFormat, ElementMethod, ElementUsage, VertexDeclaration, VertexElement,
};
use xnb_assets::xnb::asset::XnbAsset;
use xnb_assets::{DecodeError, Header, Platform, Version, Xnb};

fn le32(v: u32) -> Vec<u8> {
    v.to_le_bytes().to_vec()
}

/// A synthetic container with a known header and a known uncompressed
/// payload decodes back to exactly that header and payload.
#[test]
fn container_round_trip() {
    let payload: Vec<u8> = vec![1, 2, 3, 4, 5];
    let mut bytes: Vec<u8> = Vec::new();
    bytes.extend_from_slice(b"XNB");
    bytes.push(b'w');
    bytes.push(4);
    bytes.push(0x01);
    bytes.extend_from_slice(&(10u32 + payload.len() as u32).to_le_bytes());
    bytes.extend_from_slice(&payload);
    let xnb = Xnb::read(&bytes).unwrap();
    assert_eq!(
        xnb.header,
        Header {
            platform: Platform::Windows,
            version: Version::Xna31,
            hi_def: true,
            compressed: false,
            compressed_size: 15,
            uncompressed_size: 0,
        }
    );
    assert_eq!(xnb.data, payload);
    let out = xnb.decompress().unwrap();
    assert_eq!(out, payload);
}

#[test]
fn container_bad_magic() {
    let bytes = vec![b'A', b'B', b'C', b'w', 4, 0, 10, 0, 0, 0];
    assert_eq!(Xnb::read(&bytes).unwrap_err(), DecodeError::BadMagic);
}

#[test]
fn container_unknown_platform() {
    let bytes = vec![b'X', b'N', b'B', b'q', 4, 0, 10, 0, 0, 0];
    assert_eq!(Xnb::read(&bytes).unwrap_err(), DecodeError::UnknownPlatform(b'q'));
}

#[test]
fn container_version_checks() {
    let newer = vec![b'X', b'N', b'B', b'w', 5, 0, 10, 0, 0, 0];
    assert_eq!(Xnb::read(&newer).unwrap_err(), DecodeError::UnsupportedVersion);
    let odd = vec![b'X', b'N', b'B', b'w', 9, 0, 10, 0, 0, 0];
    assert_eq!(Xnb::read(&odd).unwrap_err(), DecodeError::UnknownVersion(9));
    let short = vec![b'X', b'N'];
    assert_eq!(Xnb::read(&short).unwrap_err(), DecodeError::Truncated);
}

/// Encode-then-decode yields the value back across the whole width range,
/// one through five bytes, negative 32-bit values included.
#[test]
fn varint_round_trip() {
    let cases: Vec<i32> = vec![
        0,
        1,
        127,
        128,
        300,
        16383,
        16384,
        2097151,
        2097152,
        268435455,
        268435456,
        i32::MAX,
        -1,
        -128,
        i32::MIN,
    ];
    for v in cases {
        let bytes = encode_varint(v as u32);
        assert!(bytes.len() <= 5);
        let mut rd = Reader::new(&bytes);
        let back = rd.read_varint().unwrap();
        assert_eq!(back as i32, v);
        assert_eq!(rd.pos, bytes.len());
    }
}

#[test]
fn varint_expected_widths() {
    assert_eq!(encode_varint(0), vec![0]);
    assert_eq!(encode_varint(127).len(), 1);
    assert_eq!(encode_varint(128), vec![0x80, 0x01]);
    assert_eq!(encode_varint(16384).len(), 3);
    assert_eq!(encode_varint(2097152).len(), 4);
    assert_eq!(encode_varint(268435456).len(), 5);
}

#[test]
fn varint_malformed() {
    let bytes = vec![0xffu8, 0xff, 0xff, 0xff, 0xff, 0x01];
    let mut rd = Reader::new(&bytes);
    assert_eq!(rd.read_varint().unwrap_err(), DecodeError::MalformedVarint);
    let shorter = vec![0xffu8, 0xff];
    let mut rd2 = Reader::new(&shorter);
    assert_eq!(rd2.read_varint().unwrap_err(), DecodeError::Truncated);
}

fn string_bytes(s: &str) -> Vec<u8> {
    let mut out = encode_varint(s.len() as u32);
    out.extend_from_slice(s.as_bytes());
    out
}

/// Content stream with one texture-reader manifest entry and a small
/// uncompressed 2x2 texture: every derived quantity comes out exactly.
#[test]
fn texture_round_trip() {
    let mut content: Vec<u8> = Vec::new();
    content.push(1); // one type reader
    content.extend(string_bytes("Microsoft.Xna.Framework.Content.Texture2DReader, Ms.Xna"));
    content.extend(le32(7)); // version
    content.push(0); // no shared assets
    content.push(1); // primary asset: manifest entry one
    content.extend(le32(1)); // format: packed color
    content.extend(le32(2)); // width
    content.extend(le32(2)); // height
    content.extend(le32(1)); // one mip
    content.extend(le32(16)); // mip byte size
    content.extend((0u8..16).collect::<Vec<u8>>());
    let parsed = Xnb::parse_content_from(&content).unwrap();
    assert_eq!(parsed.type_readers.len(), 1);
    match &parsed.primary_asset {
        XnbAsset::Texture2D(t) => {
            assert_eq!(t.format, PixelFormat::Color);
            assert_eq!(t.width, 2);
            assert_eq!(t.height, 2);
            assert_eq!(t.mips.len(), 1);
            assert_eq!(t.mips[0].len(), 16);
            assert_eq!(t.bytes_per_row(0), 8);
            assert_eq!(t.rows_per_image(0), 2);
            let px = t.decode(0).unwrap();
            assert_eq!(px, (0u8..16).collect::<Vec<u8>>());
        }
        other => panic!("expected a texture, got {:?}", other),
    }
}

/// A manifest name outside the known set is a hard error, never a silent
/// null asset.
#[test]
fn unknown_type_reader_is_an_error() {
    let mut content: Vec<u8> = Vec::new();
    content.push(1);
    content.extend(string_bytes("Some.Unknown.Reader, Elsewhere"));
    content.extend(le32(1));
    content.push(0);
    content.push(1);
    assert_eq!(
        Xnb::parse_content_from(&content).unwrap_err(),
        DecodeError::UnknownTypeReader
    );
}

#[test]
fn null_asset_from_zero_index() {
    let mut content: Vec<u8> = Vec::new();
    content.push(0); // empty manifest
    content.push(0); // no shared assets
    content.push(0); // primary: null
    let parsed = Xnb::parse_content_from(&content).unwrap();
    assert!(matches!(parsed.primary_asset, XnbAsset::Null));
}

fn element(offset: u16, format: ElementFormat, usage: ElementUsage) -> VertexElement {
    VertexElement {
        stream: 0,
        offset,
        format,
        method: ElementMethod::Default,
        usage,
        usage_index: 0,
    }
}

/// Offsets {0: three singles, 12: three singles, 24: two singles} give a
/// 32-byte stride.
#[test]
fn stride_derivation() {
    let decl = VertexDeclaration {
        elements: vec![
            element(0, ElementFormat::Vector3, ElementUsage::Position),
            element(12, ElementFormat::Vector3, ElementUsage::Normal),
            element(24, ElementFormat::Vector2, ElementUsage::TextureCoordinate),
        ],
    };
    assert_eq!(decl.stride(), 32);
}

#[test]
fn vertex_element_codes() {
    let bytes = vec![0, 0, 12, 0, 2, 0, 3, 0];
    let mut rd = Reader::new(&bytes);
    let el = VertexElement::read(&mut rd).unwrap();
    assert_eq!(el.offset, 12);
    assert_eq!(el.format, ElementFormat::Vector3);
    assert_eq!(el.usage, ElementUsage::Normal);
    let bad_usage = vec![0, 0, 0, 0, 0, 0, 9, 0];
    let mut rd2 = Reader::new(&bad_usage);
    assert_eq!(
        VertexElement::read(&mut rd2).unwrap_err(),
        DecodeError::UnknownElementUsage(9)
    );
}

/// A node with the first child present and the second absent yields
/// exactly one child, in the first slot's place.
#[test]
fn bi_tree_node_children() {
    let mut bytes: Vec<u8> = Vec::new();
    bytes.extend(le32(6)); // primitive count
    bytes.extend(le32(0)); // start index
    bytes.extend([0u8; 24]); // bounding box
    bytes.push(1); // first child present
    bytes.extend(le32(3));
    bytes.extend(le32(9));
    bytes.extend([0u8; 24]);
    bytes.push(0); // child of child: none
    bytes.push(0);
    bytes.push(0); // second child absent
    let mut rd = Reader::new(&bytes);
    let node = BiTreeNode::read(&mut rd).unwrap();
    let children = node.iter_children();
    assert_eq!(children.len(), 1);
    assert_eq!(children[0].primitive_count, 3);
    assert_eq!(children[0].start_index, 9);
}

/// With at most 255 bones a reference is one byte; with 256 it is four.
#[test]
fn bone_ref_width_switch() {
    let bytes = vec![7u8, 1, 0, 0, 0];
    let mut rd = Reader::new(&bytes);
    assert_eq!(read_bone_ref(&mut rd, 255).unwrap(), 7);
    assert_eq!(rd.pos, 1);
    let mut rd2 = Reader::new(&bytes);
    assert_eq!(read_bone_ref(&mut rd2, 256).unwrap(), 0x00000107);
    assert_eq!(rd2.pos, 4);
}

#[test]
fn strings_decode_as_utf8() {
    let bytes = string_bytes("héllo");
    let mut rd = Reader::new(&bytes);
    assert_eq!(rd.read_string().unwrap(), "héllo");
    let mut bad = vec![2u8, 0xff, 0xfe];
    let mut rd2 = Reader::new(&mut bad);
    assert_eq!(rd2.read_string().unwrap_err(), DecodeError::InvalidString);
}

#[test]
fn packed_pixels_pass_through_and_swap() {
    let src = vec![10u8, 20, 30, 40, 50, 60, 70, 80];
    let out = decode_pixels(&src, 2, 1, PixelFormat::Color).unwrap();
    assert_eq!(out, src);
    let rgba = bgra8_to_rgba8(&out);
    assert_eq!(rgba, vec![30, 20, 10, 40, 70, 60, 50, 80]);
}

#[test]
fn fix_path_replaces_backslashes() {
    assert_eq!(
        xnb_assets::fix_xnb_path("Textures\\Rocks\\stone01"),
        "Textures/Rocks/stone01"
    );
}

#[test]
fn mip_dimensions_clamp_to_one_block() {
    let t = Texture2D {
        format: PixelFormat::Bc1,
        width: 1,
        height: 1,
        mips: vec![vec![0u8; 8], vec![0u8; 8]],
    };
    // a halved dimension of zero still occupies one block
    assert_eq!(t.bytes_per_row(1), 8);
    assert_eq!(t.rows_per_image(1), 1);
    assert_eq!(t.bytes_per_row(0), 8);
}

#[test]
fn movement_properties_validate_bits() {
    let good = vec![0x87u8];
    let mut rd = Reader::new(&good);
    let mp = MovementProperties::read(&mut rd).unwrap();
    assert_eq!(mp.bits, 0x87);
    assert!(mp.water() && mp.jump() && mp.fly() && mp.dynamic());
    let bad = vec![0x08u8];
    let mut rd2 = Reader::new(&bad);
    assert_eq!(
        MovementProperties::read(&mut rd2).unwrap_err(),
        DecodeError::UnknownMovementProperties(0x08)
    );
}

#[test]
fn light_codes_match_exact_words() {
    let bytes = 0x00000100u32.to_le_bytes().to_vec();
    let mut rd = Reader::new(&bytes);
    assert_eq!(
        LevelModelLightKind::read(&mut rd).unwrap_err(),
        DecodeError::UnknownLightKind(0x100)
    );
    let ok = 10u32.to_le_bytes().to_vec();
    let mut rd2 = Reader::new(&ok);
    assert_eq!(
        LevelModelLightKind::read(&mut rd2).unwrap(),
        LevelModelLightKind::Custom
    );
}

#[test]
fn oversized_texture_is_rejected() {
    let src = vec![0u8; 8];
    assert_eq!(
        decode_pixels(&src, 1 << 31, 1 << 31, PixelFormat::Bc1).unwrap_err(),
        DecodeError::TextureTooLarge
    );
}

#[test]
fn mesh_settings_later_entries_win() {
    let settings = vec![
        MeshSetting { name: "door".to_owned(), flag1: true, flag2: false },
        MeshSetting { name: "roof".to_owned(), flag1: false, flag2: false },
        MeshSetting { name: "door".to_owned(), flag1: false, flag2: true },
    ];
    assert_eq!(mesh_setting_lookup(&settings, "door"), Some((false, true)));
    assert_eq!(mesh_setting_lookup(&settings, "roof"), Some((false, false)));
    assert_eq!(mesh_setting_lookup(&settings, "wall"), None);
}

#[test]
fn error_messages_name_the_failure() {
    assert_eq!(DecodeError::BadMagic.message(), "not an XNB file");
    assert_eq!(
        DecodeError::UnsupportedVersion.message(),
        "unsupported XNA version"
    );
}
