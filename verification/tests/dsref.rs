use std::collections::BTreeMap;
use sysdiagram::dsref::{
    parse_dsref_node, parse_dsref_properties, parse_dsref_schema_contents,
    windows_tick_to_unix_seconds, DsRefNode, DsRefType,
};
use sysdiagram::dtyp::{parse_variant, Variant};
use sysdiagram::error::{Error, ErrorKind};

fn utf16(text: &str) -> Vec<u8> {
    text.encode_utf16().flat_map(|unit| unit.to_le_bytes()).collect()
}

/// A string with its length in bytes, which counts the terminator.
fn byte_counted(text: &str) -> Vec<u8> {
    let body = utf16(text);
    let mut bytes = ((body.len() + 2) as u32).to_le_bytes().to_vec();
    bytes.extend(body);
    bytes.extend([0, 0]);
    bytes
}

fn guid_bytes(first: u8) -> Vec<u8> {
    let mut bytes = vec![first, 0, 0, 0];
    bytes.extend([0u8; 12]);
    bytes
}

fn guid_number(first: u8) -> u128 {
    (first as u128) << 96
}

/// A node without children of its own, with the given name.
fn leaf(kind: u32, name: &str, has_next: bool) -> Vec<u8> {
    let mut flags = kind | DsRefType::HASNAME;
    if has_next {
        flags |= DsRefType::HASNEXTSIBLING;
    }
    let mut bytes = flags.to_le_bytes().to_vec();
    bytes.extend(byte_counted(name));
    bytes
}

/// A database node with the given number of table nodes below it.
fn root_with_children(count: usize) -> Vec<u8> {
    let mut flags = DsRefType::DATABASE | DsRefType::HASNAME;
    if count > 0 {
        flags |= DsRefType::HASFIRSTCHILD;
    }
    let mut bytes = flags.to_le_bytes().to_vec();
    bytes.extend(byte_counted("db"));
    for i in 0..count {
        bytes.extend(leaf(DsRefType::TABLE, &format!("t{}", i), i + 1 < count));
    }
    bytes
}

fn child_names(node: &DsRefNode) -> Vec<String> {
    node.children.iter().map(|child| child.name.clone().unwrap()).collect()
}

#[test]
fn node_without_first_child_has_no_children() {
    let bytes = root_with_children(0);
    let (rest, node) = parse_dsref_node(&bytes).unwrap();
    assert!(rest.is_empty());
    assert_eq!(node.children.len(), 0);
    assert_eq!(node.name.as_deref(), Some("db"));
}

#[test]
fn node_with_one_child() {
    let bytes = root_with_children(1);
    let (rest, node) = parse_dsref_node(&bytes).unwrap();
    assert!(rest.is_empty());
    assert_eq!(child_names(&node), vec!["t0"]);
}

#[test]
fn node_with_three_children() {
    let bytes = root_with_children(3);
    let (rest, node) = parse_dsref_node(&bytes).unwrap();
    assert!(rest.is_empty());
    assert_eq!(child_names(&node), vec!["t0", "t1", "t2"]);
    assert!(node.children[0].flags.contains(DsRefType::HASNEXTSIBLING));
    assert!(node.children[1].flags.contains(DsRefType::HASNEXTSIBLING));
    assert!(!node.children[2].flags.contains(DsRefType::HASNEXTSIBLING));
}

#[test]
fn sibling_chain_ends_at_the_first_clear_bit() {
    // Two children are chained; a third node follows in the stream but is
    // not announced, so it is left to the caller.
    let mut bytes = root_with_children(2);
    let extra = leaf(DsRefType::TABLE, "stray", false);
    bytes.extend(&extra);
    let (rest, node) = parse_dsref_node(&bytes).unwrap();
    assert_eq!(child_names(&node), vec!["t0", "t1"]);
    assert_eq!(rest, &extra[..]);
}

#[test]
fn children_may_have_children() {
    let mut bytes =
        (DsRefType::DATABASE | DsRefType::HASFIRSTCHILD).to_le_bytes().to_vec();
    bytes.extend(
        (DsRefType::SCHEMADIAGRAM | DsRefType::HASFIRSTCHILD | DsRefType::HASNEXTSIBLING)
            .to_le_bytes(),
    );
    bytes.extend(leaf(DsRefType::TABLE, "inner", false));
    bytes.extend(leaf(DsRefType::TABLE, "outer", false));
    let (rest, node) = parse_dsref_node(&bytes).unwrap();
    assert!(rest.is_empty());
    assert_eq!(node.children.len(), 2);
    assert_eq!(child_names(&node.children[0]), vec!["inner"]);
    assert_eq!(node.children[1].name.as_deref(), Some("outer"));
    assert!(node.children[1].children.is_empty());
}

#[test]
fn optional_fields_follow_their_flags() {
    for extended in [false, true] {
        for named in [false, true] {
            for owned in [false, true] {
                for with_props in [false, true] {
                    let mut flags = DsRefType::TABLE;
                    let mut body = Vec::new();
                    if extended {
                        flags |= DsRefType::EXTENDED;
                        body.extend(guid_bytes(7));
                    }
                    if named {
                        flags |= DsRefType::HASNAME;
                        body.extend(byte_counted("n"));
                    }
                    if owned {
                        flags |= DsRefType::HASOWNER;
                        body.extend(byte_counted("dbo"));
                    }
                    if with_props {
                        flags |= DsRefType::HASPROP;
                        body.extend(0u32.to_le_bytes());
                    }
                    let mut bytes = flags.to_le_bytes().to_vec();
                    bytes.extend(body);
                    let (rest, node) = parse_dsref_node(&bytes).unwrap();
                    assert!(rest.is_empty());
                    assert_eq!(node.flags.bits(), flags);
                    assert_eq!(
                        node.extended_type.is_some(),
                        node.flags.contains(DsRefType::EXTENDED)
                    );
                    assert_eq!(node.name.is_some(), node.flags.contains(DsRefType::HASNAME));
                    assert_eq!(node.owner.is_some(), node.flags.contains(DsRefType::HASOWNER));
                    assert_eq!(node.properties.is_some(), node.flags.contains(DsRefType::HASPROP));
                    assert_eq!(node.extended_type, if extended { Some(guid_number(7)) } else { None });
                    assert_eq!(node.name.as_deref(), if named { Some("n") } else { None });
                    assert_eq!(node.owner.as_deref(), if owned { Some("dbo") } else { None });
                }
            }
        }
    }
}

#[test]
fn node_with_an_unknown_flag_bit_is_refused() {
    let bytes = (DsRefType::TABLE | 0x08).to_le_bytes();
    assert!(matches!(
        parse_dsref_node(&bytes),
        Err(Error::ParseError(ErrorKind::Flags, 4))
    ));
    assert!(DsRefType::from_bits(0x20).is_none());
    assert!(DsRefType::from_bits(0x40).is_none());
    assert!(DsRefType::from_bits(0x80).is_none());
    assert_eq!(DsRefType::from_bits(DsRefType::ALL).unwrap().bits(), 0xffff_ff17);
    assert!(DsRefType::from_bits(DsRefType::NODE).is_some());
}

#[test]
fn truncated_node_is_incomplete() {
    let bytes = root_with_children(3);
    for len in 0..bytes.len() {
        assert!(
            matches!(parse_dsref_node(&bytes[..len]), Err(Error::Incomplete)),
            "prefix of {} bytes",
            len
        );
    }
}

#[test]
fn properties_are_read_in_file_order() {
    let mut bytes = 3u32.to_le_bytes().to_vec();
    bytes.extend(guid_bytes(1));
    bytes.extend([0x08, 0x00]);
    bytes.extend(byte_counted("first"));
    bytes.extend(guid_bytes(2));
    bytes.extend([0x0b, 0x00, 0xff, 0xff]);
    bytes.extend(guid_bytes(1));
    bytes.extend([0x08, 0x00]);
    bytes.extend(byte_counted("second"));
    bytes.push(0x99);
    let (rest, map) = parse_dsref_properties(&bytes).unwrap();
    assert_eq!(rest, &[0x99]);
    let mut expected = BTreeMap::new();
    expected.insert(guid_number(1), Variant::BStr("second".to_string()));
    expected.insert(guid_number(2), Variant::Bool(true));
    assert_eq!(map, expected);
}

#[test]
fn properties_with_a_missing_entry_are_incomplete() {
    let mut bytes = 2u32.to_le_bytes().to_vec();
    bytes.extend(guid_bytes(1));
    bytes.extend([0x0b, 0x00, 0x00, 0x00]);
    assert!(matches!(parse_dsref_properties(&bytes), Err(Error::Incomplete)));
}

#[test]
fn node_with_properties_and_children() {
    let flags = DsRefType::DATABASE | DsRefType::HASFIRSTCHILD | DsRefType::HASPROP;
    let mut bytes = flags.to_le_bytes().to_vec();
    bytes.extend(leaf(DsRefType::TABLE, "t", false));
    bytes.extend(1u32.to_le_bytes());
    bytes.extend(guid_bytes(5));
    bytes.extend([0x0b, 0x00, 0x00, 0x00]);
    let (rest, node) = parse_dsref_node(&bytes).unwrap();
    assert!(rest.is_empty());
    assert_eq!(child_names(&node), vec!["t"]);
    let properties = node.properties.unwrap();
    assert_eq!(properties.len(), 1);
    assert_eq!(properties.get(&guid_number(5)), Some(&Variant::Bool(false)));
}

#[test]
fn variant_string() {
    let mut bytes = vec![0x08, 0x00];
    bytes.extend(byte_counted("{guid}"));
    bytes.push(1);
    let (rest, value) = parse_variant(&bytes).unwrap();
    assert_eq!(value, Variant::BStr("{guid}".to_string()));
    assert_eq!(rest, &[1]);
}

#[test]
fn variant_bool() {
    assert_eq!(parse_variant(&[0x0b, 0x00, 0x00, 0x00]).unwrap().1, Variant::Bool(false));
    assert_eq!(parse_variant(&[0x0b, 0x00, 0xff, 0xff]).unwrap().1, Variant::Bool(true));
}

#[test]
fn variant_bool_of_another_pattern_is_refused() {
    assert_eq!(
        parse_variant(&[0x0b, 0x00, 0x01, 0x00]),
        Err(Error::ParseError(ErrorKind::Boolean, 2))
    );
    assert_eq!(
        parse_variant(&[0x0b, 0x00, 0xff, 0x00, 0x00]),
        Err(Error::ParseError(ErrorKind::Boolean, 3))
    );
}

#[test]
fn variant_of_another_type_is_not_implemented() {
    assert_eq!(parse_variant(&[0x03, 0x00, 1, 0, 0, 0]), Err(Error::NotImplemented));
    assert_eq!(parse_variant(&[0xff, 0xff]), Err(Error::NotImplemented));
}

#[test]
fn variant_errors() {
    assert_eq!(parse_variant(&[0x08]), Err(Error::Incomplete));
    assert_eq!(parse_variant(&[0x0b, 0x00, 0xff]), Err(Error::Incomplete));
    assert_eq!(
        parse_variant(&[0x08, 0x00, 4, 0, 0, 0, 0x00, 0xd8, 0, 0]),
        Err(Error::StringEncoding(4))
    );
}

fn schema_contents(timestamp: u64) -> Vec<u8> {
    let mut bytes = vec![
        0xdb, 0xe6, 0xb0, 0xe9, 0x1c, 0x81, 0xd0, 0x11, 0xad, 0x51, 0x00, 0xa0, 0xc9, 0x0f, 0x57,
        0x39,
    ];
    bytes.extend([0x00, 0x00]);
    bytes.extend(0x0102u16.to_le_bytes());
    bytes.extend(timestamp.to_le_bytes());
    bytes.extend(0x0a0b0c0du32.to_le_bytes());
    bytes.extend(root_with_children(2));
    bytes
}

#[test]
fn schema_contents_are_decoded() {
    let bytes = schema_contents(129_500_000_000_000_000);
    let (rest, contents) = parse_dsref_schema_contents(&bytes).unwrap();
    assert!(rest.is_empty());
    assert_eq!(contents.clsid, 0xe9b0e6db_811c_11d0_ad51_00a0c90f5739);
    assert_eq!(contents.len, bytes.len() - 16);
    assert_eq!(contents.a, 0x0102);
    assert_eq!(contents.timestamp, 129_500_000_000_000_000);
    assert_eq!(contents.b, 0x0a0b0c0d);
    assert_eq!(contents.root_node.name.as_deref(), Some("db"));
    assert_eq!(child_names(&contents.root_node), vec!["t0", "t1"]);
    assert_eq!(contents.get_time(), 12_950_000_000 - 11_644_473_600);
}

#[test]
fn schema_contents_with_another_version_marker_are_refused() {
    let mut bytes = schema_contents(0);
    bytes[16] = 1;
    let left = bytes.len() - 16;
    assert!(matches!(
        parse_dsref_schema_contents(&bytes),
        Err(Error::ParseError(ErrorKind::Version, at)) if at == left
    ));
}

#[test]
fn truncated_schema_contents_are_incomplete() {
    let bytes = schema_contents(0);
    for len in [0, 15, 17, 19, 27, 31, 33] {
        assert!(matches!(parse_dsref_schema_contents(&bytes[..len]), Err(Error::Incomplete)));
    }
}

#[test]
fn unix_epoch_in_windows_ticks() {
    assert_eq!(windows_tick_to_unix_seconds(116_444_736_000_000_000), 0);
}

#[test]
fn windows_ticks_are_cut_to_whole_seconds() {
    assert_eq!(windows_tick_to_unix_seconds(116_444_736_000_000_000 + 9_999_999), 0);
    assert_eq!(windows_tick_to_unix_seconds(116_444_736_000_000_000 + 10_000_000), 1);
    assert_eq!(windows_tick_to_unix_seconds(u64::MAX), 1_844_674_407_370 - 11_644_473_600);
}

#[test]
fn decoding_a_tree_twice_gives_equal_trees() {
    let bytes = schema_contents(116_444_736_000_000_000);
    let first = parse_dsref_schema_contents(&bytes).unwrap();
    let second = parse_dsref_schema_contents(&bytes).unwrap();
    assert_eq!(first.0, second.0);
    assert_eq!(format!("{:?}", first.1), format!("{:?}", second.1));
}
