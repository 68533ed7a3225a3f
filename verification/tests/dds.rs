use sysdiagram::dds::{
    label_refs, parse_label, parse_label_ref, parse_polyline, DdsPolylineEndType, LabelFlags,
    LabelJustification, LabelRef, LABEL_FONT_OFFSET,
};
use sysdiagram::error::{Error, ErrorKind};
use sysdiagram::properties::{Position, Size};

fn point(x: i32, y: i32) -> Position {
    Position { left: x, top: y }
}

/// The bytes of a polyline through `points`, with the given end types and label references.
fn polyline_bytes(points: &[Position], src: u32, dest: u32, labels: &[LabelRef]) -> Vec<u8> {
    let mut bytes = (points.len() as u16).to_le_bytes().to_vec();
    bytes.extend(11u16.to_le_bytes());
    for p in points {
        bytes.extend(p.top.to_le_bytes());
        bytes.extend(p.left.to_le_bytes());
    }
    bytes.extend(src.to_le_bytes());
    bytes.extend(dest.to_le_bytes());
    bytes.extend([0x12, 0x00, 0x00, 0x80]);
    bytes.extend(1u8..=16);
    bytes.extend((labels.len() as u32).to_le_bytes());
    for label in labels {
        bytes.extend(label.id.to_le_bytes());
        bytes.extend(label.reserved.to_le_bytes());
        bytes.extend(label.pos.top.to_le_bytes());
        bytes.extend(label.pos.left.to_le_bytes());
        bytes.extend(label.size.width.to_le_bytes());
        bytes.extend(label.size.height.to_le_bytes());
    }
    bytes.push(0x3f);
    bytes.extend([0, 0, 0, 1, 0]);
    bytes
}

#[test]
fn end_type_of_each_number() {
    let known = [
        (0, DdsPolylineEndType::Many),
        (1, DdsPolylineEndType::LittleNub),
        (2, DdsPolylineEndType::Key),
        (3, DdsPolylineEndType::SingleArrowFill),
        (4, DdsPolylineEndType::DoubleArrow),
        (5, DdsPolylineEndType::RoundNub),
        (6, DdsPolylineEndType::NoCap),
        (7, DdsPolylineEndType::OpenArrow),
        (8, DdsPolylineEndType::SingleArrow),
        (9, DdsPolylineEndType::Diamond),
        (10, DdsPolylineEndType::DiamondFill),
        (11, DdsPolylineEndType::DiamondArrow),
        (12, DdsPolylineEndType::DiamondFillArrow),
        (13, DdsPolylineEndType::ManyDelete),
        (14, DdsPolylineEndType::ManyUpdate),
        (15, DdsPolylineEndType::ManyUpdateDelete),
        (16, DdsPolylineEndType::KeyDelete),
        (17, DdsPolylineEndType::KeyUpdate),
        (18, DdsPolylineEndType::KeyUpdateDelete),
        (99, DdsPolylineEndType::Custom),
    ];
    for (number, end_type) in known {
        assert_eq!(DdsPolylineEndType::from_u32(number), Some(end_type));
    }
    for number in [19, 20, 98, 100, 255, 256, u32::MAX] {
        assert_eq!(DdsPolylineEndType::from_u32(number), None);
    }
}

#[test]
fn justification_of_each_number() {
    assert_eq!(LabelJustification::from_u16(0), Some(LabelJustification::Left));
    assert_eq!(LabelJustification::from_u16(1), Some(LabelJustification::Center));
    assert_eq!(LabelJustification::from_u16(2), Some(LabelJustification::Right));
    assert_eq!(LabelJustification::from_u16(3), None);
    assert_eq!(LabelJustification::from_u16(u16::MAX), None);
}

#[test]
fn label_flags_hold_recognized_bits_only() {
    let flags = LabelFlags::from_bits(0b010101).unwrap();
    assert_eq!(flags.bits(), 0b010101);
    assert!(flags.contains(LabelFlags::READ_ONLY));
    assert!(!flags.contains(LabelFlags::ALIGN_TOP));
    assert!(flags.contains(LabelFlags::AUTO_SIZE));
    assert!(!flags.contains(LabelFlags::DELETE_EMPTY));
    assert!(flags.contains(LabelFlags::WORD_WRAP));
    assert!(!flags.contains(LabelFlags::TRANSPARENT));
    assert!(flags.contains(LabelFlags::READ_ONLY | LabelFlags::WORD_WRAP));
    assert!(!flags.contains(LabelFlags::READ_ONLY | LabelFlags::TRANSPARENT));
    assert!(LabelFlags::from_bits(0).is_some());
    assert!(LabelFlags::from_bits(0x3f).is_some());
    assert!(LabelFlags::from_bits(0x40).is_none());
    assert!(LabelFlags::from_bits(0x8001).is_none());
}

#[test]
fn label_ref_is_decoded() {
    let label = LabelRef {
        id: 9,
        reserved: 0,
        pos: point(-5, 70),
        size: Size { width: 300, height: 40 },
    };
    let bytes = polyline_bytes(&[], 0, 0, &[label]);
    // The reference follows the count of points, the word, the end types,
    // the color, the sixteen bytes and the count of labels.
    let (rest, found) = parse_label_ref(&bytes[36..]).unwrap();
    assert_eq!(found, label);
    assert_eq!(rest.len(), 6);
    assert_eq!(parse_label_ref(&bytes[36..59]), Err(Error::Incomplete));
}

#[test]
fn label_refs_are_counted() {
    let (rest, labels) = label_refs(&[0, 0, 0, 0, 7]).unwrap();
    assert!(labels.is_empty());
    assert_eq!(rest, &[7]);
    let mut bytes = 2u32.to_le_bytes().to_vec();
    bytes.extend([0u8; 47]);
    assert_eq!(label_refs(&bytes), Err(Error::Incomplete));
    assert_eq!(label_refs(&[0xff, 0xff, 0xff, 0xff]), Err(Error::Incomplete));
}

#[test]
fn polyline_exposes_its_end_points() {
    let points = [point(0, 0), point(500, 500), point(1000, 0)];
    let bytes = polyline_bytes(&points, 0, 2, &[]);
    let (rest, polyline) = parse_polyline(&bytes).unwrap();
    assert!(rest.is_empty());
    assert_eq!(polyline.positions, points);
    assert_eq!(polyline.first_position(), Some(point(0, 0)));
    assert_eq!(polyline.last_position(), Some(point(1000, 0)));
    assert_eq!(polyline.first_position().unwrap().left, 0);
    assert_eq!(polyline.last_position().unwrap().left, 1000);
    assert_eq!(polyline.last_position().unwrap().top, 0);
}

#[test]
fn polyline_end_points_do_not_depend_on_the_points_between() {
    for inner in 0..40 {
        let mut points = vec![point(0, 0)];
        for i in 0..inner {
            points.push(point(17 * i - 100, 1000 - 33 * i));
        }
        points.push(point(1000, 0));
        let bytes = polyline_bytes(&points, 0, 2, &[]);
        let (_, polyline) = parse_polyline(&bytes).unwrap();
        assert_eq!(polyline.positions.len(), inner as usize + 2);
        assert_eq!(polyline.first_position(), Some(point(0, 0)));
        assert_eq!(polyline.last_position(), Some(point(1000, 0)));
    }
}

#[test]
fn polyline_of_one_point_starts_and_ends_there() {
    let bytes = polyline_bytes(&[point(-3, 4)], 0, 2, &[]);
    let (_, polyline) = parse_polyline(&bytes).unwrap();
    assert_eq!(polyline.first_position(), Some(point(-3, 4)));
    assert_eq!(polyline.last_position(), Some(point(-3, 4)));
}

#[test]
fn polyline_without_points_has_no_end_points() {
    let bytes = polyline_bytes(&[], 0, 2, &[]);
    let (_, polyline) = parse_polyline(&bytes).unwrap();
    assert_eq!(polyline.first_position(), None);
    assert_eq!(polyline.last_position(), None);
}

#[test]
fn polyline_is_decoded_field_by_field() {
    let labels = [
        LabelRef { id: 3, reserved: 0, pos: point(10, 20), size: Size { width: 30, height: 40 } },
        LabelRef { id: 4, reserved: 7, pos: point(-1, -2), size: Size { width: 0, height: 1 } },
    ];
    let bytes = polyline_bytes(&[point(1, 2), point(3, 4)], 16, 99, &labels);
    let (rest, polyline) = parse_polyline(&bytes).unwrap();
    assert!(rest.is_empty());
    assert_eq!(polyline.unknown_word, 11);
    assert_eq!(polyline.positions, vec![point(1, 2), point(3, 4)]);
    assert_eq!(polyline.end_type_src, DdsPolylineEndType::KeyDelete);
    assert_eq!(polyline.end_type_dest, DdsPolylineEndType::Custom);
    assert_eq!(format!("{:?}", polyline.color), "SystemPalette(18)");
    assert_eq!(polyline.opaque_block, (1u8..=16).collect::<Vec<u8>>());
    assert_eq!(polyline.labels, labels);
    assert_eq!(polyline.unknown_byte, 0x3f);
    assert_eq!(polyline.trailing, vec![0, 0, 0, 1, 0]);
}

#[test]
fn polyline_keeps_an_empty_trailer() {
    let mut bytes = polyline_bytes(&[point(1, 2)], 0, 2, &[]);
    bytes.truncate(bytes.len() - 5);
    let (rest, polyline) = parse_polyline(&bytes).unwrap();
    assert!(rest.is_empty());
    assert!(polyline.trailing.is_empty());
}

#[test]
fn polyline_with_an_unknown_end_type_is_refused() {
    let bytes = polyline_bytes(&[point(1, 2)], 19, 2, &[]);
    let left = bytes.len() - 12;
    assert!(matches!(
        parse_polyline(&bytes),
        Err(Error::ParseError(ErrorKind::Enumerant, at)) if at == left
    ));
    let bytes = polyline_bytes(&[point(1, 2)], 2, 100, &[]);
    let left = bytes.len() - 16;
    assert!(matches!(
        parse_polyline(&bytes),
        Err(Error::ParseError(ErrorKind::Enumerant, at)) if at == left
    ));
}

#[test]
fn polyline_with_an_unknown_color_is_refused() {
    let mut bytes = polyline_bytes(&[point(1, 2)], 0, 2, &[]);
    bytes[23] = 0x7f;
    let left = bytes.len() - 20;
    assert!(matches!(
        parse_polyline(&bytes),
        Err(Error::ParseError(ErrorKind::Color, at)) if at == left
    ));
}

#[test]
fn truncated_polyline_is_incomplete() {
    let label =
        LabelRef { id: 3, reserved: 0, pos: point(10, 20), size: Size { width: 30, height: 40 } };
    let mut bytes = polyline_bytes(&[point(1, 2), point(3, 4)], 0, 2, &[label]);
    bytes.truncate(bytes.len() - 5);
    for len in 0..bytes.len() {
        assert!(
            matches!(parse_polyline(&bytes[..len]), Err(Error::Incomplete)),
            "prefix of {} bytes",
            len
        );
    }
}

#[test]
fn polyline_that_announces_more_points_than_it_holds_is_incomplete() {
    let mut bytes = polyline_bytes(&[point(1, 2)], 0, 2, &[]);
    bytes[0] = 0xff;
    bytes[1] = 0xff;
    assert!(matches!(parse_polyline(&bytes), Err(Error::Incomplete)));
}

#[test]
fn decoding_a_polyline_twice_gives_equal_polylines() {
    let bytes = polyline_bytes(&[point(0, 0), point(500, 500), point(1000, 0)], 0, 2, &[]);
    let first = parse_polyline(&bytes).unwrap();
    let second = parse_polyline(&bytes).unwrap();
    assert_eq!(first.0, second.0);
    assert_eq!(format!("{:?}", first.1), format!("{:?}", second.1));
}

/// The bytes of a label, with `font` standing for its font descriptor.
fn label_bytes(justification: u16, flags: u16, font: &[u8], text: &str) -> Vec<u8> {
    let mut bytes = 2u32.to_le_bytes().to_vec();
    bytes.extend(4000u32.to_le_bytes());
    bytes.extend(600u32.to_le_bytes());
    bytes.extend([1, 2, 3, 4, 5, 6]);
    bytes.extend([0x0f, 0x00, 0x00, 0x80]);
    bytes.extend([0x12, 0x00, 0x00, 0x80]);
    bytes.extend(justification.to_le_bytes());
    bytes.extend(0x0708u16.to_le_bytes());
    bytes.extend(flags.to_le_bytes());
    assert_eq!(bytes.len(), LABEL_FONT_OFFSET);
    bytes.extend(font);
    let units: Vec<u16> = text.encode_utf16().collect();
    bytes.extend((units.len() as u16).to_le_bytes());
    for unit in units {
        bytes.extend(unit.to_le_bytes());
    }
    bytes
}

#[test]
fn label_is_decoded_field_by_field() {
    let font = [0xaa; 11];
    let mut bytes = label_bytes(1, 0b010100, &font, "Gr\u{fc}\u{df}e");
    bytes.push(0x77);
    let (rest, label) = parse_label(&bytes, Some(("Tahoma", font.len()))).unwrap();
    assert_eq!(rest, &[0x77]);
    assert_eq!(label.unknown_word, 2);
    assert_eq!(label.size, Size { width: 4000, height: 600 });
    assert_eq!(label.opaque_block, vec![1, 2, 3, 4, 5, 6]);
    assert_eq!(format!("{:?}", label.back_color), "SystemPalette(15)");
    assert_eq!(format!("{:?}", label.fore_color), "SystemPalette(18)");
    assert_eq!(label.justification, LabelJustification::Center);
    assert_eq!(label.unknown_half, 0x0708);
    assert_eq!(label.flags.bits(), 0b010100);
    assert!(label.flags.contains(LabelFlags::AUTO_SIZE));
    assert!(label.flags.contains(LabelFlags::WORD_WRAP));
    assert_eq!(label.font, "Tahoma");
    assert_eq!(label.text, "Gr\u{fc}\u{df}e");
}

#[test]
fn label_with_an_empty_font_descriptor_and_text() {
    let bytes = label_bytes(0, 0, &[], "");
    let (rest, label) = parse_label(&bytes, Some((7u8, 0))).unwrap();
    assert!(rest.is_empty());
    assert_eq!(label.font, 7);
    assert_eq!(label.text, "");
    assert_eq!(label.justification, LabelJustification::Left);
}

#[test]
fn label_without_a_font_is_refused_at_the_font() {
    let bytes = label_bytes(2, 0, &[1, 2, 3], "x");
    let left = bytes.len() - LABEL_FONT_OFFSET;
    assert!(matches!(
        parse_label::<u8>(&bytes, None),
        Err(Error::ParseError(ErrorKind::Font, at)) if at == left
    ));
}

#[test]
fn label_errors_before_the_font_come_first() {
    let bytes = label_bytes(3, 0, &[], "x");
    let left = bytes.len() - 26;
    assert!(matches!(
        parse_label::<u8>(&bytes, None),
        Err(Error::ParseError(ErrorKind::Enumerant, at)) if at == left
    ));
    let bytes = label_bytes(0, 0x40, &[], "x");
    let left = bytes.len() - 30;
    assert!(matches!(
        parse_label(&bytes, Some((1u8, 0))),
        Err(Error::ParseError(ErrorKind::Flags, at)) if at == left
    ));
    let mut bytes = label_bytes(0, 0, &[], "x");
    bytes[21] = 0x44;
    let left = bytes.len() - 18;
    assert!(matches!(
        parse_label(&bytes, Some((1u8, 0))),
        Err(Error::ParseError(ErrorKind::Color, at)) if at == left
    ));
    let bytes = label_bytes(0, 0, &[], "x");
    for len in 0..LABEL_FONT_OFFSET {
        assert!(matches!(parse_label(&bytes[..len], Some((1u8, 0))), Err(Error::Incomplete)));
    }
}

#[test]
fn label_with_a_font_longer_than_the_input_is_incomplete() {
    let bytes = label_bytes(0, 0, &[1, 2, 3], "x");
    let left = bytes.len() - LABEL_FONT_OFFSET;
    assert!(matches!(parse_label(&bytes, Some((1u8, left + 1))), Err(Error::Incomplete)));
    assert!(matches!(parse_label(&bytes, Some((1u8, usize::MAX))), Err(Error::Incomplete)));
    // A font that takes everything leaves no room for the length of the text.
    assert!(matches!(parse_label(&bytes, Some((1u8, left))), Err(Error::Incomplete)));
}

#[test]
fn label_with_malformed_text_is_refused() {
    let mut bytes = label_bytes(0, 0, &[9], "");
    let at = bytes.len() - 2;
    bytes[at] = 1;
    bytes.extend([0x00, 0xdc]);
    assert!(matches!(parse_label(&bytes, Some((1u8, 1))), Err(Error::StringEncoding(2))));
}

#[test]
fn decoding_a_label_twice_gives_equal_labels() {
    let bytes = label_bytes(1, 3, &[5, 5], "note");
    let first = parse_label(&bytes, Some((1u8, 2))).unwrap();
    let second = parse_label(&bytes, Some((1u8, 2))).unwrap();
    assert_eq!(first.0, second.0);
    assert_eq!(format!("{:?}", first.1), format!("{:?}", second.1));
}
