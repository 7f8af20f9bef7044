use osenc::chartfile::ChartFile;
use osenc::error::DecodeError;
use osenc::s57::{AttributeValue, Direction, LineElement, PointGeometry, Position, Rect};
use osenc::s57_attribute::S57Attribute;
use osenc::s57_type::S57Type;

fn record(record_type: u16, payload: &[u8]) -> Vec<u8> {
    let mut bytes = Vec::new();
    bytes.extend_from_slice(&record_type.to_le_bytes());
    bytes.extend_from_slice(&((payload.len() + 6) as u32).to_le_bytes());
    bytes.extend_from_slice(payload);
    bytes
}

fn header_only(record_type: u16, record_len: u32) -> Vec<u8> {
    let mut bytes = Vec::new();
    bytes.extend_from_slice(&record_type.to_le_bytes());
    bytes.extend_from_slice(&record_len.to_le_bytes());
    bytes
}

fn version(version: u16) -> Vec<u8> {
    record(1, &version.to_le_bytes())
}

fn server_status(decrypt: u16, expire: u16) -> Vec<u8> {
    let mut payload = Vec::new();
    for field in [1u16, decrypt, expire, 30, 7, 7] {
        payload.extend_from_slice(&field.to_le_bytes());
    }
    record(200, &payload)
}

fn extent(nw: (f64, f64), se: (f64, f64)) -> Vec<u8> {
    let mut payload = Vec::new();
    // south-west, north-west, north-east, south-east; latitude first
    for value in [se.0, nw.1, nw.0, nw.1, nw.0, se.1, se.0, se.1] {
        payload.extend_from_slice(&value.to_le_bytes());
    }
    record(100, &payload)
}

fn feature(type_code: u16) -> Vec<u8> {
    let mut payload = Vec::new();
    payload.extend_from_slice(&type_code.to_le_bytes());
    payload.extend_from_slice(&7u16.to_le_bytes());
    payload.push(1);
    record(64, &payload)
}

fn point(lat: f64, lon: f64) -> Vec<u8> {
    let mut payload = Vec::new();
    payload.extend_from_slice(&lat.to_le_bytes());
    payload.extend_from_slice(&lon.to_le_bytes());
    record(80, &payload)
}

fn attribute(code: u16, kind: u8, value: &[u8]) -> Vec<u8> {
    let mut payload = Vec::new();
    payload.extend_from_slice(&code.to_le_bytes());
    payload.push(kind);
    payload.extend_from_slice(value);
    record(65, &payload)
}

fn bounds() -> Vec<u8> {
    let mut bytes = Vec::new();
    for value in [1.0f64, 2.0, 3.0, 4.0] {
        bytes.extend_from_slice(&value.to_le_bytes());
    }
    bytes
}

fn edge(start: u32, edge: u32, end: u32, direction: u32) -> Vec<u8> {
    let mut bytes = Vec::new();
    for field in [start, edge, end, direction] {
        bytes.extend_from_slice(&field.to_le_bytes());
    }
    bytes
}

fn line(edges: &[Vec<u8>]) -> Vec<u8> {
    let mut payload = bounds();
    payload.extend_from_slice(&(edges.len() as u32).to_le_bytes());
    for edge in edges {
        payload.extend_from_slice(edge);
    }
    record(81, &payload)
}

fn primitive(kind: u8, vertices: &[(f32, f32)]) -> Vec<u8> {
    let mut bytes = vec![kind];
    bytes.extend_from_slice(&(vertices.len() as u32).to_le_bytes());
    bytes.extend_from_slice(&bounds());
    for (x, y) in vertices {
        bytes.extend_from_slice(&x.to_le_bytes());
        bytes.extend_from_slice(&y.to_le_bytes());
    }
    bytes
}

fn area_payload(contours: &[u32], primitives: &[Vec<u8>], edges: &[Vec<u8>]) -> Vec<u8> {
    let mut payload = bounds();
    payload.extend_from_slice(&(contours.len() as u32).to_le_bytes());
    payload.extend_from_slice(&(primitives.len() as u32).to_le_bytes());
    payload.extend_from_slice(&(edges.len() as u32).to_le_bytes());
    for contour in contours {
        payload.extend_from_slice(&contour.to_le_bytes());
    }
    for primitive in primitives {
        payload.extend_from_slice(primitive);
    }
    for edge in edges {
        payload.extend_from_slice(edge);
    }
    payload
}

fn multipoint_payload(count: u32, points: &[(f32, f32, f32)]) -> Vec<u8> {
    let mut payload = bounds();
    payload.extend_from_slice(&count.to_le_bytes());
    for (easting, northing, depth) in points {
        payload.extend_from_slice(&easting.to_le_bytes());
        payload.extend_from_slice(&northing.to_le_bytes());
        payload.extend_from_slice(&depth.to_le_bytes());
    }
    payload
}

fn position(lat: f64, lon: f64) -> Position {
    Position { lat: lat.to_bits(), lon: lon.to_bits() }
}

fn stream(records: &[Vec<u8>]) -> Vec<u8> {
    records.concat()
}

fn element(start: u32, edge: u32, end: u32, direction: Direction) -> LineElement {
    LineElement {
        start_connected_node: start,
        edge_vector: edge,
        end_connected_node: end,
        direction,
    }
}

#[test]
fn empty_stream_is_an_empty_cell() {
    let chart = ChartFile::parse_file(&[]).unwrap();
    assert_eq!(chart.features().len(), 0);
    assert_eq!(chart.name(), "");
    assert_eq!(chart.publishdate(), "");
    assert_eq!(chart.updatedate(), "");
    assert_eq!(chart.soundingdatum(), "");
    assert_eq!(chart.edition(), 0);
    assert_eq!(chart.update(), 0);
    assert_eq!(chart.nativescale(), 0);
    assert_eq!(chart.extent(), Rect { top_left: position(0.0, 0.0), bottom_right: position(0.0, 0.0) });
}

#[test]
fn synthetic_cell_round_trip() {
    let data = stream(&[
        server_status(1, 1),
        version(201),
        record(2, b"TEST"),
        extent((10.0, 10.0), (0.0, 20.0)),
        feature(42),
        point(5.0, 15.0),
    ]);
    let chart = ChartFile::parse_file(&data).unwrap();
    assert_eq!(chart.name(), "TEST");
    assert_eq!(
        chart.extent(),
        Rect { top_left: position(10.0, 10.0), bottom_right: position(0.0, 20.0) }
    );
    assert_eq!(chart.features().len(), 1);
    let only = &chart.features()[0];
    assert_eq!(only.s57_type(), S57Type::from_type_code(42));
    assert_eq!(only.s57_type(), S57Type::DEPARE);
    assert_eq!(only.point_geometry(), Some(&position(5.0, 15.0)));
    assert_eq!(f64::from_bits(only.point_geometry().unwrap().lat), 5.0);
    assert_eq!(f64::from_bits(only.point_geometry().unwrap().lon), 15.0);
    assert!(only.multi_point_geometry().is_empty());
    assert!(only.line_elements().is_empty());
    assert!(only.polygon_line_elements().is_empty());
    assert!(only.attribute_list().is_empty());
}

#[test]
fn synthetic_cell_without_server_status() {
    let data = stream(&[
        version(201),
        record(2, b"TEST"),
        extent((10.0, 10.0), (0.0, 20.0)),
        feature(42),
        point(5.0, 15.0),
    ]);
    let chart = ChartFile::parse_file(&data).unwrap();
    assert_eq!(chart.name(), "TEST");
    assert_eq!(chart.features().len(), 1);
    assert_eq!(chart.features()[0].point_geometry(), Some(&position(5.0, 15.0)));
}

#[test]
fn supported_versions_are_accepted() {
    for declared in [201u16, 202, 300, u16::MAX] {
        let data = stream(&[version(declared), record(2, b"A")]);
        let chart = ChartFile::parse_file(&data).unwrap();
        assert_eq!(chart.name(), "A");
    }
}

#[test]
fn old_versions_are_refused() {
    for declared in [0u16, 1, 100, 200] {
        let data = stream(&[version(declared), record(2, b"A")]);
        assert_eq!(ChartFile::parse_file(&data).unwrap_err(), DecodeError::UnsupportedVersion);
    }
}

#[test]
fn old_version_is_refused_wherever_it_stands() {
    let data = stream(&[version(201), feature(42), version(200)]);
    assert_eq!(ChartFile::parse_file(&data).unwrap_err(), DecodeError::UnsupportedVersion);
}

#[test]
fn version_record_of_another_length_is_malformed() {
    for record_len in [6u32, 7, 9, 15, 16, 17, 1000] {
        let mut data = header_only(1, record_len);
        data.extend_from_slice(&[201, 0, 0, 0, 0, 0, 0, 0, 0, 0, 0, 0]);
        assert_eq!(ChartFile::parse_file(&data).unwrap_err(), DecodeError::MalformedHeader);
    }
}

#[test]
fn version_record_cut_short_is_truncated() {
    let mut data = header_only(1, 8);
    data.push(201);
    assert_eq!(ChartFile::parse_file(&data).unwrap_err(), DecodeError::TruncatedStream);
}

#[test]
fn expired_chart_is_refused() {
    let data = stream(&[server_status(1, 0), version(201)]);
    assert_eq!(ChartFile::parse_file(&data).unwrap_err(), DecodeError::ChartExpired);
    let data = stream(&[server_status(0, 0), version(201)]);
    assert_eq!(ChartFile::parse_file(&data).unwrap_err(), DecodeError::ChartExpired);
}

#[test]
fn failed_signature_is_refused() {
    let data = stream(&[server_status(0, 1), version(201)]);
    assert_eq!(ChartFile::parse_file(&data).unwrap_err(), DecodeError::SignatureFailure);
    let data = stream(&[server_status(0, 9), version(201)]);
    assert_eq!(ChartFile::parse_file(&data).unwrap_err(), DecodeError::SignatureFailure);
}

#[test]
fn good_server_status_lets_decoding_go_on() {
    let data = stream(&[server_status(1, 1), record(2, b"GO")]);
    assert_eq!(ChartFile::parse_file(&data).unwrap().name(), "GO");
    let data = stream(&[server_status(500, 2), record(2, b"ON")]);
    assert_eq!(ChartFile::parse_file(&data).unwrap().name(), "ON");
}

#[test]
fn server_status_of_another_length_is_malformed() {
    for record_len in [6u32, 17, 19, 20, 21, 64] {
        let mut data = header_only(200, record_len);
        data.extend_from_slice(&[1u8; 64]);
        assert_eq!(ChartFile::parse_file(&data).unwrap_err(), DecodeError::MalformedHeader);
    }
}

#[test]
fn header_fields_are_kept() {
    let data = stream(&[
        record(2, b"CELL-1"),
        record(3, b"20240101"),
        record(4, &12u16.to_le_bytes()),
        record(5, b"20240315"),
        record(6, &3u16.to_le_bytes()),
        record(7, &50_000u32.to_le_bytes()),
        record(8, b"20240316"),
        record(9, "Mittleres Springniedrigwasser".as_bytes()),
    ]);
    let chart = ChartFile::parse_file(&data).unwrap();
    assert_eq!(chart.name(), "CELL-1");
    assert_eq!(chart.publishdate(), "20240101");
    assert_eq!(chart.edition(), 12);
    assert_eq!(chart.updatedate(), "20240315");
    assert_eq!(chart.update(), 3);
    assert_eq!(chart.nativescale(), 50_000);
    assert_eq!(chart.soundingdatum(), "Mittleres Springniedrigwasser");
}

#[test]
fn text_is_decoded_as_utf8() {
    let data = stream(&[record(2, "Ærø/北海".as_bytes())]);
    let chart = ChartFile::parse_file(&data).unwrap();
    assert_eq!(chart.name(), "Ærø/北海");
    assert_eq!(chart.name().chars().count(), 6);
}

#[test]
fn text_that_is_not_utf8_leaves_the_field_alone() {
    let data = stream(&[record(2, &[0x54, 0xff, 0x53]), record(3, b"20240101")]);
    let chart = ChartFile::parse_file(&data).unwrap();
    assert_eq!(chart.name(), "");
    assert_eq!(chart.publishdate(), "20240101");

    let data = stream(&[record(2, b"KEPT"), record(2, &[0xc3]), record(9, &[0xed, 0xa0, 0x80])]);
    let chart = ChartFile::parse_file(&data).unwrap();
    assert_eq!(chart.name(), "KEPT");
    assert_eq!(chart.soundingdatum(), "");
}

#[test]
fn scalar_of_another_length_is_malformed() {
    for record_type in [4u16, 6] {
        let data = record(record_type, &[1, 0, 0]);
        assert_eq!(ChartFile::parse_file(&data).unwrap_err(), DecodeError::MalformedHeader);
        let data = record(record_type, &[1]);
        assert_eq!(ChartFile::parse_file(&data).unwrap_err(), DecodeError::MalformedHeader);
    }
    let data = record(7, &[1, 0]);
    assert_eq!(ChartFile::parse_file(&data).unwrap_err(), DecodeError::MalformedHeader);
    let data = record(100, &[0; 63]);
    assert_eq!(ChartFile::parse_file(&data).unwrap_err(), DecodeError::MalformedHeader);
    let data = record(64, &[0; 6]);
    assert_eq!(ChartFile::parse_file(&data).unwrap_err(), DecodeError::MalformedHeader);
    let data = record(80, &[0; 8]);
    assert_eq!(ChartFile::parse_file(&data).unwrap_err(), DecodeError::MalformedHeader);
}

#[test]
fn record_shorter_than_its_header_is_malformed() {
    for record_type in [2u16, 8, 65, 81, 98] {
        for record_len in [0u32, 1, 5] {
            let mut data = header_only(record_type, record_len);
            data.extend_from_slice(&[0; 16]);
            assert_eq!(ChartFile::parse_file(&data).unwrap_err(), DecodeError::MalformedHeader);
        }
    }
}

#[test]
fn extent_keeps_north_west_and_south_east() {
    let mut payload = Vec::new();
    for value in [1.0f64, 2.0, 3.0, 4.0, 5.0, 6.0, 7.0, 8.0] {
        payload.extend_from_slice(&value.to_le_bytes());
    }
    let chart = ChartFile::parse_file(&record(100, &payload)).unwrap();
    assert_eq!(chart.extent().top_left, position(3.0, 4.0));
    assert_eq!(chart.extent().bottom_right, position(7.0, 8.0));
}

#[test]
fn each_feature_record_adds_one_feature() {
    let mut data = Vec::new();
    for (count, code) in [42u16, 129, 9999, 0, 75].iter().enumerate() {
        data.extend_from_slice(&feature(*code));
        let chart = ChartFile::parse_file(&data).unwrap();
        assert_eq!(chart.features().len(), count + 1);
    }
    let chart = ChartFile::parse_file(&data).unwrap();
    let classes: Vec<S57Type> = chart.features().iter().map(|f| f.s57_type()).collect();
    assert_eq!(
        classes,
        vec![S57Type::DEPARE, S57Type::SOUNDG, S57Type::Unknown, S57Type::Unknown, S57Type::LIGHTS]
    );
}

#[test]
fn records_go_to_the_feature_identified_last() {
    let data = stream(&[
        feature(42),
        attribute(87, 0, &3u32.to_le_bytes()),
        point(1.0, 2.0),
        feature(75),
        attribute(116, 4, b"Roter Sand\0"),
        point(3.0, 4.0),
        attribute(75, 0, &4u32.to_le_bytes()),
        feature(17),
    ]);
    let chart = ChartFile::parse_file(&data).unwrap();
    assert_eq!(chart.features().len(), 3);

    let first = &chart.features()[0];
    assert_eq!(first.s57_type(), S57Type::DEPARE);
    assert_eq!(first.point_geometry(), Some(&position(1.0, 2.0)));
    assert_eq!(first.attribute_list(), vec![S57Attribute::DRVAL1]);
    assert!(matches!(first.attribute(S57Attribute::DRVAL1), Some(AttributeValue::UInt32(3))));

    let second = &chart.features()[1];
    assert_eq!(second.s57_type(), S57Type::LIGHTS);
    assert_eq!(second.point_geometry(), Some(&position(3.0, 4.0)));
    let mut listed = second.attribute_list();
    listed.sort_by_key(|a| a.type_code());
    assert_eq!(listed, vec![S57Attribute::COLOUR, S57Attribute::OBJNAM]);
    match second.attribute(S57Attribute::OBJNAM) {
        Some(AttributeValue::String(text)) => assert_eq!(text, "Roter Sand"),
        other => panic!("unexpected value {:?}", other),
    }
    assert!(second.attribute(S57Attribute::DRVAL1).is_none());

    let third = &chart.features()[2];
    assert_eq!(third.s57_type(), S57Type::BOYLAT);
    assert_eq!(third.point_geometry(), None);
    assert!(third.attribute_list().is_empty());
}

#[test]
fn records_before_any_feature_are_dropped() {
    let data = stream(&[
        attribute(87, 0, &3u32.to_le_bytes()),
        point(1.0, 2.0),
        line(&[edge(1, 2, 3, 0)]),
        record(82, &area_payload(&[], &[], &[edge(1, 2, 3, 0)])),
        record(83, &multipoint_payload(1, &[(0.0, 0.0, 1.0)])),
        feature(42),
    ]);
    let chart = ChartFile::parse_file(&data).unwrap();
    assert_eq!(chart.features().len(), 1);
    let only = &chart.features()[0];
    assert!(only.attribute_list().is_empty());
    assert_eq!(only.point_geometry(), None);
    assert!(only.line_elements().is_empty());
    assert!(only.polygon_line_elements().is_empty());
    assert!(only.multi_point_geometry().is_empty());
}

#[test]
fn second_attribute_record_wins() {
    let data = stream(&[
        feature(42),
        attribute(87, 0, &3u32.to_le_bytes()),
        attribute(88, 0, &9u32.to_le_bytes()),
        attribute(87, 2, &7.5f64.to_le_bytes()),
    ]);
    let chart = ChartFile::parse_file(&data).unwrap();
    let only = &chart.features()[0];
    let mut listed = only.attribute_list();
    listed.sort_by_key(|a| a.type_code());
    assert_eq!(listed, vec![S57Attribute::DRVAL1, S57Attribute::DRVAL2]);
    match only.attribute(S57Attribute::DRVAL1) {
        Some(AttributeValue::Double(bits)) => assert_eq!(f64::from_bits(*bits), 7.5),
        other => panic!("unexpected value {:?}", other),
    }
    assert!(matches!(only.attribute(S57Attribute::DRVAL2), Some(AttributeValue::UInt32(9))));
}

#[test]
fn integer_attribute_takes_four_bytes() {
    let data = stream(&[feature(42), attribute(133, 0, &[0x78, 0x56, 0x34, 0x12])]);
    let chart = ChartFile::parse_file(&data).unwrap();
    assert!(matches!(
        chart.features()[0].attribute(S57Attribute::SCAMIN),
        Some(AttributeValue::UInt32(0x1234_5678))
    ));
    // what follows the four bytes is not looked at
    let data = stream(&[feature(42), attribute(133, 0, &[1, 0, 0, 0, 0xaa, 0xbb, 0xcc, 0xdd, 0xee])]);
    let chart = ChartFile::parse_file(&data).unwrap();
    assert!(matches!(
        chart.features()[0].attribute(S57Attribute::SCAMIN),
        Some(AttributeValue::UInt32(1))
    ));
    let data = stream(&[feature(42), attribute(133, 0, &[1, 0, 0, 0, 0xaa, 0xbb, 0xcc, 0xdd])]);
    let chart = ChartFile::parse_file(&data).unwrap();
    assert!(matches!(
        chart.features()[0].attribute(S57Attribute::SCAMIN),
        Some(AttributeValue::UInt32(1))
    ));
}

#[test]
fn double_attribute_takes_eight_bytes() {
    let data = stream(&[feature(42), attribute(179, 2, &(-12.25f64).to_le_bytes())]);
    let chart = ChartFile::parse_file(&data).unwrap();
    match chart.features()[0].attribute(S57Attribute::VALSOU) {
        Some(AttributeValue::Double(bits)) => {
            assert_eq!(*bits, (-12.25f64).to_bits());
            assert_eq!(*bits, 0xC028_8000_0000_0000);
        }
        other => panic!("unexpected value {:?}", other),
    }
}

#[test]
fn text_attribute_starts_right_after_the_kind() {
    // with a terminator, and bytes behind it
    let data = stream(&[feature(42), attribute(116, 4, b"Elbe\0junk")]);
    let chart = ChartFile::parse_file(&data).unwrap();
    match chart.features()[0].attribute(S57Attribute::OBJNAM) {
        Some(AttributeValue::String(text)) => assert_eq!(text, "Elbe"),
        other => panic!("unexpected value {:?}", other),
    }
    // without a terminator the text runs to the end of the payload
    let data = stream(&[feature(42), attribute(116, 4, b"Weser")]);
    let chart = ChartFile::parse_file(&data).unwrap();
    match chart.features()[0].attribute(S57Attribute::OBJNAM) {
        Some(AttributeValue::String(text)) => assert_eq!(text, "Weser"),
        other => panic!("unexpected value {:?}", other),
    }
    // nothing after the kind is an empty text
    let data = stream(&[feature(42), attribute(116, 4, b"")]);
    let chart = ChartFile::parse_file(&data).unwrap();
    match chart.features()[0].attribute(S57Attribute::OBJNAM) {
        Some(AttributeValue::String(text)) => assert_eq!(text, ""),
        other => panic!("unexpected value {:?}", other),
    }
    let data = stream(&[feature(42), attribute(116, 4, b"\0abc")]);
    let chart = ChartFile::parse_file(&data).unwrap();
    match chart.features()[0].attribute(S57Attribute::OBJNAM) {
        Some(AttributeValue::String(text)) => assert_eq!(text, ""),
        other => panic!("unexpected value {:?}", other),
    }
    let data = stream(&[feature(42), attribute(301, 4, "Süderpiep\0".as_bytes())]);
    let chart = ChartFile::parse_file(&data).unwrap();
    match chart.features()[0].attribute(S57Attribute::NOBJNM) {
        Some(AttributeValue::String(text)) => assert_eq!(text, "Süderpiep"),
        other => panic!("unexpected value {:?}", other),
    }
}

#[test]
fn text_attribute_that_is_not_utf8_is_not_stored() {
    let data = stream(&[
        feature(42),
        attribute(116, 4, b"first\0"),
        attribute(116, 4, &[0xff, 0xfe, 0]),
        attribute(102, 4, &[0x80]),
    ]);
    let chart = ChartFile::parse_file(&data).unwrap();
    let only = &chart.features()[0];
    assert_eq!(only.attribute_list(), vec![S57Attribute::OBJNAM]);
    match only.attribute(S57Attribute::OBJNAM) {
        Some(AttributeValue::String(text)) => assert_eq!(text, "first"),
        other => panic!("unexpected value {:?}", other),
    }
    // bytes behind the terminator do not count
    let data = stream(&[feature(42), attribute(116, 4, &[b'o', b'k', 0, 0xff])]);
    let chart = ChartFile::parse_file(&data).unwrap();
    match chart.features()[0].attribute(S57Attribute::OBJNAM) {
        Some(AttributeValue::String(text)) => assert_eq!(text, "ok"),
        other => panic!("unexpected value {:?}", other),
    }
}

#[test]
fn attribute_with_unknown_code_is_discarded() {
    // the value is not looked at, so a value cut short is no error
    let data = stream(&[
        feature(42),
        attribute(30, 0, &[1]),
        attribute(0, 2, &[]),
        attribute(9999, 0, &1u32.to_le_bytes()),
        attribute(87, 0, &5u32.to_le_bytes()),
    ]);
    let chart = ChartFile::parse_file(&data).unwrap();
    let only = &chart.features()[0];
    assert_eq!(only.attribute_list(), vec![S57Attribute::DRVAL1]);
    assert!(only.attribute(S57Attribute::Unknown).is_none());
}

#[test]
fn attribute_with_unknown_kind_has_no_value() {
    for kind in [1u8, 3, 5, 255] {
        let data = stream(&[feature(42), attribute(87, kind, &5u32.to_le_bytes())]);
        let chart = ChartFile::parse_file(&data).unwrap();
        assert!(chart.features()[0].attribute_list().is_empty());
    }
}

#[test]
fn attribute_cut_short_is_truncated() {
    let data = stream(&[feature(42), record(65, &[87, 0])]);
    assert_eq!(ChartFile::parse_file(&data).unwrap_err(), DecodeError::TruncatedStream);
    let data = stream(&[feature(42), record(65, &[])]);
    assert_eq!(ChartFile::parse_file(&data).unwrap_err(), DecodeError::TruncatedStream);
    let data = stream(&[feature(42), attribute(87, 0, &[1, 2, 3])]);
    assert_eq!(ChartFile::parse_file(&data).unwrap_err(), DecodeError::TruncatedStream);
    let data = stream(&[feature(42), attribute(87, 2, &[1, 2, 3, 4, 5, 6, 7])]);
    assert_eq!(ChartFile::parse_file(&data).unwrap_err(), DecodeError::TruncatedStream);
    // also where no feature would take the value
    let data = attribute(87, 0, &[1, 2, 3]);
    assert_eq!(ChartFile::parse_file(&data).unwrap_err(), DecodeError::TruncatedStream);
}

#[test]
fn line_geometry_keeps_its_edges() {
    let data = stream(&[
        feature(30),
        line(&[edge(1, 10, 2, 0), edge(2, 0, 3, 1), edge(0xffff_ffff, 7, 0x0102_0304, 0)]),
    ]);
    let chart = ChartFile::parse_file(&data).unwrap();
    let only = &chart.features()[0];
    assert_eq!(
        only.line_elements(),
        &vec![
            element(1, 10, 2, Direction::Forward),
            element(2, 0, 3, Direction::Reverse),
            element(0xffff_ffff, 7, 0x0102_0304, Direction::Forward),
        ]
    );
    assert!(only.polygon_line_elements().is_empty());
    // assembled geometry comes later, from the edge and node tables
    assert!(only.lines().is_empty());
}

#[test]
fn line_geometry_without_edges() {
    let data = stream(&[feature(30), line(&[edge(1, 10, 2, 0)]), line(&[])]);
    let chart = ChartFile::parse_file(&data).unwrap();
    assert!(chart.features()[0].line_elements().is_empty());
}

#[test]
fn line_geometry_with_a_broken_edge_is_a_size_mismatch() {
    for extra in [1usize, 4, 15, 17] {
        let mut payload = bounds();
        payload.extend_from_slice(&1u32.to_le_bytes());
        payload.extend_from_slice(&vec![0u8; extra]);
        let data = stream(&[feature(30), record(81, &payload)]);
        assert_eq!(ChartFile::parse_file(&data).unwrap_err(), DecodeError::SizeMismatch);
    }
}

#[test]
fn line_geometry_cut_short_is_truncated() {
    for size in [0usize, 1, 35] {
        let data = stream(&[feature(30), record(81, &vec![0u8; size])]);
        assert_eq!(ChartFile::parse_file(&data).unwrap_err(), DecodeError::TruncatedStream);
    }
}

#[test]
fn area_geometry_passes_over_the_tessellation() {
    let payload = area_payload(
        &[4, 3],
        &[
            primitive(4, &[(0.0, 0.0), (1.0, 0.0), (1.0, 1.0)]),
            primitive(5, &[]),
            primitive(6, &[(0.0, 0.0), (1.0, 0.0), (1.0, 1.0), (0.0, 1.0)]),
        ],
        &[edge(5, 50, 6, 1), edge(6, 60, 5, 0)],
    );
    assert_eq!(payload.len(), 44 + 8 + (37 + 24) + 37 + (37 + 32) + 32);
    let data = stream(&[feature(42), record(82, &payload)]);
    let chart = ChartFile::parse_file(&data).unwrap();
    let only = &chart.features()[0];
    assert_eq!(
        only.polygon_line_elements(),
        &vec![element(5, 50, 6, Direction::Reverse), element(6, 60, 5, Direction::Forward)]
    );
    assert!(only.line_elements().is_empty());
    assert!(only.polygons().is_empty());
}

#[test]
fn area_geometry_without_tessellation() {
    let payload = area_payload(&[], &[], &[edge(1, 2, 3, 0)]);
    let data = stream(&[feature(42), record(82, &payload)]);
    let chart = ChartFile::parse_file(&data).unwrap();
    assert_eq!(
        chart.features()[0].polygon_line_elements(),
        &vec![element(1, 2, 3, Direction::Forward)]
    );
    let payload = area_payload(&[], &[], &[]);
    let data = stream(&[feature(42), record(82, &payload)]);
    let chart = ChartFile::parse_file(&data).unwrap();
    assert!(chart.features()[0].polygon_line_elements().is_empty());
}

#[test]
fn area_geometry_cut_short_is_truncated() {
    // inside the fixed part
    let data = stream(&[feature(42), record(82, &vec![0u8; 43])]);
    assert_eq!(ChartFile::parse_file(&data).unwrap_err(), DecodeError::TruncatedStream);
    // inside the contour lengths
    let mut payload = area_payload(&[1, 2, 3], &[], &[]);
    payload.truncate(44 + 11);
    let data = stream(&[feature(42), record(82, &payload)]);
    assert_eq!(ChartFile::parse_file(&data).unwrap_err(), DecodeError::TruncatedStream);
    // inside the head of a primitive
    let mut payload = area_payload(&[], &[primitive(4, &[])], &[]);
    payload.truncate(44 + 4);
    let data = stream(&[feature(42), record(82, &payload)]);
    assert_eq!(ChartFile::parse_file(&data).unwrap_err(), DecodeError::TruncatedStream);
    // inside the vertices of a primitive
    let mut payload = area_payload(&[], &[primitive(4, &[(1.0, 2.0), (3.0, 4.0)])], &[]);
    payload.truncate(44 + 37 + 15);
    let data = stream(&[feature(42), record(82, &payload)]);
    assert_eq!(ChartFile::parse_file(&data).unwrap_err(), DecodeError::TruncatedStream);
    // a primitive is announced and none is there
    let mut payload = area_payload(&[], &[], &[]);
    payload[36] = 1;
    let data = stream(&[feature(42), record(82, &payload)]);
    assert_eq!(ChartFile::parse_file(&data).unwrap_err(), DecodeError::TruncatedStream);
    // a number of vertices far beyond the payload
    let mut payload = area_payload(&[], &[primitive(4, &[])], &[edge(1, 2, 3, 0)]);
    payload[45..49].copy_from_slice(&u32::MAX.to_le_bytes());
    let data = stream(&[feature(42), record(82, &payload)]);
    assert_eq!(ChartFile::parse_file(&data).unwrap_err(), DecodeError::TruncatedStream);
    // a number of contours far beyond the payload
    let mut payload = area_payload(&[], &[], &[edge(1, 2, 3, 0)]);
    payload[32..36].copy_from_slice(&u32::MAX.to_le_bytes());
    let data = stream(&[feature(42), record(82, &payload)]);
    assert_eq!(ChartFile::parse_file(&data).unwrap_err(), DecodeError::TruncatedStream);
}

#[test]
fn area_geometry_with_a_broken_edge_is_a_size_mismatch() {
    let mut payload = area_payload(&[9], &[primitive(4, &[(1.0, 2.0)])], &[edge(1, 2, 3, 0)]);
    payload.push(0);
    let data = stream(&[feature(42), record(82, &payload)]);
    assert_eq!(ChartFile::parse_file(&data).unwrap_err(), DecodeError::SizeMismatch);
    let mut payload = area_payload(&[], &[], &[edge(1, 2, 3, 0)]);
    payload.truncate(44 + 12);
    let data = stream(&[feature(42), record(82, &payload)]);
    assert_eq!(ChartFile::parse_file(&data).unwrap_err(), DecodeError::SizeMismatch);
}

#[test]
fn sounding_at_the_origin_keeps_its_depth() {
    let cell = Rect { top_left: position(54.0, 8.0), bottom_right: position(53.0, 9.0) };
    let data = stream(&[
        extent((54.0, 8.0), (53.0, 9.0)),
        feature(129),
        record(83, &multipoint_payload(1, &[(0.0, 0.0, 12.5)])),
    ]);
    let chart = ChartFile::parse_file(&data).unwrap();
    assert_eq!(chart.extent(), cell);
    let only = &chart.features()[0];
    assert_eq!(only.s57_type(), S57Type::SOUNDG);
    assert_eq!(
        only.multi_point_geometry(),
        &vec![PointGeometry {
            easting: 0.0f32.to_bits(),
            northing: 0.0f32.to_bits(),
            value: 12.5f32.to_bits(),
            reference: cell,
        }]
    );
    let sounding = only.multi_point_geometry()[0];
    assert_eq!(f32::from_bits(sounding.value) as f64, 12.5);
    assert_eq!(sounding.easting, 0);
    assert_eq!(sounding.northing, 0);
    assert_eq!(only.point_geometry(), None);
}

#[test]
fn soundings_keep_their_order_and_their_reference() {
    let early = Rect { top_left: position(0.0, 0.0), bottom_right: position(0.0, 0.0) };
    let late = Rect { top_left: position(2.0, 1.0), bottom_right: position(1.0, 2.0) };
    let data = stream(&[
        feature(129),
        record(83, &multipoint_payload(2, &[(1.0, 2.0, 3.0), (-4.0, -5.0, 6.5)])),
        extent((2.0, 1.0), (1.0, 2.0)),
        feature(129),
        record(83, &multipoint_payload(1, &[(7.0, 8.0, 9.0)])),
    ]);
    let chart = ChartFile::parse_file(&data).unwrap();
    let first = chart.features()[0].multi_point_geometry();
    assert_eq!(first.len(), 2);
    assert_eq!(
        first[0],
        PointGeometry {
            easting: 1.0f32.to_bits(),
            northing: 2.0f32.to_bits(),
            value: 3.0f32.to_bits(),
            reference: early,
        }
    );
    assert_eq!(
        first[1],
        PointGeometry {
            easting: (-4.0f32).to_bits(),
            northing: (-5.0f32).to_bits(),
            value: 6.5f32.to_bits(),
            reference: early,
        }
    );
    let second = chart.features()[1].multi_point_geometry();
    assert_eq!(second.len(), 1);
    assert_eq!(second[0].reference, late);
    assert_eq!(second[0].value, 9.0f32.to_bits());
}

#[test]
fn multipoint_reads_as_many_points_as_it_announces() {
    // bytes behind the announced points are not looked at
    let mut payload = multipoint_payload(1, &[(1.0, 2.0, 3.0), (4.0, 5.0, 6.0)]);
    payload.push(0xff);
    let data = stream(&[feature(129), record(83, &payload)]);
    let chart = ChartFile::parse_file(&data).unwrap();
    assert_eq!(chart.features()[0].multi_point_geometry().len(), 1);

    let data = stream(&[feature(129), record(83, &multipoint_payload(0, &[]))]);
    let chart = ChartFile::parse_file(&data).unwrap();
    assert!(chart.features()[0].multi_point_geometry().is_empty());
}

#[test]
fn multipoint_cut_short_is_truncated() {
    let data = stream(&[feature(129), record(83, &vec![0u8; 35])]);
    assert_eq!(ChartFile::parse_file(&data).unwrap_err(), DecodeError::TruncatedStream);
    let data = stream(&[feature(129), record(83, &multipoint_payload(2, &[(1.0, 2.0, 3.0)]))]);
    assert_eq!(ChartFile::parse_file(&data).unwrap_err(), DecodeError::TruncatedStream);
    let mut payload = multipoint_payload(1, &[(1.0, 2.0, 3.0)]);
    payload.pop();
    let data = stream(&[feature(129), record(83, &payload)]);
    assert_eq!(ChartFile::parse_file(&data).unwrap_err(), DecodeError::TruncatedStream);
    let data = stream(&[feature(129), record(83, &multipoint_payload(u32::MAX, &[(1.0, 2.0, 3.0)]))]);
    assert_eq!(ChartFile::parse_file(&data).unwrap_err(), DecodeError::TruncatedStream);
}

#[test]
fn geometry_of_one_kind_leaves_the_others() {
    let data = stream(&[
        feature(42),
        point(1.0, 2.0),
        line(&[edge(1, 2, 3, 0)]),
        record(82, &area_payload(&[], &[], &[edge(4, 5, 6, 1)])),
        record(83, &multipoint_payload(1, &[(1.0, 2.0, 3.0)])),
        point(5.0, 6.0),
    ]);
    let chart = ChartFile::parse_file(&data).unwrap();
    let only = &chart.features()[0];
    assert_eq!(only.point_geometry(), Some(&position(5.0, 6.0)));
    assert_eq!(only.line_elements(), &vec![element(1, 2, 3, Direction::Forward)]);
    assert_eq!(only.polygon_line_elements(), &vec![element(4, 5, 6, Direction::Reverse)]);
    assert_eq!(only.multi_point_geometry().len(), 1);
}

#[test]
fn unknown_record_ends_decoding_without_error() {
    let data = stream(&[
        version(201),
        record(2, b"TEST"),
        feature(42),
        record(999, &[1, 2, 3]),
        feature(75),
        record(2, b"LATER"),
        version(1),
    ]);
    let chart = ChartFile::parse_file(&data).unwrap();
    assert_eq!(chart.name(), "TEST");
    assert_eq!(chart.features().len(), 1);
    assert_eq!(chart.features()[0].s57_type(), S57Type::DEPARE);

    for unknown in [10u16, 63, 66, 79, 87, 95, 102, 199, 201, u16::MAX] {
        let data = stream(&[record(2, b"A"), header_only(unknown, 3), record(2, b"B")]);
        assert_eq!(ChartFile::parse_file(&data).unwrap().name(), "A");
    }
}

#[test]
fn end_marker_ends_decoding() {
    let data = stream(&[record(2, b"A"), record(0, &[]), record(2, b"B")]);
    assert_eq!(ChartFile::parse_file(&data).unwrap().name(), "A");
    let data = stream(&[record(2, b"A"), header_only(0, 0), version(1)]);
    assert_eq!(ChartFile::parse_file(&data).unwrap().name(), "A");
}

#[test]
fn incomplete_header_ends_decoding() {
    for left in 1usize..6 {
        let mut data = record(2, b"A");
        data.extend_from_slice(&version(1)[..left]);
        assert_eq!(ChartFile::parse_file(&data).unwrap().name(), "A");
    }
}

#[test]
fn payload_cut_short_is_truncated() {
    let mut data = record(2, b"NAME");
    data.pop();
    assert_eq!(ChartFile::parse_file(&data).unwrap_err(), DecodeError::TruncatedStream);
    let data = header_only(3, 1_000_000);
    assert_eq!(ChartFile::parse_file(&data).unwrap_err(), DecodeError::TruncatedStream);
    let data = header_only(65, u32::MAX);
    assert_eq!(ChartFile::parse_file(&data).unwrap_err(), DecodeError::TruncatedStream);
    let mut data = point(1.0, 2.0);
    data.truncate(10);
    assert_eq!(ChartFile::parse_file(&data).unwrap_err(), DecodeError::TruncatedStream);
}

#[test]
fn records_for_other_readers_are_passed_over() {
    let mut records = Vec::new();
    for skipped in [8u16, 84, 85, 86, 96, 97, 98, 99, 101] {
        records.push(record(skipped, &[0xff; 5]));
        records.push(record(skipped, &[]));
    }
    records.push(record(2, b"AFTER"));
    let chart = ChartFile::parse_file(&stream(&records)).unwrap();
    assert_eq!(chart.name(), "AFTER");
    assert_eq!(chart.features().len(), 0);
}

#[test]
fn passed_over_record_beyond_the_end_ends_decoding() {
    for skipped in [8u16, 84, 85, 86, 96, 97, 98, 99, 101] {
        let data = stream(&[record(2, b"A"), header_only(skipped, 100), vec![0u8; 10]]);
        assert_eq!(ChartFile::parse_file(&data).unwrap().name(), "A");
        let data = stream(&[record(2, b"A"), header_only(skipped, u32::MAX)]);
        assert_eq!(ChartFile::parse_file(&data).unwrap().name(), "A");
    }
}

#[test]
fn error_messages() {
    assert_eq!(DecodeError::MalformedHeader.message(), "Failed to parse header");
    assert_eq!(DecodeError::UnsupportedVersion.message(), "Unsupported Version");
    assert_eq!(DecodeError::ChartExpired.message(), "Chart expired");
    assert_eq!(DecodeError::SignatureFailure.message(), "Signature failure");
    assert_eq!(DecodeError::TruncatedStream.message(), "Truncated stream");
    assert_eq!(DecodeError::SizeMismatch.message(), "Size mismatch");
}
