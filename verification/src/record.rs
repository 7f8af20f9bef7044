//! The records of a cell: their type codes, and what each payload decodes
//! to.

use crate::bytes::{le_u16, le_u32, le_u64, read_u16, read_u32};
use crate::error::DecodeError;
use crate::s57::{
    AttributeValue, AttributeValueView, LineElement, PointGeometry, Position, Rect,
};
use crate::s57_attribute::S57Attribute;
use crate::s57_type::S57Type;
use crate::text::{decode_terminated_text, decode_text, spec_decode_text, terminated_bytes};
use crate::types::{
    read_line_element, spec_line_element, OsencAreaGeometryRecordPayload,
    OsencAttributeRecordPayload, OsencExtentRecordPayload,
    OsencFeatureIdentificationRecordPayload, OsencMultipointGeometryRecordPayload,
    OsencPointGeometryRecordPayload, OsencServerstatRecordPayload,
};
use vstd::prelude::*;

verus! {

pub const HEADER_SENC_VERSION: u16 = 1;

pub const HEADER_CELL_NAME: u16 = 2;

pub const HEADER_CELL_PUBLISHDATE: u16 = 3;

pub const HEADER_CELL_EDITION: u16 = 4;

pub const HEADER_CELL_UPDATEDATE: u16 = 5;

pub const HEADER_CELL_UPDATE: u16 = 6;

pub const HEADER_CELL_NATIVESCALE: u16 = 7;

pub const HEADER_CELL_SENCCREATEDATE: u16 = 8;

pub const HEADER_CELL_SOUNDINGDATUM: u16 = 9;

pub const FEATURE_ID_RECORD: u16 = 64;

pub const FEATURE_ATTRIBUTE_RECORD: u16 = 65;

pub const FEATURE_GEOMETRY_RECORD_POINT: u16 = 80;

pub const FEATURE_GEOMETRY_RECORD_LINE: u16 = 81;

pub const FEATURE_GEOMETRY_RECORD_AREA: u16 = 82;

pub const FEATURE_GEOMETRY_RECORD_MULTIPOINT: u16 = 83;

pub const FEATURE_GEOMETRY_RECORD_AREA_EXT: u16 = 84;

pub const VECTOR_EDGE_NODE_TABLE_EXT_RECORD: u16 = 85;

pub const VECTOR_CONNECTED_NODE_TABLE_EXT_RECORD: u16 = 86;

pub const VECTOR_EDGE_NODE_TABLE_RECORD: u16 = 96;

pub const VECTOR_CONNECTED_NODE_TABLE_RECORD: u16 = 97;

pub const CELL_COVR_RECORD: u16 = 98;

pub const CELL_NOCOVR_RECORD: u16 = 99;

pub const CELL_EXTENT_RECORD: u16 = 100;

pub const CELL_TXTDSC_INFO_FILE_RECORD: u16 = 101;

pub const SERVER_STATUS_RECORD: u16 = 200;

/// The oldest encoder version whose cells are decoded.
pub const MINIMUM_SENC_VERSION: u16 = 201;

/// The kinds of attribute value that are decoded.
pub const ATTRIBUTE_VALUE_INT: u8 = 0;

pub const ATTRIBUTE_VALUE_DOUBLE: u8 = 2;

pub const ATTRIBUTE_VALUE_TEXT: u8 = 4;

/// Whether records of this type are passed over without being read: they
/// are in the cell for other readers.
pub open spec fn spec_is_skipped(record_type: u16) -> bool {
    ||| record_type == HEADER_CELL_SENCCREATEDATE
    ||| record_type == FEATURE_GEOMETRY_RECORD_AREA_EXT
    ||| record_type == VECTOR_EDGE_NODE_TABLE_EXT_RECORD
    ||| record_type == VECTOR_CONNECTED_NODE_TABLE_EXT_RECORD
    ||| record_type == VECTOR_EDGE_NODE_TABLE_RECORD
    ||| record_type == VECTOR_CONNECTED_NODE_TABLE_RECORD
    ||| record_type == CELL_COVR_RECORD
    ||| record_type == CELL_NOCOVR_RECORD
    ||| record_type == CELL_TXTDSC_INFO_FILE_RECORD
}

/// Whether the payload of records of this type is decoded.
pub open spec fn spec_is_decoded(record_type: u16) -> bool {
    ||| record_type == HEADER_SENC_VERSION
    ||| record_type == HEADER_CELL_NAME
    ||| record_type == HEADER_CELL_PUBLISHDATE
    ||| record_type == HEADER_CELL_EDITION
    ||| record_type == HEADER_CELL_UPDATEDATE
    ||| record_type == HEADER_CELL_UPDATE
    ||| record_type == HEADER_CELL_NATIVESCALE
    ||| record_type == HEADER_CELL_SOUNDINGDATUM
    ||| record_type == FEATURE_ID_RECORD
    ||| record_type == FEATURE_ATTRIBUTE_RECORD
    ||| record_type == FEATURE_GEOMETRY_RECORD_POINT
    ||| record_type == FEATURE_GEOMETRY_RECORD_LINE
    ||| record_type == FEATURE_GEOMETRY_RECORD_AREA
    ||| record_type == FEATURE_GEOMETRY_RECORD_MULTIPOINT
    ||| record_type == CELL_EXTENT_RECORD
    ||| record_type == SERVER_STATUS_RECORD
}

/// Whether this type is one that the decoder knows. Type 0 marks the end of
/// the data and is not among them.
pub open spec fn spec_is_recognized(record_type: u16) -> bool {
    spec_is_skipped(record_type) || spec_is_decoded(record_type)
}

/// The size of the payload of a record type whose payload has one size
/// only.
pub open spec fn spec_fixed_payload_size(record_type: u16) -> Option<u32> {
    if record_type == HEADER_SENC_VERSION {
        Some(2)
    } else if record_type == HEADER_CELL_EDITION {
        Some(2)
    } else if record_type == HEADER_CELL_UPDATE {
        Some(2)
    } else if record_type == HEADER_CELL_NATIVESCALE {
        Some(4)
    } else if record_type == CELL_EXTENT_RECORD {
        Some(64)
    } else if record_type == FEATURE_ID_RECORD {
        Some(5)
    } else if record_type == FEATURE_GEOMETRY_RECORD_POINT {
        Some(16)
    } else if record_type == SERVER_STATUS_RECORD {
        Some(12)
    } else {
        None
    }
}

#[verifier::when_used_as_spec(spec_is_skipped)]
pub fn is_skipped(record_type: u16) -> (skipped: bool)
    ensures
        skipped == spec_is_skipped(record_type),
{
    record_type == HEADER_CELL_SENCCREATEDATE || record_type == FEATURE_GEOMETRY_RECORD_AREA_EXT
        || record_type == VECTOR_EDGE_NODE_TABLE_EXT_RECORD || record_type
        == VECTOR_CONNECTED_NODE_TABLE_EXT_RECORD || record_type == VECTOR_EDGE_NODE_TABLE_RECORD
        || record_type == VECTOR_CONNECTED_NODE_TABLE_RECORD || record_type == CELL_COVR_RECORD
        || record_type == CELL_NOCOVR_RECORD || record_type == CELL_TXTDSC_INFO_FILE_RECORD
}

#[verifier::when_used_as_spec(spec_is_decoded)]
pub fn is_decoded(record_type: u16) -> (decoded: bool)
    ensures
        decoded == spec_is_decoded(record_type),
{
    record_type == HEADER_SENC_VERSION || record_type == HEADER_CELL_NAME || record_type
        == HEADER_CELL_PUBLISHDATE || record_type == HEADER_CELL_EDITION || record_type
        == HEADER_CELL_UPDATEDATE || record_type == HEADER_CELL_UPDATE || record_type
        == HEADER_CELL_NATIVESCALE || record_type == HEADER_CELL_SOUNDINGDATUM || record_type
        == FEATURE_ID_RECORD || record_type == FEATURE_ATTRIBUTE_RECORD || record_type
        == FEATURE_GEOMETRY_RECORD_POINT || record_type == FEATURE_GEOMETRY_RECORD_LINE
        || record_type == FEATURE_GEOMETRY_RECORD_AREA || record_type
        == FEATURE_GEOMETRY_RECORD_MULTIPOINT || record_type == CELL_EXTENT_RECORD || record_type
        == SERVER_STATUS_RECORD
}

#[verifier::when_used_as_spec(spec_fixed_payload_size)]
pub fn fixed_payload_size(record_type: u16) -> (size: Option<u32>)
    ensures
        size == spec_fixed_payload_size(record_type),
{
    if record_type == HEADER_SENC_VERSION || record_type == HEADER_CELL_EDITION || record_type
        == HEADER_CELL_UPDATE {
        Some(2)
    } else if record_type == HEADER_CELL_NATIVESCALE {
        Some(4)
    } else if record_type == CELL_EXTENT_RECORD {
        Some(64)
    } else if record_type == FEATURE_ID_RECORD {
        Some(5)
    } else if record_type == FEATURE_GEOMETRY_RECORD_POINT {
        Some(16)
    } else if record_type == SERVER_STATUS_RECORD {
        Some(12)
    } else {
        None
    }
}

/// What a record says, once its payload is decoded.
#[derive(Debug, Clone)]
pub enum Record {
    /// The record was checked or looked at and leaves nothing to keep.
    Nothing,
    CellName(String),
    PublishDate(String),
    UpdateDate(String),
    SoundingDatum(String),
    Edition(u16),
    Update(u16),
    NativeScale(u32),
    Extent(Rect),
    /// A new feature of this class begins.
    Feature(S57Type),
    /// The current feature has this attribute.
    Attribute(S57Attribute, AttributeValue),
    /// The current feature is a point at this position.
    PointGeometry(Position),
    /// The current feature is a line along these edges.
    LineGeometry(Vec<LineElement>),
    /// The current feature is an area bounded by these edges.
    AreaGeometry(Vec<LineElement>),
    /// The current feature is a set of soundings.
    MultipointGeometry(Vec<PointGeometry>),
}

/// What a [`Record`] holds.
pub enum RecordView {
    Nothing,
    CellName(Seq<char>),
    PublishDate(Seq<char>),
    UpdateDate(Seq<char>),
    SoundingDatum(Seq<char>),
    Edition(u16),
    Update(u16),
    NativeScale(u32),
    Extent(Rect),
    Feature(S57Type),
    Attribute(S57Attribute, AttributeValueView),
    PointGeometry(Position),
    LineGeometry(Seq<LineElement>),
    AreaGeometry(Seq<LineElement>),
    MultipointGeometry(Seq<PointGeometry>),
}

impl View for Record {
    type V = RecordView;

    open spec fn view(&self) -> RecordView {
        match self {
            Record::Nothing => RecordView::Nothing,
            Record::CellName(text) => RecordView::CellName(text@),
            Record::PublishDate(text) => RecordView::PublishDate(text@),
            Record::UpdateDate(text) => RecordView::UpdateDate(text@),
            Record::SoundingDatum(text) => RecordView::SoundingDatum(text@),
            Record::Edition(edition) => RecordView::Edition(*edition),
            Record::Update(update) => RecordView::Update(*update),
            Record::NativeScale(scale) => RecordView::NativeScale(*scale),
            Record::Extent(extent) => RecordView::Extent(*extent),
            Record::Feature(s57_type) => RecordView::Feature(*s57_type),
            Record::Attribute(attribute, value) => RecordView::Attribute(*attribute, value@),
            Record::PointGeometry(position) => RecordView::PointGeometry(*position),
            Record::LineGeometry(elements) => RecordView::LineGeometry(elements@),
            Record::AreaGeometry(elements) => RecordView::AreaGeometry(elements@),
            Record::MultipointGeometry(points) => RecordView::MultipointGeometry(points@),
        }
    }
}

/// Whether `decoded` is the outcome `expected`: the same error, or a record
/// that holds what is expected.
pub open spec fn decodes_to(
    decoded: Result<Record, DecodeError>,
    expected: Result<RecordView, DecodeError>,
) -> bool {
    match decoded {
        Ok(record) => expected == Ok::<RecordView, DecodeError>(record@),
        Err(error) => expected == Err::<RecordView, DecodeError>(error),
    }
}

/// A version record: the version must not be older than the oldest
/// supported one.
pub open spec fn spec_decode_version(payload: Seq<u8>) -> Result<RecordView, DecodeError> {
    if payload.len() != 2 {
        Err(DecodeError::MalformedHeader)
    } else if le_u16(payload, 0) < MINIMUM_SENC_VERSION {
        Err(DecodeError::UnsupportedVersion)
    } else {
        Ok(RecordView::Nothing)
    }
}

/// A server status record: the chart must not have expired, and its
/// signature must have been accepted.
pub open spec fn spec_decode_server_status(payload: Seq<u8>) -> Result<RecordView, DecodeError> {
    if payload.len() != 12 {
        Err(DecodeError::MalformedHeader)
    } else {
        let status = OsencServerstatRecordPayload::spec_decode(payload).unwrap();
        if status.expire_status == 0 {
            Err(DecodeError::ChartExpired)
        } else if status.decrypt_status == 0 {
            Err(DecodeError::SignatureFailure)
        } else {
            Ok(RecordView::Nothing)
        }
    }
}

/// An extent record: of the four corners, the north-west and the south-east
/// one are kept.
pub open spec fn spec_decode_extent(payload: Seq<u8>) -> Result<RecordView, DecodeError> {
    if payload.len() != 64 {
        Err(DecodeError::MalformedHeader)
    } else {
        let corners = OsencExtentRecordPayload::spec_decode(payload).unwrap();
        Ok(
            RecordView::Extent(
                Rect {
                    top_left: Position { lat: corners.extent_nw_lat, lon: corners.extent_nw_lon },
                    bottom_right: Position {
                        lat: corners.extent_se_lat,
                        lon: corners.extent_se_lon,
                    },
                },
            ),
        )
    }
}

/// A feature identification record: the class is looked up by its code.
pub open spec fn spec_decode_feature(payload: Seq<u8>) -> Result<RecordView, DecodeError> {
    if payload.len() != 5 {
        Err(DecodeError::MalformedHeader)
    } else {
        let identification = OsencFeatureIdentificationRecordPayload::spec_decode(
            payload,
        ).unwrap();
        Ok(
            RecordView::Feature(
                S57Type::spec_from_type_code(identification.feature_type_code as int),
            ),
        )
    }
}

/// A point geometry record.
pub open spec fn spec_decode_point(payload: Seq<u8>) -> Result<RecordView, DecodeError> {
    if payload.len() != 16 {
        Err(DecodeError::MalformedHeader)
    } else {
        let point = OsencPointGeometryRecordPayload::spec_decode(payload).unwrap();
        Ok(RecordView::PointGeometry(Position { lat: point.lat, lon: point.lon }))
    }
}

/// An attribute record. A code that names no attribute makes the record
/// void before anything else of it is looked at, and so does a kind of
/// value that is not decoded. An integer takes the four bytes after the
/// kind, a double the eight bytes after it. A text starts right after the
/// kind as well and runs to the first zero byte or to the end of the
/// payload; a text that is not well-formed UTF-8 makes the record void.
pub open spec fn spec_decode_attribute(payload: Seq<u8>) -> Result<RecordView, DecodeError> {
    if payload.len() < 3 {
        Err(DecodeError::TruncatedStream)
    } else {
        let attribute = S57Attribute::spec_from_type_code(le_u16(payload, 0));
        let kind = payload[2];
        if attribute == S57Attribute::Unknown {
            Ok(RecordView::Nothing)
        } else if kind == ATTRIBUTE_VALUE_INT {
            if payload.len() < 7 {
                Err(DecodeError::TruncatedStream)
            } else {
                Ok(
                    RecordView::Attribute(
                        attribute,
                        AttributeValueView::UInt32(le_u32(payload, 3) as u32),
                    ),
                )
            }
        } else if kind == ATTRIBUTE_VALUE_DOUBLE {
            if payload.len() < 11 {
                Err(DecodeError::TruncatedStream)
            } else {
                Ok(
                    RecordView::Attribute(
                        attribute,
                        AttributeValueView::Double(le_u64(payload, 3) as u64),
                    ),
                )
            }
        } else if kind == ATTRIBUTE_VALUE_TEXT {
            match spec_decode_text(terminated_bytes(payload, 3)) {
                Some(text) => Ok(
                    RecordView::Attribute(attribute, AttributeValueView::String(text)),
                ),
                None => Ok(RecordView::Nothing),
            }
        } else {
            Ok(RecordView::Nothing)
        }
    }
}

/// The edge references that fill `payload` from `from` to its end.
pub open spec fn spec_line_elements(payload: Seq<u8>, from: int) -> Seq<LineElement> {
    Seq::new(
        ((payload.len() - from) / 16) as nat,
        |i: int| spec_line_element(payload, from + 16 * i),
    )
}

/// A line geometry record: after the bounds and the count, edge references
/// to the end of the payload.
pub open spec fn spec_decode_line(payload: Seq<u8>) -> Result<RecordView, DecodeError> {
    if payload.len() < 36 {
        Err(DecodeError::TruncatedStream)
    } else if (payload.len() - 36) % 16 != 0 {
        Err(DecodeError::SizeMismatch)
    } else {
        Ok(RecordView::LineGeometry(spec_line_elements(payload, 36)))
    }
}

/// Where `count` triangle primitives that start at `from` end. A primitive
/// is one byte for its kind, four bytes for the number of its vertices, 32
/// bytes for its bounds, and eight bytes for each vertex. `None` where the
/// payload ends before the primitives do.
pub open spec fn spec_skip_primitives(payload: Seq<u8>, from: int, count: nat) -> Option<int>
    decreases count,
{
    if from > payload.len() {
        None
    } else if count == 0 {
        Some(from)
    } else if from + 5 > payload.len() {
        None
    } else {
        spec_skip_primitives(
            payload,
            from + 37 + 8 * le_u32(payload, from + 1),
            (count - 1) as nat,
        )
    }
}

/// An area geometry record: after the bounds and the counts come the
/// lengths of the contours, four bytes each, and the triangle primitives;
/// they are passed over. Edge references fill the rest of the payload.
pub open spec fn spec_decode_area(payload: Seq<u8>) -> Result<RecordView, DecodeError> {
    match OsencAreaGeometryRecordPayload::spec_decode(payload) {
        None => Err(DecodeError::TruncatedStream),
        Some(area) => match spec_skip_primitives(
            payload,
            44 + 4 * area.contour_count,
            area.triprim_count as nat,
        ) {
            None => Err(DecodeError::TruncatedStream),
            Some(from) => if (payload.len() - from) % 16 != 0 {
                Err(DecodeError::SizeMismatch)
            } else {
                Ok(RecordView::AreaGeometry(spec_line_elements(payload, from)))
            },
        },
    }
}

/// The sounding whose twelve bytes start at `offset`.
pub open spec fn spec_sounding(payload: Seq<u8>, offset: int, reference: Rect) -> PointGeometry {
    PointGeometry {
        easting: le_u32(payload, offset) as u32,
        northing: le_u32(payload, offset + 4) as u32,
        value: le_u32(payload, offset + 8) as u32,
        reference,
    }
}

/// A multipoint geometry record: after the bounds and the count, as many
/// soundings as the count says. Each one refers to `extent`, the extent of
/// the cell as it is known when the record is decoded.
pub open spec fn spec_decode_multipoint(payload: Seq<u8>, extent: Rect) -> Result<
    RecordView,
    DecodeError,
> {
    match OsencMultipointGeometryRecordPayload::spec_decode(payload) {
        None => Err(DecodeError::TruncatedStream),
        Some(head) => if 36 + 12 * head.point_count > payload.len() {
            Err(DecodeError::TruncatedStream)
        } else {
            Ok(
                RecordView::MultipointGeometry(
                    Seq::new(
                        head.point_count as nat,
                        |i: int| spec_sounding(payload, 36 + 12 * i, extent),
                    ),
                ),
            )
        },
    }
}

/// A text record whose bytes are not well-formed UTF-8 leaves nothing to
/// keep.
pub open spec fn spec_decode_text_record(
    payload: Seq<u8>,
    wrap: spec_fn(Seq<char>) -> RecordView,
) -> Result<RecordView, DecodeError> {
    match spec_decode_text(payload) {
        Some(text) => Ok(wrap(text)),
        None => Ok(RecordView::Nothing),
    }
}

/// What the payload of a record of the given type decodes to. Records of
/// the other types leave nothing to keep.
pub open spec fn spec_decode_record(record_type: u16, payload: Seq<u8>, extent: Rect) -> Result<
    RecordView,
    DecodeError,
> {
    if record_type == HEADER_SENC_VERSION {
        spec_decode_version(payload)
    } else if record_type == SERVER_STATUS_RECORD {
        spec_decode_server_status(payload)
    } else if record_type == HEADER_CELL_NAME {
        spec_decode_text_record(payload, |text: Seq<char>| RecordView::CellName(text))
    } else if record_type == HEADER_CELL_PUBLISHDATE {
        spec_decode_text_record(payload, |text: Seq<char>| RecordView::PublishDate(text))
    } else if record_type == HEADER_CELL_UPDATEDATE {
        spec_decode_text_record(payload, |text: Seq<char>| RecordView::UpdateDate(text))
    } else if record_type == HEADER_CELL_SOUNDINGDATUM {
        spec_decode_text_record(payload, |text: Seq<char>| RecordView::SoundingDatum(text))
    } else if record_type == HEADER_CELL_EDITION {
        if payload.len() != 2 {
            Err(DecodeError::MalformedHeader)
        } else {
            Ok(RecordView::Edition(le_u16(payload, 0) as u16))
        }
    } else if record_type == HEADER_CELL_UPDATE {
        if payload.len() != 2 {
            Err(DecodeError::MalformedHeader)
        } else {
            Ok(RecordView::Update(le_u16(payload, 0) as u16))
        }
    } else if record_type == HEADER_CELL_NATIVESCALE {
        if payload.len() != 4 {
            Err(DecodeError::MalformedHeader)
        } else {
            Ok(RecordView::NativeScale(le_u32(payload, 0) as u32))
        }
    } else if record_type == CELL_EXTENT_RECORD {
        spec_decode_extent(payload)
    } else if record_type == FEATURE_ID_RECORD {
        spec_decode_feature(payload)
    } else if record_type == FEATURE_ATTRIBUTE_RECORD {
        spec_decode_attribute(payload)
    } else if record_type == FEATURE_GEOMETRY_RECORD_POINT {
        spec_decode_point(payload)
    } else if record_type == FEATURE_GEOMETRY_RECORD_LINE {
        spec_decode_line(payload)
    } else if record_type == FEATURE_GEOMETRY_RECORD_AREA {
        spec_decode_area(payload)
    } else if record_type == FEATURE_GEOMETRY_RECORD_MULTIPOINT {
        spec_decode_multipoint(payload, extent)
    } else {
        Ok(RecordView::Nothing)
    }
}

/// Checks a version record.
pub fn decode_version(payload: &[u8]) -> (decoded: Result<Record, DecodeError>)
    ensures
        decodes_to(decoded, spec_decode_version(payload@)),
{
    if payload.len() != 2 {
        Err(DecodeError::MalformedHeader)
    } else if read_u16(payload, 0) < MINIMUM_SENC_VERSION {
        Err(DecodeError::UnsupportedVersion)
    } else {
        Ok(Record::Nothing)
    }
}

/// Checks a server status record.
pub fn decode_server_status(payload: &[u8]) -> (decoded: Result<Record, DecodeError>)
    ensures
        decodes_to(decoded, spec_decode_server_status(payload@)),
{
    if payload.len() != 12 {
        return Err(DecodeError::MalformedHeader);
    }
    match OsencServerstatRecordPayload::decode(payload) {
        None => Err(DecodeError::MalformedHeader),
        Some(status) => {
            if status.get_expire_status() == 0 {
                Err(DecodeError::ChartExpired)
            } else if status.get_decrypt_status() == 0 {
                Err(DecodeError::SignatureFailure)
            } else {
                Ok(Record::Nothing)
            }
        },
    }
}

/// Decodes an extent record.
pub fn decode_extent(payload: &[u8]) -> (decoded: Result<Record, DecodeError>)
    ensures
        decodes_to(decoded, spec_decode_extent(payload@)),
{
    if payload.len() != 64 {
        return Err(DecodeError::MalformedHeader);
    }
    match OsencExtentRecordPayload::decode(payload) {
        None => Err(DecodeError::MalformedHeader),
        Some(corners) => Ok(
            Record::Extent(
                Rect {
                    top_left: Position { lat: corners.extent_nw_lat, lon: corners.extent_nw_lon },
                    bottom_right: Position {
                        lat: corners.extent_se_lat,
                        lon: corners.extent_se_lon,
                    },
                },
            ),
        ),
    }
}

/// Decodes a feature identification record.
pub fn decode_feature(payload: &[u8]) -> (decoded: Result<Record, DecodeError>)
    ensures
        decodes_to(decoded, spec_decode_feature(payload@)),
{
    if payload.len() != 5 {
        return Err(DecodeError::MalformedHeader);
    }
    match OsencFeatureIdentificationRecordPayload::decode(payload) {
        None => Err(DecodeError::MalformedHeader),
        Some(identification) => Ok(
            Record::Feature(S57Type::from_type_code(identification.get_feature_type_code() as i32)),
        ),
    }
}

/// Decodes a point geometry record.
pub fn decode_point(payload: &[u8]) -> (decoded: Result<Record, DecodeError>)
    ensures
        decodes_to(decoded, spec_decode_point(payload@)),
{
    if payload.len() != 16 {
        return Err(DecodeError::MalformedHeader);
    }
    match OsencPointGeometryRecordPayload::decode(payload) {
        None => Err(DecodeError::MalformedHeader),
        Some(point) => Ok(Record::PointGeometry(Position::from(point))),
    }
}

/// Decodes an attribute record.
pub fn decode_attribute(payload: &[u8]) -> (decoded: Result<Record, DecodeError>)
    ensures
        decodes_to(decoded, spec_decode_attribute(payload@)),
{
    match OsencAttributeRecordPayload::decode(payload) {
        None => Err(DecodeError::TruncatedStream),
        Some(head) => {
            let attribute = S57Attribute::from_type_code(head.get_attribute_type_code() as i32);
            let kind = head.get_attribute_value_type();
            if attribute == S57Attribute::Unknown {
                Ok(Record::Nothing)
            } else if kind == ATTRIBUTE_VALUE_INT {
                if payload.len() < 7 {
                    Err(DecodeError::TruncatedStream)
                } else {
                    Ok(
                        Record::Attribute(
                            attribute,
                            AttributeValue::UInt32(head.get_attribute_value().get_int()),
                        ),
                    )
                }
            } else if kind == ATTRIBUTE_VALUE_DOUBLE {
                if payload.len() < 11 {
                    Err(DecodeError::TruncatedStream)
                } else {
                    Ok(
                        Record::Attribute(
                            attribute,
                            AttributeValue::Double(head.get_attribute_value().get_double()),
                        ),
                    )
                }
            } else if kind == ATTRIBUTE_VALUE_TEXT {
                match decode_terminated_text(payload, OsencAttributeRecordPayload::VALUE_OFFSET) {
                    Some(text) => Ok(Record::Attribute(attribute, AttributeValue::String(text))),
                    None => Ok(Record::Nothing),
                }
            } else {
                Ok(Record::Nothing)
            }
        },
    }
}

/// Reads the edge references that fill `payload` from `from` to its end.
fn read_line_elements(payload: &[u8], from: usize) -> (elements: Vec<LineElement>)
    requires
        from <= payload.len(),
        (payload.len() - from) % 16 == 0,
    ensures
        elements@ == spec_line_elements(payload@, from as int),
{
    let count: usize = (payload.len() - from) / 16;
    let mut elements: Vec<LineElement> = Vec::new();
    let mut i: usize = 0;
    while i < count
        invariant
            from <= payload.len(),
            count == (payload.len() - from) / 16,
            i <= count,
            elements@.len() == i,
            forall|k: int|
                0 <= k < i ==> elements@[k] == spec_line_element(payload@, from + 16 * k),
        decreases count - i,
    {
        elements.push(read_line_element(payload, from + 16 * i));
        i += 1;
    }
    assert(elements@ =~= spec_line_elements(payload@, from as int));
    elements
}

/// Decodes a line geometry record.
pub fn decode_line(payload: &[u8]) -> (decoded: Result<Record, DecodeError>)
    ensures
        decodes_to(decoded, spec_decode_line(payload@)),
{
    if payload.len() < 36 {
        Err(DecodeError::TruncatedStream)
    } else if (payload.len() - 36) % 16 != 0 {
        Err(DecodeError::SizeMismatch)
    } else {
        Ok(Record::LineGeometry(read_line_elements(payload, 36)))
    }
}

/// Passes over `count` triangle primitives that start at `from`, and gives
/// the offset at which they end.
fn skip_primitives(payload: &[u8], from: usize, count: u32) -> (end: Option<usize>)
    requires
        from <= payload.len(),
    ensures
        match end {
            Some(end) => end <= payload.len() && spec_skip_primitives(
                payload@,
                from as int,
                count as nat,
            ) == Some(end as int),
            None => spec_skip_primitives(payload@, from as int, count as nat) is None,
        },
{
    let mut at: usize = from;
    let mut left: u32 = count;
    while left > 0
        invariant
            at <= payload.len(),
            spec_skip_primitives(payload@, from as int, count as nat) == spec_skip_primitives(
                payload@,
                at as int,
                left as nat,
            ),
        decreases left,
    {
        if payload.len() - at < 5 {
            return None;
        }
        let vertices: u64 = read_u32(payload, at + 1) as u64;
        let size: u64 = 37 + 8 * vertices;
        if size > (payload.len() - at) as u64 {
            assert(spec_skip_primitives(payload@, at + size, (left - 1) as nat) is None);
            return None;
        }
        at = at + size as usize;
        left = left - 1;
    }
    Some(at)
}

/// Decodes an area geometry record.
pub fn decode_area(payload: &[u8]) -> (decoded: Result<Record, DecodeError>)
    ensures
        decodes_to(decoded, spec_decode_area(payload@)),
{
    match OsencAreaGeometryRecordPayload::decode(payload) {
        None => Err(DecodeError::TruncatedStream),
        Some(area) => {
            let contours: u64 = 44 + 4 * (area.get_contour_count() as u64);
            if contours > payload.len() as u64 {
                return Err(DecodeError::TruncatedStream);
            }
            match skip_primitives(payload, contours as usize, area.get_triprim_count()) {
                None => Err(DecodeError::TruncatedStream),
                Some(from) => {
                    if (payload.len() - from) % 16 != 0 {
                        Err(DecodeError::SizeMismatch)
                    } else {
                        Ok(Record::AreaGeometry(read_line_elements(payload, from)))
                    }
                },
            }
        },
    }
}

/// Decodes a multipoint geometry record. `extent` is the extent of the
/// cell as far as it is known.
pub fn decode_multipoint(payload: &[u8], extent: Rect) -> (decoded: Result<Record, DecodeError>)
    ensures
        decodes_to(decoded, spec_decode_multipoint(payload@, extent)),
{
    match OsencMultipointGeometryRecordPayload::decode(payload) {
        None => Err(DecodeError::TruncatedStream),
        Some(head) => {
            let count: u32 = head.point_count;
            if 36 + 12 * (count as u64) > payload.len() as u64 {
                return Err(DecodeError::TruncatedStream);
            }
            let mut points: Vec<PointGeometry> = Vec::new();
            let mut i: u32 = 0;
            while i < count
                invariant
                    36 + 12 * count <= payload.len(),
                    i <= count,
                    points@.len() == i,
                    forall|k: int|
                        0 <= k < i ==> points@[k] == spec_sounding(payload@, 36 + 12 * k, extent),
                decreases count - i,
            {
                let offset: usize = 36 + 12 * (i as usize);
                points.push(
                    PointGeometry {
                        easting: read_u32(payload, offset),
                        northing: read_u32(payload, offset + 4),
                        value: read_u32(payload, offset + 8),
                        reference: extent,
                    },
                );
                i += 1;
            }
            assert(points@ =~= Seq::new(
                count as nat,
                |i: int| spec_sounding(payload@, 36 + 12 * i, extent),
            ));
            Ok(Record::MultipointGeometry(points))
        },
    }
}

/// Decodes the payload of a record of the given type. `extent` is the
/// extent of the cell as far as it is known; soundings refer to it.
pub fn decode_record(record_type: u16, payload: &[u8], extent: Rect) -> (decoded: Result<
    Record,
    DecodeError,
>)
    ensures
        decodes_to(decoded, spec_decode_record(record_type, payload@, extent)),
{
    if record_type == HEADER_SENC_VERSION {
        decode_version(payload)
    } else if record_type == SERVER_STATUS_RECORD {
        decode_server_status(payload)
    } else if record_type == HEADER_CELL_NAME {
        match decode_text(payload) {
            Some(text) => Ok(Record::CellName(text)),
            None => Ok(Record::Nothing),
        }
    } else if record_type == HEADER_CELL_PUBLISHDATE {
        match decode_text(payload) {
            Some(text) => Ok(Record::PublishDate(text)),
            None => Ok(Record::Nothing),
        }
    } else if record_type == HEADER_CELL_UPDATEDATE {
        match decode_text(payload) {
            Some(text) => Ok(Record::UpdateDate(text)),
            None => Ok(Record::Nothing),
        }
    } else if record_type == HEADER_CELL_SOUNDINGDATUM {
        match decode_text(payload) {
            Some(text) => Ok(Record::SoundingDatum(text)),
            None => Ok(Record::Nothing),
        }
    } else if record_type == HEADER_CELL_EDITION {
        if payload.len() != 2 {
            Err(DecodeError::MalformedHeader)
        } else {
            Ok(Record::Edition(read_u16(payload, 0)))
        }
    } else if record_type == HEADER_CELL_UPDATE {
        if payload.len() != 2 {
            Err(DecodeError::MalformedHeader)
        } else {
            Ok(Record::Update(read_u16(payload, 0)))
        }
    } else if record_type == HEADER_CELL_NATIVESCALE {
        if payload.len() != 4 {
            Err(DecodeError::MalformedHeader)
        } else {
            Ok(Record::NativeScale(read_u32(payload, 0)))
        }
    } else if record_type == CELL_EXTENT_RECORD {
        decode_extent(payload)
    } else if record_type == FEATURE_ID_RECORD {
        decode_feature(payload)
    } else if record_type == FEATURE_ATTRIBUTE_RECORD {
        decode_attribute(payload)
    } else if record_type == FEATURE_GEOMETRY_RECORD_POINT {
        decode_point(payload)
    } else if record_type == FEATURE_GEOMETRY_RECORD_LINE {
        decode_line(payload)
    } else if record_type == FEATURE_GEOMETRY_RECORD_AREA {
        decode_area(payload)
    } else if record_type == FEATURE_GEOMETRY_RECORD_MULTIPOINT {
        decode_multipoint(payload, extent)
    } else {
        Ok(Record::Nothing)
    }
}

/// Of all records, only a version record can fail with
/// `UnsupportedVersion`, and it does so exactly when the version it
/// declares is below the oldest supported one.
pub proof fn lemma_unsupported_version_only_of_version(
    record_type: u16,
    payload: Seq<u8>,
    extent: Rect,
)
    ensures
        spec_decode_record(record_type, payload, extent) == Err::<RecordView, DecodeError>(
            DecodeError::UnsupportedVersion,
        ) <==> record_type == HEADER_SENC_VERSION && payload.len() == 2 && le_u16(payload, 0)
            < MINIMUM_SENC_VERSION,
{
}

/// Of all records, only a server status record can fail with `ChartExpired`
/// or with `SignatureFailure`: with the first exactly when its expiry
/// status is 0, with the second exactly when its expiry status is set and
/// its decryption status is 0.
pub proof fn lemma_server_status_decides(record_type: u16, payload: Seq<u8>, extent: Rect)
    ensures
        spec_decode_record(record_type, payload, extent) == Err::<RecordView, DecodeError>(
            DecodeError::ChartExpired,
        ) <==> record_type == SERVER_STATUS_RECORD && payload.len() == 12 && le_u16(payload, 4)
            == 0,
        spec_decode_record(record_type, payload, extent) == Err::<RecordView, DecodeError>(
            DecodeError::SignatureFailure,
        ) <==> record_type == SERVER_STATUS_RECORD && payload.len() == 12 && le_u16(payload, 4)
            != 0 && le_u16(payload, 2) == 0,
        record_type == SERVER_STATUS_RECORD && payload.len() == 12 && le_u16(payload, 4) != 0
            && le_u16(payload, 2) != 0 ==> spec_decode_record(record_type, payload, extent) == Ok::<
            RecordView,
            DecodeError,
        >(RecordView::Nothing),
{
}

} // verus!
