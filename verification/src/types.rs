//! The fixed layouts of record headers and payloads.
//!
//! Every layout is packed and little-endian. A layout is decoded from the
//! front of a byte sequence that holds at least as many bytes as the layout
//! has; what follows them is not looked at. Doubles and singles are kept as
//! their bit patterns.

use crate::bytes::{le_u16, le_u32, le_u64, read_u16, read_u32, read_u64};
use crate::s57::{Direction, LineElement, Position};
use vstd::prelude::*;

verus! {

/// The header that starts every record: the record's type and its length in
/// bytes, the header included.
#[derive(Debug, Clone, Copy, PartialEq, Eq, Structural)]
pub struct OsencRecordBase {
    pub record_type: u16,
    pub record_len: u32,
}

impl OsencRecordBase {
    /// The number of bytes of the header.
    pub const SIZE: usize = 6;

    pub open spec fn spec_decode(bytes: Seq<u8>) -> Option<Self> {
        if bytes.len() < 6 {
            None
        } else {
            Some(
                Self {
                    record_type: le_u16(bytes, 0) as u16,
                    record_len: le_u32(bytes, 2) as u32,
                },
            )
        }
    }

    /// Decodes a header from the front of `bytes`; `None` where there are
    /// fewer than six bytes.
    pub fn decode(bytes: &[u8]) -> (header: Option<Self>)
        ensures
            header == Self::spec_decode(bytes@),
    {
        if bytes.len() < 6 {
            None
        } else {
            Some(Self { record_type: read_u16(bytes, 0), record_len: read_u32(bytes, 2) })
        }
    }

    pub fn get_record_type(&self) -> (record_type: u16)
        ensures
            record_type == self.record_type,
    {
        self.record_type
    }

    pub fn get_record_len(&self) -> (record_len: u32)
        ensures
            record_len == self.record_len,
    {
        self.record_len
    }
}

/// What the chart server says of the cell. A status of 0 in
/// `expire_status` or `decrypt_status` means failure.
#[derive(Debug, Clone, Copy, PartialEq, Eq, Structural)]
pub struct OsencServerstatRecordPayload {
    pub server_status: u16,
    pub decrypt_status: u16,
    pub expire_status: u16,
    pub expire_days_remaining: u16,
    pub grace_days_allowed: u16,
    pub grace_days_remaining: u16,
}

impl OsencServerstatRecordPayload {
    /// The number of bytes of the payload.
    pub const SIZE: usize = 12;

    pub open spec fn spec_decode(bytes: Seq<u8>) -> Option<Self> {
        if bytes.len() < 12 {
            None
        } else {
            Some(
                Self {
                    server_status: le_u16(bytes, 0) as u16,
                    decrypt_status: le_u16(bytes, 2) as u16,
                    expire_status: le_u16(bytes, 4) as u16,
                    expire_days_remaining: le_u16(bytes, 6) as u16,
                    grace_days_allowed: le_u16(bytes, 8) as u16,
                    grace_days_remaining: le_u16(bytes, 10) as u16,
                },
            )
        }
    }

    /// Decodes the payload from the front of `bytes`; `None` where there
    /// are fewer than twelve bytes.
    pub fn decode(bytes: &[u8]) -> (payload: Option<Self>)
        ensures
            payload == Self::spec_decode(bytes@),
    {
        if bytes.len() < 12 {
            None
        } else {
            Some(
                Self {
                    server_status: read_u16(bytes, 0),
                    decrypt_status: read_u16(bytes, 2),
                    expire_status: read_u16(bytes, 4),
                    expire_days_remaining: read_u16(bytes, 6),
                    grace_days_allowed: read_u16(bytes, 8),
                    grace_days_remaining: read_u16(bytes, 10),
                },
            )
        }
    }

    pub fn get_server_status(&self) -> (status: u16)
        ensures
            status == self.server_status,
    {
        self.server_status
    }

    pub fn get_decrypt_status(&self) -> (status: u16)
        ensures
            status == self.decrypt_status,
    {
        self.decrypt_status
    }

    pub fn get_expire_status(&self) -> (status: u16)
        ensures
            status == self.expire_status,
    {
        self.expire_status
    }

    pub fn get_expire_days_remaining(&self) -> (days: u16)
        ensures
            days == self.expire_days_remaining,
    {
        self.expire_days_remaining
    }

    pub fn get_grace_days_allowed(&self) -> (days: u16)
        ensures
            days == self.grace_days_allowed,
    {
        self.grace_days_allowed
    }

    pub fn get_grace_days_remaining(&self) -> (days: u16)
        ensures
            days == self.grace_days_remaining,
    {
        self.grace_days_remaining
    }
}

/// The four corners of the cell, each a latitude and a longitude.
#[derive(Debug, Clone, Copy, PartialEq, Eq, Structural)]
pub struct OsencExtentRecordPayload {
    pub extent_sw_lat: u64,
    pub extent_sw_lon: u64,
    pub extent_nw_lat: u64,
    pub extent_nw_lon: u64,
    pub extent_ne_lat: u64,
    pub extent_ne_lon: u64,
    pub extent_se_lat: u64,
    pub extent_se_lon: u64,
}

impl OsencExtentRecordPayload {
    /// The number of bytes of the payload.
    pub const SIZE: usize = 64;

    pub open spec fn spec_decode(bytes: Seq<u8>) -> Option<Self> {
        if bytes.len() < 64 {
            None
        } else {
            Some(
                Self {
                    extent_sw_lat: le_u64(bytes, 0) as u64,
                    extent_sw_lon: le_u64(bytes, 8) as u64,
                    extent_nw_lat: le_u64(bytes, 16) as u64,
                    extent_nw_lon: le_u64(bytes, 24) as u64,
                    extent_ne_lat: le_u64(bytes, 32) as u64,
                    extent_ne_lon: le_u64(bytes, 40) as u64,
                    extent_se_lat: le_u64(bytes, 48) as u64,
                    extent_se_lon: le_u64(bytes, 56) as u64,
                },
            )
        }
    }

    /// Decodes the payload from the front of `bytes`; `None` where there
    /// are fewer than 64 bytes.
    pub fn decode(bytes: &[u8]) -> (payload: Option<Self>)
        ensures
            payload == Self::spec_decode(bytes@),
    {
        if bytes.len() < 64 {
            None
        } else {
            Some(
                Self {
                    extent_sw_lat: read_u64(bytes, 0),
                    extent_sw_lon: read_u64(bytes, 8),
                    extent_nw_lat: read_u64(bytes, 16),
                    extent_nw_lon: read_u64(bytes, 24),
                    extent_ne_lat: read_u64(bytes, 32),
                    extent_ne_lon: read_u64(bytes, 40),
                    extent_se_lat: read_u64(bytes, 48),
                    extent_se_lon: read_u64(bytes, 56),
                },
            )
        }
    }
}

/// What identifies a feature: the code of its class, its number, and the
/// kind of its geometry.
#[derive(Debug, Clone, Copy, PartialEq, Eq, Structural)]
pub struct OsencFeatureIdentificationRecordPayload {
    pub feature_type_code: u16,
    pub feature_id: u16,
    pub feature_primitive: u8,
}

impl OsencFeatureIdentificationRecordPayload {
    /// The number of bytes of the payload.
    pub const SIZE: usize = 5;

    pub open spec fn spec_decode(bytes: Seq<u8>) -> Option<Self> {
        if bytes.len() < 5 {
            None
        } else {
            Some(
                Self {
                    feature_type_code: le_u16(bytes, 0) as u16,
                    feature_id: le_u16(bytes, 2) as u16,
                    feature_primitive: bytes[4],
                },
            )
        }
    }

    /// Decodes the payload from the front of `bytes`; `None` where there
    /// are fewer than five bytes.
    pub fn decode(bytes: &[u8]) -> (payload: Option<Self>)
        ensures
            payload == Self::spec_decode(bytes@),
    {
        if bytes.len() < 5 {
            None
        } else {
            Some(
                Self {
                    feature_type_code: read_u16(bytes, 0),
                    feature_id: read_u16(bytes, 2),
                    feature_primitive: bytes[4],
                },
            )
        }
    }

    pub fn get_feature_type_code(&self) -> (code: u16)
        ensures
            code == self.feature_type_code,
    {
        self.feature_type_code
    }
}

/// The eight bytes that the attribute layout sets aside for a value, as one
/// little-endian integer. An integer value fills the low four of them, a
/// double all eight.
#[derive(Debug, Clone, Copy, PartialEq, Eq, Structural)]
pub struct OsencAttributeValue {
    pub raw: u64,
}

impl OsencAttributeValue {
    /// The value read as an unsigned 32-bit integer.
    pub fn get_int(&self) -> (value: u32)
        ensures
            value == self.raw % 0x1_0000_0000,
    {
        (self.raw % 0x1_0000_0000) as u32
    }

    /// The value read as the bit pattern of a double.
    pub fn get_double(&self) -> (bits: u64)
        ensures
            bits == self.raw,
    {
        self.raw
    }
}

/// An attribute of the current feature: the code of the attribute, the
/// kind of its value, and the value.
#[derive(Debug, Clone, Copy, PartialEq, Eq, Structural)]
pub struct OsencAttributeRecordPayload {
    pub attribute_type_code: u16,
    pub attribute_value_type: u8,
    pub attribute_value: OsencAttributeValue,
}

impl OsencAttributeRecordPayload {
    /// The number of bytes of the layout.
    pub const SIZE: usize = 11;

    /// The offset of the value: the size of the layout less the eight
    /// bytes that the value region takes. A text starts here whatever the
    /// length of its record.
    pub const VALUE_OFFSET: usize = 3;

    /// The value region of a record. Records are often shorter than the
    /// layout: the region is the eight bytes after the value's kind where
    /// the record has them, else the four bytes of an integer where it has
    /// those, else zero.
    pub open spec fn spec_value(bytes: Seq<u8>) -> int {
        if bytes.len() >= 11 {
            le_u64(bytes, 3)
        } else if bytes.len() >= 7 {
            le_u32(bytes, 3)
        } else {
            0
        }
    }

    pub open spec fn spec_decode(bytes: Seq<u8>) -> Option<Self> {
        if bytes.len() < 3 {
            None
        } else {
            Some(
                Self {
                    attribute_type_code: le_u16(bytes, 0) as u16,
                    attribute_value_type: bytes[2],
                    attribute_value: OsencAttributeValue { raw: Self::spec_value(bytes) as u64 },
                },
            )
        }
    }

    /// Decodes the record from the front of `bytes`; `None` where there are
    /// fewer than three bytes.
    pub fn decode(bytes: &[u8]) -> (payload: Option<Self>)
        ensures
            payload == Self::spec_decode(bytes@),
    {
        if bytes.len() < 3 {
            None
        } else {
            let raw: u64 = if bytes.len() >= 11 {
                read_u64(bytes, 3)
            } else if bytes.len() >= 7 {
                read_u32(bytes, 3) as u64
            } else {
                0
            };
            Some(
                Self {
                    attribute_type_code: read_u16(bytes, 0),
                    attribute_value_type: bytes[2],
                    attribute_value: OsencAttributeValue { raw },
                },
            )
        }
    }

    pub fn get_attribute_type_code(&self) -> (code: u16)
        ensures
            code == self.attribute_type_code,
    {
        self.attribute_type_code
    }

    pub fn get_attribute_value_type(&self) -> (kind: u8)
        ensures
            kind == self.attribute_value_type,
    {
        self.attribute_value_type
    }

    pub fn get_attribute_value(&self) -> (value: OsencAttributeValue)
        ensures
            value == self.attribute_value,
    {
        self.attribute_value
    }
}

/// The position of a point feature.
#[derive(Debug, Clone, Copy, PartialEq, Eq, Structural)]
pub struct OsencPointGeometryRecordPayload {
    pub lat: u64,
    pub lon: u64,
}

impl OsencPointGeometryRecordPayload {
    /// The number of bytes of the payload.
    pub const SIZE: usize = 16;

    pub open spec fn spec_decode(bytes: Seq<u8>) -> Option<Self> {
        if bytes.len() < 16 {
            None
        } else {
            Some(Self { lat: le_u64(bytes, 0) as u64, lon: le_u64(bytes, 8) as u64 })
        }
    }

    /// Decodes the payload from the front of `bytes`; `None` where there
    /// are fewer than 16 bytes.
    pub fn decode(bytes: &[u8]) -> (payload: Option<Self>)
        ensures
            payload == Self::spec_decode(bytes@),
    {
        if bytes.len() < 16 {
            None
        } else {
            Some(Self { lat: read_u64(bytes, 0), lon: read_u64(bytes, 8) })
        }
    }
}

impl From<OsencPointGeometryRecordPayload> for Position {
    fn from(payload: OsencPointGeometryRecordPayload) -> (position: Position) {
        Position { lat: payload.lat, lon: payload.lon }
    }
}

impl vstd::std_specs::convert::FromSpecImpl<OsencPointGeometryRecordPayload> for Position {
    open spec fn obeys_from_spec() -> bool {
        true
    }

    open spec fn from_spec(payload: OsencPointGeometryRecordPayload) -> Position {
        Position { lat: payload.lat, lon: payload.lon }
    }
}

/// What starts the payload of an area geometry: the bounds of the area and
/// the numbers of contours, of triangle primitives and of edge references.
#[derive(Debug, Clone, Copy, PartialEq, Eq, Structural)]
pub struct OsencAreaGeometryRecordPayload {
    pub extent_s_lat: u64,
    pub extent_n_lat: u64,
    pub extent_w_lon: u64,
    pub extent_e_lon: u64,
    pub contour_count: u32,
    pub triprim_count: u32,
    pub edgevector_count: u32,
}

impl OsencAreaGeometryRecordPayload {
    /// The number of bytes of the layout.
    pub const SIZE: usize = 44;

    pub open spec fn spec_decode(bytes: Seq<u8>) -> Option<Self> {
        if bytes.len() < 44 {
            None
        } else {
            Some(
                Self {
                    extent_s_lat: le_u64(bytes, 0) as u64,
                    extent_n_lat: le_u64(bytes, 8) as u64,
                    extent_w_lon: le_u64(bytes, 16) as u64,
                    extent_e_lon: le_u64(bytes, 24) as u64,
                    contour_count: le_u32(bytes, 32) as u32,
                    triprim_count: le_u32(bytes, 36) as u32,
                    edgevector_count: le_u32(bytes, 40) as u32,
                },
            )
        }
    }

    /// Decodes the layout from the front of `bytes`; `None` where there are
    /// fewer than 44 bytes.
    pub fn decode(bytes: &[u8]) -> (payload: Option<Self>)
        ensures
            payload == Self::spec_decode(bytes@),
    {
        if bytes.len() < 44 {
            None
        } else {
            Some(
                Self {
                    extent_s_lat: read_u64(bytes, 0),
                    extent_n_lat: read_u64(bytes, 8),
                    extent_w_lon: read_u64(bytes, 16),
                    extent_e_lon: read_u64(bytes, 24),
                    contour_count: read_u32(bytes, 32),
                    triprim_count: read_u32(bytes, 36),
                    edgevector_count: read_u32(bytes, 40),
                },
            )
        }
    }

    pub fn get_extent_s_lat(&self) -> (bits: u64)
        ensures
            bits == self.extent_s_lat,
    {
        self.extent_s_lat
    }

    pub fn get_extent_n_lat(&self) -> (bits: u64)
        ensures
            bits == self.extent_n_lat,
    {
        self.extent_n_lat
    }

    pub fn get_extent_w_lon(&self) -> (bits: u64)
        ensures
            bits == self.extent_w_lon,
    {
        self.extent_w_lon
    }

    pub fn get_extent_e_lon(&self) -> (bits: u64)
        ensures
            bits == self.extent_e_lon,
    {
        self.extent_e_lon
    }

    pub fn get_contour_count(&self) -> (count: u32)
        ensures
            count == self.contour_count,
    {
        self.contour_count
    }

    pub fn get_triprim_count(&self) -> (count: u32)
        ensures
            count == self.triprim_count,
    {
        self.triprim_count
    }

    pub fn get_edgevector_count(&self) -> (count: u32)
        ensures
            count == self.edgevector_count,
    {
        self.edgevector_count
    }
}

/// What starts the payload of a line geometry: the bounds of the line and
/// the number of edge references.
#[derive(Debug, Clone, Copy, PartialEq, Eq, Structural)]
pub struct OsencLineGeometryRecordPayload {
    pub extent_s_lat: u64,
    pub extent_n_lat: u64,
    pub extent_w_lon: u64,
    pub extent_e_lon: u64,
    pub edgevector_count: u32,
}

impl OsencLineGeometryRecordPayload {
    /// The number of bytes of the layout.
    pub const SIZE: usize = 36;

    pub open spec fn spec_decode(bytes: Seq<u8>) -> Option<Self> {
        if bytes.len() < 36 {
            None
        } else {
            Some(
                Self {
                    extent_s_lat: le_u64(bytes, 0) as u64,
                    extent_n_lat: le_u64(bytes, 8) as u64,
                    extent_w_lon: le_u64(bytes, 16) as u64,
                    extent_e_lon: le_u64(bytes, 24) as u64,
                    edgevector_count: le_u32(bytes, 32) as u32,
                },
            )
        }
    }

    /// Decodes the layout from the front of `bytes`; `None` where there are
    /// fewer than 36 bytes.
    pub fn decode(bytes: &[u8]) -> (payload: Option<Self>)
        ensures
            payload == Self::spec_decode(bytes@),
    {
        if bytes.len() < 36 {
            None
        } else {
            Some(
                Self {
                    extent_s_lat: read_u64(bytes, 0),
                    extent_n_lat: read_u64(bytes, 8),
                    extent_w_lon: read_u64(bytes, 16),
                    extent_e_lon: read_u64(bytes, 24),
                    edgevector_count: read_u32(bytes, 32),
                },
            )
        }
    }
}

/// What starts the payload of a multipoint geometry: the bounds of the
/// points and their number.
#[derive(Debug, Clone, Copy, PartialEq, Eq, Structural)]
pub struct OsencMultipointGeometryRecordPayload {
    pub extent_s_lat: u64,
    pub extent_n_lat: u64,
    pub extent_w_lon: u64,
    pub extent_e_lon: u64,
    pub point_count: u32,
}

impl OsencMultipointGeometryRecordPayload {
    /// The number of bytes of the layout.
    pub const SIZE: usize = 36;

    pub open spec fn spec_decode(bytes: Seq<u8>) -> Option<Self> {
        if bytes.len() < 36 {
            None
        } else {
            Some(
                Self {
                    extent_s_lat: le_u64(bytes, 0) as u64,
                    extent_n_lat: le_u64(bytes, 8) as u64,
                    extent_w_lon: le_u64(bytes, 16) as u64,
                    extent_e_lon: le_u64(bytes, 24) as u64,
                    point_count: le_u32(bytes, 32) as u32,
                },
            )
        }
    }

    /// Decodes the layout from the front of `bytes`; `None` where there are
    /// fewer than 36 bytes.
    pub fn decode(bytes: &[u8]) -> (payload: Option<Self>)
        ensures
            payload == Self::spec_decode(bytes@),
    {
        if bytes.len() < 36 {
            None
        } else {
            Some(
                Self {
                    extent_s_lat: read_u64(bytes, 0),
                    extent_n_lat: read_u64(bytes, 8),
                    extent_w_lon: read_u64(bytes, 16),
                    extent_e_lon: read_u64(bytes, 24),
                    point_count: read_u32(bytes, 32),
                },
            )
        }
    }
}

/// The number of bytes of one edge reference: three node and edge numbers
/// of four bytes each, and a four-byte word for the direction.
pub const LINE_ELEMENT_SIZE: usize = 16;

/// The edge reference whose sixteen bytes start at `offset`. The first byte
/// of the last word carries the direction: zero is forward, anything else
/// is reverse.
pub open spec fn spec_line_element(bytes: Seq<u8>, offset: int) -> LineElement {
    LineElement {
        start_connected_node: le_u32(bytes, offset) as u32,
        edge_vector: le_u32(bytes, offset + 4) as u32,
        end_connected_node: le_u32(bytes, offset + 8) as u32,
        direction: if bytes[offset + 12] == 0 {
            Direction::Forward
        } else {
            Direction::Reverse
        },
    }
}

/// Reads the edge reference at `offset`.
pub fn read_line_element(bytes: &[u8], offset: usize) -> (element: LineElement)
    requires
        offset + 16 <= bytes.len(),
    ensures
        element == spec_line_element(bytes@, offset as int),
{
    LineElement {
        start_connected_node: read_u32(bytes, offset),
        edge_vector: read_u32(bytes, offset + 4),
        end_connected_node: read_u32(bytes, offset + 8),
        direction: if bytes[offset + 12] == 0 {
            Direction::Forward
        } else {
            Direction::Reverse
        },
    }
}

} // verus!
