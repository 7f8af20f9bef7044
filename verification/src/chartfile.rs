//! A decoded cell, and the decoder of the record stream.
//!
//! A cell is a flat sequence of records. Each record starts with a header of
//! six bytes, its type and its length, the header included, and goes on with
//! its payload. Decoding ends without an error where fewer than six bytes are
//! left, at the first header whose type the decoder does not know (type 0 is
//! the usual mark of the end), and where a record that is passed over unread
//! runs beyond the end of the data.

use crate::bytes::{le_u16, le_u32, lemma_le_subrange};
use crate::error::DecodeError;
use crate::record::{
    decode_record, fixed_payload_size, is_decoded, is_skipped, spec_decode_record,
    spec_fixed_payload_size, spec_is_decoded, spec_is_recognized, spec_is_skipped, Record,
    RecordView, FEATURE_ID_RECORD, HEADER_SENC_VERSION, MINIMUM_SENC_VERSION,
    SERVER_STATUS_RECORD,
};
use crate::s57::{AttributeValueView, FeatureView, Position, Rect, S57};
use crate::s57_attribute::S57Attribute;
use crate::s57_type::S57Type;
use crate::types::OsencRecordBase;
use vstd::prelude::*;
use vstd::slice::slice_subrange;

verus! {

/// What a [`ChartFile`] holds.
pub struct ChartView {
    pub extent: Rect,
    pub features: Seq<FeatureView>,
    pub name: Seq<char>,
    pub publishdate: Seq<char>,
    pub edition: u16,
    pub updatedate: Seq<char>,
    pub update: u16,
    pub nativescale: u32,
    pub soundingdatum: Seq<char>,
}

impl ChartView {
    /// A cell of which nothing is known yet: no feature, empty texts, and
    /// zero everywhere else.
    pub open spec fn empty() -> ChartView {
        ChartView {
            extent: Rect {
                top_left: Position { lat: 0, lon: 0 },
                bottom_right: Position { lat: 0, lon: 0 },
            },
            features: Seq::empty(),
            name: Seq::empty(),
            publishdate: Seq::empty(),
            edition: 0,
            updatedate: Seq::empty(),
            update: 0,
            nativescale: 0,
            soundingdatum: Seq::empty(),
        }
    }

    /// The cell with its current feature, the one identified last, replaced.
    /// A cell without features stays as it is.
    pub open spec fn with_current(self, feature: FeatureView) -> ChartView {
        if self.features.len() == 0 {
            self
        } else {
            ChartView { features: self.features.update(self.features.len() - 1, feature), ..self }
        }
    }

    /// The cell after a record has been taken in. Attributes and geometry
    /// go to the current feature; where there is none yet, they are dropped.
    pub open spec fn apply(self, record: RecordView) -> ChartView {
        match record {
            RecordView::Nothing => self,
            RecordView::CellName(text) => ChartView { name: text, ..self },
            RecordView::PublishDate(text) => ChartView { publishdate: text, ..self },
            RecordView::UpdateDate(text) => ChartView { updatedate: text, ..self },
            RecordView::SoundingDatum(text) => ChartView { soundingdatum: text, ..self },
            RecordView::Edition(edition) => ChartView { edition, ..self },
            RecordView::Update(update) => ChartView { update, ..self },
            RecordView::NativeScale(nativescale) => ChartView { nativescale, ..self },
            RecordView::Extent(extent) => ChartView { extent, ..self },
            RecordView::Feature(s57_type) => ChartView {
                features: self.features.push(FeatureView::empty(s57_type)),
                ..self
            },
            _ => self.with_current(feature_with(self.features.last(), record)),
        }
    }
}

/// Whether `record` is an attribute or a geometry, which belong to the
/// current feature.
pub open spec fn belongs_to_feature(record: RecordView) -> bool {
    match record {
        RecordView::Attribute(_, _) => true,
        RecordView::PointGeometry(_) => true,
        RecordView::LineGeometry(_) => true,
        RecordView::AreaGeometry(_) => true,
        RecordView::MultipointGeometry(_) => true,
        _ => false,
    }
}

/// The feature after it has taken in an attribute or a geometry. An
/// attribute replaces the value that the attribute had, a geometry the
/// geometry of its own kind; everything else of the feature stays. Other
/// records leave the feature as it is.
pub open spec fn feature_with(feature: FeatureView, record: RecordView) -> FeatureView {
    match record {
        RecordView::Attribute(attribute, value) => feature.with_attribute(attribute, value),
        RecordView::PointGeometry(position) => FeatureView {
            point_geometry: Some(position),
            ..feature
        },
        RecordView::LineGeometry(elements) => FeatureView { line_elements: elements, ..feature },
        RecordView::AreaGeometry(elements) => FeatureView {
            polygon_line_elements: elements,
            ..feature
        },
        RecordView::MultipointGeometry(points) => FeatureView {
            multi_point_geometry: points,
            ..feature
        },
        _ => feature,
    }
}

/// Whether a record of this type may declare this length. No record is
/// shorter than its header; a version record is shorter than 16 bytes and a
/// server status record shorter than 20; and a record whose payload has one
/// size only has exactly that size.
pub open spec fn spec_length_fits(record_type: u16, record_len: u32) -> bool {
    &&& record_len >= 6
    &&& record_type == HEADER_SENC_VERSION ==> record_len < 16
    &&& record_type == SERVER_STATUS_RECORD ==> record_len < 20
    &&& match spec_fixed_payload_size(record_type) {
        Some(size) => record_len - 6 == size,
        None => true,
    }
}

/// What the decoder comes to when it looks at offset `at` of the data.
pub enum Progress {
    /// Decoding is over, and the cell stands as it is.
    Done,
    /// Decoding fails.
    Failed(DecodeError),
    /// A record has been dealt with: decoding goes on at offset `at`, with
    /// the cell as the record has left it.
    Next { at: int, chart: ChartView },
}

/// One step of decoding, at offset `at`, with the cell as the records
/// before have left it.
///
/// Decoding is over where fewer than six bytes are left, at a header whose
/// type the decoder does not know, and where a record that is passed over
/// runs beyond the end of the data. A record that is decoded fails the
/// decoding where its length does not fit its type, where the data end
/// before it does, and where its payload does not decode.
pub open spec fn spec_step(data: Seq<u8>, at: int, chart: ChartView) -> Progress {
    if at < 0 || at + 6 > data.len() {
        Progress::Done
    } else {
        let record_type = le_u16(data, at) as u16;
        let record_len = le_u32(data, at + 2) as u32;
        let next = at + record_len;
        if !spec_is_recognized(record_type) {
            Progress::Done
        } else if record_len < 6 {
            Progress::Failed(DecodeError::MalformedHeader)
        } else if spec_is_skipped(record_type) {
            if next > data.len() {
                Progress::Done
            } else {
                Progress::Next { at: next, chart }
            }
        } else if !spec_length_fits(record_type, record_len) {
            Progress::Failed(DecodeError::MalformedHeader)
        } else if next > data.len() {
            Progress::Failed(DecodeError::TruncatedStream)
        } else {
            match spec_decode_record(record_type, data.subrange(at + 6, next), chart.extent) {
                Err(error) => Progress::Failed(error),
                Ok(record) => Progress::Next { at: next, chart: chart.apply(record) },
            }
        }
    }
}

/// What decoding makes of the records of `data` from offset `at` on, given
/// the cell as the records before them have left it.
pub open spec fn spec_parse_from(data: Seq<u8>, at: int, chart: ChartView) -> Result<
    ChartView,
    DecodeError,
>
    decreases data.len() - at,
{
    match spec_step(data, at, chart) {
        Progress::Done => Ok(chart),
        Progress::Failed(error) => Err(error),
        Progress::Next { at: next, chart: after } => spec_parse_from(data, next, after),
    }
}

/// The cell as it stands when decoding, begun at offset `from` with
/// `chart`, arrives at offset `at`; `None` where decoding is over or has
/// failed before it gets there, or steps over that offset.
pub open spec fn spec_state_at(data: Seq<u8>, from: int, chart: ChartView, at: int) -> Option<
    ChartView,
>
    decreases data.len() - from,
{
    if from == at {
        Some(chart)
    } else {
        match spec_step(data, from, chart) {
            Progress::Next { at: next, chart: after } => spec_state_at(data, next, after, at),
            _ => None,
        }
    }
}

/// What decoding makes of a whole cell.
pub open spec fn spec_parse(data: Seq<u8>) -> Result<ChartView, DecodeError> {
    spec_parse_from(data, 0, ChartView::empty())
}

/// A decoded cell: its extent, its features in the order of the stream, and
/// what its header records say of it.
#[derive(Debug, Clone)]
pub struct ChartFile {
    extent: Rect,
    s57: Vec<S57>,
    name: String,
    publishdate: String,
    edition: u16,
    updatedate: String,
    update: u16,
    nativescale: u32,
    soundingdatum: String,
}

impl View for ChartFile {
    type V = ChartView;

    closed spec fn view(&self) -> ChartView {
        ChartView {
            extent: self.extent,
            features: Seq::new(self.s57@.len(), |i: int| self.s57@[i]@),
            name: self.name@,
            publishdate: self.publishdate@,
            edition: self.edition,
            updatedate: self.updatedate@,
            update: self.update,
            nativescale: self.nativescale,
            soundingdatum: self.soundingdatum@,
        }
    }
}

impl ChartFile {
    /// A cell of which nothing is known yet.
    pub fn new() -> (chart: Self)
        ensures
            chart@ == ChartView::empty(),
    {
        let chart = Self {
            extent: Rect {
                top_left: Position { lat: 0, lon: 0 },
                bottom_right: Position { lat: 0, lon: 0 },
            },
            s57: Vec::new(),
            name: String::new(),
            publishdate: String::new(),
            edition: 0,
            updatedate: String::new(),
            update: 0,
            nativescale: 0,
            soundingdatum: String::new(),
        };
        assert(chart@.features =~= Seq::empty());
        chart
    }

    /// The rectangle that the cell covers.
    pub fn extent(&self) -> (extent: Rect)
        ensures
            extent == self@.extent,
    {
        self.extent
    }

    /// The features of the cell, in the order of the stream.
    pub fn features(&self) -> (features: &Vec<S57>)
        ensures
            features@.len() == self@.features.len(),
            forall|i: int|
                0 <= i < features@.len() ==> (#[trigger] features@[i])@ == self@.features[i],
    {
        &self.s57
    }

    pub fn name(&self) -> (name: &String)
        ensures
            name@ == self@.name,
    {
        &self.name
    }

    pub fn publishdate(&self) -> (date: &String)
        ensures
            date@ == self@.publishdate,
    {
        &self.publishdate
    }

    pub fn edition(&self) -> (edition: u16)
        ensures
            edition == self@.edition,
    {
        self.edition
    }

    pub fn updatedate(&self) -> (date: &String)
        ensures
            date@ == self@.updatedate,
    {
        &self.updatedate
    }

    pub fn update(&self) -> (update: u16)
        ensures
            update == self@.update,
    {
        self.update
    }

    pub fn nativescale(&self) -> (scale: u32)
        ensures
            scale == self@.nativescale,
    {
        self.nativescale
    }

    pub fn soundingdatum(&self) -> (datum: &String)
        ensures
            datum@ == self@.soundingdatum,
    {
        &self.soundingdatum
    }

    /// Takes a record into the cell.
    pub fn apply(&mut self, record: Record)
        ensures
            final(self)@ == old(self)@.apply(record@),
    {
        let count = self.s57.len();
        match record {
            Record::Nothing => {},
            Record::CellName(text) => {
                self.name = text;
            },
            Record::PublishDate(text) => {
                self.publishdate = text;
            },
            Record::UpdateDate(text) => {
                self.updatedate = text;
            },
            Record::SoundingDatum(text) => {
                self.soundingdatum = text;
            },
            Record::Edition(edition) => {
                self.edition = edition;
            },
            Record::Update(update) => {
                self.update = update;
            },
            Record::NativeScale(nativescale) => {
                self.nativescale = nativescale;
            },
            Record::Extent(extent) => {
                self.extent = extent;
            },
            Record::Feature(s57_type) => {
                self.s57.push(S57::new(s57_type));
            },
            Record::Attribute(attribute, value) => {
                if count > 0 {
                    self.s57[count - 1].set_attribute(attribute, value);
                }
            },
            Record::PointGeometry(position) => {
                if count > 0 {
                    self.s57[count - 1].set_point_geometry(position);
                }
            },
            Record::LineGeometry(elements) => {
                if count > 0 {
                    self.s57[count - 1].set_line_geometry(elements.as_slice());
                }
            },
            Record::AreaGeometry(elements) => {
                if count > 0 {
                    self.s57[count - 1].set_polygon_geometry(elements.as_slice());
                }
            },
            Record::MultipointGeometry(points) => {
                if count > 0 {
                    self.s57[count - 1].set_multi_point_geometry(points);
                }
            },
        }
        assert(self@.features =~= old(self)@.apply(record@).features);
    }

    /// Decodes a cell from its bytes.
    pub fn parse_file(data: &[u8]) -> (parsed: Result<ChartFile, DecodeError>)
        ensures
            match parsed {
                Ok(chart) => spec_parse(data@) == Ok::<ChartView, DecodeError>(chart@),
                Err(error) => spec_parse(data@) == Err::<ChartView, DecodeError>(error),
            },
    {
        let mut chart = ChartFile::new();
        let mut at: usize = 0;
        loop
            invariant
                at <= data.len(),
                spec_parse(data@) == spec_parse_from(data@, at as int, chart@),
            decreases data.len() - at,
        {
            let header = match OsencRecordBase::decode(slice_subrange(data, at, data.len())) {
                None => {
                    return Ok(chart);
                },
                Some(header) => header,
            };
            let record_type = header.get_record_type();
            let record_len = header.get_record_len();
            proof {
                lemma_le_subrange(data@, at as int, data@.len() as int, 0);
                lemma_le_subrange(data@, at as int, data@.len() as int, 2);
            }
            if !is_skipped(record_type) && !is_decoded(record_type) {
                return Ok(chart);
            }
            if record_len < 6 {
                return Err(DecodeError::MalformedHeader);
            }
            let left: usize = data.len() - at;
            if is_skipped(record_type) {
                if record_len as usize > left {
                    return Ok(chart);
                }
            } else {
                if !length_fits(record_type, record_len) {
                    return Err(DecodeError::MalformedHeader);
                }
                if record_len as usize > left {
                    return Err(DecodeError::TruncatedStream);
                }
                let payload = slice_subrange(data, at + 6, at + record_len as usize);
                match decode_record(record_type, payload, chart.extent) {
                    Err(error) => {
                        return Err(error);
                    },
                    Ok(record) => {
                        chart.apply(record);
                    },
                }
            }
            at = at + record_len as usize;
        }
    }
}

/// Whether a record of this type may declare this length.
#[verifier::when_used_as_spec(spec_length_fits)]
pub fn length_fits(record_type: u16, record_len: u32) -> (fits: bool)
    ensures
        fits == spec_length_fits(record_type, record_len),
{
    if record_len < 6 {
        return false;
    }
    if record_type == HEADER_SENC_VERSION && record_len >= 16 {
        return false;
    }
    if record_type == SERVER_STATUS_RECORD && record_len >= 20 {
        return false;
    }
    match fixed_payload_size(record_type) {
        Some(size) => record_len - 6 == size,
        None => true,
    }
}

/// Whether a record of the given type and length lies whole in `data` at
/// offset `at`.
pub open spec fn record_at(data: Seq<u8>, at: int, record_type: u16, record_len: u32) -> bool {
    &&& 0 <= at
    &&& record_len >= 6
    &&& at + record_len <= data.len()
    &&& le_u16(data, at) == record_type
    &&& le_u32(data, at + 2) == record_len
}

/// The payload of the record of length `record_len` at offset `at`.
pub open spec fn payload_at(data: Seq<u8>, at: int, record_len: u32) -> Seq<u8> {
    data.subrange(at + 6, at + record_len)
}

/// The cell after the records have been taken in, one after the other.
pub open spec fn apply_all(chart: ChartView, records: Seq<RecordView>) -> ChartView
    decreases records.len(),
{
    if records.len() == 0 {
        chart
    } else {
        apply_all(chart, records.drop_last()).apply(records.last())
    }
}

/// Decoding arrives only at offsets at or behind the one where it began.
pub proof fn lemma_state_at_order(data: Seq<u8>, from: int, chart: ChartView, at: int)
    requires
        spec_state_at(data, from, chart, at) is Some,
    ensures
        from <= at,
    decreases data.len() - from,
{
    if from != at {
        match spec_step(data, from, chart) {
            Progress::Next { at: next, chart: after } => {
                lemma_state_at_order(data, next, after, at);
            },
            _ => {},
        }
    }
}

/// Where decoding has arrived at an offset, what it makes of the data is
/// what it makes of them from that offset on, with the cell as it stands
/// there.
pub proof fn lemma_parse_resumes(data: Seq<u8>, from: int, chart: ChartView, at: int)
    requires
        spec_state_at(data, from, chart, at) is Some,
    ensures
        spec_parse_from(data, from, chart) == spec_parse_from(
            data,
            at,
            spec_state_at(data, from, chart, at).unwrap(),
        ),
    decreases data.len() - from,
{
    if from != at {
        match spec_step(data, from, chart) {
            Progress::Next { at: next, chart: after } => {
                lemma_parse_resumes(data, next, after, at);
            },
            _ => {},
        }
    }
}

/// Where decoding has arrived at an offset and the step there deals with a
/// record, decoding arrives behind that record, with the cell as the
/// record has left it.
pub proof fn lemma_state_advances(data: Seq<u8>, from: int, chart: ChartView, at: int)
    requires
        spec_state_at(data, from, chart, at) is Some,
        spec_step(data, at, spec_state_at(data, from, chart, at).unwrap()) is Next,
    ensures
        ({
            let step = spec_step(data, at, spec_state_at(data, from, chart, at).unwrap());
            spec_state_at(data, from, chart, step->Next_at) == Some(step->Next_chart)
        }),
    decreases data.len() - from,
{
    let step = spec_step(data, at, spec_state_at(data, from, chart, at).unwrap());
    let target = step->Next_at;
    assert(at < target);
    if from == at {
        assert(spec_state_at(data, target, step->Next_chart, target) == Some(step->Next_chart));
    } else {
        match spec_step(data, from, chart) {
            Progress::Next { at: next, chart: after } => {
                lemma_state_at_order(data, next, after, at);
                lemma_state_advances(data, next, after, at);
                assert(spec_state_at(data, from, chart, target) == spec_state_at(
                    data,
                    next,
                    after,
                    target,
                ));
            },
            _ => {},
        }
    }
}

/// How one decoded record moves the decoder on: a record that lies whole in
/// the data, whose type is decoded and whose length fits, either fails the
/// decoding with its own error or is taken into the cell, after which
/// decoding goes on behind it.
pub proof fn lemma_parse_step(
    data: Seq<u8>,
    at: int,
    chart: ChartView,
    record_type: u16,
    record_len: u32,
)
    requires
        record_at(data, at, record_type, record_len),
        spec_is_decoded(record_type),
        spec_length_fits(record_type, record_len),
    ensures
        spec_parse_from(data, at, chart) == match spec_decode_record(
            record_type,
            payload_at(data, at, record_len),
            chart.extent,
        ) {
            Err(error) => Err::<ChartView, DecodeError>(error),
            Ok(record) => spec_parse_from(data, at + record_len, chart.apply(record)),
        },
{
}

/// A version record that declares a version below the oldest supported one
/// fails the decoding with `UnsupportedVersion`, whatever comes after it;
/// one that declares a supported version changes nothing, and decoding
/// goes on behind it.
pub proof fn lemma_version_record(data: Seq<u8>, at: int, chart: ChartView)
    requires
        record_at(data, at, HEADER_SENC_VERSION, 8),
    ensures
        le_u16(data, at + 6) < MINIMUM_SENC_VERSION ==> spec_parse_from(data, at, chart) == Err::<
            ChartView,
            DecodeError,
        >(DecodeError::UnsupportedVersion),
        le_u16(data, at + 6) >= MINIMUM_SENC_VERSION ==> spec_parse_from(data, at, chart)
            == spec_parse_from(data, at + 8, chart),
{
    lemma_parse_step(data, at, chart, HEADER_SENC_VERSION, 8);
    lemma_le_subrange(data, at + 6, at + 8, 0);
}

/// Whether every version record at which decoding arrives declares a
/// supported version.
pub open spec fn versions_supported(data: Seq<u8>) -> bool {
    forall|at: int|
        (#[trigger] spec_state_at(data, 0, ChartView::empty(), at)) is Some && record_at(
            data,
            at,
            HEADER_SENC_VERSION,
            8,
        ) ==> le_u16(data, at + 6) >= MINIMUM_SENC_VERSION
}

proof fn lemma_supported_versions_from(data: Seq<u8>, at: int, chart: ChartView)
    requires
        versions_supported(data),
        spec_state_at(data, 0, ChartView::empty(), at) == Some(chart),
    ensures
        spec_parse_from(data, at, chart) != Err::<ChartView, DecodeError>(
            DecodeError::UnsupportedVersion,
        ),
    decreases data.len() - at,
{
    lemma_state_at_order(data, 0, ChartView::empty(), at);
    match spec_step(data, at, chart) {
        Progress::Done => {},
        Progress::Failed(error) => {
            if error == DecodeError::UnsupportedVersion {
                let record_type = le_u16(data, at) as u16;
                let record_len = le_u32(data, at + 2) as u32;
                crate::record::lemma_unsupported_version_only_of_version(
                    record_type,
                    data.subrange(at + 6, at + record_len),
                    chart.extent,
                );
                lemma_le_subrange(data, at + 6, at + 8, 0);
                assert(record_at(data, at, HEADER_SENC_VERSION, 8));
                assert(spec_state_at(data, 0, ChartView::empty(), at) is Some);
            }
        },
        Progress::Next { at: next, chart: after } => {
            lemma_state_advances(data, 0, ChartView::empty(), at);
            lemma_supported_versions_from(data, next, after);
        },
    }
}

/// A cell never fails with `UnsupportedVersion` where every version record
/// at which decoding arrives declares a supported version.
pub proof fn lemma_supported_versions_pass(data: Seq<u8>)
    requires
        versions_supported(data),
    ensures
        spec_parse(data) != Err::<ChartView, DecodeError>(DecodeError::UnsupportedVersion),
{
    lemma_supported_versions_from(data, 0, ChartView::empty());
}

/// A server status record whose expiry status is 0 fails the decoding with
/// `ChartExpired`; one whose expiry status is set and whose decryption
/// status is 0 fails it with `SignatureFailure`; one with both set changes
/// nothing, and decoding goes on behind it.
pub proof fn lemma_server_status_record(data: Seq<u8>, at: int, chart: ChartView)
    requires
        record_at(data, at, SERVER_STATUS_RECORD, 18),
    ensures
        ({
            let decrypt_status = le_u16(data, at + 8);
            let expire_status = le_u16(data, at + 10);
            spec_parse_from(data, at, chart) == if expire_status == 0 {
                Err::<ChartView, DecodeError>(DecodeError::ChartExpired)
            } else if decrypt_status == 0 {
                Err::<ChartView, DecodeError>(DecodeError::SignatureFailure)
            } else {
                spec_parse_from(data, at + 18, chart)
            }
        }),
{
    lemma_parse_step(data, at, chart, SERVER_STATUS_RECORD, 18);
    lemma_le_subrange(data, at + 6, at + 18, 2);
    lemma_le_subrange(data, at + 6, at + 18, 4);
}

/// A feature identification record adds exactly one feature, of the class
/// that its code stands for and with nothing else set, behind the features
/// that the cell has; decoding goes on behind the record.
pub proof fn lemma_feature_record(data: Seq<u8>, at: int, chart: ChartView)
    requires
        record_at(data, at, FEATURE_ID_RECORD, 11),
    ensures
        ({
            let added = chart.apply(
                RecordView::Feature(S57Type::spec_from_type_code(le_u16(data, at + 6))),
            );
            &&& added.features.len() == chart.features.len() + 1
            &&& added.features.drop_last() == chart.features
            &&& added.features.last() == FeatureView::empty(
                S57Type::spec_from_type_code(le_u16(data, at + 6)),
            )
            &&& spec_parse_from(data, at, chart) == spec_parse_from(data, at + 11, added)
        }),
{
    lemma_parse_step(data, at, chart, FEATURE_ID_RECORD, 11);
    lemma_le_subrange(data, at + 6, at + 11, 0);
    let added = chart.apply(
        RecordView::Feature(S57Type::spec_from_type_code(le_u16(data, at + 6))),
    );
    assert(added.features.drop_last() =~= chart.features);
}

/// An attribute or a geometry goes to the feature that was identified last
/// and to no other: the number of features stays, and so does every
/// feature before the last one; the last one takes the record in and keeps
/// its class.
pub proof fn lemma_record_goes_to_current(chart: ChartView, record: RecordView)
    requires
        belongs_to_feature(record),
    ensures
        chart.apply(record).features.len() == chart.features.len(),
        forall|i: int|
            0 <= i < chart.features.len() - 1 ==> chart.apply(record).features[i]
                == chart.features[i],
        chart.features.len() > 0 ==> chart.apply(record).features.last() == feature_with(
            chart.features.last(),
            record,
        ),
        chart.features.len() > 0 ==> chart.apply(record).features.last().s57_type
            == chart.features.last().s57_type,
{
}

/// After a feature has been identified, the attributes and geometries that
/// follow, however many, all go to it: the features that the cell had
/// before stay as they were, and the new one stays the last.
pub proof fn lemma_new_feature_is_target(
    chart: ChartView,
    s57_type: S57Type,
    records: Seq<RecordView>,
)
    requires
        forall|i: int| 0 <= i < records.len() ==> belongs_to_feature(#[trigger] records[i]),
    ensures
        ({
            let after = apply_all(chart.apply(RecordView::Feature(s57_type)), records);
            &&& after.features.len() == chart.features.len() + 1
            &&& after.features.drop_last() == chart.features
            &&& after.features.last().s57_type == s57_type
        }),
    decreases records.len(),
{
    let started = chart.apply(RecordView::Feature(s57_type));
    if records.len() == 0 {
        assert(started.features.drop_last() =~= chart.features);
    } else {
        lemma_new_feature_is_target(chart, s57_type, records.drop_last());
        let before = apply_all(started, records.drop_last());
        lemma_record_goes_to_current(before, records.last());
        assert(before.apply(records.last()).features.drop_last() =~= before.features.drop_last());
    }
}

/// Of two attribute records with the same attribute, the second one wins:
/// the current feature is left as if only the second had come, with that
/// one value for the attribute.
pub proof fn lemma_attribute_record_twice(
    chart: ChartView,
    attribute: S57Attribute,
    first: AttributeValueView,
    second: AttributeValueView,
)
    ensures
        chart.apply(RecordView::Attribute(attribute, first)).apply(
            RecordView::Attribute(attribute, second),
        ) == chart.apply(RecordView::Attribute(attribute, second)),
        chart.features.len() > 0 ==> chart.apply(RecordView::Attribute(attribute, first)).apply(
            RecordView::Attribute(attribute, second),
        ).features.last().attributes[attribute] == second,
{
    if chart.features.len() > 0 {
        let feature = chart.features.last();
        crate::s57::lemma_attribute_set_twice(feature, attribute, first, second);
        let once = chart.apply(RecordView::Attribute(attribute, first));
        let twice = once.apply(RecordView::Attribute(attribute, second));
        let direct = chart.apply(RecordView::Attribute(attribute, second));
        assert(twice.features =~= direct.features);
    }
}

/// A geometry of one kind leaves the geometries of the other kinds of the
/// current feature as they are: only a record of the same kind replaces a
/// geometry that is set.
pub proof fn lemma_geometry_kinds_apart(chart: ChartView, record: RecordView)
    requires
        chart.features.len() > 0,
    ensures
        ({
            let before = chart.features.last();
            let after = chart.apply(record).features[chart.features.len() - 1];
            &&& !(record is PointGeometry) ==> after.point_geometry == before.point_geometry
            &&& !(record is LineGeometry) ==> after.line_elements == before.line_elements
            &&& !(record is AreaGeometry) ==> after.polygon_line_elements
                == before.polygon_line_elements
            &&& !(record is MultipointGeometry) ==> after.multi_point_geometry
                == before.multi_point_geometry
        }),
{
}

/// A header whose type the decoder does not know ends the decoding, and
/// what has been decoded up to it is the result: there is no error.
pub proof fn lemma_unknown_record_ends(data: Seq<u8>, at: int, chart: ChartView)
    requires
        0 <= at,
        at + 6 <= data.len(),
        !spec_is_recognized(le_u16(data, at) as u16),
    ensures
        spec_parse_from(data, at, chart) == Ok::<ChartView, DecodeError>(chart),
{
}

/// A cell in which decoding arrives at a version record that declares a
/// version below the oldest supported one fails with `UnsupportedVersion`.
pub proof fn lemma_old_version_fails_cell(data: Seq<u8>, at: int)
    requires
        spec_state_at(data, 0, ChartView::empty(), at) is Some,
        record_at(data, at, HEADER_SENC_VERSION, 8),
        le_u16(data, at + 6) < MINIMUM_SENC_VERSION,
    ensures
        spec_parse(data) == Err::<ChartView, DecodeError>(DecodeError::UnsupportedVersion),
{
    lemma_parse_resumes(data, 0, ChartView::empty(), at);
    lemma_version_record(data, at, spec_state_at(data, 0, ChartView::empty(), at).unwrap());
}

/// A cell in which decoding arrives at a server status record fails with
/// `ChartExpired` where the expiry status of the record is 0, and with
/// `SignatureFailure` where that is set and the decryption status is 0.
/// Where both are set, decoding arrives behind the record with the cell
/// unchanged.
pub proof fn lemma_server_status_in_cell(data: Seq<u8>, at: int)
    requires
        spec_state_at(data, 0, ChartView::empty(), at) is Some,
        record_at(data, at, SERVER_STATUS_RECORD, 18),
    ensures
        le_u16(data, at + 10) == 0 ==> spec_parse(data) == Err::<ChartView, DecodeError>(
            DecodeError::ChartExpired,
        ),
        le_u16(data, at + 10) != 0 && le_u16(data, at + 8) == 0 ==> spec_parse(data) == Err::<
            ChartView,
            DecodeError,
        >(DecodeError::SignatureFailure),
        le_u16(data, at + 10) != 0 && le_u16(data, at + 8) != 0 ==> spec_state_at(
            data,
            0,
            ChartView::empty(),
            at + 18,
        ) == spec_state_at(data, 0, ChartView::empty(), at),
{
    let chart = spec_state_at(data, 0, ChartView::empty(), at).unwrap();
    lemma_parse_resumes(data, 0, ChartView::empty(), at);
    lemma_server_status_record(data, at, chart);
    lemma_le_subrange(data, at + 6, at + 18, 2);
    lemma_le_subrange(data, at + 6, at + 18, 4);
    if le_u16(data, at + 10) != 0 && le_u16(data, at + 8) != 0 {
        lemma_state_advances(data, 0, ChartView::empty(), at);
    }
}

/// A cell in which decoding arrives at a feature identification record has
/// one feature more behind the record than before it: the features before
/// it stay, and a feature of the class that the record's code stands for,
/// with nothing else set, comes last.
pub proof fn lemma_feature_record_in_cell(data: Seq<u8>, at: int)
    requires
        spec_state_at(data, 0, ChartView::empty(), at) is Some,
        record_at(data, at, FEATURE_ID_RECORD, 11),
    ensures
        ({
            let before = spec_state_at(data, 0, ChartView::empty(), at).unwrap();
            let after = spec_state_at(data, 0, ChartView::empty(), at + 11);
            &&& after == Some(
                before.apply(
                    RecordView::Feature(S57Type::spec_from_type_code(le_u16(data, at + 6))),
                ),
            )
            &&& after.unwrap().features.len() == before.features.len() + 1
            &&& after.unwrap().features.drop_last() == before.features
        }),
{
    let before = spec_state_at(data, 0, ChartView::empty(), at).unwrap();
    lemma_feature_record(data, at, before);
    lemma_le_subrange(data, at + 6, at + 11, 0);
    lemma_state_advances(data, 0, ChartView::empty(), at);
}

/// A cell in which decoding arrives at a header whose type the decoder
/// does not know decodes without error to the cell as it stands there,
/// whatever follows that header.
pub proof fn lemma_unknown_record_ends_cell(data: Seq<u8>, at: int)
    requires
        spec_state_at(data, 0, ChartView::empty(), at) is Some,
        at + 6 <= data.len(),
        !spec_is_recognized(le_u16(data, at) as u16),
    ensures
        spec_parse(data) == Ok::<ChartView, DecodeError>(
            spec_state_at(data, 0, ChartView::empty(), at).unwrap(),
        ),
{
    lemma_state_at_order(data, 0, ChartView::empty(), at);
    lemma_parse_resumes(data, 0, ChartView::empty(), at);
    lemma_unknown_record_ends(
        data,
        at,
        spec_state_at(data, 0, ChartView::empty(), at).unwrap(),
    );
}

} // verus!
