//! Chart features and the values they are made of.
//!
//! Coordinates and depths are carried as the bit patterns the cell stores:
//! 64 bits for a double, 32 bits for a single. Nothing here computes with
//! them.

use crate::geometry::{assemble, connect, rows, stitch, trace, walk};
use crate::s57_attribute::S57Attribute;
use crate::s57_type::S57Type;
use std::collections::HashMap;
use vstd::prelude::*;
use vstd::slice::slice_to_vec;
use vstd::std_specs::iter::IteratorSpec;

verus! {

broadcast use vstd::std_specs::hash::group_hash_axioms;

/// A geographic position in degrees. Each field is the bit pattern of a
/// double.
#[derive(Debug, Clone, Copy, PartialEq, Eq, Structural)]
pub struct Position {
    pub lat: u64,
    pub lon: u64,
}

/// The rectangle a cell covers. Its midpoint is the origin of the cell's
/// local projection.
#[derive(Debug, Clone, Copy, PartialEq, Eq, Structural)]
pub struct Rect {
    pub top_left: Position,
    pub bottom_right: Position,
}

/// Whether the points of an edge are taken in stored order or backwards.
#[derive(Debug, Clone, Copy, PartialEq, Eq, Structural)]
pub enum Direction {
    Forward,
    Reverse,
}

/// A directed reference to an edge between two connected nodes. An
/// `edge_vector` of 0 means that the two nodes are adjacent, with no edge
/// between them.
#[derive(Debug, Clone, Copy, PartialEq, Eq, Structural)]
pub struct LineElement {
    pub start_connected_node: u32,
    pub edge_vector: u32,
    pub end_connected_node: u32,
    pub direction: Direction,
}

/// A sounding as the cell stores it: easting, northing and depth, each the
/// bit pattern of a single, in the local projection whose origin is the
/// midpoint of `reference`.
#[derive(Debug, Clone, Copy, PartialEq, Eq, Structural)]
pub struct PointGeometry {
    pub easting: u32,
    pub northing: u32,
    pub value: u32,
    pub reference: Rect,
}

/// One assembled line string or polygon boundary.
pub type MultiGeometry = Vec<Position>;

/// The value of an attribute.
#[derive(Debug, Clone)]
pub enum AttributeValue {
    UInt32(u32),
    /// The bit pattern of a double.
    Double(u64),
    String(String),
}

/// What an [`AttributeValue`] holds.
pub enum AttributeValueView {
    UInt32(u32),
    Double(u64),
    String(Seq<char>),
}

impl View for AttributeValue {
    type V = AttributeValueView;

    open spec fn view(&self) -> AttributeValueView {
        match self {
            AttributeValue::UInt32(value) => AttributeValueView::UInt32(*value),
            AttributeValue::Double(bits) => AttributeValueView::Double(*bits),
            AttributeValue::String(text) => AttributeValueView::String(text@),
        }
    }
}

/// The interior points of an edge, in stored order.
#[derive(Debug, Clone)]
pub struct VectorEdge {
    points: Vec<Position>,
}

impl View for VectorEdge {
    type V = Seq<Position>;

    closed spec fn view(&self) -> Seq<Position> {
        self.points@
    }
}

/// The positions that a flat run of coordinates holds: each pair is a
/// longitude followed by a latitude, and an odd coordinate at the end is
/// left out.
pub open spec fn paired_positions(coordinates: Seq<u64>) -> Seq<Position> {
    Seq::new(
        coordinates.len() / 2,
        |i: int| (Position { lat: coordinates[2 * i + 1], lon: coordinates[2 * i] }),
    )
}

impl VectorEdge {
    /// An edge without points.
    pub fn new() -> (edge: Self)
        ensures
            edge@ == Seq::<Position>::empty(),
    {
        Self { points: Vec::new() }
    }

    /// Replaces the points of the edge.
    pub fn set_positions(&mut self, positions: Vec<Position>)
        ensures
            final(self)@ == positions@,
    {
        self.points = positions;
    }

    /// Appends the positions that `points` holds as (longitude, latitude)
    /// pairs of doubles.
    pub fn set_points(&mut self, points: &[u64])
        ensures
            final(self)@ == old(self)@ + paired_positions(points@),
    {
        let count: usize = points.len() / 2;
        let mut i: usize = 0;
        while i < count
            invariant
                count == points.len() / 2,
                i <= count,
                self.points@ == old(self).points@ + paired_positions(points@).take(i as int),
            decreases count - i,
        {
            self.points.push(Position { lat: points[i * 2 + 1], lon: points[i * 2] });
            proof {
                let all = paired_positions(points@);
                assert(all.take(i + 1) =~= all.take(i as int).push(all[i as int]));
                assert(self.points@ =~= old(self).points@ + all.take(i + 1));
            }
            i += 1;
        }
        assert(paired_positions(points@).take(count as int) =~= paired_positions(points@));
    }

    /// The points of the edge.
    pub fn positions(&self) -> (points: &Vec<Position>)
        ensures
            points@ == self@,
    {
        &self.points
    }
}

/// A node shared by the edges that meet in it.
#[derive(Debug, Clone)]
pub struct ConnectedNode {
    position: Position,
}

impl View for ConnectedNode {
    type V = Position;

    closed spec fn view(&self) -> Position {
        self.position
    }
}

impl ConnectedNode {
    pub fn new(position: Position) -> (node: Self)
        ensures
            node@ == position,
    {
        Self { position }
    }

    pub fn position(&self) -> (position: &Position)
        ensures
            *position == self@,
    {
        &self.position
    }
}

/// What a feature holds.
pub struct FeatureView {
    pub s57_type: S57Type,
    pub line_elements: Seq<LineElement>,
    pub polygon_line_elements: Seq<LineElement>,
    pub lines: Seq<Seq<Position>>,
    pub polygons: Seq<Seq<Position>>,
    pub multi_point_geometry: Seq<PointGeometry>,
    pub point_geometry: Option<Position>,
    pub attributes: Map<S57Attribute, AttributeValueView>,
}

impl FeatureView {
    /// A feature of the given class with no attribute and no geometry.
    pub open spec fn empty(s57_type: S57Type) -> FeatureView {
        FeatureView {
            s57_type,
            line_elements: Seq::empty(),
            polygon_line_elements: Seq::empty(),
            lines: Seq::empty(),
            polygons: Seq::empty(),
            multi_point_geometry: Seq::empty(),
            point_geometry: None,
            attributes: Map::empty(),
        }
    }

    /// The feature with `attribute` set to `value`, in place of any value it
    /// had.
    pub open spec fn with_attribute(
        self,
        attribute: S57Attribute,
        value: AttributeValueView,
    ) -> FeatureView {
        FeatureView { attributes: self.attributes.insert(attribute, value), ..self }
    }

    /// The feature with its line strings and polygon boundaries assembled
    /// from its edge references.
    pub open spec fn with_geometry(
        self,
        vector_edges: Map<u32, VectorEdge>,
        connected_nodes: Map<u32, ConnectedNode>,
    ) -> FeatureView {
        FeatureView {
            lines: assemble(self.line_elements, vector_edges, connected_nodes),
            polygons: assemble(self.polygon_line_elements, vector_edges, connected_nodes),
            ..self
        }
    }
}

/// One chart object: its class, its attributes and its geometry.
#[derive(Debug)]
pub struct S57 {
    s57_type: S57Type,
    line_elements: Vec<LineElement>,
    polygon_line_elements: Vec<LineElement>,
    lines: Vec<MultiGeometry>,
    polygons: Vec<MultiGeometry>,
    multi_point_geometry: Vec<PointGeometry>,
    point_geometry: Option<Position>,
    /// Keyed by the attribute's code.
    attributes: HashMap<i32, AttributeValue>,
}

impl View for S57 {
    type V = FeatureView;

    closed spec fn view(&self) -> FeatureView {
        FeatureView {
            s57_type: self.s57_type,
            line_elements: self.line_elements@,
            polygon_line_elements: self.polygon_line_elements@,
            lines: rows(self.lines@),
            polygons: rows(self.polygons@),
            multi_point_geometry: self.multi_point_geometry@,
            point_geometry: self.point_geometry,
            attributes: Map::new(
                |attribute: S57Attribute|
                    self.attributes@.contains_key(attribute.spec_type_code() as i32),
                |attribute: S57Attribute| self.attributes@[attribute.spec_type_code() as i32]@,
            ),
        }
    }
}

impl Clone for S57 {
    fn clone(&self) -> (copy: Self)
        ensures
            copy@ == self@,
    {
        proof {
            use_type_invariant(self);
        }
        let copy = Self {
            s57_type: self.s57_type,
            line_elements: self.line_elements.clone(),
            polygon_line_elements: self.polygon_line_elements.clone(),
            lines: self.lines.clone(),
            polygons: self.polygons.clone(),
            multi_point_geometry: self.multi_point_geometry.clone(),
            point_geometry: self.point_geometry,
            attributes: self.attributes.clone(),
        };
        proof {
            assert(copy.line_elements@ =~= self.line_elements@);
            assert(copy.polygon_line_elements@ =~= self.polygon_line_elements@);
            assert(copy.multi_point_geometry@ =~= self.multi_point_geometry@);
            assert forall|i: int| 0 <= i < self.lines@.len() implies copy.lines@[i]@
                == self.lines@[i]@ by {
                assert(copy.lines@[i]@ =~= self.lines@[i]@);
            }
            assert forall|i: int| 0 <= i < self.polygons@.len() implies copy.polygons@[i]@
                == self.polygons@[i]@ by {
                assert(copy.polygons@[i]@ =~= self.polygons@[i]@);
            }
            assert(copy@.lines =~= self@.lines);
            assert(copy@.polygons =~= self@.polygons);
            assert(copy@.attributes =~= self@.attributes);
        }
        copy
    }
}

impl S57 {
    /// Every key of the attribute map is the code of an attribute.
    #[verifier::type_invariant]
    spec fn keys_are_codes(self) -> bool {
        forall|key: i32| #[trigger]
            self.attributes@.contains_key(key) ==> S57Attribute::is_listed(key as int)
    }

    /// A feature of the given class with no attribute and no geometry.
    pub fn new(s57_type: S57Type) -> (feature: Self)
        ensures
            feature@ == FeatureView::empty(s57_type),
    {
        let feature = Self {
            s57_type,
            line_elements: Vec::new(),
            polygon_line_elements: Vec::new(),
            lines: Vec::new(),
            polygons: Vec::new(),
            multi_point_geometry: Vec::new(),
            point_geometry: None,
            attributes: HashMap::new(),
        };
        assert(feature@.lines =~= Seq::empty());
        assert(feature@.polygons =~= Seq::empty());
        assert(feature@.attributes =~= Map::empty());
        feature
    }

    /// A feature of the class that `type_code` stands for, `Unknown` where
    /// it stands for none, with no attribute and no geometry.
    pub fn from_type_code(type_code: i32) -> (feature: Self)
        ensures
            feature@ == FeatureView::empty(S57Type::spec_from_type_code(type_code as int)),
    {
        Self::new(S57Type::from_type_code(type_code))
    }

    /// Sets `attribute` to `value`. A value that the attribute had is
    /// replaced.
    pub fn set_attribute(&mut self, attribute: S57Attribute, value: AttributeValue)
        ensures
            final(self)@ == old(self)@.with_attribute(attribute, value@),
    {
        proof {
            use_type_invariant(&*self);
        }
        let key: i32 = attribute.type_code();
        let mut attributes: HashMap<i32, AttributeValue> = HashMap::new();
        std::mem::swap(&mut self.attributes, &mut attributes);
        attributes.insert(key, value);
        self.attributes = attributes;
        proof {
            assert(S57Attribute::is_listed(key as int));
            assert forall|other: S57Attribute|
                (other.spec_type_code() as i32 == key) == (other == attribute) by {
                if other.spec_type_code() as i32 == key {
                    S57Attribute::lemma_type_code_injective(other, attribute);
                }
            }
            assert(self@.attributes =~= old(self)@.attributes.insert(attribute, value@));
        }
    }

    /// The attributes that have a value, each once, in no particular order.
    pub fn attribute_list(&self) -> (list: Vec<S57Attribute>)
        ensures
            list@.no_duplicates(),
            list@.to_set() == self@.attributes.dom(),
    {
        proof {
            use_type_invariant(self);
        }
        let mut list: Vec<S57Attribute> = Vec::new();
        for key in keys: self.attributes.keys()
            invariant
                keys.seq() == self.attributes.keys().remaining(),
                list@.len() == keys.index(),
                forall|i: int|
                    0 <= i < list@.len() ==> (#[trigger] list@[i]).spec_type_code()
                        == *keys.seq()[i],
                forall|key: i32| #[trigger]
                    self.attributes@.contains_key(key) ==> S57Attribute::is_listed(key as int),
        {
            proof {
                let all = self.attributes.keys().remaining();
                assert(all.unref().to_set().contains(all.unref()[keys.index()]));
                S57Attribute::lemma_code_of_from_type_code(*key as int);
            }
            list.push(S57Attribute::from_type_code(*key));
        }
        proof {
            let all = self.attributes.keys().remaining();
            assert forall|i: int, j: int|
                0 <= i < list@.len() && 0 <= j < list@.len() && i != j implies list@[i]
                != list@[j] by {
                assert(all[i] != all[j]);
            }
            assert forall|attribute: S57Attribute|
                list@.to_set().contains(attribute) == self@.attributes.dom().contains(
                    attribute,
                ) by {
                let code = attribute.spec_type_code() as i32;
                if list@.to_set().contains(attribute) {
                    let i = choose|i: int| 0 <= i < list@.len() && list@[i] == attribute;
                    assert(all.unref()[i] == code);
                    assert(all.unref().to_set().contains(code));
                }
                if self.attributes@.contains_key(code) {
                    assert(all.unref().to_set().contains(code));
                    let i = choose|i: int| 0 <= i < all.len() && all.unref()[i] == code;
                    S57Attribute::lemma_type_code_injective(list@[i], attribute);
                }
            }
            assert(list@.to_set() =~= self@.attributes.dom());
        }
        list
    }

    /// The value of `attribute`, if it has one.
    pub fn attribute(&self, attribute: S57Attribute) -> (value: Option<&AttributeValue>)
        ensures
            value is Some == self@.attributes.contains_key(attribute),
            value is Some ==> value.unwrap()@ == self@.attributes[attribute],
    {
        let key: i32 = attribute.type_code();
        self.attributes.get(&key)
    }

    /// Assembles the line strings and the polygon boundaries of the feature
    /// from its edge references.
    pub fn build_geometry(
        &mut self,
        vector_edges: &HashMap<u32, VectorEdge>,
        connected_nodes: &HashMap<u32, ConnectedNode>,
    )
        ensures
            final(self)@ == old(self)@.with_geometry(vector_edges@, connected_nodes@),
    {
        proof {
            use_type_invariant(&*self);
        }
        self.lines = S57::build_geometries(
            self.line_elements.as_slice(),
            vector_edges,
            connected_nodes,
        );
        self.polygons = S57::build_geometries(
            self.polygon_line_elements.as_slice(),
            vector_edges,
            connected_nodes,
        );
    }

    /// Stores the edge references of the feature's line geometry.
    pub fn set_line_geometry(&mut self, elements: &[LineElement])
        ensures
            final(self)@ == (FeatureView { line_elements: elements@, ..old(self)@ }),
    {
        proof {
            use_type_invariant(&*self);
        }
        self.line_elements = slice_to_vec(elements);
    }

    /// Stores the edge references of the feature's polygon geometry.
    pub fn set_polygon_geometry(&mut self, elements: &[LineElement])
        ensures
            final(self)@ == (FeatureView { polygon_line_elements: elements@, ..old(self)@ }),
    {
        proof {
            use_type_invariant(&*self);
        }
        self.polygon_line_elements = slice_to_vec(elements);
    }

    /// Makes `position` the point geometry of the feature.
    pub fn set_point_geometry(&mut self, position: Position)
        ensures
            final(self)@ == (FeatureView { point_geometry: Some(position), ..old(self)@ }),
    {
        proof {
            use_type_invariant(&*self);
        }
        self.point_geometry = Some(position);
    }

    /// Makes `points` the soundings of the feature.
    pub fn set_multi_point_geometry(&mut self, points: Vec<PointGeometry>)
        ensures
            final(self)@ == (FeatureView { multi_point_geometry: points@, ..old(self)@ }),
    {
        proof {
            use_type_invariant(&*self);
        }
        self.multi_point_geometry = points;
    }

    /// The point geometry, if the feature has one.
    pub fn point_geometry(&self) -> (position: Option<&Position>)
        ensures
            position is Some == self@.point_geometry is Some,
            position is Some ==> *position.unwrap() == self@.point_geometry.unwrap(),
    {
        self.point_geometry.as_ref()
    }

    /// The soundings of the feature.
    pub fn multi_point_geometry(&self) -> (points: &Vec<PointGeometry>)
        ensures
            points@ == self@.multi_point_geometry,
    {
        &self.multi_point_geometry
    }

    /// The assembled polygon boundaries.
    pub fn polygons(&self) -> (polygons: &Vec<MultiGeometry>)
        ensures
            rows(polygons@) == self@.polygons,
    {
        &self.polygons
    }

    /// The assembled line strings.
    pub fn lines(&self) -> (lines: &Vec<MultiGeometry>)
        ensures
            rows(lines@) == self@.lines,
    {
        &self.lines
    }

    /// The edge references of the line geometry, as stored.
    pub fn line_elements(&self) -> (elements: &Vec<LineElement>)
        ensures
            elements@ == self@.line_elements,
    {
        &self.line_elements
    }

    /// The edge references of the polygon geometry, as stored.
    pub fn polygon_line_elements(&self) -> (elements: &Vec<LineElement>)
        ensures
            elements@ == self@.polygon_line_elements,
    {
        &self.polygon_line_elements
    }

    /// The class of the feature.
    pub fn s57_type(&self) -> (s57_type: S57Type)
        ensures
            s57_type == self@.s57_type,
    {
        self.s57_type
    }

    /// Stitches edge references into chains and gives the coordinates of
    /// each chain, in the order in which the chains were started.
    pub fn build_geometries(
        line_elements: &[LineElement],
        vector_edges: &HashMap<u32, VectorEdge>,
        connected_nodes: &HashMap<u32, ConnectedNode>,
    ) -> (geometries: Vec<MultiGeometry>)
        ensures
            rows(geometries@) == assemble(line_elements@, vector_edges@, connected_nodes@),
    {
        let line_strings = connect(line_elements);
        let mut geometries: Vec<MultiGeometry> = Vec::new();
        let mut i: usize = 0;
        while i < line_strings.len()
            invariant
                i <= line_strings@.len(),
                rows(line_strings@) == stitch(line_elements@),
                forall|k: int| 0 <= k < line_strings@.len() ==> line_strings@[k]@.len() > 0,
                geometries@.len() == i,
                forall|k: int|
                    0 <= k < i ==> (#[trigger] geometries@[k])@ == trace(
                        line_strings@[k]@,
                        vector_edges@,
                        connected_nodes@,
                    ),
            decreases line_strings@.len() - i,
        {
            let geometry = walk(line_strings[i].as_slice(), vector_edges, connected_nodes);
            geometries.push(geometry);
            i += 1;
        }
        assert(rows(geometries@) =~= assemble(line_elements@, vector_edges@, connected_nodes@));
        geometries
    }
}

/// Setting an attribute twice leaves the feature as if only the second
/// value had been set: the attribute has that one value, and nothing else
/// of the feature differs.
pub proof fn lemma_attribute_set_twice(
    feature: FeatureView,
    attribute: S57Attribute,
    first: AttributeValueView,
    second: AttributeValueView,
)
    ensures
        feature.with_attribute(attribute, first).with_attribute(attribute, second)
            == feature.with_attribute(attribute, second),
        feature.with_attribute(attribute, first).with_attribute(
            attribute,
            second,
        ).attributes[attribute] == second,
        feature.with_attribute(attribute, first).with_attribute(attribute, second).attributes.dom()
            == feature.attributes.dom().insert(attribute),
{
    let twice = feature.with_attribute(attribute, first).with_attribute(attribute, second);
    let once = feature.with_attribute(attribute, second);
    assert(twice.attributes =~= once.attributes);
    assert(twice.attributes.dom() =~= feature.attributes.dom().insert(attribute));
}

} // verus!
