//! Assembling coordinate sequences from directed edge references.
//!
//! The references of a feature come in no particular order. A single pass
//! sorts them into chains. A reference goes to the end of the first chain
//! that ends where it starts; where no chain does, it goes to the front of
//! the first chain that starts where it ends; where none does either, it
//! starts a chain of its own. Chains are never merged afterwards. Each chain
//! is then walked, collecting the positions of its nodes and edges.

use crate::s57::{ConnectedNode, Direction, LineElement, Position, VectorEdge};
use std::collections::HashMap;
use vstd::multiset::Multiset;
use vstd::prelude::*;

verus! {

broadcast use vstd::std_specs::hash::group_hash_axioms;

/// The contents of a vector of vectors.
pub open spec fn rows<T>(vectors: Seq<Vec<T>>) -> Seq<Seq<T>> {
    Seq::new(vectors.len(), |i: int| vectors[i]@)
}

/// Whether `element` starts where `chain` ends.
pub open spec fn follows(chain: Seq<LineElement>, element: LineElement) -> bool {
    element.start_connected_node == chain.last().end_connected_node
}

/// Whether `element` ends where `chain` starts.
pub open spec fn precedes(chain: Seq<LineElement>, element: LineElement) -> bool {
    element.end_connected_node == chain.first().start_connected_node
}

/// Whether `element` continues `chain`: behind its end where `at_end`
/// holds, before its front where it does not.
pub open spec fn continues(chain: Seq<LineElement>, element: LineElement, at_end: bool) -> bool {
    if at_end {
        follows(chain, element)
    } else {
        precedes(chain, element)
    }
}

/// The first chain, from index `from` on, that `element` continues at the
/// given side.
pub open spec fn first_chain(
    chains: Seq<Seq<LineElement>>,
    element: LineElement,
    at_end: bool,
    from: int,
) -> Option<int>
    decreases chains.len() - from,
{
    if from < 0 || from >= chains.len() {
        None
    } else if continues(chains[from], element, at_end) {
        Some(from)
    } else {
        first_chain(chains, element, at_end, from + 1)
    }
}

/// `chain` with `element` added at the given side.
pub open spec fn joined(chain: Seq<LineElement>, element: LineElement, at_end: bool) -> Seq<
    LineElement,
> {
    if at_end {
        chain.push(element)
    } else {
        chain.insert(0, element)
    }
}

/// The chains after `element` has been sorted in. Every chain is tried for
/// its end before any chain is tried for its front.
pub open spec fn place(chains: Seq<Seq<LineElement>>, element: LineElement) -> Seq<
    Seq<LineElement>,
> {
    match first_chain(chains, element, true, 0) {
        Some(i) => chains.update(i, joined(chains[i], element, true)),
        None => match first_chain(chains, element, false, 0) {
            Some(i) => chains.update(i, joined(chains[i], element, false)),
            None => chains.push(seq![element]),
        },
    }
}

/// The chains that the references form when they are sorted in one after
/// the other.
pub open spec fn stitch(elements: Seq<LineElement>) -> Seq<Seq<LineElement>>
    decreases elements.len(),
{
    if elements.len() == 0 {
        Seq::empty()
    } else {
        place(stitch(elements.drop_last()), elements.last())
    }
}

/// The position of a node, or nothing where the node is not known.
pub open spec fn node_points(connected_nodes: Map<u32, ConnectedNode>, node: u32) -> Seq<
    Position,
> {
    if connected_nodes.contains_key(node) {
        seq![connected_nodes[node]@]
    } else {
        Seq::empty()
    }
}

/// The interior points of the edge that `element` refers to, in the
/// direction of the reference; nothing where it refers to no edge or the
/// edge is not known.
pub open spec fn edge_points(vector_edges: Map<u32, VectorEdge>, element: LineElement) -> Seq<
    Position,
> {
    if element.edge_vector != 0 && vector_edges.contains_key(element.edge_vector) {
        match element.direction {
            Direction::Forward => vector_edges[element.edge_vector]@,
            Direction::Reverse => vector_edges[element.edge_vector]@.reverse(),
        }
    } else {
        Seq::empty()
    }
}

/// The positions along the elements of `chain`, each with its start node
/// and without its end node.
pub open spec fn passage(
    chain: Seq<LineElement>,
    vector_edges: Map<u32, VectorEdge>,
    connected_nodes: Map<u32, ConnectedNode>,
) -> Seq<Position>
    decreases chain.len(),
{
    if chain.len() == 0 {
        Seq::empty()
    } else {
        passage(chain.drop_last(), vector_edges, connected_nodes) + node_points(
            connected_nodes,
            chain.last().start_connected_node,
        ) + edge_points(vector_edges, chain.last())
    }
}

/// The coordinates of a chain: the positions along its elements, closed by
/// the end node of the last one. An empty chain has no coordinates.
pub open spec fn trace(
    chain: Seq<LineElement>,
    vector_edges: Map<u32, VectorEdge>,
    connected_nodes: Map<u32, ConnectedNode>,
) -> Seq<Position> {
    if chain.len() == 0 {
        Seq::empty()
    } else {
        passage(chain, vector_edges, connected_nodes) + node_points(
            connected_nodes,
            chain.last().end_connected_node,
        )
    }
}

/// The coordinate sequences of the references: one for each chain, in the
/// order in which the chains were started.
pub open spec fn assemble(
    elements: Seq<LineElement>,
    vector_edges: Map<u32, VectorEdge>,
    connected_nodes: Map<u32, ConnectedNode>,
) -> Seq<Seq<Position>> {
    Seq::new(
        stitch(elements).len(),
        |k: int| trace(stitch(elements)[k], vector_edges, connected_nodes),
    )
}

/// Whether each element of `chain` starts at the node where the one before
/// it ends.
pub open spec fn linked(chain: Seq<LineElement>) -> bool {
    forall|i: int, j: int|
        0 <= i && j == i + 1 && j < chain.len() ==> (#[trigger] chain[i]).end_connected_node == (
        #[trigger] chain[j]).start_connected_node
}

/// The elements of all chains together, each as often as it occurs.
pub open spec fn members(chains: Seq<Seq<LineElement>>) -> Multiset<LineElement>
    decreases chains.len(),
{
    if chains.len() == 0 {
        Multiset::empty()
    } else {
        members(chains.drop_last()).add(chains.last().to_multiset())
    }
}

proof fn lemma_first_chain_in_range(
    chains: Seq<Seq<LineElement>>,
    element: LineElement,
    at_end: bool,
    from: int,
)
    requires
        0 <= from,
    ensures
        match first_chain(chains, element, at_end, from) {
            Some(i) => from <= i < chains.len() && continues(chains[i], element, at_end),
            None => true,
        },
    decreases chains.len() - from,
{
    if from < chains.len() && !continues(chains[from], element, at_end) {
        lemma_first_chain_in_range(chains, element, at_end, from + 1);
    }
}

proof fn lemma_joined_adds_one(chain: Seq<LineElement>, element: LineElement, at_end: bool)
    ensures
        joined(chain, element, at_end).to_multiset() == chain.to_multiset().insert(element),
{
    broadcast use vstd::seq_lib::group_to_multiset_ensures;
    broadcast use vstd::multiset::group_multiset_axioms;

    if !at_end {
        let longer = chain.insert(0, element);
        assert(longer.remove(0) =~= chain);
        assert(longer[0] == element);
        assert(longer.contains(element));
        assert(longer.to_multiset() =~= chain.to_multiset().insert(element));
    }
    assert(joined(chain, element, at_end).to_multiset() =~= chain.to_multiset().insert(element));
}

/// A chain that holds together still does after an element that continues
/// it has joined it at that side.
proof fn lemma_joined_linked(chain: Seq<LineElement>, element: LineElement, at_end: bool)
    requires
        chain.len() > 0,
        linked(chain),
        continues(chain, element, at_end),
    ensures
        joined(chain, element, at_end).len() > 0,
        linked(joined(chain, element, at_end)),
{
    let longer = joined(chain, element, at_end);
    assert forall|n: int, m: int| 0 <= n && m == n + 1 && m < longer.len() implies (
    #[trigger] longer[n]).end_connected_node == (#[trigger] longer[m]).start_connected_node by {
        if at_end {
            if m < chain.len() {
                assert(longer[n] == chain[n] && longer[m] == chain[m]);
            }
        } else {
            if n > 0 {
                assert(longer[n] == chain[n - 1] && longer[m] == chain[m - 1]);
            }
        }
    }
}

proof fn lemma_members_update(
    chains: Seq<Seq<LineElement>>,
    i: int,
    chain: Seq<LineElement>,
    element: LineElement,
)
    requires
        0 <= i < chains.len(),
        chain.to_multiset() == chains[i].to_multiset().insert(element),
    ensures
        members(chains.update(i, chain)) == members(chains).insert(element),
    decreases chains.len(),
{
    broadcast use vstd::multiset::group_multiset_axioms;

    let updated = chains.update(i, chain);
    if i == chains.len() - 1 {
        assert(updated.drop_last() =~= chains.drop_last());
    } else {
        assert(updated.drop_last() =~= chains.drop_last().update(i, chain));
        lemma_members_update(chains.drop_last(), i, chain, element);
    }
    assert(members(updated) =~= members(chains).insert(element));
}

/// Stitching makes chains that hold together: none is empty, and in each
/// one every element starts at the node where the element before it ends.
pub proof fn lemma_stitch_linked(elements: Seq<LineElement>)
    ensures
        forall|k: int|
            0 <= k < stitch(elements).len() ==> (#[trigger] stitch(elements)[k]).len() > 0
                && linked(stitch(elements)[k]),
    decreases elements.len(),
{
    if elements.len() > 0 {
        let before = stitch(elements.drop_last());
        let element = elements.last();
        lemma_stitch_linked(elements.drop_last());
        lemma_first_chain_in_range(before, element, true, 0);
        lemma_first_chain_in_range(before, element, false, 0);
        match first_chain(before, element, true, 0) {
            Some(i) => {
                assert(before[i].len() > 0 && linked(before[i]));
                lemma_joined_linked(before[i], element, true);
            },
            None => match first_chain(before, element, false, 0) {
                Some(i) => {
                    assert(before[i].len() > 0 && linked(before[i]));
                    lemma_joined_linked(before[i], element, false);
                },
                None => {},
            },
        }
    }
}

/// Stitching neither drops nor repeats a reference: the chains together
/// hold exactly the elements that were given, each as often as it was
/// given.
pub proof fn lemma_stitch_keeps_elements(elements: Seq<LineElement>)
    ensures
        members(stitch(elements)) == elements.to_multiset(),
    decreases elements.len(),
{
    broadcast use vstd::seq_lib::group_to_multiset_ensures;
    broadcast use vstd::multiset::group_multiset_axioms;

    if elements.len() == 0 {
        assert(elements.to_multiset() =~= Multiset::<LineElement>::empty());
    } else {
        let before = stitch(elements.drop_last());
        let element = elements.last();
        lemma_stitch_keeps_elements(elements.drop_last());
        lemma_first_chain_in_range(before, element, true, 0);
        lemma_first_chain_in_range(before, element, false, 0);
        assert(elements.drop_last().push(element) =~= elements);
        match first_chain(before, element, true, 0) {
            Some(i) => {
                lemma_joined_adds_one(before[i], element, true);
                lemma_members_update(before, i, joined(before[i], element, true), element);
            },
            None => match first_chain(before, element, false, 0) {
                Some(i) => {
                    lemma_joined_adds_one(before[i], element, false);
                    lemma_members_update(before, i, joined(before[i], element, false), element);
                },
                None => {
                    assert(before.push(seq![element]).drop_last() =~= before);
                    assert(seq![element] =~= Seq::<LineElement>::empty().push(element));
                    assert(seq![element].to_multiset() =~= Multiset::<LineElement>::empty().insert(
                        element,
                    ));
                    assert(members(before.push(seq![element])) =~= members(before).insert(
                        element,
                    ));
                },
            },
        }
        assert(members(stitch(elements)) =~= elements.to_multiset());
    }
}

/// The first chain that `element` continues at the given side.
fn find_chain(chains: &Vec<Vec<LineElement>>, element: LineElement, at_end: bool) -> (found:
    Option<usize>)
    requires
        forall|k: int| 0 <= k < chains@.len() ==> (#[trigger] chains@[k])@.len() > 0,
    ensures
        match found {
            Some(i) => i < chains@.len() && first_chain(rows(chains@), element, at_end, 0) == Some(
                i as int,
            ),
            None => first_chain(rows(chains@), element, at_end, 0) is None,
        },
{
    let mut j: usize = 0;
    while j < chains.len()
        invariant
            j <= chains@.len(),
            forall|k: int| 0 <= k < chains@.len() ==> (#[trigger] chains@[k])@.len() > 0,
            first_chain(rows(chains@), element, at_end, 0) == first_chain(
                rows(chains@),
                element,
                at_end,
                j as int,
            ),
        decreases chains@.len() - j,
    {
        let chain = &chains[j];
        assert(chain@ == rows(chains@)[j as int]);
        let fits = if at_end {
            element.start_connected_node == chain[chain.len() - 1].end_connected_node
        } else {
            element.end_connected_node == chain[0].start_connected_node
        };
        if fits {
            return Some(j);
        }
        j += 1;
    }
    None
}

/// Sorts edge references into chains.
pub fn connect(line_elements: &[LineElement]) -> (chains: Vec<Vec<LineElement>>)
    ensures
        rows(chains@) == stitch(line_elements@),
        forall|k: int| 0 <= k < chains@.len() ==> (#[trigger] chains@[k])@.len() > 0,
{
    let mut chains: Vec<Vec<LineElement>> = Vec::new();
    let mut n: usize = 0;
    assert(rows(chains@) =~= stitch(line_elements@.take(0)));
    while n < line_elements.len()
        invariant
            n <= line_elements@.len(),
            rows(chains@) == stitch(line_elements@.take(n as int)),
            forall|k: int| 0 <= k < chains@.len() ==> (#[trigger] chains@[k])@.len() > 0,
        decreases line_elements@.len() - n,
    {
        let element = line_elements[n];
        let ghost before = rows(chains@);
        proof {
            let taken = line_elements@.take(n + 1);
            assert(taken.drop_last() =~= line_elements@.take(n as int));
            assert(taken.last() == element);
        }
        match find_chain(&chains, element, true) {
            Some(j) => {
                chains[j].push(element);
                assert(rows(chains@) =~= place(before, element));
            },
            None => match find_chain(&chains, element, false) {
                Some(j) => {
                    chains[j].insert(0, element);
                    assert(rows(chains@) =~= place(before, element));
                },
                None => {
                    let mut chain: Vec<LineElement> = Vec::new();
                    chain.push(element);
                    chains.push(chain);
                    assert(chain@ =~= seq![element]);
                    assert(rows(chains@) =~= place(before, element));
                },
            },
        }
        n += 1;
    }
    assert(line_elements@.take(n as int) =~= line_elements@);
    chains
}

/// Appends `points` to `geometry`, in stored order or backwards.
fn append_points(geometry: &mut Vec<Position>, points: &Vec<Position>, direction: Direction)
    ensures
        final(geometry)@ == old(geometry)@ + match direction {
            Direction::Forward => points@,
            Direction::Reverse => points@.reverse(),
        },
{
    let count: usize = points.len();
    let mut k: usize = 0;
    match direction {
        Direction::Forward => {
            while k < count
                invariant
                    count == points@.len(),
                    k <= count,
                    geometry@ == old(geometry)@ + points@.take(k as int),
                decreases count - k,
            {
                geometry.push(points[k]);
                assert(points@.take(k + 1) =~= points@.take(k as int).push(points@[k as int]));
                assert(geometry@ =~= old(geometry)@ + points@.take(k + 1));
                k += 1;
            }
            assert(points@.take(count as int) =~= points@);
        },
        Direction::Reverse => {
            while k < count
                invariant
                    count == points@.len(),
                    k <= count,
                    geometry@ == old(geometry)@ + points@.reverse().take(k as int),
                decreases count - k,
            {
                geometry.push(points[count - 1 - k]);
                assert(points@.reverse().take(k + 1) =~= points@.reverse().take(k as int).push(
                    points@[count - 1 - k],
                ));
                assert(geometry@ =~= old(geometry)@ + points@.reverse().take(k + 1));
                k += 1;
            }
            assert(points@.reverse().take(count as int) =~= points@.reverse());
        },
    }
}

/// Appends the position of `node` to `geometry` where the node is known.
fn append_node(
    geometry: &mut Vec<Position>,
    connected_nodes: &HashMap<u32, ConnectedNode>,
    node: u32,
)
    ensures
        final(geometry)@ == old(geometry)@ + node_points(connected_nodes@, node),
{
    match connected_nodes.get(&node) {
        Some(found) => {
            geometry.push(*found.position());
            assert(geometry@ =~= old(geometry)@ + node_points(connected_nodes@, node));
        },
        None => {
            assert(geometry@ =~= old(geometry)@ + node_points(connected_nodes@, node));
        },
    }
}

/// Walks a chain and gives its coordinates. A node or an edge that the
/// tables do not hold contributes nothing.
pub fn walk(
    chain: &[LineElement],
    vector_edges: &HashMap<u32, VectorEdge>,
    connected_nodes: &HashMap<u32, ConnectedNode>,
) -> (geometry: Vec<Position>)
    ensures
        geometry@ == trace(chain@, vector_edges@, connected_nodes@),
{
    let mut geometry: Vec<Position> = Vec::new();
    if chain.len() == 0 {
        return geometry;
    }
    let mut i: usize = 0;
    assert(geometry@ =~= passage(chain@.take(0), vector_edges@, connected_nodes@));
    while i < chain.len()
        invariant
            i <= chain@.len(),
            geometry@ == passage(chain@.take(i as int), vector_edges@, connected_nodes@),
        decreases chain@.len() - i,
    {
        let element = chain[i];
        let ghost so_far = geometry@;
        proof {
            let taken = chain@.take(i + 1);
            assert(taken.drop_last() =~= chain@.take(i as int));
            assert(taken.last() == element);
        }
        append_node(&mut geometry, connected_nodes, element.start_connected_node);
        if element.edge_vector != 0 {
            match vector_edges.get(&element.edge_vector) {
                Some(edge) => {
                    append_points(&mut geometry, edge.positions(), element.direction);
                },
                None => {},
            }
        }
        assert(geometry@ =~= so_far + node_points(
            connected_nodes@,
            element.start_connected_node,
        ) + edge_points(vector_edges@, element));
        i += 1;
    }
    assert(chain@.take(i as int) =~= chain@);
    append_node(&mut geometry, connected_nodes, chain[chain.len() - 1].end_connected_node);
    geometry
}

} // verus!
