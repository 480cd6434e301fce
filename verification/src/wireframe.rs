//! Wireframe geometry of a triangle mesh: one instance of a thin edge template
//! per edge and one instance of a small vertex template per position.
//!
//! The builder never looks inside a position, so the position type `P` is a
//! parameter. An instance records the positions that fix its transform; the
//! renderer turns it into a matrix.
use vstd::prelude::*;

verus! {

/// A triangle mesh: a buffer of positions and a flat buffer of indices, read in
/// triples. Each triple names one triangle by three indices into `positions`,
/// in winding order.
#[derive(Debug)]
pub struct Mesh<P> {
    pub positions: Vec<P>,
    pub indices: Vec<u32>,
}

/// Placement of the edge template, a unit segment along the local X axis:
/// stretched along X to the distance between `from` and `to`, then turned by the
/// shortest arc that takes the X axis onto the direction from `from` to `to`,
/// then moved to `from`.
#[derive(Debug, PartialEq)]
pub struct EdgeInstance<P> {
    pub from: P,
    pub to: P,
}

impl<P: Copy> Clone for EdgeInstance<P> {
    fn clone(&self) -> (copy: Self)
        ensures
            copy == *self,
    {
        *self
    }
}

impl<P: Copy> Copy for EdgeInstance<P> {

}

/// Placement of the vertex template: moved to `at`, neither turned nor scaled.
#[derive(Debug, PartialEq)]
pub struct VertexInstance<P> {
    pub at: P,
}

impl<P: Copy> Clone for VertexInstance<P> {
    fn clone(&self) -> (copy: Self)
        ensures
            copy == *self,
    {
        *self
    }
}

impl<P: Copy> Copy for VertexInstance<P> {

}

/// The `k`-th directed edge of an index buffer. Triangle `k / 3` contributes the
/// edges number `3 * (k / 3)`, `+ 1` and `+ 2`: from its first corner to its
/// second, from its second to its third, and from its third back to its first.
pub open spec fn directed_edge(indices: Seq<u32>, k: int) -> (u32, u32) {
    let base = 3 * (k / 3);
    (indices[base + k % 3], indices[base + (k + 1) % 3])
}

/// Every directed edge of every complete triangle, triangle by triangle.
pub open spec fn directed_edges(indices: Seq<u32>) -> Seq<(u32, u32)> {
    Seq::new((3 * (indices.len() / 3)) as nat, |k: int| directed_edge(indices, k))
}

/// A directed edge is ascending when it runs from the lower index to the higher.
pub open spec fn ascending() -> spec_fn((u32, u32)) -> bool {
    |e: (u32, u32)| e.0 < e.1
}

/// The directed edges that get an instance: the ascending ones, in the order in
/// which the triangles visit them.
pub open spec fn emitted_edges(indices: Seq<u32>) -> Seq<(u32, u32)> {
    directed_edges(indices).filter(ascending())
}

/// The instance that spans one directed edge.
pub open spec fn span<P>(positions: Seq<P>) -> spec_fn((u32, u32)) -> EdgeInstance<P> {
    |e: (u32, u32)| EdgeInstance { from: positions[e.0 as int], to: positions[e.1 as int] }
}

/// The edge instances of a mesh: one per emitted edge, in the same order.
pub open spec fn edge_instances<P>(positions: Seq<P>, indices: Seq<u32>) -> Seq<EdgeInstance<P>> {
    emitted_edges(indices).map_values(span(positions))
}

/// The vertex instances of a mesh: one per position, in buffer order.
pub open spec fn vertex_instances<P>(positions: Seq<P>) -> Seq<VertexInstance<P>> {
    positions.map_values(|p: P| VertexInstance { at: p })
}

impl<P> Mesh<P> {
    /// The index buffer holds whole triangles only, and every index names a
    /// position.
    pub open spec fn well_formed(&self) -> bool {
        &&& self.indices@.len() % 3 == 0
        &&& forall|k: int|
            0 <= k < self.indices@.len() ==> (#[trigger] self.indices@[k] as int)
                < self.positions@.len()
    }

    /// Tests the mesh against the builder's input rules.
    pub fn is_well_formed(&self) -> (ok: bool)
        ensures
            ok == self.well_formed(),
    {
        if self.indices.len() % 3 != 0 {
            return false;
        }
        let count: usize = self.positions.len();
        let mut k: usize = 0;
        while k < self.indices.len()
            invariant
                k <= self.indices@.len(),
                count == self.positions@.len(),
                self.indices@.len() % 3 == 0,
                forall|j: int| 0 <= j < k ==> (#[trigger] self.indices@[j] as int) < count,
            decreases self.indices@.len() - k,
        {
            if self.indices[k] as usize >= count {
                return false;
            }
            k += 1;
        }
        true
    }
}

/// Extending the visited prefix of the directed edges by one edge appends that
/// edge's instance when the edge is ascending and changes nothing otherwise.
proof fn lemma_visit_one<P>(positions: Seq<P>, edges: Seq<(u32, u32)>, k: int)
    requires
        0 <= k < edges.len(),
    ensures
        edges.take(k + 1).filter(ascending()).map_values(span(positions)) == if edges[k].0
            < edges[k].1 {
            edges.take(k).filter(ascending()).map_values(span(positions)).push(
                span(positions)(edges[k]),
            )
        } else {
            edges.take(k).filter(ascending()).map_values(span(positions))
        },
{
    let seen = edges.take(k);
    edges.lemma_take_succ_push(k);
    seen.lemma_filter_push(edges[k], ascending());
    if edges[k].0 < edges[k].1 {
        seen.filter(ascending()).lemma_push_map_commute(span(positions), edges[k]);
    }
}

/// Builds the edge instances of a mesh. Each triangle's edges are visited as
/// the index pairs first to second, second to third, third to first, and a pair
/// gets an instance only if its first index is below its second, so that an
/// edge shared by two triangles of opposite winding is instanced once.
pub fn edge_transformations<P: Copy>(mesh: &Mesh<P>) -> (instances: Vec<EdgeInstance<P>>)
    requires
        mesh.well_formed(),
    ensures
        instances@ == edge_instances(mesh.positions@, mesh.indices@),
{
    let triangles: usize = mesh.indices.len() / 3;
    let ghost edges = directed_edges(mesh.indices@);
    let ghost positions = mesh.positions@;
    let mut instances: Vec<EdgeInstance<P>> = Vec::new();
    let mut f: usize = 0;
    while f < triangles
        invariant
            f <= triangles,
            3 * triangles <= mesh.indices.len(),
            edges.len() == 3 * triangles,
            mesh.well_formed(),
            edges == directed_edges(mesh.indices@),
            positions == mesh.positions@,
            instances@ == edges.take(3 * f).filter(ascending()).map_values(span(positions)),
        decreases triangles - f,
    {
        let i1: u32 = mesh.indices[3 * f];
        let i2: u32 = mesh.indices[3 * f + 1];
        let i3: u32 = mesh.indices[3 * f + 2];
        proof {
            assert(edges[3 * f] == (i1, i2));
            assert(edges[3 * f + 1] == (i2, i3));
            assert(edges[3 * f + 2] == (i3, i1));
            lemma_visit_one(positions, edges, 3 * f);
            lemma_visit_one(positions, edges, 3 * f + 1);
            lemma_visit_one(positions, edges, 3 * f + 2);
        }
        if i1 < i2 {
            instances.push(
                EdgeInstance { from: mesh.positions[i1 as usize], to: mesh.positions[i2 as usize] },
            );
        }
        if i2 < i3 {
            instances.push(
                EdgeInstance { from: mesh.positions[i2 as usize], to: mesh.positions[i3 as usize] },
            );
        }
        if i3 < i1 {
            instances.push(
                EdgeInstance { from: mesh.positions[i3 as usize], to: mesh.positions[i1 as usize] },
            );
        }
        f += 1;
    }
    proof {
        edges.lemma_take_len();
    }
    instances
}

/// Builds the vertex instances of a mesh: one per position, in buffer order.
/// Positions are taken as they stand; two equal positions under different
/// indices get an instance each.
pub fn vertex_transformations<P: Copy>(mesh: &Mesh<P>) -> (instances: Vec<VertexInstance<P>>)
    ensures
        instances@ == vertex_instances(mesh.positions@),
{
    let mut instances: Vec<VertexInstance<P>> = Vec::new();
    let mut k: usize = 0;
    while k < mesh.positions.len()
        invariant
            k <= mesh.positions@.len(),
            instances@ == vertex_instances(mesh.positions@.take(k as int)),
        decreases mesh.positions@.len() - k,
    {
        proof {
            mesh.positions@.lemma_take_succ_push(k as int);
            mesh.positions@.take(k as int).lemma_push_map_commute(
                |p: P| VertexInstance { at: p },
                mesh.positions@[k as int],
            );
        }
        instances.push(VertexInstance { at: mesh.positions[k] });
        k += 1;
    }
    proof {
        mesh.positions@.lemma_take_len();
    }
    instances
}

/// The unordered pair behind a directed edge, written lower index first.
pub open spec fn unordered(e: (u32, u32)) -> (u32, u32) {
    if e.0 <= e.1 {
        e
    } else {
        (e.1, e.0)
    }
}

/// The distinct unordered pairs of indices that occur as an edge of at least
/// one triangle.
pub open spec fn edge_set(indices: Seq<u32>) -> Set<(u32, u32)> {
    directed_edges(indices).map_values(|e: (u32, u32)| unordered(e)).to_set()
}

/// No ascending directed edge is visited twice. A mesh whose triangles are
/// wound consistently visits no directed edge twice at all.
pub open spec fn ascending_visits_distinct(indices: Seq<u32>) -> bool {
    let visits = directed_edges(indices);
    forall|i: int, j: int|
        0 <= i < j < visits.len() && visits[i] == visits[j] ==> !(visits[i].0 < visits[i].1)
}

/// The directed edge `e` is ascending and some triangle visits it.
pub open spec fn visited_ascending(indices: Seq<u32>, e: (u32, u32)) -> bool {
    e.0 < e.1 && directed_edges(indices).contains(e)
}

/// Every edge is visited in its ascending direction at least once: an edge
/// visited from its higher index to its lower one is also visited the other
/// way round, and no edge joins an index to itself.
pub open spec fn every_edge_visited_ascending(indices: Seq<u32>) -> bool {
    let visits = directed_edges(indices);
    forall|i: int|
        0 <= i < visits.len() ==> visited_ascending(indices, unordered(#[trigger] visits[i]))
}

/// Filtering keeps no value twice when the sequence holds no kept value twice.
proof fn lemma_filter_keeps_distinct<A>(s: Seq<A>, pred: spec_fn(A) -> bool)
    requires
        forall|i: int, j: int| 0 <= i < j < s.len() && s[i] == s[j] ==> !pred(s[i]),
    ensures
        s.filter(pred).no_duplicates(),
    decreases s.len(),
{
    reveal(Seq::filter);
    if s.len() > 0 {
        let rest = s.drop_last();
        lemma_filter_keeps_distinct(rest, pred);
        if pred(s.last()) {
            let kept = rest.filter(pred);
            if kept.contains(s.last()) {
                rest.lemma_filter_contains_rev(pred, s.last());
                let i = choose|i: int| 0 <= i < rest.len() && rest[i] == s.last();
                assert(s[i] == s[s.len() - 1]);
            }
        }
    }
}

/// Filtering keeps a value twice when it occurs twice and is kept.
proof fn lemma_filter_keeps_repeats<A>(s: Seq<A>, pred: spec_fn(A) -> bool, i: int, j: int)
    requires
        0 <= i < j < s.len(),
        s[i] == s[j],
        pred(s[i]),
    ensures
        !s.filter(pred).no_duplicates(),
    decreases s.len(),
{
    reveal(Seq::filter);
    let rest = s.drop_last();
    let kept = rest.filter(pred);
    if j == s.len() - 1 {
        rest.lemma_filter_contains(pred, i);
        let m = choose|m: int| 0 <= m < kept.len() && kept[m] == rest[i];
        let all = s.filter(pred);
        assert(all == kept.push(s.last()));
        assert(all[m] == all[kept.len() as int]);
    } else {
        lemma_filter_keeps_repeats(rest, pred, i, j);
        let (a, b) = choose|a: int, b: int|
            0 <= a < kept.len() && 0 <= b < kept.len() && a != b && kept[a] == kept[b];
        let all = s.filter(pred);
        assert(all[a] == kept[a] && all[b] == kept[b]);
    }
}

/// The emitted edges are exactly the directed edges that are visited ascending.
proof fn lemma_emitted_iff_visited_ascending(indices: Seq<u32>, e: (u32, u32))
    ensures
        emitted_edges(indices).contains(e) <==> visited_ascending(indices, e),
{
    let visits = directed_edges(indices);
    let emitted = emitted_edges(indices);
    if emitted.contains(e) {
        visits.lemma_filter_contains_rev(ascending(), e);
        let m = choose|m: int| 0 <= m < emitted.len() && emitted[m] == e;
        visits.lemma_filter_pred(ascending(), m);
    }
    if visited_ascending(indices, e) {
        let i = choose|i: int| 0 <= i < visits.len() && visits[i] == e;
        visits.lemma_filter_contains(ascending(), i);
    }
}

/// An emitted edge is an edge of the mesh.
proof fn lemma_emitted_are_edges(indices: Seq<u32>)
    ensures
        emitted_edges(indices).to_set().subset_of(edge_set(indices)),
{
    let visits = directed_edges(indices);
    let pairs = visits.map_values(|e: (u32, u32)| unordered(e));
    assert forall|e: (u32, u32)| emitted_edges(indices).to_set().contains(e) implies edge_set(
        indices,
    ).contains(e) by {
        lemma_emitted_iff_visited_ascending(indices, e);
        let i = choose|i: int| 0 <= i < visits.len() && visits[i] == e;
        assert(pairs[i] == e);
    }
}

/// No edge is instanced twice exactly when no ascending edge is visited twice.
proof fn lemma_repeats(indices: Seq<u32>)
    ensures
        emitted_edges(indices).no_duplicates() <==> ascending_visits_distinct(indices),
{
    let visits = directed_edges(indices);
    if ascending_visits_distinct(indices) {
        lemma_filter_keeps_distinct(visits, ascending());
    } else {
        let (i, j) = choose|i: int, j: int|
            0 <= i < j < visits.len() && visits[i] == visits[j] && visits[i].0 < visits[i].1;
        lemma_filter_keeps_repeats(visits, ascending(), i, j);
    }
}

/// No edge of the mesh is left out exactly when every edge is visited in its
/// ascending direction.
proof fn lemma_omissions(indices: Seq<u32>)
    ensures
        edge_set(indices).subset_of(emitted_edges(indices).to_set())
            <==> every_edge_visited_ascending(indices),
{
    let visits = directed_edges(indices);
    let emitted = emitted_edges(indices);
    let pairs = visits.map_values(|e: (u32, u32)| unordered(e));
    if every_edge_visited_ascending(indices) {
        assert forall|e: (u32, u32)| edge_set(indices).contains(e) implies emitted.to_set().contains(
            e,
        ) by {
            let i = choose|i: int| 0 <= i < pairs.len() && pairs[i] == e;
            assert(visited_ascending(indices, unordered(visits[i])));
            lemma_emitted_iff_visited_ascending(indices, e);
        }
    }
    if edge_set(indices).subset_of(emitted.to_set()) {
        assert forall|i: int| 0 <= i < visits.len() implies visited_ascending(
            indices,
            unordered(#[trigger] visits[i]),
        ) by {
            let e = unordered(visits[i]);
            assert(pairs[i] == e);
            assert(edge_set(indices).contains(e));
            assert(emitted.to_set().contains(e));
            lemma_emitted_iff_visited_ascending(indices, e);
        }
    }
}

/// Every emitted edge is one that some triangle visits, and runs from a lower
/// index to a higher one: no instance joins an index to itself.
pub proof fn lemma_emitted_edges_ascend(indices: Seq<u32>)
    ensures
        forall|k: int|
            0 <= k < emitted_edges(indices).len() ==> visited_ascending(
                indices,
                #[trigger] emitted_edges(indices)[k],
            ),
{
    assert forall|k: int| 0 <= k < emitted_edges(indices).len() implies visited_ascending(
        indices,
        #[trigger] emitted_edges(indices)[k],
    ) by {
        lemma_emitted_iff_visited_ascending(indices, emitted_edges(indices)[k]);
    }
}

/// Which edges are instanced, and how often.
///
/// An emitted edge is always an edge of the mesh. No edge is instanced twice
/// exactly when no ascending directed edge is visited twice. No edge of the
/// mesh is left out exactly when every edge is visited in its ascending
/// direction. Where both hold, the instances correspond one to one to the
/// distinct unordered pairs of indices that some triangle joins, so there are
/// as many instances as distinct edges. Both hold of a closed surface whose
/// triangles are wound consistently, where each edge is shared by two
/// triangles that visit it in opposite directions. A boundary edge that its
/// one triangle visits from the higher index to the lower gets no instance.
pub proof fn lemma_each_edge_instanced_once<P>(positions: Seq<P>, indices: Seq<u32>)
    ensures
        emitted_edges(indices).to_set().subset_of(edge_set(indices)),
        emitted_edges(indices).no_duplicates() <==> ascending_visits_distinct(indices),
        edge_set(indices).subset_of(emitted_edges(indices).to_set())
            <==> every_edge_visited_ascending(indices),
        ascending_visits_distinct(indices) && every_edge_visited_ascending(indices) ==> {
            &&& emitted_edges(indices).to_set() == edge_set(indices)
            &&& emitted_edges(indices).len() == edge_set(indices).len()
            &&& edge_instances(positions, indices).len() == edge_set(indices).len()
        },
{
    lemma_emitted_are_edges(indices);
    lemma_repeats(indices);
    lemma_omissions(indices);
    if ascending_visits_distinct(indices) && every_edge_visited_ascending(indices) {
        assert(emitted_edges(indices).to_set() =~= edge_set(indices));
        emitted_edges(indices).unique_seq_to_set();
    }
}

/// The index buffer of a closed surface whose triangles are wound consistently:
/// no directed edge is visited twice, every visited edge is also visited in
/// the opposite direction, and no edge joins an index to itself.
pub open spec fn closed_and_consistently_wound(indices: Seq<u32>) -> bool {
    let visits = directed_edges(indices);
    &&& visits.no_duplicates()
    &&& forall|i: int|
        0 <= i < visits.len() ==> (#[trigger] visits[i]).0 != visits[i].1 && visits.contains(
            (visits[i].1, visits[i].0),
        )
}

/// On a closed, consistently wound surface each edge is shared by two triangles
/// that visit it in opposite directions, and exactly one of the two visits is
/// ascending: there are as many edge instances as distinct edges, no edge is
/// instanced twice and none is left out.
pub proof fn lemma_closed_surface_edge_count<P>(positions: Seq<P>, indices: Seq<u32>)
    requires
        closed_and_consistently_wound(indices),
    ensures
        edge_instances(positions, indices).len() == edge_set(indices).len(),
        emitted_edges(indices).no_duplicates(),
        emitted_edges(indices).to_set() == edge_set(indices),
{
    let visits = directed_edges(indices);
    assert forall|i: int| 0 <= i < visits.len() implies visited_ascending(
        indices,
        unordered(#[trigger] visits[i]),
    ) by {
        assert(visits.contains((visits[i].1, visits[i].0)));
        assert(visits.contains(visits[i]));
    }
    lemma_each_edge_instanced_once(positions, indices);
}

} // verus!
