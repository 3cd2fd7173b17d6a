use gamma::graph::DefaultGraph;
use gamma::graph::Error as GraphError;
use gamma::graph::Graph;
use vstd::prelude::*;

verus! {

#[verifier::external_type_specification]
#[verifier::external_body]
pub struct ExDefaultGraph(DefaultGraph);

#[verifier::external_type_specification]
pub struct ExGraphError(GraphError);

/// The adjacency of a graph: each node id, mapped to its list of neighbor ids in
/// the order the graph stores them.
pub uninterp spec fn graph_adjacency(g: DefaultGraph) -> Map<usize, Seq<usize>>;

/// The adjacency after joining `sid` and `tid`: `tid` appended to the list of
/// `sid`, then `sid` to the list of `tid`.
pub open spec fn adjacency_with_edge(
    adjacency: Map<usize, Seq<usize>>,
    sid: usize,
    tid: usize,
) -> Map<usize, Seq<usize>> {
    let from_source = adjacency.insert(sid, adjacency[sid].push(tid));
    from_source.insert(tid, from_source[tid].push(sid))
}

/// The neighbors of `id` along `edges`, in edge order: each edge that starts at
/// `id` contributes its target, then each edge that ends at `id` its source.
pub open spec fn incident(edges: Seq<(usize, usize)>, id: usize) -> Seq<usize>
    decreases edges.len(),
{
    if edges.len() == 0 {
        Seq::empty()
    } else {
        let before = incident(edges.drop_last(), id);
        let (s, t) = edges.last();
        let from_source = if s == id {
            before.push(t)
        } else {
            before
        };
        if t == id {
            from_source.push(s)
        } else {
            from_source
        }
    }
}

/// The edge `e` joins `s` and `t`, either way round.
pub open spec fn joins(e: (usize, usize), s: usize, t: usize) -> bool {
    (e.0 == s && e.1 == t) || (e.0 == t && e.1 == s)
}

/// `t` is a neighbor of `s` exactly when some edge joins the two.
pub proof fn lemma_incident_contains(edges: Seq<(usize, usize)>, s: usize, t: usize)
    ensures
        incident(edges, s).contains(t) <==> exists|j: int|
            0 <= j < edges.len() && #[trigger] joins(edges[j], s, t),
    decreases edges.len(),
{
    if edges.len() > 0 {
        let rest = edges.drop_last();
        lemma_incident_contains(rest, s, t);
        let before = incident(rest, s);
        let last = edges.last();
        let from_source = if last.0 == s {
            before.push(last.1)
        } else {
            before
        };
        let all = if last.1 == s {
            from_source.push(last.0)
        } else {
            from_source
        };
        assert(incident(edges, s) == all);
        if before.contains(t) {
            let i = before.index_of(t);
            assert(from_source[i] == t);
            assert(all[i] == t);
        }
        if last.0 == s && last.1 == t {
            assert(from_source[before.len() as int] == t);
            assert(all[before.len() as int] == t);
        }
        if last.1 == s && last.0 == t {
            assert(all[from_source.len() as int] == t);
        }
        if all.contains(t) {
            let i = all.index_of(t);
            if i < before.len() {
                assert(before[i] == t);
            }
            assert(before.contains(t) || joins(last, s, t));
        }
        assert forall|j: int| 0 <= j < rest.len() implies rest[j] == edges[j] by {}
        if exists|j: int| 0 <= j < edges.len() && #[trigger] joins(edges[j], s, t) {
            let j = choose|j: int| 0 <= j < edges.len() && #[trigger] joins(edges[j], s, t);
            if j < rest.len() {
                assert(joins(rest[j], s, t));
            }
        }
        if before.contains(t) {
            let j = choose|j: int| 0 <= j < rest.len() && #[trigger] joins(rest[j], s, t);
            assert(joins(edges[j], s, t));
        }
        if joins(last, s, t) {
            assert(joins(edges[edges.len() - 1], s, t));
        }
    }
}

/// Relies on gamma's `DefaultGraph::new`: a graph with no nodes.
#[verifier::external_body]
pub(crate) fn new_graph() -> (g: DefaultGraph)
    ensures
        graph_adjacency(g).dom() == Set::<usize>::empty(),
{
    DefaultGraph::new()
}

/// Relies on gamma's `DefaultGraph::add_node`: an id not yet present is added
/// with an empty neighbor list.
#[verifier::external_body]
pub(crate) fn add_node(g: &mut DefaultGraph, id: usize) -> (r: Result<(), GraphError>)
    requires
        !graph_adjacency(*old(g)).dom().contains(id),
    ensures
        r is Ok,
        graph_adjacency(*final(g)) == graph_adjacency(*old(g)).insert(id, Seq::empty()),
{
    g.add_node(id)
}

/// Relies on gamma's `DefaultGraph::add_edge`: between two present nodes, the edge
/// is refused when `tid` is already in the list of `sid`; otherwise `tid` is
/// appended to the list of `sid` and `sid` to the list of `tid`.
#[verifier::external_body]
pub(crate) fn add_edge(g: &mut DefaultGraph, sid: usize, tid: usize) -> (r: Result<(), GraphError>)
    requires
        graph_adjacency(*old(g)).dom().contains(sid),
        graph_adjacency(*old(g)).dom().contains(tid),
    ensures
        r is Ok <==> !graph_adjacency(*old(g))[sid].contains(tid),
        r matches Err(e) ==> e == GraphError::DuplicateEdge(sid, tid) && graph_adjacency(*final(g))
            == graph_adjacency(*old(g)),
        r is Ok ==> graph_adjacency(*final(g)) == adjacency_with_edge(
            graph_adjacency(*old(g)),
            sid,
            tid,
        ),
{
    g.add_edge(sid, tid)
}

/// Relies on gamma's `Graph::neighbors` for `DefaultGraph`: the neighbor list of
/// `id`, or an unknown-id error.
#[verifier::external_body]
pub(crate) fn neighbors(g: &DefaultGraph, id: usize) -> (r: Result<Vec<usize>, GraphError>)
    ensures
        r is Ok <==> graph_adjacency(*g).dom().contains(id),
        r matches Ok(v) ==> v@ == graph_adjacency(*g)[id],
        r matches Err(e) ==> e == GraphError::UnknownId(id),
{
    match g.neighbors(id) {
        Ok(iter) => Ok(iter.collect()),
        Err(error) => Err(error),
    }
}

/// Relies on gamma's `Graph::degree` for `DefaultGraph`: the length of the
/// neighbor list of `id`, or an unknown-id error.
#[verifier::external_body]
pub(crate) fn degree(g: &DefaultGraph, id: usize) -> (r: Result<usize, GraphError>)
    ensures
        r is Ok <==> graph_adjacency(*g).dom().contains(id),
        r matches Ok(n) ==> n == graph_adjacency(*g)[id].len(),
        r matches Err(e) ==> e == GraphError::UnknownId(id),
{
    g.degree(id)
}

/// `sid` where the graph lacks it, else `tid`.
pub open spec fn first_unknown(g: DefaultGraph, sid: usize, tid: usize) -> usize {
    if graph_adjacency(g).dom().contains(sid) {
        tid
    } else {
        sid
    }
}

/// Relies on gamma's `Graph::has_edge` for `DefaultGraph`: whether `tid` is in the
/// neighbor list of `sid`, or an unknown-id error for the first id that is absent.
#[verifier::external_body]
pub(crate) fn has_edge(g: &DefaultGraph, sid: usize, tid: usize) -> (r: Result<bool, GraphError>)
    ensures
        r is Ok <==> (graph_adjacency(*g).dom().contains(sid) && graph_adjacency(*g).dom().contains(
            tid,
        )),
        r matches Ok(b) ==> b == graph_adjacency(*g)[sid].contains(tid),
        r matches Err(e) ==> e == GraphError::UnknownId(first_unknown(*g, sid, tid)),
{
    g.has_edge(sid, tid)
}

} // verus!
