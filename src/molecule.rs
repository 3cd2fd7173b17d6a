use gamma::graph::DefaultGraph;
use vstd::prelude::*;

use crate::error::{Error, Site};
use crate::bond_order::PyBondOrder;
use crate::element::PyElement;
use crate::parity::PyParity;
use crate::graph::{
    add_edge, add_node, adjacency_with_edge, degree, graph_adjacency, has_edge, incident, joins,
    lemma_incident_contains, neighbors,
    new_graph,
};
use crate::rules::{
    bond_joins, bond_sum, bonding_capacity, build_error, capacity, dangling_at, degree_in,
    duplicate_at, first_dangling_bond, first_duplicate_bond, first_hypervalent_atom,
    first_impossible_isotope, first_misplaced_atom_parity, first_misplaced_bond_parity,
    first_self_bond, hypervalent_at, impossible_isotope_at, is_atom_parity_allowed,
    is_bond_parity_allowed, is_isotope_plausible, misplaced_atom_parity_at,
    misplaced_bond_parity_at, no_dangling_bonds, no_duplicate_bonds, no_hypervalent_atoms,
    no_impossible_isotopes, no_misplaced_atom_parity, no_misplaced_bond_parity, no_self_bonds,
    pairs, self_bond_at, valid,
};
use crate::spec::{PyAtomSpec, PyBondSpec};

verus! {

/// The ids `0..n`, in order.
pub open spec fn id_range(n: nat) -> Seq<usize> {
    Seq::new(n, |i: int| i as usize)
}

/// `x` held in a `u64`, where values past the largest stay at the largest.
pub open spec fn saturated(x: nat) -> u64 {
    if x > u64::MAX {
        u64::MAX
    } else {
        x as u64
    }
}

/// `adjacency` holds exactly the atoms `0..n`, each mapped to its neighbors along
/// `edges`.
pub open spec fn adjacency_of(adjacency: Map<usize, Seq<usize>>, n: nat, edges: Seq<(usize, usize)>) -> bool {
    &&& forall|id: usize| #[trigger] adjacency.dom().contains(id) <==> id < n
    &&& forall|id: usize| id < n ==> #[trigger] adjacency[id] == incident(edges, id)
}

proof fn lemma_adjacency_with_edge(
    adjacency: Map<usize, Seq<usize>>,
    n: nat,
    edges: Seq<(usize, usize)>,
    sid: usize,
    tid: usize,
)
    requires
        adjacency_of(adjacency, n, edges),
        sid < n,
        tid < n,
    ensures
        adjacency_of(adjacency_with_edge(adjacency, sid, tid), n, edges.push((sid, tid))),
{
    let longer = edges.push((sid, tid));
    assert(longer.drop_last() =~= edges);
    let next = adjacency_with_edge(adjacency, sid, tid);
    assert forall|id: usize| id < n implies #[trigger] next[id] == incident(longer, id) by {
        assert(adjacency[id] == incident(edges, id));
        assert(adjacency[sid] == incident(edges, sid));
        assert(adjacency[tid] == incident(edges, tid));
    }
}

/// The first bond that names one atom twice, if any.
fn find_self_bond(bonds: &Vec<PyBondSpec>) -> (r: Option<usize>)
    ensures
        r matches Some(i) ==> first_self_bond(bonds@, i as int),
        r is None ==> no_self_bonds(bonds@),
{
    let mut i: usize = 0;
    while i < bonds.len()
        invariant
            i <= bonds.len(),
            forall|j: int| 0 <= j < i ==> !#[trigger] self_bond_at(bonds@, j),
        decreases bonds.len() - i,
    {
        if bonds[i].sid == bonds[i].tid {
            return Some(i);
        }
        i += 1;
    }
    None
}

/// The first bond that names an atom outside `0..n`, if any.
fn find_dangling_bond(n: usize, bonds: &Vec<PyBondSpec>) -> (r: Option<usize>)
    ensures
        r matches Some(i) ==> first_dangling_bond(n as int, bonds@, i as int),
        r is None ==> no_dangling_bonds(n as int, bonds@),
{
    let mut i: usize = 0;
    while i < bonds.len()
        invariant
            i <= bonds.len(),
            forall|j: int| 0 <= j < i ==> !#[trigger] dangling_at(n as int, bonds@, j),
        decreases bonds.len() - i,
    {
        if bonds[i].sid >= n || bonds[i].tid >= n {
            return Some(i);
        }
        i += 1;
    }
    None
}

/// A graph on the atoms `0..n` with one edge per bond, or the first bond that
/// joins a pair an earlier bond joins.
fn connect(n: usize, bonds: &Vec<PyBondSpec>) -> (r: Result<DefaultGraph, usize>)
    requires
        no_dangling_bonds(n as int, bonds@),
    ensures
        r matches Ok(g) ==> adjacency_of(graph_adjacency(g), n as nat, pairs(bonds@))
            && no_duplicate_bonds(bonds@),
        r matches Err(i) ==> first_duplicate_bond(bonds@, i as int),
{
    let mut graph = new_graph();
    let mut k: usize = 0;
    while k < n
        invariant
            k <= n,
            adjacency_of(graph_adjacency(graph), k as nat, Seq::<(usize, usize)>::empty()),
        decreases n - k,
    {
        let _ = add_node(&mut graph, k);
        k += 1;
    }
    let mut i: usize = 0;
    while i < bonds.len()
        invariant
            i <= bonds.len(),
            no_dangling_bonds(n as int, bonds@),
            adjacency_of(graph_adjacency(graph), n as nat, pairs(bonds@.take(i as int))),
            forall|j: int| 0 <= j < i ==> !#[trigger] duplicate_at(bonds@, j),
        decreases bonds.len() - i,
    {
        let sid = bonds[i].sid;
        let tid = bonds[i].tid;
        let ghost before = pairs(bonds@.take(i as int));
        proof {
            assert(!dangling_at(n as int, bonds@, i as int));
            lemma_incident_contains(before, sid, tid);
            lemma_adjacency_with_edge(graph_adjacency(graph), n as nat, before, sid, tid);
            if duplicate_at(bonds@, i as int) {
                let j = choose|j: int| 0 <= j < i && #[trigger] bond_joins(bonds@[j], sid, tid);
                assert(joins(before[j], sid, tid));
            }
            if exists|j: int| 0 <= j < before.len() && #[trigger] joins(before[j], sid, tid) {
                let j = choose|j: int| 0 <= j < before.len() && #[trigger] joins(before[j], sid, tid);
                assert(bond_joins(bonds@[j], sid, tid));
            }
        }
        match add_edge(&mut graph, sid, tid) {
            Ok(()) => {},
            Err(_) => {
                return Err(i);
            },
        }
        assert(pairs(bonds@.take(i as int)).push((sid, tid)) =~= pairs(bonds@.take(i + 1)));
        i += 1;
    }
    assert(bonds@.take(bonds.len() as int) =~= bonds@);
    Ok(graph)
}

/// For each atom of `0..n`, the sum of the orders of its bonds.
fn bond_sums(n: usize, bonds: &Vec<PyBondSpec>) -> (r: Vec<u64>)
    requires
        no_dangling_bonds(n as int, bonds@),
        no_self_bonds(bonds@),
    ensures
        r.len() == n,
        forall|a: int| 0 <= a < n ==> #[trigger] r[a] == saturated(bond_sum(bonds@, a as usize)),
{
    let mut sums: Vec<u64> = Vec::new();
    let mut k: usize = 0;
    while k < n
        invariant
            k <= n,
            sums.len() == k,
            forall|a: int| 0 <= a < k ==> #[trigger] sums[a] == 0,
        decreases n - k,
    {
        sums.push(0);
        k += 1;
    }
    let mut i: usize = 0;
    while i < bonds.len()
        invariant
            i <= bonds.len(),
            sums.len() == n,
            no_dangling_bonds(n as int, bonds@),
            no_self_bonds(bonds@),
            forall|a: int|
                0 <= a < n ==> #[trigger] sums[a] == saturated(
                    bond_sum(bonds@.take(i as int), a as usize),
                ),
        decreases bonds.len() - i,
    {
        let b = bonds[i];
        proof {
            assert(!dangling_at(n as int, bonds@, i as int));
            assert(!self_bond_at(bonds@, i as int));
            assert(bonds@.take(i + 1).drop_last() =~= bonds@.take(i as int));
        }
        let order = b.order.as_int() as u64;
        let s = sums[b.sid].saturating_add(order);
        sums.set(b.sid, s);
        let t = sums[b.tid].saturating_add(order);
        sums.set(b.tid, t);
        i += 1;
    }
    assert(bonds@.take(bonds.len() as int) =~= bonds@);
    sums
}

/// The first atom whose hydrogens and bond orders exceed its capacity, if any.
fn find_hypervalent_atom(atoms: &Vec<PyAtomSpec>, bonds: &Vec<PyBondSpec>, sums: &Vec<u64>) -> (r:
    Option<usize>)
    requires
        sums.len() == atoms.len(),
        forall|a: int|
            0 <= a < atoms.len() ==> #[trigger] sums[a] == saturated(bond_sum(bonds@, a as usize)),
    ensures
        r matches Some(a) ==> first_hypervalent_atom(atoms@, bonds@, a as int),
        r is None ==> no_hypervalent_atoms(atoms@, bonds@),
{
    let mut k: usize = 0;
    while k < atoms.len()
        invariant
            k <= atoms.len(),
            sums.len() == atoms.len(),
            forall|a: int|
                0 <= a < atoms.len() ==> #[trigger] sums[a] == saturated(
                    bond_sum(bonds@, a as usize),
                ),
            forall|j: int| 0 <= j < k ==> !#[trigger] hypervalent_at(atoms@, bonds@, j),
        decreases atoms.len() - k,
    {
        let atom = atoms[k];
        let cap = bonding_capacity(atom.element.element, atom.ion) as u64;
        let used = sums[k];
        if used > cap || atom.hydrogens as u64 > cap - used {
            return Some(k);
        }
        k += 1;
    }
    None
}

/// The number of bonds at `id`, an atom of the graph.
fn degree_at(graph: &DefaultGraph, id: usize) -> (d: usize)
    requires
        graph_adjacency(*graph).dom().contains(id),
    ensures
        d == graph_adjacency(*graph)[id].len(),
{
    match degree(graph, id) {
        Ok(d) => d,
        Err(_) => 0,
    }
}

/// The first atom with a parity it cannot carry, if any.
fn find_misplaced_atom_parity(atoms: &Vec<PyAtomSpec>, bonds: &Vec<PyBondSpec>, graph: &DefaultGraph) -> (r:
    Option<usize>)
    requires
        adjacency_of(graph_adjacency(*graph), atoms.len() as nat, pairs(bonds@)),
    ensures
        r matches Some(a) ==> first_misplaced_atom_parity(atoms@, bonds@, a as int),
        r is None ==> no_misplaced_atom_parity(atoms@, bonds@),
{
    let mut k: usize = 0;
    while k < atoms.len()
        invariant
            k <= atoms.len(),
            adjacency_of(graph_adjacency(*graph), atoms.len() as nat, pairs(bonds@)),
            forall|j: int| 0 <= j < k ==> !#[trigger] misplaced_atom_parity_at(atoms@, bonds@, j),
        decreases atoms.len() - k,
    {
        let atom = atoms[k];
        if atom.parity.is_some() {
            proof {
            }
            let d = degree_at(graph, k);
            if !is_atom_parity_allowed(d, atom.hydrogens) {
                return Some(k);
            }
        }
        k += 1;
    }
    None
}

/// The first bond with a parity it cannot carry, if any.
fn find_misplaced_bond_parity(n: usize, bonds: &Vec<PyBondSpec>, graph: &DefaultGraph) -> (r:
    Option<usize>)
    requires
        no_dangling_bonds(n as int, bonds@),
        adjacency_of(graph_adjacency(*graph), n as nat, pairs(bonds@)),
    ensures
        r matches Some(i) ==> first_misplaced_bond_parity(bonds@, i as int),
        r is None ==> no_misplaced_bond_parity(bonds@),
{
    let mut i: usize = 0;
    while i < bonds.len()
        invariant
            i <= bonds.len(),
            no_dangling_bonds(n as int, bonds@),
            adjacency_of(graph_adjacency(*graph), n as nat, pairs(bonds@)),
            forall|j: int| 0 <= j < i ==> !#[trigger] misplaced_bond_parity_at(bonds@, j),
        decreases bonds.len() - i,
    {
        let b = bonds[i];
        if b.parity.is_some() {
            proof {
                assert(!dangling_at(n as int, bonds@, i as int));
            }
            let ds = degree_at(graph, b.sid);
            let dt = degree_at(graph, b.tid);
            if !is_bond_parity_allowed(b.order.bond_order, ds, dt) {
                return Some(i);
            }
        }
        i += 1;
    }
    None
}

/// The first atom whose declared mass number its element cannot have, if any.
fn find_impossible_isotope(atoms: &Vec<PyAtomSpec>) -> (r: Option<usize>)
    ensures
        r matches Some(a) ==> first_impossible_isotope(atoms@, a as int),
        r is None ==> no_impossible_isotopes(atoms@),
{
    let mut k: usize = 0;
    while k < atoms.len()
        invariant
            k <= atoms.len(),
            forall|j: int| 0 <= j < k ==> !#[trigger] impossible_isotope_at(atoms@, j),
        decreases atoms.len() - k,
    {
        let atom = atoms[k];
        match atom.isotope {
            Some(mass) => {
                if !is_isotope_plausible(atom.element.element, mass) {
                    return Some(k);
                }
            },
            None => {},
        }
        k += 1;
    }
    None
}

/// Some bond joins atoms `s` and `t`.
pub open spec fn has_bond(bonds: Seq<PyBondSpec>, s: usize, t: usize) -> bool {
    exists|j: int| 0 <= j < bonds.len() && #[trigger] bond_joins(bonds[j], s, t)
}

/// `t` is a neighbor of `s` along the bonds exactly when a bond joins them.
pub proof fn lemma_neighbor_iff_bond(bonds: Seq<PyBondSpec>, s: usize, t: usize)
    ensures
        incident(pairs(bonds), s).contains(t) <==> has_bond(bonds, s, t),
{
    let edges = pairs(bonds);
    lemma_incident_contains(edges, s, t);
    if has_bond(bonds, s, t) {
        let j = choose|j: int| 0 <= j < bonds.len() && #[trigger] bond_joins(bonds[j], s, t);
        assert(joins(edges[j], s, t));
    }
    if exists|j: int| 0 <= j < edges.len() && #[trigger] joins(edges[j], s, t) {
        let j = choose|j: int| 0 <= j < edges.len() && #[trigger] joins(edges[j], s, t);
        assert(bond_joins(bonds[j], s, t));
    }
}

/// The valence electrons of an atom that neither its charge, its hydrogens nor
/// its `bonded` bond orders account for; never fewer than none.
pub open spec fn free_electrons(atom: PyAtomSpec, bonded: nat) -> int {
    let left = atom.element.element.spec_valence_electrons() - atom.ion - atom.hydrogens - bonded;
    if left < 0 {
        0
    } else {
        left
    }
}

/// The error of a lookup of the pair `(sid, tid)` among `n` atoms that finds no bond.
pub open spec fn missing_pair_error(n: nat, sid: usize, tid: usize) -> Error {
    if sid >= n {
        Error::NodeNotFound(sid)
    } else if tid >= n {
        Error::NodeNotFound(tid)
    } else {
        Error::EdgeNotFound(sid, tid)
    }
}

/// A validated molecule: atoms, the bonds between them, and the graph of both,
/// built once and only read afterwards.
pub struct PyDefaultMolecule {
    atoms: Vec<PyAtomSpec>,
    bonds: Vec<PyBondSpec>,
    /// For each atom, the sum of the orders of its bonds.
    bonding: Vec<u64>,
    graph: DefaultGraph,
}

impl PyDefaultMolecule {
    /// The atoms, in the order they were given.
    pub closed spec fn atom_list(self) -> Seq<PyAtomSpec> {
        self.atoms@
    }

    /// The bonds, in the order they were given.
    pub closed spec fn bond_list(self) -> Seq<PyBondSpec> {
        self.bonds@
    }

    #[verifier::type_invariant]
    spec fn well_formed(self) -> bool {
        &&& valid(self.atoms@, self.bonds@)
        &&& adjacency_of(graph_adjacency(self.graph), self.atoms.len() as nat, pairs(self.bonds@))
        &&& self.bonding.len() == self.atoms.len()
        &&& forall|a: int|
            0 <= a < self.atoms.len() ==> #[trigger] self.bonding[a] as nat == bond_sum(
                self.bonds@,
                a as usize,
            )
    }

    /// Validates `atoms` and `bonds` and builds the molecule they describe, or
    /// reports the first rule that they break.
    pub fn new(atoms: Vec<PyAtomSpec>, bonds: Vec<PyBondSpec>) -> (r: Result<PyDefaultMolecule, Error>)
        ensures
            r is Ok <==> valid(atoms@, bonds@),
            r matches Ok(m) ==> m.atom_list() == atoms@ && m.bond_list() == bonds@,
            r matches Err(e) ==> build_error(atoms@, bonds@, e),
    {
        let n = atoms.len();
        match find_self_bond(&bonds) {
            Some(i) => {
                assert(self_bond_at(bonds@, i as int));
                return Err(Error::SelfBond(bonds[i].sid));
            },
            None => {},
        }
        match find_dangling_bond(n, &bonds) {
            Some(i) => {
                return Err(Error::DanglingBondEndpoint(i));
            },
            None => {},
        }
        let graph = match connect(n, &bonds) {
            Ok(graph) => graph,
            Err(i) => {
                return Err(Error::DuplicateBond(i));
            },
        };
        let sums = bond_sums(n, &bonds);
        match find_hypervalent_atom(&atoms, &bonds, &sums) {
            Some(a) => {
                return Err(Error::HypervalentAtom(a));
            },
            None => {},
        }
        match find_misplaced_atom_parity(&atoms, &bonds, &graph) {
            Some(a) => {
                return Err(Error::MisplacedBond(Site::Atom(a)));
            },
            None => {},
        }
        match find_misplaced_bond_parity(n, &bonds, &graph) {
            Some(i) => {
                return Err(Error::MisplacedBond(Site::Bond(i)));
            },
            None => {},
        }
        match find_impossible_isotope(&atoms) {
            Some(a) => {
                return Err(Error::ImpossibleIsotope(a));
            },
            None => {},
        }
        assert forall|a: int| 0 <= a < n implies #[trigger] sums[a] as nat == bond_sum(
            bonds@,
            a as usize,
        ) by {
            assert(!hypervalent_at(atoms@, bonds@, a));
            assert(capacity(atoms@[a].element.element, atoms@[a].ion as int) <= 140);
        }
        Ok(PyDefaultMolecule { atoms, bonds, bonding: sums, graph })
    }

    pub fn is_empty(&self) -> (r: bool)
        ensures
            r == (self.atom_list().len() == 0),
    {
        self.atoms.len() == 0
    }

    /// The number of atoms.
    pub fn order(&self) -> (r: usize)
        ensures
            r == self.atom_list().len(),
    {
        self.atoms.len()
    }

    /// The number of bonds.
    pub fn size(&self) -> (r: usize)
        ensures
            r == self.bond_list().len(),
    {
        self.bonds.len()
    }

    /// The atom ids, `0..order()`.
    pub fn nodes(&self) -> (r: Vec<usize>)
        ensures
            r@ == id_range(self.atom_list().len()),
    {
        let mut ids: Vec<usize> = Vec::new();
        let mut k: usize = 0;
        while k < self.atoms.len()
            invariant
                k <= self.atoms.len(),
                ids@ == id_range(k as nat),
            decreases self.atoms.len() - k,
        {
            ids.push(k);
            assert(id_range(k as nat).push(k) =~= id_range((k + 1) as nat));
            k += 1;
        }
        ids
    }

    /// The bonds as pairs of atom ids, in the order they were given.
    pub fn edges(&self) -> (r: Vec<(usize, usize)>)
        ensures
            r@ == pairs(self.bond_list()),
    {
        let mut out: Vec<(usize, usize)> = Vec::new();
        let mut i: usize = 0;
        while i < self.bonds.len()
            invariant
                i <= self.bonds.len(),
                out@ == pairs(self.bonds@.take(i as int)),
            decreases self.bonds.len() - i,
        {
            out.push((self.bonds[i].sid, self.bonds[i].tid));
            assert(pairs(self.bonds@.take(i as int)).push((self.bonds@[i as int].sid, self.bonds@[i as int].tid)) =~= pairs(self.bonds@.take(i + 1)));
            i += 1;
        }
        assert(self.bonds@.take(self.bonds.len() as int) =~= self.bonds@);
        out
    }

    pub fn has_node(&self, id: usize) -> (r: bool)
        ensures
            r == (id < self.atom_list().len()),
    {
        id < self.atoms.len()
    }

    /// Whether a bond joins `sid` and `tid`, in either order; false where either
    /// atom is absent.
    pub fn has_edge(&self, sid: usize, tid: usize) -> (r: bool)
        ensures
            r == has_bond(self.bond_list(), sid, tid),
    {
        proof {
            use_type_invariant(self);
            lemma_neighbor_iff_bond(self.bonds@, sid, tid);
            if has_bond(self.bonds@, sid, tid) {
                let j = choose|j: int|
                    0 <= j < self.bonds@.len() && #[trigger] bond_joins(self.bonds@[j], sid, tid);
                assert(!dangling_at(self.atoms.len() as int, self.bonds@, j));
            }
        }
        if sid < self.atoms.len() && tid < self.atoms.len() {
            match has_edge(&self.graph, sid, tid) {
                Ok(found) => found,
                Err(_) => false,
            }
        } else {
            false
        }
    }

    /// The atoms bonded to `id`, in the order of the bonds that reach it.
    pub fn neighbors(&self, id: usize) -> (r: Result<Vec<usize>, Error>)
        ensures
            r is Ok <==> id < self.atom_list().len(),
            r matches Ok(v) ==> v@ == incident(pairs(self.bond_list()), id),
            r matches Err(e) ==> e == Error::NodeNotFound(id),
    {
        proof {
            use_type_invariant(self);
        }
        match neighbors(&self.graph, id) {
            Ok(ids) => Ok(ids),
            Err(_) => Err(Error::NodeNotFound(id)),
        }
    }

    /// The number of bonds that reach `id`.
    pub fn degree(&self, id: usize) -> (r: Result<usize, Error>)
        ensures
            r is Ok <==> id < self.atom_list().len(),
            r matches Ok(d) ==> d == degree_in(self.bond_list(), id),
            r matches Err(e) ==> e == Error::NodeNotFound(id),
    {
        proof {
            use_type_invariant(self);
        }
        match degree(&self.graph, id) {
            Ok(d) => Ok(d),
            Err(_) => Err(Error::NodeNotFound(id)),
        }
    }

    /// The atom at `id`.
    fn atom(&self, id: usize) -> (r: Result<PyAtomSpec, Error>)
        ensures
            r is Ok <==> id < self.atom_list().len(),
            r matches Ok(a) ==> a == self.atom_list()[id as int],
            r matches Err(e) ==> e == Error::NodeNotFound(id),
    {
        if id < self.atoms.len() {
            Ok(self.atoms[id])
        } else {
            Err(Error::NodeNotFound(id))
        }
    }

    pub fn element(&self, id: usize) -> (r: Result<PyElement, Error>)
        ensures
            r is Ok <==> id < self.atom_list().len(),
            r matches Ok(e) ==> e == self.atom_list()[id as int].element,
            r matches Err(e) ==> e == Error::NodeNotFound(id),
    {
        match self.atom(id) {
            Ok(atom) => Ok(atom.element),
            Err(e) => Err(e),
        }
    }

    pub fn isotope(&self, id: usize) -> (r: Result<Option<u16>, Error>)
        ensures
            r is Ok <==> id < self.atom_list().len(),
            r matches Ok(m) ==> m == self.atom_list()[id as int].isotope,
            r matches Err(e) ==> e == Error::NodeNotFound(id),
    {
        match self.atom(id) {
            Ok(atom) => Ok(atom.isotope),
            Err(e) => Err(e),
        }
    }

    pub fn hydrogens(&self, id: usize) -> (r: Result<u8, Error>)
        ensures
            r is Ok <==> id < self.atom_list().len(),
            r matches Ok(h) ==> h == self.atom_list()[id as int].hydrogens,
            r matches Err(e) ==> e == Error::NodeNotFound(id),
    {
        match self.atom(id) {
            Ok(atom) => Ok(atom.hydrogens),
            Err(e) => Err(e),
        }
    }

    pub fn charge(&self, id: usize) -> (r: Result<i8, Error>)
        ensures
            r is Ok <==> id < self.atom_list().len(),
            r matches Ok(c) ==> c == self.atom_list()[id as int].ion,
            r matches Err(e) ==> e == Error::NodeNotFound(id),
    {
        match self.atom(id) {
            Ok(atom) => Ok(atom.ion),
            Err(e) => Err(e),
        }
    }

    pub fn atom_parity(&self, id: usize) -> (r: Result<Option<PyParity>, Error>)
        ensures
            r is Ok <==> id < self.atom_list().len(),
            r matches Ok(p) ==> p == self.atom_list()[id as int].parity,
            r matches Err(e) ==> e == Error::NodeNotFound(id),
    {
        match self.atom(id) {
            Ok(atom) => Ok(atom.parity),
            Err(e) => Err(e),
        }
    }

    /// The valence electrons of `id` that its charge, hydrogens and bonds leave over.
    pub fn electrons(&self, id: usize) -> (r: Result<u8, Error>)
        ensures
            r is Ok <==> id < self.atom_list().len(),
            r matches Ok(x) ==> x == free_electrons(
                self.atom_list()[id as int],
                bond_sum(self.bond_list(), id),
            ),
            r matches Err(e) ==> e == Error::NodeNotFound(id),
    {
        proof {
            use_type_invariant(self);
        }
        if id >= self.atoms.len() {
            return Err(Error::NodeNotFound(id));
        }
        let atom = self.atoms[id];
        proof {
            assert(!hypervalent_at(self.atoms@, self.bonds@, id as int));
            assert(self.bonding[id as int] as nat == bond_sum(self.bonds@, id));
            assert(capacity(atom.element.element, atom.ion as int) <= 140);
        }
        let left: i32 = atom.element.valence_electrons() as i32 - atom.ion as i32
            - atom.hydrogens as i32 - self.bonding[id] as i32;
        if left < 0 {
            Ok(0)
        } else {
            Ok(left as u8)
        }
    }

    /// The position in the bond list of the bond that joins `sid` and `tid`.
    fn find_bond(&self, sid: usize, tid: usize) -> (r: Option<usize>)
        ensures
            r is Some <==> has_bond(self.bond_list(), sid, tid),
            r matches Some(j) ==> j < self.bond_list().len() && bond_joins(
                self.bond_list()[j as int],
                sid,
                tid,
            ),
    {
        let mut j: usize = 0;
        while j < self.bonds.len()
            invariant
                j <= self.bonds.len(),
                forall|k: int| 0 <= k < j ==> !#[trigger] bond_joins(self.bonds@[k], sid, tid),
            decreases self.bonds.len() - j,
        {
            let b = self.bonds[j];
            if (b.sid == sid && b.tid == tid) || (b.sid == tid && b.tid == sid) {
                assert(bond_joins(self.bonds@[j as int], sid, tid));
                return Some(j);
            }
            j += 1;
        }
        None
    }

    /// The order of the bond between `sid` and `tid`, in either order. The molecule
    /// is valid, so at most one bond joins the pair (`lemma_bond_between_is_unique`).
    pub fn bond_order(&self, sid: usize, tid: usize) -> (r: Result<PyBondOrder, Error>)
        ensures
            valid(self.atom_list(), self.bond_list()),
            r is Ok <==> has_bond(self.bond_list(), sid, tid),
            r matches Ok(o) ==> exists|j: int|
                0 <= j < self.bond_list().len() && #[trigger] bond_joins(
                    self.bond_list()[j],
                    sid,
                    tid,
                ) && self.bond_list()[j].order == o,
            r matches Err(e) ==> e == missing_pair_error(self.atom_list().len(), sid, tid),
    {
        proof {
            use_type_invariant(self);
        }
        match self.find_bond(sid, tid) {
            Some(j) => Ok(self.bonds[j].order),
            None => Err(self.missing_pair(sid, tid)),
        }
    }

    /// The parity of the bond between `sid` and `tid`, in either order. The molecule
    /// is valid, so at most one bond joins the pair (`lemma_bond_between_is_unique`).
    pub fn bond_parity(&self, sid: usize, tid: usize) -> (r: Result<Option<PyParity>, Error>)
        ensures
            valid(self.atom_list(), self.bond_list()),
            r is Ok <==> has_bond(self.bond_list(), sid, tid),
            r matches Ok(p) ==> exists|j: int|
                0 <= j < self.bond_list().len() && #[trigger] bond_joins(
                    self.bond_list()[j],
                    sid,
                    tid,
                ) && self.bond_list()[j].parity == p,
            r matches Err(e) ==> e == missing_pair_error(self.atom_list().len(), sid, tid),
    {
        proof {
            use_type_invariant(self);
        }
        match self.find_bond(sid, tid) {
            Some(j) => Ok(self.bonds[j].parity),
            None => Err(self.missing_pair(sid, tid)),
        }
    }

    fn missing_pair(&self, sid: usize, tid: usize) -> (r: Error)
        ensures
            r == missing_pair_error(self.atom_list().len(), sid, tid),
    {
        if sid >= self.atoms.len() {
            Error::NodeNotFound(sid)
        } else if tid >= self.atoms.len() {
            Error::NodeNotFound(tid)
        } else {
            Error::EdgeNotFound(sid, tid)
        }
    }
}

/// Where no two bonds join the same pair, as in every built molecule, at most
/// one bond joins any pair of atoms: `bond_order` and `bond_parity` answer
/// from a single bond.
pub proof fn lemma_bond_between_is_unique(bonds: Seq<PyBondSpec>, s: usize, t: usize, j: int, k: int)
    requires
        no_duplicate_bonds(bonds),
        0 <= j < bonds.len(),
        0 <= k < bonds.len(),
        bond_joins(bonds[j], s, t),
        bond_joins(bonds[k], s, t),
    ensures
        j == k,
{
    if j < k {
        assert(bond_joins(bonds[j], bonds[k].sid, bonds[k].tid));
        assert(duplicate_at(bonds, k));
    } else if k < j {
        assert(bond_joins(bonds[k], bonds[j].sid, bonds[j].tid));
        assert(duplicate_at(bonds, j));
    }
}

/// `t` is among the neighbors of `s` exactly when a bond joins the two, and
/// then `s` is among the neighbors of `t`.
pub proof fn lemma_neighbors_agree_with_edges(bonds: Seq<PyBondSpec>, s: usize, t: usize)
    ensures
        incident(pairs(bonds), s).contains(t) <==> has_bond(bonds, s, t),
        incident(pairs(bonds), s).contains(t) <==> incident(pairs(bonds), t).contains(s),
{
    lemma_neighbor_iff_bond(bonds, s, t);
    lemma_neighbor_iff_bond(bonds, t, s);
    if has_bond(bonds, s, t) {
        let j = choose|j: int| 0 <= j < bonds.len() && #[trigger] bond_joins(bonds[j], s, t);
        assert(bond_joins(bonds[j], t, s));
    }
    if has_bond(bonds, t, s) {
        let j = choose|j: int| 0 <= j < bonds.len() && #[trigger] bond_joins(bonds[j], t, s);
        assert(bond_joins(bonds[j], s, t));
    }
}

} // verus!
