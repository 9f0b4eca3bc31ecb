use vstd::prelude::*;

verus! {

/// How a flat list of vertices is grouped into drawable primitives.
#[derive(Clone, Copy, Debug, PartialEq, Eq, Structural)]
pub enum Topology {
    /// Independent triangles, three vertices each.
    TriangleList,
    /// One connected polyline through every vertex.
    LineStrip,
}

impl Topology {
    /// The fewest vertices that make one primitive of this topology.
    pub open spec fn spec_min_vertices(self) -> nat {
        match self {
            Topology::TriangleList => 3,
            Topology::LineStrip => 2,
        }
    }

    /// Whether `n` vertices form whole primitives of this topology.
    pub open spec fn spec_accepts(self, n: nat) -> bool {
        match self {
            Topology::TriangleList => n >= 3 && n % 3 == 0,
            Topology::LineStrip => n >= 2,
        }
    }

    pub fn min_vertices(&self) -> (r: usize)
        ensures
            r == self.spec_min_vertices(),
    {
        match self {
            Topology::TriangleList => 3,
            Topology::LineStrip => 2,
        }
    }

    pub fn accepts(&self, n: usize) -> (r: bool)
        ensures
            r == self.spec_accepts(n as nat),
    {
        match self {
            Topology::TriangleList => n >= 3 && n % 3 == 0,
            Topology::LineStrip => n >= 2,
        }
    }
}

/// A vertex count fixed together with the topology it is drawn with.
///
/// A batch exists only for a count that the topology accepts.
pub struct DrawBatch {
    topology: Topology,
    vertex_count: usize,
}

impl DrawBatch {
    pub closed spec fn spec_topology(&self) -> Topology {
        self.topology
    }

    pub closed spec fn spec_vertex_count(&self) -> nat {
        self.vertex_count as nat
    }

    #[verifier::type_invariant]
    spec fn inv(&self) -> bool {
        self.topology.spec_accepts(self.vertex_count as nat)
    }

    /// A batch of `vertex_count` vertices under `topology`, or `None` where
    /// the count does not form whole primitives of it.
    pub fn new(topology: Topology, vertex_count: usize) -> (r: Option<DrawBatch>)
        ensures
            r is Some <==> topology.spec_accepts(vertex_count as nat),
            r matches Some(b) ==> b.spec_topology() == topology && b.spec_vertex_count()
                == vertex_count,
    {
        if topology.accepts(vertex_count) {
            Some(DrawBatch { topology, vertex_count })
        } else {
            None
        }
    }

    pub fn topology(&self) -> (r: Topology)
        ensures
            r == self.spec_topology(),
    {
        self.topology
    }

    /// The batch's vertex count, which always forms whole primitives of its
    /// topology, and so is never below the topology's minimum.
    pub fn vertex_count(&self) -> (r: usize)
        ensures
            r == self.spec_vertex_count(),
            self.spec_topology().spec_accepts(r as nat),
            r >= self.spec_topology().spec_min_vertices(),
    {
        proof {
            use_type_invariant(self);
        }
        self.vertex_count
    }
}

/// Whole primitives of any topology take at least its minimum number of
/// vertices.
pub proof fn lemma_accepted_count_meets_minimum(t: Topology, n: nat)
    requires
        t.spec_accepts(n),
    ensures
        n >= t.spec_min_vertices(),
{
}

} // verus!
