//! Graph building: node declarations, dependency validation, and the
//! builder that turns validated declarations into a runnable graph.
//!
//! Validation demands that every input of a node is either produced by an
//! earlier node or externally supplied by the attached surface, and that
//! no handle has two producers.  Insertion order is therefore already a
//! topological order of the producer/consumer edges, and it is kept as
//! the execution schedule, which makes scheduling deterministic (ties are
//! broken by insertion).

use vstd::prelude::*;
use crate::graph::Graph;
use crate::group::{BuildError, Command, GroupDesc, QueueId, RenderGroup};
use crate::resource::{
    ClearValue, HandleTable, Lifetime, PhysicalBinding, ResourceDecl, ResourceHandle, Usage,
};

verus! {

/// A presentable surface attached as the final output of the graph.
#[derive(Clone, Copy, Debug, PartialEq, Eq, Structural)]
pub struct SurfaceInfo {
    /// Handle standing for the acquired surface image; externally
    /// supplied each frame, so nodes may consume it without a producer.
    pub handle: ResourceHandle,
    /// Clear value applied when the pass writing the surface begins.
    pub clear: Option<ClearValue>,
}

/// Declaration of one render node's resource interface.
pub struct NodeDecl {
    /// Handles the node reads; each must be produced earlier or be the
    /// surface.
    pub inputs: Vec<ResourceHandle>,
    /// Handles the node writes; each must have no other producer.
    pub outputs: Vec<ResourceHandle>,
    /// Clear applied when this node's pass begins, if any.
    pub clear: Option<ClearValue>,
    /// Queue the node's submission is routed to.
    pub queue: QueueId,
}

/// One node fed to the builder: its declaration plus the descriptor
/// whose callback builds the runtime group.
pub struct NodeDescriptor<D> {
    pub decl: NodeDecl,
    pub desc: D,
}

/// True when node `d` declares `h` as an output.
pub open spec fn produces(d: NodeDecl, h: ResourceHandle) -> bool {
    exists|k: int| 0 <= k < d.outputs@.len() && d.outputs@[k] == h
}

/// True when node `d` declares `h` as an input.
pub open spec fn consumes(d: NodeDecl, h: ResourceHandle) -> bool {
    exists|k: int| 0 <= k < d.inputs@.len() && d.inputs@[k] == h
}

/// True when some node before position `i` produces `h`.
pub open spec fn produced_before(decls: Seq<NodeDecl>, i: int, h: ResourceHandle) -> bool {
    exists|j: int| 0 <= j < i && #[trigger] produces(decls[j], h)
}

/// True when `h` stands for the attached surface's image.
pub open spec fn is_surface(surface: Option<SurfaceInfo>, h: ResourceHandle) -> bool {
    surface matches Some(s) && s.handle == h
}

/// An input is valid when declared in the table and either externally
/// supplied (the surface) or produced by an earlier node.
pub open spec fn input_ok(
    decls: Seq<NodeDecl>,
    surface: Option<SurfaceInfo>,
    n_handles: int,
    i: int,
    h: ResourceHandle,
) -> bool {
    h.id < n_handles && (is_surface(surface, h) || produced_before(decls, i, h))
}

/// An output is valid when declared in the table and not produced by any
/// earlier node (each handle has at most one producer).
pub open spec fn output_ok(decls: Seq<NodeDecl>, n_handles: int, i: int, h: ResourceHandle) -> bool {
    h.id < n_handles && !produced_before(decls, i, h)
}

/// All of node `i`'s inputs and outputs are valid.
pub open spec fn node_ok(
    decls: Seq<NodeDecl>,
    surface: Option<SurfaceInfo>,
    n_handles: int,
    i: int,
) -> bool {
    &&& forall|k: int|
        0 <= k < decls[i].inputs@.len() ==> input_ok(
            decls,
            surface,
            n_handles,
            i,
            #[trigger] decls[i].inputs@[k],
        )
    &&& forall|k: int|
        0 <= k < decls[i].outputs@.len() ==> output_ok(
            decls,
            n_handles,
            i,
            #[trigger] decls[i].outputs@[k],
        )
}

/// The whole declaration set is buildable: the surface handle (if any)
/// is declared, and every node's interface is valid.
pub open spec fn graph_valid(
    decls: Seq<NodeDecl>,
    surface: Option<SurfaceInfo>,
    n_handles: int,
) -> bool {
    &&& (surface matches Some(s) ==> s.handle.id < n_handles)
    &&& forall|i: int| 0 <= i < decls.len() ==> #[trigger] node_ok(decls, surface, n_handles, i)
}

/// The declarations carried by a sequence of builder nodes.
pub open spec fn decls_of<D>(nodes: Seq<NodeDescriptor<D>>) -> Seq<NodeDecl> {
    Seq::new(nodes.len(), |i: int| nodes[i].decl)
}

/// One recorded wait edge for an input of node `i`: `Some(j)` names the
/// producer the submission waits on; `None` marks an externally supplied
/// input (no node produces it).
pub open spec fn wait_entry_ok(decls: Seq<NodeDecl>, i: int, h: ResourceHandle, w: Option<
    usize,
>) -> bool {
    match w {
        Some(j) => j < i && produces(decls[j as int], h),
        None => !produced_before(decls, i, h),
    }
}

/// True when node `d` reads or writes the attached surface image, and
/// its submission therefore waits on the acquisition.
pub open spec fn touches_surface(d: NodeDecl, surface: Option<SurfaceInfo>) -> bool {
    surface matches Some(s) && (produces(d, s.handle) || consumes(d, s.handle))
}

/// The clear the engine records when node `d`'s pass begins: the node's
/// own clear value, or the surface's if `d` renders to the surface.
pub open spec fn pass_clear(d: NodeDecl, surface: Option<SurfaceInfo>) -> Option<ClearValue> {
    match d.clear {
        Some(cv) => Some(cv),
        None => match surface {
            Some(s) => if produces(d, s.handle) {
                s.clear
            } else {
                None
            },
            None => None,
        },
    }
}

/// The physical backing planned for a handle declared as `d`: arena
/// index equal to the handle id, declaration kept as the narrowest
/// sufficient lifetime.
pub open spec fn binding_for(d: ResourceDecl, index: usize) -> PhysicalBinding {
    PhysicalBinding { index, usage: d.usage, lifetime: d.lifetime }
}

/// A node referenced a resource handle the builder cannot satisfy; the
/// build is aborted and its accumulated state discarded.
#[derive(Clone, Copy, Debug, PartialEq, Eq, Structural)]
pub enum DependencyError {
    /// A handle that was never allocated from this builder's table.
    Undeclared { node: usize, handle: ResourceHandle },
    /// An input that no earlier node produces and that is not the
    /// surface.
    Unproduced { node: usize, handle: ResourceHandle },
    /// An output some earlier node already produces.
    AlreadyProduced { node: usize, handle: ResourceHandle },
    /// The attached surface's handle was never allocated from this
    /// builder's table.
    SurfaceUndeclared { handle: ResourceHandle },
}

/// Why a build failed: a dependency the declarations cannot satisfy, or
/// a node's builder callback failing.
#[derive(Clone, Copy, Debug, PartialEq, Eq, Structural)]
pub enum GraphBuildError {
    Dependency(DependencyError),
    Build(BuildError),
}

/// The reported dependency error names a violation that actually stands
/// in the declarations.
pub open spec fn dependency_error_real(
    decls: Seq<NodeDecl>,
    surface: Option<SurfaceInfo>,
    n_handles: int,
    e: DependencyError,
) -> bool {
    match e {
        DependencyError::Undeclared { node, handle } => {
            &&& node < decls.len()
            &&& (consumes(decls[node as int], handle) || produces(decls[node as int], handle))
            &&& handle.id >= n_handles
        },
        DependencyError::Unproduced { node, handle } => {
            &&& node < decls.len()
            &&& consumes(decls[node as int], handle)
            &&& !is_surface(surface, handle)
            &&& !produced_before(decls, node as int, handle)
        },
        DependencyError::AlreadyProduced { node, handle } => {
            &&& node < decls.len()
            &&& produces(decls[node as int], handle)
            &&& produced_before(decls, node as int, handle)
        },
        DependencyError::SurfaceUndeclared { handle } => {
            &&& is_surface(surface, handle)
            &&& handle.id >= n_handles
        },
    }
}

/// Accumulates node descriptors and a surface attachment, then builds
/// the immutable graph.
pub struct GraphBuilder<D> {
    pub table: HandleTable,
    pub nodes: Vec<NodeDescriptor<D>>,
    pub surface: Option<SurfaceInfo>,
}

impl<D: GroupDesc> GraphBuilder<D> {
    pub fn new() -> (b: GraphBuilder<D>)
        ensures
            b.table.decls@ == Seq::<ResourceDecl>::empty(),
            b.nodes@ == Seq::<NodeDescriptor<D>>::empty(),
            b.surface is None,
    {
        GraphBuilder { table: HandleTable::new(), nodes: Vec::new(), surface: None }
    }

    /// Declares one logical resource for nodes of this graph to use.
    pub fn allocate(&mut self, usage: Usage, lifetime: Lifetime) -> (h: ResourceHandle)
        ensures
            h.id == old(self).table.decls@.len(),
            final(self).table.decls@ == old(self).table.decls@.push(
                ResourceDecl { usage, lifetime },
            ),
            final(self).nodes@ == old(self).nodes@,
            final(self).surface == old(self).surface,
    {
        self.table.allocate(usage, lifetime)
    }

    /// Appends a node; nodes execute in the order they are added.
    /// Returns the node's position for chaining further declarations.
    pub fn add_node(&mut self, node: NodeDescriptor<D>) -> (id: usize)
        ensures
            id == old(self).nodes@.len(),
            final(self).nodes@ == old(self).nodes@.push(node),
            final(self).table == old(self).table,
            final(self).surface == old(self).surface,
    {
        let id = self.nodes.len();
        self.nodes.push(node);
        id
    }

    /// Attaches a presentable surface as the graph's final output and
    /// returns the handle standing for its acquired image.  A node
    /// declaring that handle as an output renders to the surface; the
    /// clear value is applied when that node's pass begins.
    pub fn with_surface(&mut self, clear: Option<ClearValue>) -> (h: ResourceHandle)
        ensures
            h.id == old(self).table.decls@.len(),
            final(self).table.decls@ == old(self).table.decls@.push(
                ResourceDecl { usage: Usage::ColorAttachment, lifetime: Lifetime::FrameLocal },
            ),
            final(self).nodes@ == old(self).nodes@,
            final(self).surface == Some(SurfaceInfo { handle: h, clear }),
    {
        let h = self.table.allocate(Usage::ColorAttachment, Lifetime::FrameLocal);
        self.surface = Some(SurfaceInfo { handle: h, clear });
        h
    }
}

impl<D: GroupDesc> GraphBuilder<D> {
    /// Consumes the builder and produces the immutable graph, or fails
    /// without leaking any partially built state.
    ///
    /// Build proceeds in the order the contract names: the declarations
    /// are validated (every input produced earlier or supplied by the
    /// surface, no second producer), the execution schedule is fixed —
    /// validation makes insertion order a topological order of the
    /// producer/consumer edges, so it is kept, deterministically —
    /// physical backing is planned for every handle, and each node's
    /// builder callback is invoked with its resolved bindings.  A
    /// callback failure disposes every group already built and aborts
    /// the whole build.
    pub fn build(self) -> (r: Result<Graph<D::Group>, GraphBuildError>)
        ensures
            r is Ok <==> (graph_valid(
                decls_of(self.nodes@),
                self.surface,
                self.table.decls@.len() as int,
            ) && forall|i: int|
                0 <= i < self.nodes@.len() ==> (#[trigger] self.nodes@[i]).desc.build_succeeds()),
            r matches Err(GraphBuildError::Dependency(e)) ==> dependency_error_real(
                decls_of(self.nodes@),
                self.surface,
                self.table.decls@.len() as int,
                e,
            ),
            r matches Err(GraphBuildError::Dependency(_)) <==> !graph_valid(
                decls_of(self.nodes@),
                self.surface,
                self.table.decls@.len() as int,
            ),
            r matches Err(GraphBuildError::Build(_)) ==> exists|i: int|
                0 <= i < self.nodes@.len() && !(#[trigger] self.nodes@[i]).desc.build_succeeds(),
            r matches Ok(g) ==> {
                &&& g.live()
                &&& g.decls@ == decls_of(self.nodes@)
                &&& g.surface == self.surface
                &&& g.bindings@.len() == self.table.decls@.len()
                &&& forall|m: int|
                    0 <= m < g.bindings@.len() ==> g.bindings@[m] == binding_for(
                        self.table.decls@[m],
                        m as usize,
                    )
                &&& g.groups@.len() == self.nodes@.len()
                &&& g.frames == 0
                &&& forall|i: int|
                    0 <= i < g.cache@.len() ==> (#[trigger] g.cache@[i])@ == Seq::<
                        Command,
                    >::empty()
            },
    {
        let GraphBuilder { table, nodes, surface } = self;
        let n_handles = table.len();
        match validate(&nodes, surface, n_handles) {
            Some(e) => {
                return Err(GraphBuildError::Dependency(e));
            },
            None => {},
        }
        let n = nodes.len();

        // Physical backing, arena style: index = handle id.
        let mut bindings: Vec<PhysicalBinding> = Vec::new();
        let mut m: usize = 0;
        while m < n_handles
            invariant
                m <= n_handles,
                n_handles == table.decls@.len(),
                bindings@.len() == m,
                forall|p: int|
                    0 <= p < m ==> bindings@[p] == binding_for(table.decls@[p], p as usize),
            decreases n_handles - m,
        {
            let d = table.decl_of(ResourceHandle { id: m });
            bindings.push(PhysicalBinding { index: m, usage: d.usage, lifetime: d.lifetime });
            m += 1;
        }

        // Wait edges and surface use, per node.
        let ghost gdecls = decls_of(nodes@);
        let mut input_waits: Vec<Vec<Option<usize>>> = Vec::new();
        let mut uses_surface: Vec<bool> = Vec::new();
        let mut i: usize = 0;
        while i < n
            invariant
                i <= n,
                n == nodes@.len(),
                gdecls == decls_of(nodes@),
                input_waits@.len() == i,
                uses_surface@.len() == i,
                forall|j: int|
                    0 <= j < i ==> (#[trigger] input_waits@[j])@.len() == gdecls[j].inputs@.len(),
                forall|j: int, k: int|
                    0 <= j < i && 0 <= k < gdecls[j].inputs@.len() ==> wait_entry_ok(
                        gdecls,
                        j,
                        gdecls[j].inputs@[k],
                        #[trigger] input_waits@[j]@[k],
                    ),
                forall|j: int|
                    0 <= j < i ==> (#[trigger] uses_surface@[j]) == touches_surface(
                        gdecls[j],
                        surface,
                    ),
            decreases n - i,
        {
            let ins_len = nodes[i].decl.inputs.len();
            let mut waits: Vec<Option<usize>> = Vec::new();
            let mut k: usize = 0;
            while k < ins_len
                invariant
                    k <= ins_len,
                    i < n,
                    n == nodes@.len(),
                    gdecls == decls_of(nodes@),
                    ins_len == gdecls[i as int].inputs@.len(),
                    waits@.len() == k,
                    forall|p: int|
                        0 <= p < k ==> wait_entry_ok(
                            gdecls,
                            i as int,
                            gdecls[i as int].inputs@[p],
                            #[trigger] waits@[p],
                        ),
                decreases ins_len - k,
            {
                let h = nodes[i].decl.inputs[k];
                waits.push(find_producer(&nodes, i, h));
                k += 1;
            }
            input_waits.push(waits);
            let us = match &surface {
                Some(s) => {
                    decl_produces(&nodes[i].decl, s.handle) || decl_consumes(
                        &nodes[i].decl,
                        s.handle,
                    )
                },
                None => false,
            };
            uses_surface.push(us);
            i += 1;
        }

        // Builder callbacks, in schedule order; the first failure tears
        // down what was built and aborts.
        let mut groups: Vec<<D as GroupDesc>::Group> = Vec::new();
        i = 0;
        while i < n
            invariant
                i <= n,
                n == nodes@.len(),
                n_handles == table.decls@.len(),
                nodes@ == self.nodes@,
                surface == self.surface,
                table.decls@ == self.table.decls@,
                bindings@.len() == n_handles,
                gdecls == decls_of(nodes@),
                graph_valid(gdecls, surface, n_handles as int),
                groups@.len() == i,
                forall|j: int| 0 <= j < i ==> !(#[trigger] groups@[j]).disposed(),
                forall|j: int|
                    0 <= j < i ==> (#[trigger] nodes@[j]).desc.build_succeeds(),
            decreases n - i,
        {
            proof {
                assert(node_ok(gdecls, surface, n_handles as int, i as int));
            }
            let ins_len = nodes[i].decl.inputs.len();
            let outs_len = nodes[i].decl.outputs.len();
            let mut nb: Vec<PhysicalBinding> = Vec::new();
            let mut k: usize = 0;
            while k < ins_len
                invariant
                    k <= ins_len,
                    i < n,
                    n == nodes@.len(),
                    gdecls == decls_of(nodes@),
                    ins_len == gdecls[i as int].inputs@.len(),
                    bindings@.len() == n_handles,
                    node_ok(gdecls, surface, n_handles as int, i as int),
                decreases ins_len - k,
            {
                let h = nodes[i].decl.inputs[k];
                proof {
                    assert(input_ok(
                        gdecls,
                        surface,
                        n_handles as int,
                        i as int,
                        gdecls[i as int].inputs@[k as int],
                    ));
                }
                nb.push(bindings[h.id]);
                k += 1;
            }
            k = 0;
            while k < outs_len
                invariant
                    k <= outs_len,
                    i < n,
                    n == nodes@.len(),
                    gdecls == decls_of(nodes@),
                    outs_len == gdecls[i as int].outputs@.len(),
                    bindings@.len() == n_handles,
                    node_ok(gdecls, surface, n_handles as int, i as int),
                decreases outs_len - k,
            {
                let h = nodes[i].decl.outputs[k];
                proof {
                    assert(output_ok(
                        gdecls,
                        n_handles as int,
                        i as int,
                        gdecls[i as int].outputs@[k as int],
                    ));
                }
                nb.push(bindings[h.id]);
                k += 1;
            }
            match nodes[i].desc.build_group(&nb) {
                Ok(g) => {
                    groups.push(g);
                },
                Err(e) => {
                    proof {
                        assert(nodes@ =~= self.nodes@);
                        assert(!self.nodes@[i as int].desc.build_succeeds());
                        assert(graph_valid(
                            decls_of(self.nodes@),
                            self.surface,
                            self.table.decls@.len() as int,
                        ));
                    }
                    // No partial graph leaks: what was built is disposed.
                    let built = groups.len();
                    let mut j: usize = 0;
                    while j < built
                        invariant
                            j <= built,
                            built == groups@.len(),
                        decreases built - j,
                    {
                        groups[j].dispose();
                        j += 1;
                    }
                    return Err(GraphBuildError::Build(e));
                },
            }
            i += 1;
        }

        // Assemble: the nodes' declarations move into the graph, the
        // descriptors are consumed.
        let ghost orig = nodes@;
        let mut rest = nodes;
        let mut decls: Vec<NodeDecl> = Vec::new();
        while rest.len() > 0
            invariant
                decls@.len() + rest@.len() == orig.len(),
                forall|j: int| 0 <= j < decls@.len() ==> decls@[j] == orig[j].decl,
                forall|j: int|
                    0 <= j < rest@.len() ==> rest@[j] == orig[decls@.len() + j],
            decreases rest@.len(),
        {
            let nd = rest.remove(0);
            decls.push(nd.decl);
        }
        proof {
            assert(decls@ =~= decls_of(orig));
        }
        let mut cache: Vec<Vec<Command>> = Vec::new();
        i = 0;
        while i < n
            invariant
                i <= n,
                cache@.len() == i,
                forall|j: int|
                    0 <= j < i ==> (#[trigger] cache@[j])@ == Seq::<Command>::empty(),
            decreases n - i,
        {
            cache.push(Vec::new());
            i += 1;
        }
        Ok(
            Graph {
                decls,
                input_waits,
                uses_surface,
                groups,
                bindings,
                surface: surface,
                cache,
                frames: 0,
                disposed: false,
            },
        )
    }
}

/// Checks every node's interface against the declarations; `None` means
/// the graph is buildable, an error names the first violation found
/// (nodes in order, inputs before outputs).
fn validate<D: GroupDesc>(
    nodes: &Vec<NodeDescriptor<D>>,
    surface: Option<SurfaceInfo>,
    n_handles: usize,
) -> (r: Option<DependencyError>)
    ensures
        r is None <==> graph_valid(decls_of(nodes@), surface, n_handles as int),
        r matches Some(e) ==> dependency_error_real(decls_of(nodes@), surface, n_handles as int, e),
{
    let ghost gdecls = decls_of(nodes@);
    match &surface {
        Some(s) => {
            if s.handle.id >= n_handles {
                return Some(DependencyError::SurfaceUndeclared { handle: s.handle });
            }
        },
        None => {},
    }
    let n = nodes.len();
    let mut i: usize = 0;
    while i < n
        invariant
            i <= n,
            n == nodes@.len(),
            gdecls == decls_of(nodes@),
            surface matches Some(s) ==> s.handle.id < n_handles,
            forall|j: int| 0 <= j < i ==> #[trigger] node_ok(gdecls, surface, n_handles as int, j),
        decreases n - i,
    {
        let ins_len = nodes[i].decl.inputs.len();
        let mut k: usize = 0;
        while k < ins_len
            invariant
                k <= ins_len,
                i < n,
                n == nodes@.len(),
                gdecls == decls_of(nodes@),
                ins_len == gdecls[i as int].inputs@.len(),
                forall|p: int|
                    0 <= p < k ==> input_ok(
                        gdecls,
                        surface,
                        n_handles as int,
                        i as int,
                        #[trigger] gdecls[i as int].inputs@[p],
                    ),
            decreases ins_len - k,
        {
            let h = nodes[i].decl.inputs[k];
            if h.id >= n_handles {
                proof {
                    assert(consumes(gdecls[i as int], h));
                    assert(!node_ok(gdecls, surface, n_handles as int, i as int));
                }
                return Some(DependencyError::Undeclared { node: i, handle: h });
            }
            let is_sur = match &surface {
                Some(s) => s.handle.id == h.id,
                None => false,
            };
            if !is_sur {
                match find_producer(nodes, i, h) {
                    Some(_) => {},
                    None => {
                        proof {
                            assert(consumes(gdecls[i as int], h));
                            assert(!input_ok(gdecls, surface, n_handles as int, i as int, h));
                            assert(!node_ok(gdecls, surface, n_handles as int, i as int));
                        }
                        return Some(DependencyError::Unproduced { node: i, handle: h });
                    },
                }
            }
            k += 1;
        }
        let outs_len = nodes[i].decl.outputs.len();
        k = 0;
        while k < outs_len
            invariant
                k <= outs_len,
                i < n,
                n == nodes@.len(),
                gdecls == decls_of(nodes@),
                outs_len == gdecls[i as int].outputs@.len(),
                forall|p: int|
                    0 <= p < gdecls[i as int].inputs@.len() ==> input_ok(
                        gdecls,
                        surface,
                        n_handles as int,
                        i as int,
                        #[trigger] gdecls[i as int].inputs@[p],
                    ),
                forall|p: int|
                    0 <= p < k ==> output_ok(
                        gdecls,
                        n_handles as int,
                        i as int,
                        #[trigger] gdecls[i as int].outputs@[p],
                    ),
            decreases outs_len - k,
        {
            let h = nodes[i].decl.outputs[k];
            if h.id >= n_handles {
                proof {
                    assert(produces(gdecls[i as int], h));
                    assert(!node_ok(gdecls, surface, n_handles as int, i as int));
                }
                return Some(DependencyError::Undeclared { node: i, handle: h });
            }
            match find_producer(nodes, i, h) {
                Some(_) => {
                    proof {
                        assert(produces(gdecls[i as int], h));
                        assert(!output_ok(gdecls, n_handles as int, i as int, h));
                        assert(!node_ok(gdecls, surface, n_handles as int, i as int));
                    }
                    return Some(DependencyError::AlreadyProduced { node: i, handle: h });
                },
                None => {},
            }
            k += 1;
        }
        i += 1;
    }
    None
}

/// Each handle has at most one producer in a buildable graph: two nodes
/// producing the same handle are the same node.
pub proof fn lemma_producer_unique(
    decls: Seq<NodeDecl>,
    surface: Option<SurfaceInfo>,
    n_handles: int,
    p: int,
    q: int,
    h: ResourceHandle,
)
    requires
        graph_valid(decls, surface, n_handles),
        0 <= p < decls.len(),
        0 <= q < decls.len(),
        produces(decls[p], h),
        produces(decls[q], h),
    ensures
        p == q,
{
    if p < q {
        assert(node_ok(decls, surface, n_handles, q));
        assert(produced_before(decls, q, h));
        let k = choose|k: int| 0 <= k < decls[q].outputs@.len() && decls[q].outputs@[k] == h;
        assert(!output_ok(decls, n_handles, q, decls[q].outputs@[k]));
        assert(false);
    } else if q < p {
        assert(node_ok(decls, surface, n_handles, p));
        assert(produced_before(decls, p, h));
        let k = choose|k: int| 0 <= k < decls[p].outputs@.len() && decls[p].outputs@[k] == h;
        assert(!output_ok(decls, n_handles, p, decls[p].outputs@[k]));
        assert(false);
    }
}

/// The execution schedule respects every producer-before-consumer edge:
/// whichever node produces a non-surface input of node `c` stands
/// strictly earlier in the schedule.  (A surface input is supplied
/// externally by acquisition, not by a node.)
pub proof fn lemma_schedule_respects_dependencies(
    decls: Seq<NodeDecl>,
    surface: Option<SurfaceInfo>,
    n_handles: int,
    c: int,
    k: int,
    p: int,
)
    requires
        graph_valid(decls, surface, n_handles),
        0 <= c < decls.len(),
        0 <= k < decls[c].inputs@.len(),
        0 <= p < decls.len(),
        produces(decls[p], decls[c].inputs@[k]),
        !is_surface(surface, decls[c].inputs@[k]),
    ensures
        p < c,
{
    let h = decls[c].inputs@[k];
    assert(node_ok(decls, surface, n_handles, c));
    assert(input_ok(decls, surface, n_handles, c, h));
    assert(produced_before(decls, c, h));
    let j = choose|j: int| 0 <= j < c && #[trigger] produces(decls[j], h);
    lemma_producer_unique(decls, surface, n_handles, j, p, h);
}

/// The clear the engine records when node `d`'s pass begins.
pub(crate) fn node_pass_clear(d: &NodeDecl, surface: &Option<SurfaceInfo>) -> (r: Option<
    ClearValue,
>)
    ensures
        r == pass_clear(*d, *surface),
{
    match d.clear {
        Some(cv) => Some(cv),
        None => match surface {
            Some(s) => {
                if decl_produces(d, s.handle) {
                    s.clear
                } else {
                    None
                }
            },
            None => None,
        },
    }
}

/// True when node `d` declares `h` among its outputs.
fn decl_produces(d: &NodeDecl, h: ResourceHandle) -> (b: bool)
    ensures
        b == produces(*d, h),
{
    let mut k: usize = 0;
    let mut found = false;
    while k < d.outputs.len()
        invariant
            k <= d.outputs@.len(),
            found == exists|m: int| 0 <= m < k && d.outputs@[m] == h,
        decreases d.outputs@.len() - k,
    {
        if d.outputs[k].id == h.id {
            found = true;
        }
        k += 1;
    }
    found
}

/// True when node `d` declares `h` among its inputs.
fn decl_consumes(d: &NodeDecl, h: ResourceHandle) -> (b: bool)
    ensures
        b == consumes(*d, h),
{
    let mut k: usize = 0;
    let mut found = false;
    while k < d.inputs.len()
        invariant
            k <= d.inputs@.len(),
            found == exists|m: int| 0 <= m < k && d.inputs@[m] == h,
        decreases d.inputs@.len() - k,
    {
        if d.inputs[k].id == h.id {
            found = true;
        }
        k += 1;
    }
    found
}

/// Scans the nodes before position `upto` for the producer of `h`.
fn find_producer<D: GroupDesc>(
    nodes: &Vec<NodeDescriptor<D>>,
    upto: usize,
    h: ResourceHandle,
) -> (r: Option<usize>)
    requires
        upto <= nodes@.len(),
    ensures
        match r {
            Some(j) => j < upto && produces(decls_of(nodes@)[j as int], h),
            None => !produced_before(decls_of(nodes@), upto as int, h),
        },
{
    let mut j: usize = 0;
    let mut found: Option<usize> = None;
    while j < upto
        invariant
            j <= upto,
            upto <= nodes@.len(),
            match found {
                Some(p) => p < j && produces(decls_of(nodes@)[p as int], h),
                None => !produced_before(decls_of(nodes@), j as int, h),
            },
        decreases upto - j,
    {
        if found.is_none() {
            if decl_produces(&nodes[j].decl, h) {
                found = Some(j);
            }
        }
        j += 1;
    }
    found
}

} // verus!
