//! The built graph and its per-frame execution.
//!
//! A graph owns its nodes' runtime groups, the resolved bindings of every
//! logical resource, and the per-node wait edges fixed at build time.
//! `run` executes one frame: it consults the surface acquisition (when a
//! surface is attached), asks every group to prepare, re-records commands
//! for groups that demand it, and lays out one submission per non-skipped
//! node, in graph order, with the wait/signal edges of its dependencies.
//! The GPU work itself is performed by the caller from the returned
//! report; the engine decides and records what a frame does.

use vstd::prelude::*;
use crate::builder::{
    graph_valid, is_surface, node_pass_clear, pass_clear, produced_before, produces,
    touches_surface, wait_entry_ok, NodeDecl, SurfaceInfo,
};
use crate::group::{Command, CommandEncoder, FrameContext, PrepareResult, QueueId, RenderGroup};
use crate::resource::{PhysicalBinding, ResourceHandle};

verus! {

/// Outcome of asking the surface for its next image; supplied by the
/// caller, who owns the presentation engine.
#[derive(Clone, Copy, Debug, PartialEq, Eq, Structural)]
pub enum AcquireOutcome {
    /// The image with this index was acquired.
    Acquired(u32),
    /// The surface geometry changed; the caller should rebuild the graph
    /// against a fresh surface and retry next tick.
    OutOfDate,
    /// The device reports an unrecoverable error.
    DeviceLost,
}

/// Why a frame did not run.  `SurfaceOutOfDate` is recoverable (skip the
/// frame, rebuild, continue); `DeviceLost` is fatal.
#[derive(Clone, Copy, Debug, PartialEq, Eq, Structural)]
pub enum RunError {
    SurfaceOutOfDate,
    DeviceLost,
}

/// One command-buffer submission laid out by `run`.
pub struct Submission {
    /// The node this submission executes.
    pub node: usize,
    /// Queue it is routed to.
    pub queue: QueueId,
    /// The commands, the pass's clear first.
    pub commands: Vec<Command>,
    /// Wait edges, one per input of the node: `Some(j)` waits on node
    /// `j`'s completion token, `None` marks an externally supplied input.
    pub wait_nodes: Vec<Option<usize>>,
    /// Whether the submission also waits on the surface acquisition.
    pub wait_acquire: bool,
    /// The completion token this submission signals: its node's index.
    pub signal: usize,
}

/// What one `run` call did, for the caller to carry out and for
/// diagnostics.
pub struct FrameReport {
    /// Index of the surface image acquired for this frame, if any.
    pub acquired: Option<u32>,
    /// Per node, what `prepare` decided.
    pub outcomes: Vec<PrepareResult>,
    /// One submission per non-skipped node, in graph order.
    pub submissions: Vec<Submission>,
    /// Index of the surface image to present after submission, if any.
    pub presented: Option<u32>,
}

/// The nodes submitted for these prepare outcomes: every node except
/// those that skipped, in graph order.
pub open spec fn submitted_nodes(outcomes: Seq<PrepareResult>, upto: int) -> Seq<int>
    decreases upto,
{
    if upto <= 0 {
        Seq::empty()
    } else {
        let pre = submitted_nodes(outcomes, upto - 1);
        if outcomes[upto - 1] is SkipDraw {
            pre
        } else {
            pre.push(upto - 1)
        }
    }
}

/// Copies a vector of plain values.
fn copy_vec<T: Copy>(v: &Vec<T>) -> (r: Vec<T>)
    ensures
        r@ == v@,
{
    let mut r: Vec<T> = Vec::new();
    let n = v.len();
    let mut i: usize = 0;
    while i < n
        invariant
            i <= n,
            n == v@.len(),
            r@.len() == i,
            forall|j: int| 0 <= j < i ==> r@[j] == v@[j],
        decreases n - i,
    {
        let x = v[i];
        r.push(x);
        i += 1;
    }
    proof {
        assert(r@ =~= v@);
    }
    r
}

/// The built, schedulable graph.  Produced only by a successful build;
/// immutable but for the group state, the command cache and the frame
/// counter that `run` maintains, and torn down explicitly by `dispose`.
pub struct Graph<G> {
    /// Node declarations, in execution order.
    pub decls: Vec<NodeDecl>,
    /// Per node, one wait edge per input (see [`Submission::wait_nodes`]).
    pub input_waits: Vec<Vec<Option<usize>>>,
    /// Per node, whether it reads or writes the surface image.
    pub uses_surface: Vec<bool>,
    /// The runtime group of each node.
    pub groups: Vec<G>,
    /// Resolved physical backing of every declared handle.
    pub bindings: Vec<PhysicalBinding>,
    /// The attached surface, if any.
    pub surface: Option<SurfaceInfo>,
    /// Per node, the commands recorded by its latest `draw`.
    pub cache: Vec<Vec<Command>>,
    /// Frames completed by `run`; diagnostics only.
    pub frames: u64,
    /// Whether the graph's resources have been torn down.
    pub disposed: bool,
}

impl<G: RenderGroup> Graph<G> {
    /// Structural well-formedness: what build establishes and every
    /// method preserves.
    pub open spec fn wf(self) -> bool {
        &&& graph_valid(self.decls@, self.surface, self.bindings@.len() as int)
        &&& self.groups@.len() == self.decls@.len()
        &&& self.cache@.len() == self.decls@.len()
        &&& self.input_waits@.len() == self.decls@.len()
        &&& self.uses_surface@.len() == self.decls@.len()
        &&& forall|i: int|
            0 <= i < self.decls@.len() ==> (#[trigger] self.input_waits@[i])@.len()
                == self.decls@[i].inputs@.len()
        &&& forall|i: int, k: int|
            0 <= i < self.decls@.len() && 0 <= k < self.decls@[i].inputs@.len()
                ==> wait_entry_ok(
                self.decls@,
                i,
                self.decls@[i].inputs@[k],
                #[trigger] self.input_waits@[i]@[k],
            )
        &&& forall|i: int|
            0 <= i < self.decls@.len() ==> (#[trigger] self.uses_surface@[i]) == touches_surface(
                self.decls@[i],
                self.surface,
            )
    }

    /// A graph that is well formed and not torn down; what `run` needs.
    pub open spec fn live(self) -> bool {
        &&& self.wf()
        &&& !self.disposed
        &&& forall|i: int| 0 <= i < self.groups@.len() ==> !(#[trigger] self.groups@[i]).disposed()
    }

    /// The frame context node `i` is prepared and drawn with.
    pub open spec fn ctx_for(self, i: int) -> FrameContext {
        FrameContext { frame_index: self.frames, subpass: i as usize, queue: self.decls@[i].queue }
    }

    /// Whether a presentable surface is attached.
    pub fn has_surface(&self) -> (b: bool)
        ensures
            b == (self.surface is Some),
    {
        self.surface.is_some()
    }

    /// Resolves a handle to its physical binding; valid for every handle
    /// the graph was built over.
    pub fn resolve(&self, h: ResourceHandle) -> (b: PhysicalBinding)
        requires
            h.id < self.bindings@.len(),
        ensures
            b == self.bindings@[h.id as int],
    {
        self.bindings[h.id]
    }

    /// Frames completed so far.
    pub fn frame_count(&self) -> (n: u64)
        ensures
            n == self.frames,
    {
        self.frames
    }

    /// The commands a submission for node `i` carries: the pass's clear
    /// first, then the node's cached commands.
    pub open spec fn frame_commands(self, i: int) -> Seq<Command> {
        match pass_clear(self.decls@[i], self.surface) {
            Some(cv) => seq![Command::Clear(cv)] + self.cache@[i]@,
            None => self.cache@[i]@,
        }
    }

    /// What `run` promises of each submission it lays out, judged
    /// against the graph's state when `run` returns.
    pub open spec fn submission_ok(self, s: Submission) -> bool {
        &&& s.node < self.decls@.len()
        &&& s.queue == self.decls@[s.node as int].queue
        &&& s.commands@ == self.frame_commands(s.node as int)
        &&& s.wait_nodes@ == self.input_waits@[s.node as int]@
        &&& s.wait_acquire == self.uses_surface@[s.node as int]
        &&& s.signal == s.node
    }

    /// Runs one frame.
    ///
    /// With no surface attached the acquisition outcome is never
    /// consulted: the frame runs, nothing is acquired and nothing is
    /// presented.  With a surface, a failed acquisition ends the frame
    /// before any group is touched — out-of-date surfaces are returned
    /// as the recoverable error, a lost device as the fatal one.
    ///
    /// A frame that runs prepares every group in graph order, re-records
    /// commands exactly for the groups that demanded it, and lays out one
    /// submission per non-skipped node, in graph order, carrying the
    /// pass's clear, the node's commands, the wait edges fixed at build
    /// time and the node's own completion signal.  A group that skipped
    /// is neither drawn nor submitted.  The caller performs the GPU work
    /// in report order and presents the acquired image last.
    pub fn run(&mut self, acquire: AcquireOutcome) -> (r: Result<FrameReport, RunError>)
        requires
            old(self).live(),
            old(self).frames < u64::MAX,
        ensures
            final(self).live(),
            final(self).decls@ == old(self).decls@,
            final(self).input_waits == old(self).input_waits,
            final(self).uses_surface == old(self).uses_surface,
            final(self).bindings == old(self).bindings,
            final(self).surface == old(self).surface,
            final(self).groups@.len() == old(self).groups@.len(),
            r is Ok <==> (old(self).surface is None || acquire is Acquired),
            r matches Err(e) ==> {
                &&& *final(self) == *old(self)
                &&& (e == RunError::SurfaceOutOfDate <==> acquire is OutOfDate)
                &&& (e == RunError::DeviceLost <==> acquire is DeviceLost)
            },
            r matches Ok(rep) ==> {
                &&& final(self).frames == old(self).frames + 1
                &&& rep.outcomes@.len() == old(self).decls@.len()
                &&& (old(self).surface is None ==> rep.acquired is None && rep.presented
                    is None)
                &&& (old(self).surface is None || (acquire matches AcquireOutcome::Acquired(ix)
                    && rep.acquired == Some(ix) && rep.presented == Some(ix)))
                &&& forall|i: int|
                    0 <= i < rep.outcomes@.len() ==> (#[trigger] rep.outcomes@[i]) == old(
                        self,
                    ).groups@[i].decision(old(self).ctx_for(i))
                &&& forall|i: int|
                    0 <= i < rep.outcomes@.len() ==> {
                        &&& (rep.outcomes@[i] is DrawRecord ==> (#[trigger] final(self).cache@[i])@ == old(self).groups@[i].commands_for(old(self).ctx_for(i)))
                        &&& (!(rep.outcomes@[i] is DrawRecord) ==> final(self).cache@[i]@ == old(self).cache@[i]@)
                    }
                &&& Seq::new(
                    rep.submissions@.len(),
                    |k: int| rep.submissions@[k].node as int,
                ) == submitted_nodes(rep.outcomes@, rep.outcomes@.len() as int)
                &&& forall|k: int|
                    0 <= k < rep.submissions@.len() ==> final(self).submission_ok(
                        #[trigger] rep.submissions@[k],
                    )
                &&& forall|k: int|
                    0 <= k < rep.submissions@.len() ==> !(rep.outcomes@[(
                    #[trigger] rep.submissions@[k]).node as int] is SkipDraw)
            },
    {
        let has_surface = self.surface.is_some();
        let acquired_idx: Option<u32>;
        if has_surface {
            match acquire {
                AcquireOutcome::Acquired(ix) => {
                    acquired_idx = Some(ix);
                },
                AcquireOutcome::OutOfDate => {
                    return Err(RunError::SurfaceOutOfDate);
                },
                AcquireOutcome::DeviceLost => {
                    return Err(RunError::DeviceLost);
                },
            }
        } else {
            acquired_idx = None;
        }
        let n = self.groups.len();

        // Prepare phase: every group, in graph order.
        let mut outcomes: Vec<PrepareResult> = Vec::new();
        let mut i: usize = 0;
        while i < n
            invariant
                i <= n,
                old(self).live(),
                n == self.groups@.len(),
                n == self.decls@.len(),
                self.decls == old(self).decls,
                self.input_waits == old(self).input_waits,
                self.uses_surface == old(self).uses_surface,
                self.bindings == old(self).bindings,
                self.surface == old(self).surface,
                self.cache == old(self).cache,
                self.frames == old(self).frames,
                self.disposed == old(self).disposed,
                outcomes@.len() == i,
                forall|j: int| 0 <= j < n ==> !(#[trigger] self.groups@[j]).disposed(),
                forall|j: int| i <= j < n ==> #[trigger] self.groups@[j] == old(self).groups@[j],
                forall|j: int|
                    0 <= j < i ==> (#[trigger] outcomes@[j]) == old(self).groups@[j].decision(
                        old(self).ctx_for(j),
                    ),
                forall|j: int, c: FrameContext|
                    0 <= j < n ==> #[trigger] self.groups@[j].commands_for(c) == old(self).groups@[j].commands_for(c),
            decreases n - i,
        {
            let ctx = FrameContext {
                frame_index: self.frames,
                subpass: i,
                queue: self.decls[i].queue,
            };
            proof {
                assert(ctx == old(self).ctx_for(i as int));
            }
            let pr = self.groups[i].prepare(&ctx);
            outcomes.push(pr);
            i += 1;
        }

        // Record phase: exactly the groups that demanded re-recording.
        i = 0;
        while i < n
            invariant
                i <= n,
                old(self).live(),
                n == self.groups@.len(),
                n == self.decls@.len(),
                n == self.cache@.len(),
                self.decls == old(self).decls,
                self.input_waits == old(self).input_waits,
                self.uses_surface == old(self).uses_surface,
                self.bindings == old(self).bindings,
                self.surface == old(self).surface,
                self.frames == old(self).frames,
                self.disposed == old(self).disposed,
                outcomes@.len() == n,
                forall|j: int| 0 <= j < n ==> !(#[trigger] self.groups@[j]).disposed(),
                forall|j: int, c: FrameContext|
                    i <= j < n ==> #[trigger] self.groups@[j].commands_for(c) == old(self).groups@[j].commands_for(c),
                forall|j: int|
                    0 <= j < i ==> {
                        &&& (outcomes@[j] is DrawRecord ==> (#[trigger] self.cache@[j])@ == old(self).groups@[j].commands_for(old(self).ctx_for(j)))
                        &&& (!(outcomes@[j] is DrawRecord) ==> self.cache@[j]@ == old(self).cache@[j]@)
                    },
                forall|j: int| i <= j < n ==> (#[trigger] self.cache@[j])@ == old(self).cache@[j]@,
            decreases n - i,
        {
            let pr = outcomes[i];
            match pr {
                PrepareResult::DrawRecord => {
                    let ctx = FrameContext {
                        frame_index: self.frames,
                        subpass: i,
                        queue: self.decls[i].queue,
                    };
                    let mut enc = CommandEncoder::new();
                    self.groups[i].draw(&mut enc, &ctx);
                    let cmds = enc.finish();
                    proof {
                        assert(Seq::<Command>::empty() + old(self).groups@[i as int].commands_for(
                            old(self).ctx_for(i as int),
                        ) =~= old(self).groups@[i as int].commands_for(old(self).ctx_for(i as int)));
                    }
                    self.cache[i] = cmds;
                },
                _ => {},
            }
            i += 1;
        }

        // Submission phase: one submission per non-skipped node, in
        // graph order, with the wait edges fixed at build time.
        let mut submissions: Vec<Submission> = Vec::new();
        i = 0;
        while i < n
            invariant
                i <= n,
                old(self).live(),
                n == self.groups@.len(),
                n == self.decls@.len(),
                n == self.cache@.len(),
                n == self.input_waits@.len(),
                n == self.uses_surface@.len(),
                self.decls == old(self).decls,
                self.input_waits == old(self).input_waits,
                self.uses_surface == old(self).uses_surface,
                self.bindings == old(self).bindings,
                self.surface == old(self).surface,
                self.frames == old(self).frames,
                self.disposed == old(self).disposed,
                outcomes@.len() == n,
                forall|j: int| 0 <= j < n ==> !(#[trigger] self.groups@[j]).disposed(),
                Seq::new(submissions@.len(), |k: int| submissions@[k].node as int)
                    == submitted_nodes(outcomes@, i as int),
                forall|k: int|
                    0 <= k < submissions@.len() ==> self.submission_ok(
                        #[trigger] submissions@[k],
                    ),
                forall|k: int|
                    0 <= k < submissions@.len() ==> !(outcomes@[(
                    #[trigger] submissions@[k]).node as int] is SkipDraw),
            decreases n - i,
        {
            let pr = outcomes[i];
            let skip = match pr {
                PrepareResult::SkipDraw => true,
                _ => false,
            };
            if !skip {
                let mut cmds: Vec<Command> = Vec::new();
                match node_pass_clear(&self.decls[i], &self.surface) {
                    Some(cv) => {
                        cmds.push(Command::Clear(cv));
                    },
                    None => {},
                }
                let mut cached = copy_vec(&self.cache[i]);
                cmds.append(&mut cached);
                proof {
                    assert(cmds@ =~= self.frame_commands(i as int));
                }
                let waits = copy_vec(&self.input_waits[i]);
                let s = Submission {
                    node: i,
                    queue: self.decls[i].queue,
                    commands: cmds,
                    wait_nodes: waits,
                    wait_acquire: self.uses_surface[i],
                    signal: i,
                };
                submissions.push(s);
                proof {
                    assert(Seq::new(submissions@.len(), |k: int| submissions@[k].node as int)
                        =~= submitted_nodes(outcomes@, i + 1));
                }
            } else {
                proof {
                    assert(Seq::new(submissions@.len(), |k: int| submissions@[k].node as int)
                        =~= submitted_nodes(outcomes@, i + 1));
                }
            }
            i += 1;
        }
        self.frames = self.frames + 1;
        Ok(FrameReport { acquired: acquired_idx, outcomes, submissions, presented: acquired_idx })
    }

    /// Tears the graph down, disposing every group exactly once.  A
    /// second call is a no-op: the graph is left exactly as it was.
    pub fn dispose(&mut self)
        ensures
            final(self).disposed,
            old(self).disposed ==> *final(self) == *old(self),
            final(self).groups@.len() == old(self).groups@.len(),
            !old(self).disposed ==> forall|i: int|
                0 <= i < final(self).groups@.len() ==> (#[trigger] final(self).groups@[i]).disposed(),
            final(self).decls@ == old(self).decls@,
            final(self).input_waits == old(self).input_waits,
            final(self).uses_surface == old(self).uses_surface,
            final(self).bindings == old(self).bindings,
            final(self).surface == old(self).surface,
            final(self).cache == old(self).cache,
            final(self).frames == old(self).frames,
            old(self).wf() ==> final(self).wf(),
    {
        if self.disposed {
            return ;
        }
        let n = self.groups.len();
        let mut i: usize = 0;
        while i < n
            invariant
                i <= n,
                n == self.groups@.len(),
                forall|j: int| 0 <= j < i ==> (#[trigger] self.groups@[j]).disposed(),
                forall|j: int| i <= j < n ==> self.groups@[j] == old(self).groups@[j],
                self.decls == old(self).decls,
                self.input_waits == old(self).input_waits,
                self.uses_surface == old(self).uses_surface,
                self.bindings == old(self).bindings,
                self.surface == old(self).surface,
                self.cache == old(self).cache,
                self.frames == old(self).frames,
                self.disposed == old(self).disposed,
            decreases n - i,
        {
            self.groups[i].dispose();
            i += 1;
        }
        self.disposed = true;
    }
}

/// When node `b` consumes a handle that node `a` produces, `a` executes
/// before `b` in the schedule, and `b`'s wait edge for that input names
/// `a`'s completion signal — `b`'s submission waits on `a`.  (An input
/// that is the surface image is supplied by acquisition instead, and
/// the submission waits on the acquisition.)
pub proof fn lemma_consumer_waits_on_producer<G: RenderGroup>(
    g: Graph<G>,
    a: usize,
    b: usize,
    k: usize,
)
    requires
        g.wf(),
        a < g.decls@.len(),
        b < g.decls@.len(),
        k < g.decls@[b as int].inputs@.len(),
        produces(g.decls@[a as int], g.decls@[b as int].inputs@[k as int]),
        !is_surface(g.surface, g.decls@[b as int].inputs@[k as int]),
    ensures
        a < b,
        g.input_waits@[b as int]@[k as int] == Some(a),
{
    let h = g.decls@[b as int].inputs@[k as int];
    let n = g.bindings@.len() as int;
    crate::builder::lemma_schedule_respects_dependencies(
        g.decls@,
        g.surface,
        n,
        b as int,
        k as int,
        a as int,
    );
    assert(wait_entry_ok(g.decls@, b as int, h, g.input_waits@[b as int]@[k as int]));
    match g.input_waits@[b as int]@[k as int] {
        Some(j) => {
            crate::builder::lemma_producer_unique(g.decls@, g.surface, n, j as int, a as int, h);
        },
        None => {
            assert(produced_before(g.decls@, b as int, h));
            assert(false);
        },
    }
}

} // verus!
