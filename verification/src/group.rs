//! Render groups: the per-node runtime objects and their build descriptors.
//!
//! A group lives through `prepare` (decide whether this frame's commands
//! must be re-recorded), `draw` (record them), and `dispose` (tear down,
//! idempotently).  Concrete groups are supplied by the user of the engine
//! through the [`GroupDesc`] builder callback; the engine only relies on
//! the contracts stated here.

use vstd::prelude::*;
use crate::resource::{ClearValue, PhysicalBinding};

verus! {

/// Routing tag naming the hardware queue a submission targets; opaque to
/// the engine beyond routing.
#[derive(Clone, Copy, Debug, PartialEq, Eq, Structural)]
pub struct QueueId {
    pub index: usize,
}

/// What `prepare` decides for a group in one frame.
#[derive(Clone, Copy, Debug, PartialEq, Eq, Structural)]
pub enum PrepareResult {
    /// Record no commands and submit nothing for this node this frame.
    SkipDraw,
    /// Re-record this node's commands this frame.
    DrawRecord,
    /// Submit the commands recorded in an earlier frame unchanged.
    DrawReuse,
}

/// One recorded GPU command, as plain data.
#[derive(Clone, Copy, Debug, PartialEq, Eq, Structural)]
pub enum Command {
    /// Clear the pass's color target; recorded by the engine when a pass
    /// carries a clear value, never by a group.
    Clear(ClearValue),
    /// A draw call over `vertex_count` vertices.
    Draw { vertex_count: u32 },
}

/// Per-frame context handed to a group's `prepare` and `draw`.
#[derive(Clone, Copy, Debug, PartialEq, Eq, Structural)]
pub struct FrameContext {
    /// Value of the graph's frame counter for this tick.
    pub frame_index: u64,
    /// Position of the node in the graph's execution order.
    pub subpass: usize,
    /// Queue the node's submission is routed to.
    pub queue: QueueId,
}

/// Recording context a group writes commands into during `draw`.
pub struct CommandEncoder {
    commands: Vec<Command>,
}

impl View for CommandEncoder {
    type V = Seq<Command>;

    closed spec fn view(&self) -> Seq<Command> {
        self.commands@
    }
}

impl CommandEncoder {
    pub fn new() -> (e: CommandEncoder)
        ensures
            e@ == Seq::<Command>::empty(),
    {
        CommandEncoder { commands: Vec::new() }
    }

    /// Records one draw call.
    pub fn record_draw(&mut self, vertex_count: u32)
        ensures
            final(self)@ == old(self)@.push(Command::Draw { vertex_count }),
    {
        self.commands.push(Command::Draw { vertex_count });
    }

    /// Hands the recorded commands over, consuming the encoder.
    pub fn finish(self) -> (v: Vec<Command>)
        ensures
            v@ == self@,
    {
        self.commands
    }
}

/// The runtime unit of work for one graph node.
///
/// The engine guarantees: `prepare` is called once per node per frame, in
/// graph order; `draw` is called only for nodes whose `prepare` returned
/// [`PrepareResult::DrawRecord`], and never after `dispose`; `dispose` is
/// called once on graph teardown, and a second call must leave the group
/// unchanged.
pub trait RenderGroup: Sized {
    /// Whether the group's resources have been torn down.
    spec fn disposed(&self) -> bool;

    /// The commands this group would record for the given frame context.
    spec fn commands_for(&self, ctx: FrameContext) -> Seq<Command>;

    /// What `prepare` decides for the given frame context.
    spec fn decision(&self, ctx: FrameContext) -> PrepareResult;

    /// CPU-side per-frame work; decides whether this node's commands are
    /// skipped, re-recorded or reused this frame.  Must not change what
    /// the group would record.
    fn prepare(&mut self, ctx: &FrameContext) -> (r: PrepareResult)
        requires
            !old(self).disposed(),
        ensures
            !final(self).disposed(),
            r == old(self).decision(*ctx),
            forall|c: FrameContext| final(self).commands_for(c) == old(self).commands_for(c),
    ;

    /// Records this frame's commands into the encoder, appending exactly
    /// what [`RenderGroup::commands_for`] states.
    fn draw(&mut self, encoder: &mut CommandEncoder, ctx: &FrameContext)
        requires
            !old(self).disposed(),
        ensures
            !final(self).disposed(),
            final(encoder)@ == old(encoder)@ + old(self).commands_for(*ctx),
    ;

    /// Releases the group's resources.  Disposing twice is harmless: the
    /// second call leaves the group exactly as it was.
    fn dispose(&mut self)
        ensures
            final(self).disposed(),
            old(self).disposed() ==> *final(self) == *old(self),
    ;
}

/// Build-time descriptor producing one [`RenderGroup`] instance once the
/// graph's physical bindings are resolved.
pub trait GroupDesc: Sized {
    type Group: RenderGroup;

    /// Whether this descriptor's builder callback succeeds.
    spec fn build_succeeds(&self) -> bool;

    /// Builder callback: produces the runtime group from the bindings
    /// resolved for the node's resources (inputs first, then outputs).
    /// Fails exactly when [`GroupDesc::build_succeeds`] is false; a fresh
    /// group is never disposed.
    fn build_group(&self, bindings: &Vec<PhysicalBinding>) -> (r: Result<
        Self::Group,
        BuildError,
    >)
        ensures
            r is Ok <==> self.build_succeeds(),
            r matches Ok(g) ==> !g.disposed(),
    ;
}

/// Failure of a node's builder callback (for example device resource
/// exhaustion); the payload is the descriptor's own diagnostic code.
#[derive(Clone, Copy, Debug, PartialEq, Eq, Structural)]
pub struct BuildError {
    pub code: u64,
}

} // verus!
