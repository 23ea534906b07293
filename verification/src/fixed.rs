//! A render group with a fixed draw list and a fixed prepare decision.
//!
//! It stands for the static passes the engine's reuse paths exist for: a
//! pass whose commands never change can answer `DrawReuse` (or skip
//! entirely) instead of re-recording every frame.

use vstd::prelude::*;
use crate::group::{
    BuildError, Command, CommandEncoder, FrameContext, GroupDesc, PrepareResult, RenderGroup,
};
use crate::resource::PhysicalBinding;

verus! {

/// A group that always answers `decision` from `prepare` and, when asked
/// to draw, records one draw call over `vertex_count` vertices.
pub struct FixedGroup {
    pub decision: PrepareResult,
    pub vertex_count: u32,
    pub torn_down: bool,
}

impl RenderGroup for FixedGroup {
    open spec fn disposed(&self) -> bool {
        self.torn_down
    }

    open spec fn commands_for(&self, ctx: FrameContext) -> Seq<Command> {
        seq![Command::Draw { vertex_count: self.vertex_count }]
    }

    open spec fn decision(&self, ctx: FrameContext) -> PrepareResult {
        self.decision
    }

    fn prepare(&mut self, ctx: &FrameContext) -> (r: PrepareResult) {
        self.decision
    }

    fn draw(&mut self, encoder: &mut CommandEncoder, ctx: &FrameContext) {
        encoder.record_draw(self.vertex_count);
        proof {
            assert(old(encoder)@.push(Command::Draw { vertex_count: self.vertex_count })
                =~= old(encoder)@ + old(self).commands_for(*ctx));
        }
    }

    fn dispose(&mut self) {
        self.torn_down = true;
    }
}

/// Descriptor for [`FixedGroup`].  `fail_code` makes the builder
/// callback fail with that code instead, exercising the build-abort
/// path a resource-exhausted device would take.
pub struct FixedGroupDesc {
    pub decision: PrepareResult,
    pub vertex_count: u32,
    pub fail_code: Option<u64>,
}

impl GroupDesc for FixedGroupDesc {
    type Group = FixedGroup;

    open spec fn build_succeeds(&self) -> bool {
        self.fail_code is None
    }

    fn build_group(&self, bindings: &Vec<PhysicalBinding>) -> (r: Result<
        FixedGroup,
        BuildError,
    >) {
        match self.fail_code {
            Some(code) => Err(BuildError { code }),
            None => Ok(
                FixedGroup {
                    decision: self.decision,
                    vertex_count: self.vertex_count,
                    torn_down: false,
                },
            ),
        }
    }
}

} // verus!
