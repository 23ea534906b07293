//! The simplest render group: it records no commands of its own, so a
//! pass carrying only this group shows exactly its clear value.

use vstd::prelude::*;
use crate::group::{
    BuildError, Command, CommandEncoder, FrameContext, GroupDesc, PrepareResult, RenderGroup,
};
use crate::resource::PhysicalBinding;

verus! {

/// A group that asks to record every frame and records nothing: the
/// engine-side clear of the pass is all the frame shows.
pub struct ClearGroup {
    pub torn_down: bool,
}

impl RenderGroup for ClearGroup {
    open spec fn disposed(&self) -> bool {
        self.torn_down
    }

    open spec fn commands_for(&self, ctx: FrameContext) -> Seq<Command> {
        Seq::empty()
    }

    open spec fn decision(&self, ctx: FrameContext) -> PrepareResult {
        PrepareResult::DrawRecord
    }

    fn prepare(&mut self, ctx: &FrameContext) -> (r: PrepareResult) {
        PrepareResult::DrawRecord
    }

    fn draw(&mut self, encoder: &mut CommandEncoder, ctx: &FrameContext) {
        proof {
            assert(old(encoder)@ + Seq::<Command>::empty() =~= old(encoder)@);
        }
    }

    fn dispose(&mut self) {
        self.torn_down = true;
    }
}

/// Descriptor for [`ClearGroup`]; building it never fails.
pub struct ClearGroupDesc {}

impl ClearGroupDesc {
    pub fn new() -> (d: ClearGroupDesc) {
        ClearGroupDesc {}
    }
}

impl GroupDesc for ClearGroupDesc {
    type Group = ClearGroup;

    open spec fn build_succeeds(&self) -> bool {
        true
    }

    fn build_group(&self, bindings: &Vec<PhysicalBinding>) -> (r: Result<
        ClearGroup,
        BuildError,
    >) {
        Ok(ClearGroup { torn_down: false })
    }
}

} // verus!
