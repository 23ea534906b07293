use render_graph::builder::{
    DependencyError, GraphBuildError, GraphBuilder, NodeDecl, NodeDescriptor, SurfaceInfo,
};
use render_graph::clear::ClearGroupDesc;
use render_graph::fixed::FixedGroupDesc;
use render_graph::graph::{AcquireOutcome, RunError};
use render_graph::group::{BuildError, PrepareResult, QueueId};
use render_graph::resource::{HandleTable, Lifetime, ResourceHandle, Usage};

fn fixed_desc() -> FixedGroupDesc {
    FixedGroupDesc { decision: PrepareResult::DrawRecord, vertex_count: 3, fail_code: None }
}

#[test]
fn undeclared_input_handle_fails_the_build() {
    let mut b: GraphBuilder<FixedGroupDesc> = GraphBuilder::new();
    let bogus = ResourceHandle { id: 9 };
    b.add_node(NodeDescriptor {
        decl: NodeDecl {
            inputs: vec![bogus],
            outputs: vec![],
            clear: None,
            queue: QueueId { index: 0 },
        },
        desc: fixed_desc(),
    });
    let err = b.build().err().unwrap();
    assert_eq!(
        err,
        GraphBuildError::Dependency(DependencyError::Undeclared { node: 0, handle: bogus })
    );
}

#[test]
fn input_with_no_producer_fails_the_build() {
    let mut b: GraphBuilder<FixedGroupDesc> = GraphBuilder::new();
    let orphan = b.allocate(Usage::Sampled, Lifetime::FrameLocal);
    b.add_node(NodeDescriptor {
        decl: NodeDecl {
            inputs: vec![orphan],
            outputs: vec![],
            clear: None,
            queue: QueueId { index: 0 },
        },
        desc: fixed_desc(),
    });
    let err = b.build().err().unwrap();
    assert_eq!(
        err,
        GraphBuildError::Dependency(DependencyError::Unproduced { node: 0, handle: orphan })
    );
}

#[test]
fn consumer_added_before_its_producer_fails_the_build() {
    // the schedule is insertion order, so a producer must be added first
    let mut b: GraphBuilder<FixedGroupDesc> = GraphBuilder::new();
    let img = b.allocate(Usage::Sampled, Lifetime::FrameLocal);
    b.add_node(NodeDescriptor {
        decl: NodeDecl {
            inputs: vec![img],
            outputs: vec![],
            clear: None,
            queue: QueueId { index: 0 },
        },
        desc: fixed_desc(),
    });
    b.add_node(NodeDescriptor {
        decl: NodeDecl {
            inputs: vec![],
            outputs: vec![img],
            clear: None,
            queue: QueueId { index: 0 },
        },
        desc: fixed_desc(),
    });
    let err = b.build().err().unwrap();
    assert_eq!(
        err,
        GraphBuildError::Dependency(DependencyError::Unproduced { node: 0, handle: img })
    );
}

#[test]
fn second_producer_of_a_handle_fails_the_build() {
    let mut b: GraphBuilder<FixedGroupDesc> = GraphBuilder::new();
    let img = b.allocate(Usage::ColorAttachment, Lifetime::FrameLocal);
    b.add_node(NodeDescriptor {
        decl: NodeDecl {
            inputs: vec![],
            outputs: vec![img],
            clear: None,
            queue: QueueId { index: 0 },
        },
        desc: fixed_desc(),
    });
    b.add_node(NodeDescriptor {
        decl: NodeDecl {
            inputs: vec![],
            outputs: vec![img],
            clear: None,
            queue: QueueId { index: 0 },
        },
        desc: fixed_desc(),
    });
    let err = b.build().err().unwrap();
    assert_eq!(
        err,
        GraphBuildError::Dependency(DependencyError::AlreadyProduced { node: 1, handle: img })
    );
}

#[test]
fn foreign_surface_handle_fails_the_build() {
    // a surface handle from some other builder's table is undeclared here
    let b: GraphBuilder<ClearGroupDesc> = GraphBuilder {
        table: HandleTable::new(),
        nodes: vec![],
        surface: Some(SurfaceInfo { handle: ResourceHandle { id: 3 }, clear: None }),
    };
    let err = b.build().err().unwrap();
    assert_eq!(
        err,
        GraphBuildError::Dependency(DependencyError::SurfaceUndeclared {
            handle: ResourceHandle { id: 3 },
        })
    );
}

#[test]
fn failing_builder_callback_aborts_the_whole_build() {
    let mut b: GraphBuilder<FixedGroupDesc> = GraphBuilder::new();
    let first = b.allocate(Usage::ColorAttachment, Lifetime::FrameLocal);
    let second = b.allocate(Usage::ColorAttachment, Lifetime::FrameLocal);
    b.add_node(NodeDescriptor {
        decl: NodeDecl {
            inputs: vec![],
            outputs: vec![first],
            clear: None,
            queue: QueueId { index: 0 },
        },
        desc: fixed_desc(),
    });
    b.add_node(NodeDescriptor {
        decl: NodeDecl {
            inputs: vec![],
            outputs: vec![second],
            clear: None,
            queue: QueueId { index: 0 },
        },
        desc: FixedGroupDesc {
            decision: PrepareResult::DrawRecord,
            vertex_count: 3,
            fail_code: Some(7),
        },
    });
    let err = b.build().err().unwrap();
    assert_eq!(err, GraphBuildError::Build(BuildError { code: 7 }));
}

#[test]
fn out_of_date_surface_is_recoverable() {
    let mut b: GraphBuilder<ClearGroupDesc> = GraphBuilder::new();
    let surface = b.with_surface(None);
    b.add_node(NodeDescriptor {
        decl: NodeDecl {
            inputs: vec![],
            outputs: vec![surface],
            clear: None,
            queue: QueueId { index: 0 },
        },
        desc: ClearGroupDesc::new(),
    });
    let mut g = b.build().unwrap();
    let err = g.run(AcquireOutcome::OutOfDate).err().unwrap();
    assert_eq!(err, RunError::SurfaceOutOfDate);
    // the failed frame was not counted, and the graph still runs
    assert_eq!(g.frame_count(), 0);
    let rep = g.run(AcquireOutcome::Acquired(2)).unwrap();
    assert_eq!(rep.presented, Some(2));
    assert_eq!(g.frame_count(), 1);
}

#[test]
fn lost_device_is_fatal() {
    let mut b: GraphBuilder<ClearGroupDesc> = GraphBuilder::new();
    let surface = b.with_surface(None);
    b.add_node(NodeDescriptor {
        decl: NodeDecl {
            inputs: vec![],
            outputs: vec![surface],
            clear: None,
            queue: QueueId { index: 0 },
        },
        desc: ClearGroupDesc::new(),
    });
    let mut g = b.build().unwrap();
    let err = g.run(AcquireOutcome::DeviceLost).err().unwrap();
    assert_eq!(err, RunError::DeviceLost);
    assert_eq!(g.frame_count(), 0);
}
