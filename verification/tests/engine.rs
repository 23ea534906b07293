use render_graph::builder::{GraphBuilder, NodeDecl, NodeDescriptor};
use render_graph::clear::ClearGroupDesc;
use render_graph::fixed::FixedGroupDesc;
use render_graph::graph::AcquireOutcome;
use render_graph::group::{Command, PrepareResult, QueueId};
use render_graph::resource::{ClearValue, Lifetime, Usage};

fn rgba(r: f32, g: f32, b: f32, a: f32) -> ClearValue {
    ClearValue {
        r_bits: r.to_bits(),
        g_bits: g.to_bits(),
        b_bits: b.to_bits(),
        a_bits: a.to_bits(),
    }
}

#[test]
fn single_clear_node_one_acquire_one_submission_one_present() {
    let clear = rgba(0.1, 0.2, 0.3, 1.0);
    let mut b: GraphBuilder<ClearGroupDesc> = GraphBuilder::new();
    let surface = b.with_surface(Some(clear));
    b.add_node(NodeDescriptor {
        decl: NodeDecl {
            inputs: vec![],
            outputs: vec![surface],
            clear: None,
            queue: QueueId { index: 0 },
        },
        desc: ClearGroupDesc::new(),
    });
    let mut g = b.build().unwrap();
    let rep = g.run(AcquireOutcome::Acquired(0)).unwrap();
    // exactly one acquire and one present, of the same image
    assert_eq!(rep.acquired, Some(0));
    assert_eq!(rep.presented, Some(0));
    // exactly one submission, carrying nothing beyond the clear
    assert_eq!(rep.submissions.len(), 1);
    let s = &rep.submissions[0];
    assert_eq!(s.node, 0);
    assert_eq!(s.commands, vec![Command::Clear(clear)]);
    assert!(s.wait_acquire);
    assert_eq!(s.signal, 0);
    assert_eq!(s.wait_nodes, vec![]);
    assert_eq!(g.frame_count(), 1);
}

#[test]
fn run_without_surface_never_acquires_or_presents() {
    let mut b: GraphBuilder<ClearGroupDesc> = GraphBuilder::new();
    let target = b.allocate(Usage::ColorAttachment, Lifetime::FrameLocal);
    b.add_node(NodeDescriptor {
        decl: NodeDecl {
            inputs: vec![],
            outputs: vec![target],
            clear: Some(rgba(0.0, 0.0, 0.0, 1.0)),
            queue: QueueId { index: 0 },
        },
        desc: ClearGroupDesc::new(),
    });
    let mut g = b.build().unwrap();
    // the acquisition outcome must not even be consulted
    let rep = g.run(AcquireOutcome::DeviceLost).unwrap();
    assert!(rep.acquired.is_none());
    assert!(rep.presented.is_none());
    assert_eq!(rep.submissions.len(), 1);
    assert!(!rep.submissions[0].wait_acquire);
    assert_eq!(g.frame_count(), 1);
}

#[test]
fn consumer_executes_after_producer_and_waits_on_its_signal() {
    let mut b: GraphBuilder<FixedGroupDesc> = GraphBuilder::new();
    let img = b.allocate(Usage::Sampled, Lifetime::FrameLocal);
    let surface = b.with_surface(Some(rgba(0.1, 0.2, 0.3, 1.0)));
    let node_a = b.add_node(NodeDescriptor {
        decl: NodeDecl {
            inputs: vec![],
            outputs: vec![img],
            clear: None,
            queue: QueueId { index: 0 },
        },
        desc: FixedGroupDesc {
            decision: PrepareResult::DrawRecord,
            vertex_count: 3,
            fail_code: None,
        },
    });
    let node_b = b.add_node(NodeDescriptor {
        decl: NodeDecl {
            inputs: vec![img],
            outputs: vec![surface],
            clear: None,
            queue: QueueId { index: 0 },
        },
        desc: FixedGroupDesc {
            decision: PrepareResult::DrawRecord,
            vertex_count: 6,
            fail_code: None,
        },
    });
    assert_eq!(node_a, 0);
    assert_eq!(node_b, 1);
    let mut g = b.build().unwrap();
    let rep = g.run(AcquireOutcome::Acquired(1)).unwrap();
    assert_eq!(rep.submissions.len(), 2);
    // producer first, consumer second
    assert_eq!(rep.submissions[0].node, 0);
    assert_eq!(rep.submissions[1].node, 1);
    // the consumer's submission waits on the producer's signal
    assert_eq!(rep.submissions[0].signal, 0);
    assert_eq!(rep.submissions[1].wait_nodes, vec![Some(0)]);
    // only the node touching the surface waits on acquisition
    assert!(!rep.submissions[0].wait_acquire);
    assert!(rep.submissions[1].wait_acquire);
    // the surface writer's pass opens with the surface clear
    assert_eq!(
        rep.submissions[1].commands,
        vec![Command::Clear(rgba(0.1, 0.2, 0.3, 1.0)), Command::Draw { vertex_count: 6 }]
    );
    assert_eq!(rep.submissions[0].commands, vec![Command::Draw { vertex_count: 3 }]);
}

#[test]
fn surface_reader_waits_on_acquisition_not_on_a_node() {
    // the surface image is externally supplied, so a node may read it
    // with no producer; its wait edge is the acquisition itself
    let mut b: GraphBuilder<FixedGroupDesc> = GraphBuilder::new();
    let surface = b.with_surface(None);
    b.add_node(NodeDescriptor {
        decl: NodeDecl {
            inputs: vec![surface],
            outputs: vec![],
            clear: None,
            queue: QueueId { index: 0 },
        },
        desc: FixedGroupDesc {
            decision: PrepareResult::DrawRecord,
            vertex_count: 3,
            fail_code: None,
        },
    });
    let mut g = b.build().unwrap();
    let rep = g.run(AcquireOutcome::Acquired(0)).unwrap();
    assert_eq!(rep.submissions.len(), 1);
    assert_eq!(rep.submissions[0].wait_nodes, vec![None]);
    assert!(rep.submissions[0].wait_acquire);
    // reading the surface records no clear: only the writer's pass clears
    assert_eq!(rep.submissions[0].commands, vec![Command::Draw { vertex_count: 3 }]);
}

#[test]
fn skipping_group_is_never_drawn_or_submitted() {
    let mut b: GraphBuilder<FixedGroupDesc> = GraphBuilder::new();
    let target = b.allocate(Usage::ColorAttachment, Lifetime::FrameLocal);
    b.add_node(NodeDescriptor {
        decl: NodeDecl {
            inputs: vec![],
            outputs: vec![target],
            clear: None,
            queue: QueueId { index: 0 },
        },
        desc: FixedGroupDesc {
            decision: PrepareResult::SkipDraw,
            vertex_count: 9,
            fail_code: None,
        },
    });
    let mut g = b.build().unwrap();
    let rep = g.run(AcquireOutcome::Acquired(0)).unwrap();
    assert_eq!(rep.outcomes, vec![PrepareResult::SkipDraw]);
    assert!(rep.submissions.is_empty());
    let rep2 = g.run(AcquireOutcome::Acquired(0)).unwrap();
    assert!(rep2.submissions.is_empty());
    assert_eq!(g.frame_count(), 2);
}

#[test]
fn reused_commands_come_from_the_cache() {
    let mut b: GraphBuilder<FixedGroupDesc> = GraphBuilder::new();
    let target = b.allocate(Usage::ColorAttachment, Lifetime::FrameLocal);
    b.add_node(NodeDescriptor {
        decl: NodeDecl {
            inputs: vec![],
            outputs: vec![target],
            clear: None,
            queue: QueueId { index: 0 },
        },
        desc: FixedGroupDesc {
            decision: PrepareResult::DrawReuse,
            vertex_count: 5,
            fail_code: None,
        },
    });
    let mut g = b.build().unwrap();
    // nothing was ever recorded, so reuse submits an empty buffer
    let rep = g.run(AcquireOutcome::Acquired(0)).unwrap();
    assert_eq!(rep.outcomes, vec![PrepareResult::DrawReuse]);
    assert_eq!(rep.submissions.len(), 1);
    assert!(rep.submissions[0].commands.is_empty());
}

#[test]
fn recording_group_records_each_frame() {
    let mut b: GraphBuilder<FixedGroupDesc> = GraphBuilder::new();
    let target = b.allocate(Usage::ColorAttachment, Lifetime::FrameLocal);
    b.add_node(NodeDescriptor {
        decl: NodeDecl {
            inputs: vec![],
            outputs: vec![target],
            clear: None,
            queue: QueueId { index: 0 },
        },
        desc: FixedGroupDesc {
            decision: PrepareResult::DrawRecord,
            vertex_count: 3,
            fail_code: None,
        },
    });
    let mut g = b.build().unwrap();
    for _ in 0..2 {
        let rep = g.run(AcquireOutcome::Acquired(0)).unwrap();
        assert_eq!(rep.outcomes, vec![PrepareResult::DrawRecord]);
        assert_eq!(rep.submissions.len(), 1);
        assert_eq!(rep.submissions[0].commands, vec![Command::Draw { vertex_count: 3 }]);
    }
    assert_eq!(g.frame_count(), 2);
}

#[test]
fn node_clear_value_opens_its_own_pass() {
    let mut b: GraphBuilder<FixedGroupDesc> = GraphBuilder::new();
    let target = b.allocate(Usage::ColorAttachment, Lifetime::Persistent);
    b.add_node(NodeDescriptor {
        decl: NodeDecl {
            inputs: vec![],
            outputs: vec![target],
            clear: Some(rgba(1.0, 0.0, 0.0, 1.0)),
            queue: QueueId { index: 2 },
        },
        desc: FixedGroupDesc {
            decision: PrepareResult::DrawRecord,
            vertex_count: 4,
            fail_code: None,
        },
    });
    let mut g = b.build().unwrap();
    let rep = g.run(AcquireOutcome::Acquired(0)).unwrap();
    assert_eq!(rep.submissions.len(), 1);
    assert_eq!(rep.submissions[0].queue, QueueId { index: 2 });
    assert_eq!(
        rep.submissions[0].commands,
        vec![Command::Clear(rgba(1.0, 0.0, 0.0, 1.0)), Command::Draw { vertex_count: 4 }]
    );
}
