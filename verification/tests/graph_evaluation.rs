use animation_graph::context::{GraphContext, InputOverlay, PassContext};
use animation_graph::data::{BonePose, ParamSpec, ParamValue, PoseSpec, TimeUpdate};
use animation_graph::errors::GraphError;
use animation_graph::graph::AnimationGraph;
use animation_graph::ids::{SourcePin, TargetPin};
use animation_graph::nodes::arithmetic::AddNode;
use animation_graph::nodes::blend_node::BlendNode;
use animation_graph::nodes::chain_node::ChainNode;
use animation_graph::nodes::clip_node::{Clip, ClipNode, Keyframe};
use animation_graph::nodes::extend_skeleton::ExtendSkeleton;
use animation_graph::nodes::flip_lr_node::FlipLrNode;
use animation_graph::nodes::graph_node::GraphNode;
use animation_graph::nodes::loop_node::LoopNode;
use animation_graph::nodes::speed_node::SpeedNode;

const FUEL: u64 = 64;

fn bone(id: u64, x: i64) -> BonePose {
    BonePose { bone: id, x, y: 0, z: 0 }
}

fn flat_clip(duration: i64, value: i64) -> ClipNode {
    let keys = vec![Keyframe {
        time: 0,
        bones: vec![bone(1, value)],
    }];
    ClipNode::new(Clip::new(duration, keys).unwrap())
}

/// Clip "walk" (1000 ticks) and clip "run" (800 ticks) feed a blend with
/// factor 0.3, wrapped in a loop that drives the graph output.
fn locomotion_graph() -> AnimationGraph {
    let mut g = AnimationGraph::new();
    g.add_node(flat_clip(1000, 0).wrapped("walk".to_owned()));
    g.add_node(flat_clip(800, 1000).wrapped("run".to_owned()));
    g.add_node(BlendNode::new().wrapped("blend".to_owned()));
    g.add_node(LoopNode::new().wrapped("loop".to_owned()));
    g.set_input_parameter("factor".to_owned(), ParamValue::Scalar(300));
    g.set_output_pose_spec(PoseSpec::Any);
    g.add_edge(
        TargetPin::NodePose("blend".to_owned(), "Pose In 1".to_owned()),
        SourcePin::NodePose("walk".to_owned()),
    )
    .unwrap();
    g.add_edge(
        TargetPin::NodePose("blend".to_owned(), "Pose In 2".to_owned()),
        SourcePin::NodePose("run".to_owned()),
    )
    .unwrap();
    g.add_edge(
        TargetPin::NodeParameter("blend".to_owned(), "Factor".to_owned()),
        SourcePin::InputParameter("factor".to_owned()),
    )
    .unwrap();
    g.add_edge(
        TargetPin::NodePose("loop".to_owned(), "Input Pose".to_owned()),
        SourcePin::NodePose("blend".to_owned()),
    )
    .unwrap();
    g.add_edge(TargetPin::OutputPose, SourcePin::NodePose("loop".to_owned()))
        .unwrap();
    g
}

#[test]
fn locomotion_scenario() {
    let g = locomotion_graph();
    let mut gc = GraphContext::new();
    let overlay = InputOverlay::empty();
    let pass = PassContext::new(FUEL);

    // The loop output is unbounded even though the inner blend is finite.
    let d = g
        .get_duration(&TargetPin::OutputPose, &overlay, &pass)
        .unwrap();
    assert_eq!(d, None);

    // The blend itself lasts max(1000, 800) = 1000.
    let inner = g
        .get_duration(
            &TargetPin::NodePose("loop".to_owned(), "Input Pose".to_owned()),
            &overlay,
            &pass,
        )
        .unwrap();
    assert_eq!(inner, Some(1000));

    // Sampling at global time 2300 samples the blend at 300 and re-stamps
    // the result to 2300; the blended bone sits at 0.3 of the way.
    let f = g
        .get_pose(
            TimeUpdate::Absolute(2300),
            &TargetPin::OutputPose,
            &mut gc,
            &overlay,
            &pass,
        )
        .unwrap();
    assert_eq!(f.timestamp, 2300);
    assert_eq!(f.bones.len(), 1);
    assert_eq!(f.bones[0].x, 300);
}

#[test]
fn loop_rewrites_delta_to_absolute_at_boundary() {
    let mut g = AnimationGraph::new();
    g.add_node(flat_clip(10, 5).wrapped("clip".to_owned()));
    g.add_node(LoopNode::new().wrapped("loop".to_owned()));
    g.set_output_pose_spec(PoseSpec::Any);
    g.add_edge(
        TargetPin::NodePose("loop".to_owned(), "Input Pose".to_owned()),
        SourcePin::NodePose("clip".to_owned()),
    )
    .unwrap();
    g.add_edge(TargetPin::OutputPose, SourcePin::NodePose("loop".to_owned()))
        .unwrap();

    let mut gc = GraphContext::new();
    let overlay = InputOverlay::empty();
    let pass = PassContext::new(FUEL);
    let clip_pin = SourcePin::NodePose("clip".to_owned());

    // Frame 1: delta 8 from rest; no boundary, the delta passes through.
    let f1 = g
        .get_pose(
            TimeUpdate::Delta(8),
            &TargetPin::OutputPose,
            &mut gc,
            &overlay,
            &pass,
        )
        .unwrap();
    assert_eq!(f1.timestamp, 8);
    assert_eq!(gc.get_time_update(&clip_pin).unwrap(), TimeUpdate::Delta(8));

    // Frame 2: delta 4 crosses the boundary at 10; upstream sees an
    // absolute re-seek to local time 2 and the output is re-stamped to 12.
    let f2 = g
        .get_pose(
            TimeUpdate::Delta(4),
            &TargetPin::OutputPose,
            &mut gc,
            &overlay,
            &pass,
        )
        .unwrap();
    assert_eq!(f2.timestamp, 12);
    assert_eq!(
        gc.get_time_update(&clip_pin).unwrap(),
        TimeUpdate::Absolute(2)
    );

    // Frame 3: delta 3 stays inside the repeat; the delta passes unchanged.
    let f3 = g
        .get_pose(
            TimeUpdate::Delta(3),
            &TargetPin::OutputPose,
            &mut gc,
            &overlay,
            &pass,
        )
        .unwrap();
    assert_eq!(f3.timestamp, 15);
    assert_eq!(gc.get_time_update(&clip_pin).unwrap(), TimeUpdate::Delta(3));
}

#[test]
fn subgraph_keeps_loop_phase_across_frames() {
    // A loop nested inside a subgraph-wrapping node: its phase lives in the
    // nested context and survives from frame to frame.
    let mut sub = AnimationGraph::new();
    sub.add_node(flat_clip(10, 5).wrapped("clip".to_owned()));
    sub.add_node(LoopNode::new().wrapped("loop".to_owned()));
    sub.set_output_pose_spec(PoseSpec::Any);
    sub.add_edge(
        TargetPin::NodePose("loop".to_owned(), "Input Pose".to_owned()),
        SourcePin::NodePose("clip".to_owned()),
    )
    .unwrap();
    sub.add_edge(TargetPin::OutputPose, SourcePin::NodePose("loop".to_owned()))
        .unwrap();

    let mut outer = AnimationGraph::new();
    outer.add_node(GraphNode::new(sub).wrapped("sub".to_owned()));
    outer.set_output_pose_spec(PoseSpec::Any);
    outer
        .add_edge(TargetPin::OutputPose, SourcePin::NodePose("sub".to_owned()))
        .unwrap();

    let mut gc = GraphContext::new();
    let overlay = InputOverlay::empty();
    let pass = PassContext::new(FUEL);

    let f1 = outer
        .get_pose(
            TimeUpdate::Delta(8),
            &TargetPin::OutputPose,
            &mut gc,
            &overlay,
            &pass,
        )
        .unwrap();
    assert_eq!(f1.timestamp, 8);
    // The nested context for the subgraph node was created once.
    assert_eq!(gc.children.len(), 1);
    assert_eq!(gc.children[0].0, "sub".to_owned());

    let f2 = outer
        .get_pose(
            TimeUpdate::Delta(4),
            &TargetPin::OutputPose,
            &mut gc,
            &overlay,
            &pass,
        )
        .unwrap();
    // Phase continuity: 8 + 4 = 12, crossing the nested loop's boundary.
    // A reset nested context would have produced 4 instead.
    assert_eq!(f2.timestamp, 12);
    assert_eq!(gc.children.len(), 1);
    assert_eq!(gc.children[0].0, "sub".to_owned());
}

#[test]
fn unconnected_pin_returns_typed_error() {
    let g = AnimationGraph::new();
    let mut gc = GraphContext::new();
    let overlay = InputOverlay::empty();
    let pass = PassContext::new(FUEL);
    assert_eq!(
        g.get_pose(
            TimeUpdate::Delta(1),
            &TargetPin::OutputPose,
            &mut gc,
            &overlay,
            &pass
        ),
        Err(GraphError::UnconnectedTargetPin)
    );
    assert_eq!(
        g.get_duration(&TargetPin::OutputPose, &overlay, &pass),
        Err(GraphError::UnconnectedTargetPin)
    );
    assert_eq!(
        g.get_parameter(
            &TargetPin::OutputParameter("x".to_owned()),
            &overlay,
            &pass
        ),
        Err(GraphError::UnconnectedTargetPin)
    );
}

#[test]
fn edge_validation_rejects_incompatible_spaces() {
    let mut g = AnimationGraph::new();
    g.add_node(ExtendSkeleton::new().wrapped("ext".to_owned()));
    g.add_input_pose_spec("in".to_owned(), PoseSpec::CharacterSpace);
    // Extend-skeleton demands a bone-space input; a character-space source
    // is rejected at insertion time, before any evaluation.
    assert_eq!(
        g.add_edge(
            TargetPin::NodePose("ext".to_owned(), "Pose In".to_owned()),
            SourcePin::InputPose("in".to_owned()),
        ),
        Err(GraphError::TypeMismatch)
    );
    assert_eq!(g.edges.len(), 0);
    // A bone-space source is accepted.
    g.add_input_pose_spec("in2".to_owned(), PoseSpec::BoneSpace);
    assert!(g
        .add_edge(
            TargetPin::NodePose("ext".to_owned(), "Pose In".to_owned()),
            SourcePin::InputPose("in2".to_owned()),
        )
        .is_ok());
}

#[test]
fn edge_validation_rejects_missing_node() {
    let mut g = AnimationGraph::new();
    g.set_output_pose_spec(PoseSpec::Any);
    assert_eq!(
        g.add_edge(
            TargetPin::OutputPose,
            SourcePin::NodePose("ghostly".to_owned())
        ),
        Err(GraphError::NodeNotFound)
    );
}

#[test]
fn evaluation_reports_missing_node_on_stale_edge() {
    // A topology made inconsistent behind the validator's back surfaces a
    // typed error at evaluation, not a crash.
    let mut g = AnimationGraph::new();
    g.edges.push((
        TargetPin::OutputPose,
        SourcePin::NodePose("gone".to_owned()),
    ));
    let mut gc = GraphContext::new();
    let overlay = InputOverlay::empty();
    let pass = PassContext::new(FUEL);
    assert_eq!(
        g.get_pose(
            TimeUpdate::Delta(1),
            &TargetPin::OutputPose,
            &mut gc,
            &overlay,
            &pass
        ),
        Err(GraphError::NodeNotFound)
    );
}

#[test]
fn cyclic_pull_hits_depth_budget() {
    let mut g = AnimationGraph::new();
    g.add_node(LoopNode::new().wrapped("a".to_owned()));
    g.add_node(LoopNode::new().wrapped("b".to_owned()));
    g.set_output_pose_spec(PoseSpec::Any);
    g.add_edge(
        TargetPin::NodePose("a".to_owned(), "Input Pose".to_owned()),
        SourcePin::NodePose("b".to_owned()),
    )
    .unwrap();
    g.add_edge(
        TargetPin::NodePose("b".to_owned(), "Input Pose".to_owned()),
        SourcePin::NodePose("a".to_owned()),
    )
    .unwrap();
    g.add_edge(TargetPin::OutputPose, SourcePin::NodePose("a".to_owned()))
        .unwrap();
    let mut gc = GraphContext::new();
    let overlay = InputOverlay::empty();
    let pass = PassContext::new(8);
    assert_eq!(
        g.get_pose(
            TimeUpdate::Delta(1),
            &TargetPin::OutputPose,
            &mut gc,
            &overlay,
            &pass
        ),
        Err(GraphError::RecursionLimit)
    );
}

#[test]
fn overlay_takes_precedence_and_wrong_variant_is_missing_parameter() {
    let g = locomotion_graph();
    let mut gc = GraphContext::new();
    let pass = PassContext::new(FUEL);
    let factor_target = TargetPin::NodeParameter("blend".to_owned(), "Factor".to_owned());

    // The exact-match overlay wins over the connected graph input.
    let mut overlay = InputOverlay::empty();
    overlay.set_parameter(factor_target.clone(), ParamValue::Scalar(1000));
    assert_eq!(
        g.get_parameter(&factor_target, &overlay, &pass),
        Ok(ParamValue::Scalar(1000))
    );
    let f = g
        .get_pose(
            TimeUpdate::Absolute(0),
            &TargetPin::OutputPose,
            &mut gc,
            &overlay,
            &pass,
        )
        .unwrap();
    assert_eq!(f.bones[0].x, 1000);

    // A wrong value variant on the pin is a missing parameter.
    let mut bad = InputOverlay::empty();
    bad.set_parameter(factor_target.clone(), ParamValue::Bool(true));
    assert_eq!(
        g.get_pose(
            TimeUpdate::Absolute(0),
            &TargetPin::OutputPose,
            &mut gc,
            &bad,
            &pass
        ),
        Err(GraphError::MissingParameter)
    );
}

#[test]
fn time_cache_read_before_write_is_ordering_violation() {
    let gc = GraphContext::new();
    let pass = PassContext::new(FUEL).with_node(&"n".to_owned());
    assert_eq!(
        pass.time_update_fwd(&gc),
        Err(GraphError::PassOrderingViolation)
    );
    // The previous timestamp defaults to zero before the first frame.
    assert_eq!(pass.prev_time_fwd(&gc), Ok(0));
}

#[test]
fn pass_context_lineage() {
    let root = PassContext::new(FUEL);
    assert!(!root.has_parent());
    assert!(matches!(root.child(), Err(GraphError::MissingNodeContext)));
    assert!(matches!(root.parent(), Err(GraphError::MissingNodeContext)));
    let at_node = root.with_node(&"outer".to_owned());
    let inner = at_node.child().unwrap();
    assert!(inner.has_parent());
    assert_eq!(inner.fuel, FUEL - 1);
    let back = inner.parent().unwrap();
    assert!(!back.has_parent());
    assert_eq!(back.node_context.unwrap().node_id, "outer".to_owned());
    let cleared = at_node.without_node();
    assert!(cleared.node_context.is_none());
    let debugging = at_node.with_debugging(true);
    assert!(debugging.should_debug);
    assert!(matches!(
        PassContext::new(0).with_node(&"n".to_owned()).child(),
        Err(GraphError::RecursionLimit)
    ));
}

#[test]
fn extend_skeleton_fills_missing_bones() {
    let mut g = AnimationGraph::new();
    g.add_node(flat_clip(10, 77).wrapped("clip".to_owned()));
    g.add_node(ExtendSkeleton::new().wrapped("ext".to_owned()));
    g.set_output_pose_spec(PoseSpec::BoneSpace);
    g.set_skeleton(vec![bone(1, 0), bone(2, -5)]);
    g.add_edge(
        TargetPin::NodePose("ext".to_owned(), "Pose In".to_owned()),
        SourcePin::NodePose("clip".to_owned()),
    )
    .unwrap();
    g.add_edge(TargetPin::OutputPose, SourcePin::NodePose("ext".to_owned()))
        .unwrap();
    let mut gc = GraphContext::new();
    let overlay = InputOverlay::empty();
    let pass = PassContext::new(FUEL);
    let f = g
        .get_pose(
            TimeUpdate::Absolute(3),
            &TargetPin::OutputPose,
            &mut gc,
            &overlay,
            &pass,
        )
        .unwrap();
    // Bone 1 keeps its sampled value, bone 2 takes the rest value.
    assert_eq!(f.bones, vec![bone(1, 77), bone(2, -5)]);
    assert_eq!(f.timestamp, 3);
}

#[test]
fn chain_plays_segments_in_order() {
    let mut g = AnimationGraph::new();
    g.add_node(flat_clip(10, 1).wrapped("a".to_owned()));
    g.add_node(flat_clip(10, 2).wrapped("b".to_owned()));
    g.add_node(ChainNode::new().wrapped("chain".to_owned()));
    g.set_output_pose_spec(PoseSpec::Any);
    g.add_edge(
        TargetPin::NodePose("chain".to_owned(), "Pose In 1".to_owned()),
        SourcePin::NodePose("a".to_owned()),
    )
    .unwrap();
    g.add_edge(
        TargetPin::NodePose("chain".to_owned(), "Pose In 2".to_owned()),
        SourcePin::NodePose("b".to_owned()),
    )
    .unwrap();
    g.add_edge(
        TargetPin::OutputPose,
        SourcePin::NodePose("chain".to_owned()),
    )
    .unwrap();

    let overlay = InputOverlay::empty();
    let pass = PassContext::new(FUEL);

    // Chain duration is the sum of both segments.
    assert_eq!(
        g.get_duration(&TargetPin::OutputPose, &overlay, &pass),
        Ok(Some(20))
    );

    // Before the first segment's end the first clip plays at its own time.
    let mut gc = GraphContext::new();
    let f1 = g
        .get_pose(
            TimeUpdate::Absolute(4),
            &TargetPin::OutputPose,
            &mut gc,
            &overlay,
            &pass,
        )
        .unwrap();
    assert_eq!(f1.timestamp, 4);
    assert_eq!(f1.bones[0].x, 1);

    // Past it the second clip plays, re-based and re-stamped by the first's
    // length.
    let f2 = g
        .get_pose(
            TimeUpdate::Absolute(14),
            &TargetPin::OutputPose,
            &mut gc,
            &overlay,
            &pass,
        )
        .unwrap();
    assert_eq!(f2.timestamp, 14);
    assert_eq!(f2.bones[0].x, 2);
}

#[test]
fn speed_scales_time_and_duration() {
    let mut g = AnimationGraph::new();
    let keys = vec![
        Keyframe { time: 0, bones: vec![bone(1, 0)] },
        Keyframe { time: 4, bones: vec![bone(1, 4)] },
    ];
    g.add_node(ClipNode::new(Clip::new(10, keys).unwrap()).wrapped("clip".to_owned()));
    g.add_node(SpeedNode::new().wrapped("speed".to_owned()));
    g.set_input_parameter("pace".to_owned(), ParamValue::Scalar(2000));
    g.set_output_pose_spec(PoseSpec::Any);
    g.add_edge(
        TargetPin::NodePose("speed".to_owned(), "Pose In".to_owned()),
        SourcePin::NodePose("clip".to_owned()),
    )
    .unwrap();
    g.add_edge(
        TargetPin::NodeParameter("speed".to_owned(), "Speed".to_owned()),
        SourcePin::InputParameter("pace".to_owned()),
    )
    .unwrap();
    g.add_edge(
        TargetPin::OutputPose,
        SourcePin::NodePose("speed".to_owned()),
    )
    .unwrap();

    let overlay = InputOverlay::empty();
    let pass = PassContext::new(FUEL);

    // At double speed a ten-tick clip lasts five ticks.
    assert_eq!(
        g.get_duration(&TargetPin::OutputPose, &overlay, &pass),
        Ok(Some(5))
    );

    // Seeking to 2 samples the clip at 4 and stamps the output back at 2.
    let mut gc = GraphContext::new();
    let f = g
        .get_pose(
            TimeUpdate::Absolute(2),
            &TargetPin::OutputPose,
            &mut gc,
            &overlay,
            &pass,
        )
        .unwrap();
    assert_eq!(f.timestamp, 2);
    assert_eq!(f.bones[0].x, 4);
}

#[test]
fn flip_lr_mirrors_and_swaps_pairs() {
    let mut g = AnimationGraph::new();
    let keys = vec![Keyframe {
        time: 0,
        bones: vec![bone(1, 30), bone(2, -30), bone(3, 7)],
    }];
    g.add_node(ClipNode::new(Clip::new(10, keys).unwrap()).wrapped("clip".to_owned()));
    g.add_node(FlipLrNode::new(vec![(1, 2)]).wrapped("flip".to_owned()));
    g.set_output_pose_spec(PoseSpec::Any);
    g.add_edge(
        TargetPin::NodePose("flip".to_owned(), "Pose In".to_owned()),
        SourcePin::NodePose("clip".to_owned()),
    )
    .unwrap();
    g.add_edge(TargetPin::OutputPose, SourcePin::NodePose("flip".to_owned()))
        .unwrap();
    let mut gc = GraphContext::new();
    let overlay = InputOverlay::empty();
    let pass = PassContext::new(FUEL);
    let f = g
        .get_pose(
            TimeUpdate::Absolute(0),
            &TargetPin::OutputPose,
            &mut gc,
            &overlay,
            &pass,
        )
        .unwrap();
    // Paired bones swap identities, lateral coordinates negate, the
    // unpaired bone keeps its identity.
    assert_eq!(f.bones, vec![bone(2, -30), bone(1, 30), bone(3, -7)]);
}

#[test]
fn add_node_feeds_blend_factor() {
    let mut g = AnimationGraph::new();
    g.add_node(flat_clip(1000, 0).wrapped("walk".to_owned()));
    g.add_node(flat_clip(800, 1000).wrapped("run".to_owned()));
    g.add_node(BlendNode::new().wrapped("blend".to_owned()));
    g.add_node(AddNode::new().wrapped("sum".to_owned()));
    g.set_input_parameter("base".to_owned(), ParamValue::Scalar(100));
    g.set_input_parameter("boost".to_owned(), ParamValue::Scalar(200));
    g.set_output_pose_spec(PoseSpec::Any);
    g.add_edge(
        TargetPin::NodeParameter("sum".to_owned(), "In 1".to_owned()),
        SourcePin::InputParameter("base".to_owned()),
    )
    .unwrap();
    g.add_edge(
        TargetPin::NodeParameter("sum".to_owned(), "In 2".to_owned()),
        SourcePin::InputParameter("boost".to_owned()),
    )
    .unwrap();
    g.add_edge(
        TargetPin::NodePose("blend".to_owned(), "Pose In 1".to_owned()),
        SourcePin::NodePose("walk".to_owned()),
    )
    .unwrap();
    g.add_edge(
        TargetPin::NodePose("blend".to_owned(), "Pose In 2".to_owned()),
        SourcePin::NodePose("run".to_owned()),
    )
    .unwrap();
    // The blend factor comes from the arithmetic node's output.
    g.add_edge(
        TargetPin::NodeParameter("blend".to_owned(), "Factor".to_owned()),
        SourcePin::NodeParameter("sum".to_owned(), "Out".to_owned()),
    )
    .unwrap();
    g.add_edge(
        TargetPin::OutputPose,
        SourcePin::NodePose("blend".to_owned()),
    )
    .unwrap();

    let overlay = InputOverlay::empty();
    let pass = PassContext::new(FUEL);
    assert_eq!(
        g.get_parameter(
            &TargetPin::NodeParameter("blend".to_owned(), "Factor".to_owned()),
            &overlay,
            &pass
        ),
        Ok(ParamValue::Scalar(300))
    );
    let mut gc = GraphContext::new();
    let f = g
        .get_pose(
            TimeUpdate::Absolute(0),
            &TargetPin::OutputPose,
            &mut gc,
            &overlay,
            &pass,
        )
        .unwrap();
    assert_eq!(f.bones[0].x, 300);
}

#[test]
fn subgraph_declared_inputs_resolve_through_boundary() {
    // A subgraph that passes its declared pose input straight to its output:
    // the embedding node pulls the outer source and hands it down.
    let mut sub = AnimationGraph::new();
    sub.add_input_pose_spec("in".to_owned(), PoseSpec::Any);
    sub.set_output_pose_spec(PoseSpec::Any);
    sub.add_edge(TargetPin::OutputPose, SourcePin::InputPose("in".to_owned()))
        .unwrap();

    let mut outer = AnimationGraph::new();
    outer.add_node(flat_clip(10, 42).wrapped("clip".to_owned()));
    outer.add_node(GraphNode::new(sub).wrapped("sub".to_owned()));
    outer.set_output_pose_spec(PoseSpec::Any);
    outer
        .add_edge(
            TargetPin::NodePose("sub".to_owned(), "in".to_owned()),
            SourcePin::NodePose("clip".to_owned()),
        )
        .unwrap();
    outer
        .add_edge(TargetPin::OutputPose, SourcePin::NodePose("sub".to_owned()))
        .unwrap();

    let overlay = InputOverlay::empty();
    let pass = PassContext::new(FUEL);
    // The clip's duration crosses the boundary through the overlay.
    assert_eq!(
        outer.get_duration(&TargetPin::OutputPose, &overlay, &pass),
        Ok(Some(10))
    );
    let mut gc = GraphContext::new();
    let f = outer
        .get_pose(
            TimeUpdate::Absolute(4),
            &TargetPin::OutputPose,
            &mut gc,
            &overlay,
            &pass,
        )
        .unwrap();
    assert_eq!(f.timestamp, 4);
    assert_eq!(f.bones[0].x, 42);
}

#[test]
fn subgraph_parameter_output_resolves_to_inner_default() {
    let mut sub = AnimationGraph::new();
    sub.set_input_parameter("k".to_owned(), ParamValue::Scalar(5));
    sub.add_output_parameter_spec("Out".to_owned(), ParamSpec::Scalar);
    sub.add_edge(
        TargetPin::OutputParameter("Out".to_owned()),
        SourcePin::InputParameter("k".to_owned()),
    )
    .unwrap();

    let mut outer = AnimationGraph::new();
    outer.add_node(GraphNode::new(sub).wrapped("sub".to_owned()));
    outer.add_output_parameter_spec("o".to_owned(), ParamSpec::Scalar);
    outer
        .add_edge(
            TargetPin::OutputParameter("o".to_owned()),
            SourcePin::NodeParameter("sub".to_owned(), "Out".to_owned()),
        )
        .unwrap();

    let overlay = InputOverlay::empty();
    let pass = PassContext::new(FUEL);
    assert_eq!(
        outer.get_parameter(
            &TargetPin::OutputParameter("o".to_owned()),
            &overlay,
            &pass
        ),
        Ok(ParamValue::Scalar(5))
    );
}

#[test]
fn extend_skeleton_rejects_wrong_space() {
    let mut g = AnimationGraph::new();
    g.add_node(ExtendSkeleton::new().wrapped("ext".to_owned()));
    g.add_input_pose_spec("in".to_owned(), PoseSpec::BoneSpace);
    g.set_output_pose_spec(PoseSpec::BoneSpace);
    g.set_skeleton(vec![bone(1, 0)]);
    g.add_edge(
        TargetPin::NodePose("ext".to_owned(), "Pose In".to_owned()),
        SourcePin::InputPose("in".to_owned()),
    )
    .unwrap();
    g.add_edge(TargetPin::OutputPose, SourcePin::NodePose("ext".to_owned()))
        .unwrap();
    let mut gc = GraphContext::new();
    let mut overlay = InputOverlay::empty();
    // The boundary overlay smuggles in a frame whose space tag is wrong for
    // this pin; evaluation reports the mismatch as a typed error.
    overlay.input_poses.push((
        "in".to_owned(),
        animation_graph::data::PoseFrame {
            timestamp: 0,
            space: animation_graph::data::PoseSpace::CharacterSpace,
            bones: vec![bone(1, 9)],
        },
    ));
    let pass = PassContext::new(FUEL);
    assert_eq!(
        g.get_pose(
            TimeUpdate::Absolute(0),
            &TargetPin::OutputPose,
            &mut gc,
            &overlay,
            &pass
        ),
        Err(GraphError::TypeMismatch)
    );
}
