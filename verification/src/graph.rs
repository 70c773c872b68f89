//! The animation graph: the node set, the edge table, graph-level inputs and
//! outputs, edge validation, and the pull-based dispatch of the duration,
//! parameter and pose passes.

use vstd::prelude::*;
use crate::context::{ctx_preserved, time_kept, GraphContext, InputOverlay, PassContext};
use crate::data::{
    spec_pose_compatible, pose_compatible, DurationData, ParamSpec, ParamValue, PoseFrame,
    PoseSpec, TimeUpdate, BonePose, PARAM_ONE,
};
use crate::errors::GraphError;
use crate::ids::{NodeId, PinId, SourcePin, SourcePinView, TargetPin};
use crate::nodes::blend_node::BlendNode;
use crate::nodes::chain_node::ChainNode;
use crate::nodes::clip_node::{spec_sample, ClipNode};
use crate::nodes::extend_skeleton::ExtendSkeleton;
use crate::nodes::loop_node::{spec_global_time, LoopNode};
use crate::nodes::speed_node::SpeedNode;
use crate::nodes::flip_lr_node::FlipLrNode;
use crate::nodes::arithmetic::AddNode;
use crate::nodes::graph_node::GraphNode;
use crate::table::{KeyEq, entries_view, find_in, table_get, table_set};

verus! {

/// The closed set of built-in node kinds.
pub enum AnimationNodeType {
    Blend(BlendNode),
    Chain(ChainNode),
    Clip(ClipNode),
    Loop(LoopNode),
    Speed(SpeedNode),
    FlipLr(FlipLrNode),
    Add(AddNode),
    ExtendSkeleton(ExtendSkeleton),
    Graph(GraphNode),
}

/// A named node instance inside a graph.
pub struct AnimationNode {
    pub name: NodeId,
    pub node: AnimationNodeType,
}

impl AnimationNode {
    /// Wraps a node kind under an instance name.
    pub fn new_from_nodetype(name: NodeId, node: AnimationNodeType) -> (r: AnimationNode)
        ensures
            r.name == name,
            r.node == node,
    {
        AnimationNode { name, node }
    }
}

/// The static graph: nodes, edges, graph-level pin declarations, default
/// parameter values and the skeleton rest pose.  Loaded once, immutable
/// while an instance plays.
pub struct AnimationGraph {
    pub nodes: Vec<(NodeId, AnimationNode)>,
    pub edges: Vec<(TargetPin, SourcePin)>,
    pub default_parameters: Vec<(PinId, ParamValue)>,
    pub input_pose_specs: Vec<(PinId, PoseSpec)>,
    pub output_pose_spec: Option<PoseSpec>,
    pub output_parameter_specs: Vec<(PinId, ParamSpec)>,
    pub skeleton: Vec<BonePose>,
}

impl AnimationNodeType {
    /// The space declared for the node's pose output, if it has one.
    pub open spec fn spec_pose_output(&self) -> Option<PoseSpec> {
        match self {
            AnimationNodeType::Blend(_) => Some(PoseSpec::BoneSpace),
            AnimationNodeType::Chain(_) => Some(PoseSpec::Any),
            AnimationNodeType::Clip(_) => Some(PoseSpec::BoneSpace),
            AnimationNodeType::Loop(_) => Some(PoseSpec::Any),
            AnimationNodeType::Speed(_) => Some(PoseSpec::Any),
            AnimationNodeType::FlipLr(_) => Some(PoseSpec::BoneSpace),
            AnimationNodeType::Add(_) => None,
            AnimationNodeType::ExtendSkeleton(_) => Some(PoseSpec::BoneSpace),
            AnimationNodeType::Graph(g) => g.graph.output_pose_spec,
        }
    }

    /// The declared space of the node's pose output.
    pub fn pose_output_spec(&self) -> (r: Option<PoseSpec>)
        ensures
            r == self.spec_pose_output(),
    {
        match self {
            AnimationNodeType::Blend(_) => Some(PoseSpec::BoneSpace),
            AnimationNodeType::Chain(_) => Some(PoseSpec::Any),
            AnimationNodeType::Clip(_) => Some(PoseSpec::BoneSpace),
            AnimationNodeType::Loop(_) => Some(PoseSpec::Any),
            AnimationNodeType::Speed(_) => Some(PoseSpec::Any),
            AnimationNodeType::FlipLr(_) => Some(PoseSpec::BoneSpace),
            AnimationNodeType::Add(_) => None,
            AnimationNodeType::ExtendSkeleton(_) => Some(PoseSpec::BoneSpace),
            AnimationNodeType::Graph(g) => g.graph.output_pose_spec,
        }
    }

    /// The space declared for a pose input pin, if the node has that pin.
    pub open spec fn spec_pose_input(&self, pin: Seq<char>) -> Option<PoseSpec> {
        match self {
            AnimationNodeType::Blend(_) => if pin == "Pose In 1"@ || pin == "Pose In 2"@ {
                Some(PoseSpec::Any)
            } else {
                None
            },
            AnimationNodeType::Chain(_) => if pin == "Pose In 1"@ || pin == "Pose In 2"@ {
                Some(PoseSpec::Any)
            } else {
                None
            },
            AnimationNodeType::Clip(_) => None,
            AnimationNodeType::Loop(_) => if pin == "Input Pose"@ {
                Some(PoseSpec::Any)
            } else {
                None
            },
            AnimationNodeType::Speed(_) => if pin == "Pose In"@ {
                Some(PoseSpec::Any)
            } else {
                None
            },
            AnimationNodeType::FlipLr(_) => if pin == "Pose In"@ {
                Some(PoseSpec::BoneSpace)
            } else {
                None
            },
            AnimationNodeType::Add(_) => None,
            AnimationNodeType::ExtendSkeleton(_) => if pin == "Pose In"@ {
                Some(PoseSpec::BoneSpace)
            } else {
                None
            },
            AnimationNodeType::Graph(g) => find_in(entries_view(g.graph.input_pose_specs@), pin),
        }
    }

    /// The declared space of a pose input pin.
    pub fn pose_input_spec(&self, pin: &PinId) -> (r: Option<PoseSpec>)
        ensures
            r == self.spec_pose_input(pin@),
    {
        match self {
            AnimationNodeType::Blend(_) => {
                if pin.key_eq(&BlendNode::input_pin_1()) || pin.key_eq(&BlendNode::input_pin_2()) {
                    Some(PoseSpec::Any)
                } else {
                    None
                }
            },
            AnimationNodeType::Chain(_) => {
                if pin.key_eq(&ChainNode::input_pin_1()) || pin.key_eq(&ChainNode::input_pin_2()) {
                    Some(PoseSpec::Any)
                } else {
                    None
                }
            },
            AnimationNodeType::Clip(_) => None,
            AnimationNodeType::Loop(_) => {
                if pin.key_eq(&LoopNode::input_pin()) {
                    Some(PoseSpec::Any)
                } else {
                    None
                }
            },
            AnimationNodeType::Speed(_) => {
                if pin.key_eq(&SpeedNode::input_pin()) {
                    Some(PoseSpec::Any)
                } else {
                    None
                }
            },
            AnimationNodeType::FlipLr(_) => {
                if pin.key_eq(&FlipLrNode::input_pin()) {
                    Some(PoseSpec::BoneSpace)
                } else {
                    None
                }
            },
            AnimationNodeType::Add(_) => None,
            AnimationNodeType::ExtendSkeleton(_) => {
                if pin.key_eq(&ExtendSkeleton::pose_in_pin()) {
                    Some(PoseSpec::BoneSpace)
                } else {
                    None
                }
            },
            AnimationNodeType::Graph(g) => {
                match table_get(&g.graph.input_pose_specs, pin) {
                    Some(s) => Some(*s),
                    None => None,
                }
            },
        }
    }

    /// The type declared for a parameter input pin, if the node has that pin.
    pub open spec fn spec_parameter_input(&self, pin: Seq<char>) -> Option<ParamSpec> {
        match self {
            AnimationNodeType::Blend(_) => if pin == "Factor"@ {
                Some(ParamSpec::Scalar)
            } else {
                None
            },
            AnimationNodeType::Speed(_) => if pin == "Speed"@ {
                Some(ParamSpec::Scalar)
            } else {
                None
            },
            AnimationNodeType::Add(_) => if pin == "In 1"@ || pin == "In 2"@ {
                Some(ParamSpec::Scalar)
            } else {
                None
            },
            AnimationNodeType::Graph(g) => match find_in(
                entries_view(g.graph.default_parameters@),
                pin,
            ) {
                Some(v) => Some(v.spec_of()),
                None => None,
            },
            _ => None,
        }
    }

    /// The declared type of a parameter input pin.
    pub fn parameter_input_spec(&self, pin: &PinId) -> (r: Option<ParamSpec>)
        ensures
            r == self.spec_parameter_input(pin@),
    {
        match self {
            AnimationNodeType::Blend(_) => {
                if pin.key_eq(&BlendNode::factor_pin()) {
                    Some(ParamSpec::Scalar)
                } else {
                    None
                }
            },
            AnimationNodeType::Speed(_) => {
                if pin.key_eq(&SpeedNode::speed_pin()) {
                    Some(ParamSpec::Scalar)
                } else {
                    None
                }
            },
            AnimationNodeType::Add(_) => {
                if pin.key_eq(&AddNode::input_pin_1()) || pin.key_eq(&AddNode::input_pin_2()) {
                    Some(ParamSpec::Scalar)
                } else {
                    None
                }
            },
            AnimationNodeType::Graph(g) => {
                match table_get(&g.graph.default_parameters, pin) {
                    Some(v) => Some(v.param_spec()),
                    None => None,
                }
            },
            _ => None,
        }
    }

    /// The type declared for a parameter output pin, if the node has one.
    pub open spec fn spec_parameter_output(&self, pin: Seq<char>) -> Option<ParamSpec> {
        match self {
            AnimationNodeType::Add(_) => if pin == "Out"@ {
                Some(ParamSpec::Scalar)
            } else {
                None
            },
            AnimationNodeType::Graph(g) => find_in(
                entries_view(g.graph.output_parameter_specs@),
                pin,
            ),
            _ => None,
        }
    }

    /// The declared type of a parameter output pin.
    pub fn parameter_output_spec(&self, pin: &PinId) -> (r: Option<ParamSpec>)
        ensures
            r == self.spec_parameter_output(pin@),
    {
        match self {
            AnimationNodeType::Add(_) => {
                if pin.key_eq(&AddNode::output_pin()) {
                    Some(ParamSpec::Scalar)
                } else {
                    None
                }
            },
            AnimationNodeType::Graph(g) => {
                match table_get(&g.graph.output_parameter_specs, pin) {
                    Some(s) => Some(*s),
                    None => None,
                }
            },
            _ => None,
        }
    }
}

/// What static edge validation decides for a prospective edge: accepted, or
/// the exact error reported at insertion time.  A pose source must feed a
/// pose target with a compatible space, a parameter source a parameter
/// target of equal type; pins must exist, nodes must be present.
pub open spec fn spec_edge_check(
    g: AnimationGraph,
    target: crate::ids::TargetPinView,
    source: SourcePinView,
) -> Result<(), GraphError> {
    let target_pose: Option<PoseSpec> = match target {
        crate::ids::TargetPinView::NodePose(n, p) => match find_in(entries_view(g.nodes@), n) {
            None => None,
            Some(node) => node.node.spec_pose_input(p),
        },
        crate::ids::TargetPinView::OutputPose => g.output_pose_spec,
        _ => None,
    };
    let target_param: Option<ParamSpec> = match target {
        crate::ids::TargetPinView::NodeParameter(n, p) => match find_in(
            entries_view(g.nodes@),
            n,
        ) {
            None => None,
            Some(node) => node.node.spec_parameter_input(p),
        },
        crate::ids::TargetPinView::OutputParameter(p) => find_in(
            entries_view(g.output_parameter_specs@),
            p,
        ),
        _ => None,
    };
    if (target matches crate::ids::TargetPinView::NodePose(n, _) && find_in(
        entries_view(g.nodes@),
        n,
    ) is None) || (target matches crate::ids::TargetPinView::NodeParameter(n, _) && find_in(
        entries_view(g.nodes@),
        n,
    ) is None) {
        Err(GraphError::NodeNotFound)
    } else if target_pose is None && target_param is None {
        Err(GraphError::TypeMismatch)
    } else if (source matches SourcePinView::NodePose(n) && find_in(
        entries_view(g.nodes@),
        n,
    ) is None) || (source matches SourcePinView::NodeParameter(n, _) && find_in(
        entries_view(g.nodes@),
        n,
    ) is None) {
        Err(GraphError::NodeNotFound)
    } else {
        let source_pose: Option<PoseSpec> = match source {
            SourcePinView::NodePose(n) => match find_in(entries_view(g.nodes@), n) {
                None => None,
                Some(node) => node.node.spec_pose_output(),
            },
            SourcePinView::InputPose(p) => find_in(entries_view(g.input_pose_specs@), p),
            _ => None,
        };
        let source_param: Option<ParamSpec> = match source {
            SourcePinView::InputParameter(p) => match find_in(
                entries_view(g.default_parameters@),
                p,
            ) {
                Some(v) => Some(v.spec_of()),
                None => None,
            },
            SourcePinView::NodeParameter(n, p) => match find_in(entries_view(g.nodes@), n) {
                None => None,
                Some(node) => node.node.spec_parameter_output(p),
            },
            _ => None,
        };
        match (target_pose, source_pose, target_param, source_param) {
            (Some(ts), Some(ss), _, _) => if spec_pose_compatible(ss, ts) {
                Ok(())
            } else {
                Err(GraphError::TypeMismatch)
            },
            (None, _, Some(tp), Some(sp)) => if tp == sp {
                Ok(())
            } else {
                Err(GraphError::TypeMismatch)
            },
            _ => Err(GraphError::TypeMismatch),
        }
    }
}

/// What a pose pull guarantees, relating the result and the cache effects
/// to the edge table, the boundary overlay and the context at entry:
/// resolution failures are exact; a graph-level input pose is served from
/// the overlay unchanged; a node producer leaves its time-cache entry
/// written and its emitted timestamp recorded, and a clip producer's frame
/// is the clip sampled at the global time named by the update and the
/// previously emitted timestamp.
pub open spec fn spec_pose_resolution(
    g: AnimationGraph,
    overlay: InputOverlay,
    target: crate::ids::TargetPinView,
    update: TimeUpdate,
    gc0: GraphContext,
    gc1: GraphContext,
    r: Result<PoseFrame, GraphError>,
) -> bool {
    match find_in(entries_view(g.edges@), target) {
        None => r == Err::<PoseFrame, GraphError>(GraphError::UnconnectedTargetPin) && gc1 == gc0,
        Some(src) => match src {
            SourcePin::NodePose(n) => match find_in(entries_view(g.nodes@), n@) {
                None => r == Err::<PoseFrame, GraphError>(GraphError::NodeNotFound) && gc1 == gc0,
                Some(node) => gc1.time_of(SourcePinView::NodePose(n@)) is Some && (r matches Ok(f)
                    ==> gc1.prev_of(SourcePinView::NodePose(n@)) == Some(f@.timestamp)) && (
                node.node matches AnimationNodeType::Clip(c) ==> r matches Ok(f) && spec_sample(
                    c.spec_clip(),
                    spec_global_time(
                        update,
                        match gc0.prev_of(SourcePinView::NodePose(n@)) {
                            Some(t) => t,
                            None => 0,
                        },
                    ),
                    f@,
                )),
            },
            SourcePin::InputPose(p) => gc1 == gc0 && match find_in(
                entries_view(overlay.input_poses@),
                p@,
            ) {
                Some(f) => r matches Ok(out) && out@ == f@,
                None => r == Err::<PoseFrame, GraphError>(GraphError::UnconnectedTargetPin),
            },
            _ => r == Err::<PoseFrame, GraphError>(GraphError::TypeMismatch) && gc1 == gc0,
        },
    }
}

/// What a parameter pull must resolve to, where the evaluation is
/// determined by the static graph, the overlay and the pull-depth budget
/// alone: `None` marks a resolution this model leaves open (an embedded
/// subgraph's output).  Mirrors `AnimationGraph::get_parameter`.
pub open spec fn spec_pull_parameter(
    g: AnimationGraph,
    overlay: InputOverlay,
    target: crate::ids::TargetPinView,
    fuel: nat,
) -> Option<Result<ParamValue, GraphError>>
    decreases fuel, 2int,
{
    match find_in(entries_view(overlay.parameters@), target) {
        Some(v) => Some(Ok(v)),
        None => match find_in(entries_view(g.edges@), target) {
            None => Some(Err(GraphError::UnconnectedTargetPin)),
            Some(src) => match src {
                SourcePin::InputParameter(p) => Some(
                    match find_in(entries_view(overlay.input_parameters@), p@) {
                        Some(v) => Ok(v),
                        None => match find_in(entries_view(g.default_parameters@), p@) {
                            Some(v) => Ok(v),
                            None => Err(GraphError::UnconnectedTargetPin),
                        },
                    },
                ),
                SourcePin::NodeParameter(n, _) => match find_in(entries_view(g.nodes@), n@) {
                    None => Some(Err(GraphError::NodeNotFound)),
                    Some(node) => spec_node_parameter(g, overlay, node.node, n@, fuel),
                },
                _ => Some(Err(GraphError::TypeMismatch)),
            },
        },
    }
}

/// What a node's parameter pass must return, where determined: only the
/// arithmetic node produces parameters; a subgraph's output is left open.
pub open spec fn spec_node_parameter(
    g: AnimationGraph,
    overlay: InputOverlay,
    nt: AnimationNodeType,
    name: Seq<char>,
    fuel: nat,
) -> Option<Result<ParamValue, GraphError>>
    decreases fuel, 1int,
{
    match nt {
        AnimationNodeType::Add(_) => spec_add_parameter(g, overlay, name, fuel),
        AnimationNodeType::Graph(_) => None,
        _ => Some(Err(GraphError::UnconnectedTargetPin)),
    }
}

/// The arithmetic node's result: the saturating sum of its two scalar
/// operands, the first failure or non-scalar operand reported as is.
pub open spec fn spec_add_parameter(
    g: AnimationGraph,
    overlay: InputOverlay,
    name: Seq<char>,
    fuel: nat,
) -> Option<Result<ParamValue, GraphError>>
    decreases fuel, 0int,
{
    if fuel == 0 {
        Some(Err(GraphError::RecursionLimit))
    } else {
        match spec_pull_parameter(
            g,
            overlay,
            crate::ids::TargetPinView::NodeParameter(name, "In 1"@),
            (fuel - 1) as nat,
        ) {
            None => None,
            Some(Err(e)) => Some(Err(e)),
            Some(Ok(a)) => if !(a is Scalar) {
                Some(Err(GraphError::MissingParameter))
            } else {
                match spec_pull_parameter(
                    g,
                    overlay,
                    crate::ids::TargetPinView::NodeParameter(name, "In 2"@),
                    (fuel - 1) as nat,
                ) {
                    None => None,
                    Some(Err(e)) => Some(Err(e)),
                    Some(Ok(b)) => if !(b is Scalar) {
                        Some(Err(GraphError::MissingParameter))
                    } else {
                        Some(
                            Ok(
                                ParamValue::Scalar(
                                    crate::times::spec_sat(
                                        a->Scalar_0 as int + b->Scalar_0 as int,
                                    ) as i64,
                                ),
                            ),
                        )
                    },
                }
            },
        }
    }
}

/// What a duration pull must resolve to, where determined; mirrors
/// `AnimationGraph::get_duration`.
pub open spec fn spec_pull_duration(
    g: AnimationGraph,
    overlay: InputOverlay,
    target: crate::ids::TargetPinView,
    fuel: nat,
) -> Option<Result<DurationData, GraphError>>
    decreases fuel, 4int,
{
    match find_in(entries_view(g.edges@), target) {
        None => Some(Err(GraphError::UnconnectedTargetPin)),
        Some(src) => match src {
            SourcePin::NodePose(n) => match find_in(entries_view(g.nodes@), n@) {
                None => Some(Err(GraphError::NodeNotFound)),
                Some(node) => spec_node_duration(g, overlay, node.node, n@, fuel),
            },
            SourcePin::InputPose(p) => Some(
                match find_in(entries_view(overlay.input_durations@), p@) {
                    Some(d) => Ok(d),
                    None => Err(GraphError::UnconnectedTargetPin),
                },
            ),
            _ => Some(Err(GraphError::TypeMismatch)),
        },
    }
}

/// What a node's duration pass must return, where determined: each built-in
/// combining policy over the resolved operand durations; a subgraph's
/// output duration is left open.
pub open spec fn spec_node_duration(
    g: AnimationGraph,
    overlay: InputOverlay,
    nt: AnimationNodeType,
    name: Seq<char>,
    fuel: nat,
) -> Option<Result<DurationData, GraphError>>
    decreases fuel, 3int,
{
    match nt {
        AnimationNodeType::Loop(_) => Some(Ok(None)),
        AnimationNodeType::Clip(c) => Some(Ok(Some(c.spec_clip().duration))),
        AnimationNodeType::Blend(_) => spec_pair_duration(g, overlay, name, true, fuel),
        AnimationNodeType::Chain(_) => spec_pair_duration(g, overlay, name, false, fuel),
        AnimationNodeType::ExtendSkeleton(_) => spec_passthrough_duration(
            g,
            overlay,
            name,
            "Pose In"@,
            fuel,
        ),
        AnimationNodeType::FlipLr(_) => spec_passthrough_duration(
            g,
            overlay,
            name,
            "Pose In"@,
            fuel,
        ),
        AnimationNodeType::Speed(_) => spec_speed_duration(g, overlay, name, fuel),
        AnimationNodeType::Add(_) => Some(Err(GraphError::TypeMismatch)),
        AnimationNodeType::Graph(_) => None,
    }
}

/// The duration of a two-operand node: both operand pins resolved in order,
/// the first failure propagated, then the blend (maximum) or chain (sum)
/// policy applied.
pub open spec fn spec_pair_duration(
    g: AnimationGraph,
    overlay: InputOverlay,
    name: Seq<char>,
    blend: bool,
    fuel: nat,
) -> Option<Result<DurationData, GraphError>>
    decreases fuel, 2int,
{
    if fuel == 0 {
        Some(Err(GraphError::RecursionLimit))
    } else {
        match spec_pull_duration(
            g,
            overlay,
            crate::ids::TargetPinView::NodePose(name, "Pose In 1"@),
            (fuel - 1) as nat,
        ) {
            None => None,
            Some(Err(e)) => Some(Err(e)),
            Some(Ok(d1)) => match spec_pull_duration(
                g,
                overlay,
                crate::ids::TargetPinView::NodePose(name, "Pose In 2"@),
                (fuel - 1) as nat,
            ) {
                None => None,
                Some(Err(e)) => Some(Err(e)),
                Some(Ok(d2)) => Some(
                    Ok(
                        if blend {
                            crate::nodes::blend_node::spec_blend_duration(d1, d2)
                        } else {
                            crate::nodes::chain_node::spec_chain_duration(d1, d2)
                        },
                    ),
                ),
            },
        }
    }
}

/// The duration of a node that forwards its single input unchanged.
pub open spec fn spec_passthrough_duration(
    g: AnimationGraph,
    overlay: InputOverlay,
    name: Seq<char>,
    pin: Seq<char>,
    fuel: nat,
) -> Option<Result<DurationData, GraphError>>
    decreases fuel, 2int,
{
    if fuel == 0 {
        Some(Err(GraphError::RecursionLimit))
    } else {
        spec_pull_duration(
            g,
            overlay,
            crate::ids::TargetPinView::NodePose(name, pin),
            (fuel - 1) as nat,
        )
    }
}

/// The duration of the speed node: the input duration divided by the
/// resolved speed factor; unbounded input, or a factor at or below zero,
/// stays unbounded; a non-scalar factor is a missing parameter.
pub open spec fn spec_speed_duration(
    g: AnimationGraph,
    overlay: InputOverlay,
    name: Seq<char>,
    fuel: nat,
) -> Option<Result<DurationData, GraphError>>
    decreases fuel, 2int,
{
    if fuel == 0 {
        Some(Err(GraphError::RecursionLimit))
    } else {
        match spec_pull_duration(
            g,
            overlay,
            crate::ids::TargetPinView::NodePose(name, "Pose In"@),
            (fuel - 1) as nat,
        ) {
            None => None,
            Some(Err(e)) => Some(Err(e)),
            Some(Ok(None)) => Some(Ok(None)),
            Some(Ok(Some(dd))) => match spec_pull_parameter(
                g,
                overlay,
                crate::ids::TargetPinView::NodeParameter(name, "Speed"@),
                (fuel - 1) as nat,
            ) {
                None => None,
                Some(Err(e)) => Some(Err(e)),
                Some(Ok(v)) => if !(v is Scalar) {
                    Some(Err(GraphError::MissingParameter))
                } else if v->Scalar_0 <= 0 {
                    Some(Ok(None))
                } else {
                    Some(
                        Ok(
                            Some(
                                crate::times::spec_sat(
                                    crate::nodes::blend_node::trunc_div(
                                        dd as int * PARAM_ONE as int,
                                        v->Scalar_0 as int,
                                    ),
                                ) as i64,
                            ),
                        ),
                    )
                },
            },
        }
    }
}

impl AnimationGraph {
    /// An empty graph: no nodes, no edges, no declared inputs or outputs.
    pub fn new() -> (r: AnimationGraph)
        ensures
            r.nodes@.len() == 0,
            r.edges@.len() == 0,
            r.default_parameters@.len() == 0,
            r.input_pose_specs@.len() == 0,
            r.output_pose_spec is None,
            r.output_parameter_specs@.len() == 0,
            r.skeleton@.len() == 0,
    {
        AnimationGraph {
            nodes: Vec::new(),
            edges: Vec::new(),
            default_parameters: Vec::new(),
            input_pose_specs: Vec::new(),
            output_pose_spec: None,
            output_parameter_specs: Vec::new(),
            skeleton: Vec::new(),
        }
    }

    /// Adds or replaces a node under its instance name.
    pub fn add_node(&mut self, node: AnimationNode)
        ensures
            find_in(entries_view(final(self).nodes@), node.name@) == Some(node),
            forall|q: Seq<char>|
                q != node.name@ ==> #[trigger] find_in(entries_view(final(self).nodes@), q)
                    == find_in(entries_view(old(self).nodes@), q),
            final(self).edges == old(self).edges,
            final(self).default_parameters == old(self).default_parameters,
            final(self).input_pose_specs == old(self).input_pose_specs,
            final(self).output_pose_spec == old(self).output_pose_spec,
            final(self).output_parameter_specs == old(self).output_parameter_specs,
            final(self).skeleton == old(self).skeleton,
    {
        let key = node.name.clone();
        table_set(&mut self.nodes, key, node);
    }

    /// Declares or replaces a graph-level input parameter's default value;
    /// also how the host drives live parameters between frames.
    pub fn set_input_parameter(&mut self, pin: PinId, value: ParamValue)
        ensures
            find_in(entries_view(final(self).default_parameters@), pin@) == Some(value),
            forall|q: Seq<char>|
                q != pin@ ==> #[trigger] find_in(entries_view(final(self).default_parameters@), q)
                    == find_in(entries_view(old(self).default_parameters@), q),
            final(self).nodes == old(self).nodes,
            final(self).edges == old(self).edges,
    {
        table_set(&mut self.default_parameters, pin, value);
    }

    /// Declares a graph-level pose input pin and its space.
    pub fn add_input_pose_spec(&mut self, pin: PinId, spec: PoseSpec)
        ensures
            find_in(entries_view(final(self).input_pose_specs@), pin@) == Some(spec),
            forall|q: Seq<char>|
                q != pin@ ==> #[trigger] find_in(entries_view(final(self).input_pose_specs@), q)
                    == find_in(entries_view(old(self).input_pose_specs@), q),
            final(self).nodes == old(self).nodes,
            final(self).edges == old(self).edges,
    {
        table_set(&mut self.input_pose_specs, pin, spec);
    }

    /// Declares a graph-level parameter output pin and its type.
    pub fn add_output_parameter_spec(&mut self, pin: PinId, spec: ParamSpec)
        ensures
            find_in(entries_view(final(self).output_parameter_specs@), pin@) == Some(spec),
            forall|q: Seq<char>|
                q != pin@ ==> #[trigger] find_in(
                    entries_view(final(self).output_parameter_specs@),
                    q,
                ) == find_in(entries_view(old(self).output_parameter_specs@), q),
            final(self).nodes == old(self).nodes,
            final(self).edges == old(self).edges,
    {
        table_set(&mut self.output_parameter_specs, pin, spec);
    }

    /// Declares the graph's pose output and its space.
    pub fn set_output_pose_spec(&mut self, spec: PoseSpec)
        ensures
            final(self).output_pose_spec == Some(spec),
            final(self).nodes == old(self).nodes,
            final(self).edges == old(self).edges,
            final(self).default_parameters == old(self).default_parameters,
            final(self).input_pose_specs == old(self).input_pose_specs,
            final(self).skeleton == old(self).skeleton,
    {
        self.output_pose_spec = Some(spec);
    }

    /// Sets the skeleton rest pose used by skeleton extension.
    pub fn set_skeleton(&mut self, skeleton: Vec<BonePose>)
        ensures
            final(self).skeleton == skeleton,
            final(self).nodes == old(self).nodes,
            final(self).edges == old(self).edges,
    {
        self.skeleton = skeleton;
    }

    /// Validates and inserts an edge.  Incompatible pin declarations are
    /// rejected here, before any evaluation can happen; an accepted edge
    /// replaces any previous edge into the same target pin, keeping each
    /// target at most one incoming edge.
    pub fn add_edge(&mut self, target: TargetPin, source: SourcePin) -> (r: Result<
        (),
        GraphError,
    >)
        ensures
            r == spec_edge_check(*old(self), target@, source@),
            r is Err ==> *final(self) == *old(self),
            r is Ok ==> find_in(entries_view(final(self).edges@), target@) == Some(source)
                && (forall|q: crate::ids::TargetPinView|
                q != target@ ==> #[trigger] find_in(entries_view(final(self).edges@), q) == find_in(
                    entries_view(old(self).edges@),
                    q,
                )) && final(self).nodes == old(self).nodes
                && final(self).default_parameters == old(self).default_parameters
                && final(self).input_pose_specs == old(self).input_pose_specs
                && final(self).output_pose_spec == old(self).output_pose_spec
                && final(self).output_parameter_specs == old(self).output_parameter_specs
                && final(self).skeleton == old(self).skeleton,
    {
        let target_pose: Option<PoseSpec> = match &target {
            TargetPin::NodePose(n, p) => {
                match table_get(&self.nodes, n) {
                    None => {
                        return Err(GraphError::NodeNotFound);
                    },
                    Some(node) => node.node.pose_input_spec(p),
                }
            },
            TargetPin::OutputPose => self.output_pose_spec,
            _ => None,
        };
        let target_param: Option<ParamSpec> = match &target {
            TargetPin::NodeParameter(n, p) => {
                match table_get(&self.nodes, n) {
                    None => {
                        return Err(GraphError::NodeNotFound);
                    },
                    Some(node) => node.node.parameter_input_spec(p),
                }
            },
            TargetPin::OutputParameter(p) => {
                match table_get(&self.output_parameter_specs, p) {
                    Some(s) => Some(*s),
                    None => None,
                }
            },
            _ => None,
        };
        if target_pose.is_none() && target_param.is_none() {
            return Err(GraphError::TypeMismatch);
        }
        let source_pose: Option<PoseSpec> = match &source {
            SourcePin::NodePose(n) => {
                match table_get(&self.nodes, n) {
                    None => {
                        return Err(GraphError::NodeNotFound);
                    },
                    Some(node) => node.node.pose_output_spec(),
                }
            },
            SourcePin::InputPose(p) => {
                match table_get(&self.input_pose_specs, p) {
                    Some(s) => Some(*s),
                    None => None,
                }
            },
            _ => None,
        };
        let source_param: Option<ParamSpec> = match &source {
            SourcePin::NodeParameter(n, p) => {
                match table_get(&self.nodes, n) {
                    None => {
                        return Err(GraphError::NodeNotFound);
                    },
                    Some(node) => node.node.parameter_output_spec(p),
                }
            },
            SourcePin::InputParameter(p) => {
                match table_get(&self.default_parameters, p) {
                    Some(v) => Some(v.param_spec()),
                    None => None,
                }
            },
            _ => None,
        };
        let ok: bool = match (target_pose, source_pose, target_param, source_param) {
            (Some(ts), Some(ss), _, _) => pose_compatible(ss, ts),
            (None, _, Some(tp), Some(sp)) => tp == sp,
            _ => false,
        };
        if ok {
            table_set(&mut self.edges, target, source);
            Ok(())
        } else {
            Err(GraphError::TypeMismatch)
        }
    }
}


impl PassContext {
    /// Pulls the named parameter input of the current node.
    pub fn parameter_back(
        &self,
        graph: &AnimationGraph,
        pin: PinId,
        overlay: &InputOverlay,
    ) -> (r: Result<ParamValue, GraphError>)
        ensures
            self.node_context is None ==> r == Err::<ParamValue, GraphError>(
                GraphError::MissingNodeContext,
            ),
            self.node_context is Some && self.fuel == 0 ==> r == Err::<ParamValue, GraphError>(
                GraphError::RecursionLimit,
            ),
            self.node_context matches Some(nc) ==> self.fuel > 0 ==> (spec_pull_parameter(
                *graph,
                *overlay,
                crate::ids::TargetPinView::NodeParameter(nc.node_id@, pin@),
                (self.fuel - 1) as nat,
            ) matches Some(v) ==> r == v),
        decreases self.fuel, 0int,
    {
        let nc = match &self.node_context {
            None => {
                return Err(GraphError::MissingNodeContext);
            },
            Some(nc) => nc,
        };
        if self.fuel == 0 {
            return Err(GraphError::RecursionLimit);
        }
        let target = TargetPin::NodeParameter(nc.node_id.clone(), pin);
        let mut sub = self.without_node();
        sub.fuel = self.fuel - 1;
        graph.get_parameter(&target, overlay, &sub)
    }

    /// Pulls the duration of the named pose input of the current node.
    pub fn duration_back(
        &self,
        graph: &AnimationGraph,
        pin: PinId,
        overlay: &InputOverlay,
    ) -> (r: Result<DurationData, GraphError>)
        ensures
            self.node_context is None ==> r == Err::<DurationData, GraphError>(
                GraphError::MissingNodeContext,
            ),
            self.node_context is Some && self.fuel == 0 ==> r == Err::<DurationData, GraphError>(
                GraphError::RecursionLimit,
            ),
            self.node_context matches Some(nc) ==> self.fuel > 0 ==> (spec_pull_duration(
                *graph,
                *overlay,
                crate::ids::TargetPinView::NodePose(nc.node_id@, pin@),
                (self.fuel - 1) as nat,
            ) matches Some(v) ==> r == v),
        decreases self.fuel, 0int,
    {
        let nc = match &self.node_context {
            None => {
                return Err(GraphError::MissingNodeContext);
            },
            Some(nc) => nc,
        };
        if self.fuel == 0 {
            return Err(GraphError::RecursionLimit);
        }
        let target = TargetPin::NodePose(nc.node_id.clone(), pin);
        let mut sub = self.without_node();
        sub.fuel = self.fuel - 1;
        graph.get_duration(&target, overlay, &sub)
    }

    /// Pulls the named pose input of the current node at a time update.
    pub fn pose_back(
        &self,
        graph: &AnimationGraph,
        pin: PinId,
        update: TimeUpdate,
        gc: &mut GraphContext,
        overlay: &InputOverlay,
    ) -> (r: Result<PoseFrame, GraphError>)
        ensures
            ctx_preserved(*old(gc), *final(gc)),
            time_kept(*old(gc), *final(gc)),
            self.node_context is None ==> r == Err::<PoseFrame, GraphError>(
                GraphError::MissingNodeContext,
            ) && *final(gc) == *old(gc),
            self.node_context is Some && self.fuel == 0 ==> r == Err::<PoseFrame, GraphError>(
                GraphError::RecursionLimit,
            ) && *final(gc) == *old(gc),
            self.node_context matches Some(nc) ==> self.fuel > 0 ==> spec_pose_resolution(
                *graph,
                *overlay,
                crate::ids::TargetPinView::NodePose(nc.node_id@, pin@),
                update,
                *old(gc),
                *final(gc),
                r,
            ),
        decreases self.fuel, 0int,
    {
        let nc = match &self.node_context {
            None => {
                return Err(GraphError::MissingNodeContext);
            },
            Some(nc) => nc,
        };
        if self.fuel == 0 {
            return Err(GraphError::RecursionLimit);
        }
        let target = TargetPin::NodePose(nc.node_id.clone(), pin);
        let mut sub = self.without_node();
        sub.fuel = self.fuel - 1;
        graph.get_pose(update, &target, gc, overlay, &sub)
    }

    /// The time update written for the current node's pose output this
    /// frame; reading it before the write is a pass-ordering violation.
    pub fn time_update_fwd(&self, gc: &GraphContext) -> (r: Result<TimeUpdate, GraphError>)
        ensures
            match &self.node_context {
                None => r == Err::<TimeUpdate, GraphError>(GraphError::MissingNodeContext),
                Some(nc) => match gc.time_of(SourcePinView::NodePose(nc.node_id@)) {
                    Some(u) => r == Ok::<TimeUpdate, GraphError>(u),
                    None => r == Err::<TimeUpdate, GraphError>(GraphError::PassOrderingViolation),
                },
            },
    {
        match &self.node_context {
            None => Err(GraphError::MissingNodeContext),
            Some(nc) => {
                let pin = SourcePin::NodePose(nc.node_id.clone());
                gc.get_time_update(&pin)
            },
        }
    }

    /// The timestamp the current node emitted in the previous frame; zero
    /// before the first frame.
    pub fn prev_time_fwd(&self, gc: &GraphContext) -> (r: Result<i64, GraphError>)
        ensures
            match &self.node_context {
                None => r == Err::<i64, GraphError>(GraphError::MissingNodeContext),
                Some(nc) => match gc.prev_of(SourcePinView::NodePose(nc.node_id@)) {
                    Some(t) => r == Ok::<i64, GraphError>(t),
                    None => r == Ok::<i64, GraphError>(0),
                },
            },
    {
        match &self.node_context {
            None => Err(GraphError::MissingNodeContext),
            Some(nc) => {
                let pin = SourcePin::NodePose(nc.node_id.clone());
                Ok(gc.get_prev_time(&pin))
            },
        }
    }
}

impl AnimationNode {
    /// Dispatches the duration pass to the node kind.
    pub fn duration_pass(
        &self,
        graph: &AnimationGraph,
        overlay: &InputOverlay,
        pass: &PassContext,
    ) -> (r: Result<DurationData, GraphError>)
        ensures
            self.node is Loop ==> r == Ok::<DurationData, GraphError>(None),
            self.node matches AnimationNodeType::Clip(c) ==> r == Ok::<DurationData, GraphError>(
                Some(c.spec_clip().duration),
            ),
            pass.node_context matches Some(nc) ==> (spec_node_duration(
                *graph,
                *overlay,
                self.node,
                nc.node_id@,
                pass.fuel as nat,
            ) matches Some(v) ==> r == v),
        decreases pass.fuel, 2int,
    {
        match &self.node {
            AnimationNodeType::Blend(n) => n.duration_pass(graph, overlay, pass),
            AnimationNodeType::Chain(n) => n.duration_pass(graph, overlay, pass),
            AnimationNodeType::Clip(n) => n.duration_pass(graph, overlay, pass),
            AnimationNodeType::Loop(n) => n.duration_pass(graph, overlay, pass),
            AnimationNodeType::Speed(n) => n.duration_pass(graph, overlay, pass),
            AnimationNodeType::FlipLr(n) => n.duration_pass(graph, overlay, pass),
            AnimationNodeType::Add(_) => Err(GraphError::TypeMismatch),
            AnimationNodeType::ExtendSkeleton(n) => n.duration_pass(graph, overlay, pass),
            AnimationNodeType::Graph(n) => n.duration_pass(graph, overlay, pass),
        }
    }

    /// Dispatches the pose pass to the node kind.
    pub fn pose_pass(
        &self,
        update: TimeUpdate,
        graph: &AnimationGraph,
        gc: &mut GraphContext,
        overlay: &InputOverlay,
        pass: &PassContext,
    ) -> (r: Result<PoseFrame, GraphError>)
        ensures
            ctx_preserved(*old(gc), *final(gc)),
            time_kept(*old(gc), *final(gc)),
            self.node matches AnimationNodeType::Clip(c) ==> *final(gc) == *old(gc) && (
            pass.node_context matches Some(nc) ==> r matches Ok(f) && spec_sample(
                c.spec_clip(),
                spec_global_time(
                    update,
                    match old(gc).prev_of(SourcePinView::NodePose(nc.node_id@)) {
                        Some(t) => t,
                        None => 0,
                    },
                ),
                f@,
            )),
        decreases pass.fuel, 2int,
    {
        match &self.node {
            AnimationNodeType::Blend(n) => n.pose_pass(update, graph, gc, overlay, pass),
            AnimationNodeType::Chain(n) => n.pose_pass(update, graph, gc, overlay, pass),
            AnimationNodeType::Clip(n) => n.pose_pass(update, graph, gc, overlay, pass),
            AnimationNodeType::Loop(n) => n.pose_pass(update, graph, gc, overlay, pass),
            AnimationNodeType::Speed(n) => n.pose_pass(update, graph, gc, overlay, pass),
            AnimationNodeType::FlipLr(n) => n.pose_pass(update, graph, gc, overlay, pass),
            AnimationNodeType::Add(_) => Err(GraphError::TypeMismatch),
            AnimationNodeType::ExtendSkeleton(n) => n.pose_pass(update, graph, gc, overlay, pass),
            AnimationNodeType::Graph(n) => n.pose_pass(update, graph, gc, overlay, pass),
        }
    }

    /// Dispatches the parameter pass to the node kind; only nodes with a
    /// declared parameter output produce one.
    pub fn parameter_pass(
        &self,
        pin: &PinId,
        graph: &AnimationGraph,
        overlay: &InputOverlay,
        pass: &PassContext,
    ) -> (r: Result<ParamValue, GraphError>)
        ensures
            pass.node_context matches Some(nc) ==> (spec_node_parameter(
                *graph,
                *overlay,
                self.node,
                nc.node_id@,
                pass.fuel as nat,
            ) matches Some(v) ==> r == v),
        decreases pass.fuel, 2int,
    {
        match &self.node {
            AnimationNodeType::Add(n) => n.parameter_pass(graph, overlay, pass),
            AnimationNodeType::Graph(n) => n.parameter_pass(pin, graph, overlay, pass),
            _ => Err(GraphError::UnconnectedTargetPin),
        }
    }
}

impl AnimationGraph {
    /// Resolves a parameter pull: the external overlay first on an exact
    /// target match, then the edge table, then for graph-level inputs the
    /// boundary overlay and the default table.  Fails with
    /// `UnconnectedTargetPin` when nothing supplies the pin.
    pub fn get_parameter(
        &self,
        target: &TargetPin,
        overlay: &InputOverlay,
        pass: &PassContext,
    ) -> (r: Result<ParamValue, GraphError>)
        ensures
            spec_pull_parameter(*self, *overlay, target@, pass.fuel as nat) matches Some(v) ==> r
                == v,
        decreases pass.fuel, 3int,
    {
        match table_get(&overlay.parameters, target) {
            Some(v) => {
                return Ok(*v);
            },
            None => {},
        }
        let source = match table_get(&self.edges, target) {
            None => {
                return Err(GraphError::UnconnectedTargetPin);
            },
            Some(s) => s,
        };
        match source {
            SourcePin::InputParameter(p) => {
                match table_get(&overlay.input_parameters, p) {
                    Some(v) => Ok(*v),
                    None => {
                        match table_get(&self.default_parameters, p) {
                            Some(v) => Ok(*v),
                            None => Err(GraphError::UnconnectedTargetPin),
                        }
                    },
                }
            },
            SourcePin::NodeParameter(n, p) => {
                match table_get(&self.nodes, n) {
                    None => Err(GraphError::NodeNotFound),
                    Some(node) => {
                        let node_pass = pass.with_node(n);
                        node.parameter_pass(p, self, overlay, &node_pass)
                    },
                }
            },
            _ => Err(GraphError::TypeMismatch),
        }
    }

    /// Resolves a duration pull: looks the edge up and asks the producing
    /// node, or the boundary overlay for graph-level inputs.
    pub fn get_duration(
        &self,
        target: &TargetPin,
        overlay: &InputOverlay,
        pass: &PassContext,
    ) -> (r: Result<DurationData, GraphError>)
        ensures
            spec_pull_duration(*self, *overlay, target@, pass.fuel as nat) matches Some(v) ==> r
                == v,
        decreases pass.fuel, 3int,
    {
        let source = match table_get(&self.edges, target) {
            None => {
                return Err(GraphError::UnconnectedTargetPin);
            },
            Some(s) => s,
        };
        match source {
            SourcePin::NodePose(node_id) => {
                let node = match table_get(&self.nodes, node_id) {
                    None => {
                        return Err(GraphError::NodeNotFound);
                    },
                    Some(n) => n,
                };
                let node_pass = pass.with_node(node_id);
                node.duration_pass(self, overlay, &node_pass)
            },
            SourcePin::InputPose(p) => {
                match table_get(&overlay.input_durations, p) {
                    Some(d) => Ok(*d),
                    None => Err(GraphError::UnconnectedTargetPin),
                }
            },
            _ => Err(GraphError::TypeMismatch),
        }
    }

    /// Resolves a pose pull: looks the edge up, writes the time update into
    /// the cache for the producing pin, dispatches the node's pose pass and
    /// records the emitted timestamp for the next frame.  Nested contexts
    /// are only ever created, never dropped.
    pub fn get_pose(
        &self,
        update: TimeUpdate,
        target: &TargetPin,
        gc: &mut GraphContext,
        overlay: &InputOverlay,
        pass: &PassContext,
    ) -> (r: Result<PoseFrame, GraphError>)
        ensures
            ctx_preserved(*old(gc), *final(gc)),
            time_kept(*old(gc), *final(gc)),
            spec_pose_resolution(*self, *overlay, target@, update, *old(gc), *final(gc), r),
        decreases pass.fuel, 3int,
    {
        let source = match table_get(&self.edges, target) {
            None => {
                return Err(GraphError::UnconnectedTargetPin);
            },
            Some(s) => s,
        };
        match source {
            SourcePin::NodePose(node_id) => {
                let node = match table_get(&self.nodes, node_id) {
                    None => {
                        return Err(GraphError::NodeNotFound);
                    },
                    Some(n) => n,
                };
                let source_pin = SourcePin::NodePose(node_id.clone());
                gc.write_time(source_pin.clone(), update);
                let node_pass = pass.with_node(node_id);
                let frame = match node.pose_pass(update, self, gc, overlay, &node_pass) {
                    Ok(f) => f,
                    Err(e) => {
                        return Err(e);
                    },
                };
                gc.write_prev(source_pin, frame.timestamp);
                Ok(frame)
            },
            SourcePin::InputPose(p) => {
                match table_get(&overlay.input_poses, p) {
                    Some(f) => Ok(f.duplicate()),
                    None => Err(GraphError::UnconnectedTargetPin),
                }
            },
            _ => Err(GraphError::TypeMismatch),
        }
    }
}

} // verus!
