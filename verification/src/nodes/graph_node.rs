//! Embeds a whole graph as a single node.
//!
//! The embedded subgraph evaluates against its own nested context, created
//! once per instance and kept for the instance's lifetime, so nested state
//! such as a loop's phase survives across frames.  Before entering, the
//! embedding node pulls the subgraph's declared inputs in the outer graph
//! and hands them down through a boundary overlay; an input that is
//! unconnected outside is simply left out, and fails inside only if the
//! subgraph actually demands it.

use vstd::prelude::*;
use crate::context::{
    ctx_preserved, time_kept, lemma_ctx_child_update, GraphContext, InputOverlay, PassContext,
};
use crate::data::{DurationData, ParamValue, PoseFrame, TimeUpdate};
use crate::errors::GraphError;
use crate::graph::{AnimationGraph, AnimationNode, AnimationNodeType};
use crate::ids::{PinId, TargetPin};

verus! {

/// A node wrapping an embedded subgraph.
pub struct GraphNode {
    pub graph: Box<AnimationGraph>,
}

impl GraphNode {
    /// Embeds the given graph.
    pub fn new(graph: AnimationGraph) -> (r: Self)
        ensures
            *r.graph == graph,
    {
        GraphNode { graph: Box::new(graph) }
    }

    /// The label shown for this node kind; behaviourally inert.
    pub fn display_name(&self) -> (r: String)
        ensures
            r@ == "Graph"@,
    {
        "Graph".to_owned()
    }

    /// Wraps the node under an instance name.
    pub fn wrapped(self, name: String) -> (r: AnimationNode)
        ensures
            r.name == name,
            r.node == AnimationNodeType::Graph(self),
    {
        AnimationNode::new_from_nodetype(name, AnimationNodeType::Graph(self))
    }

    /// Pulls the durations of the subgraph's declared pose inputs in the
    /// outer graph, then asks the subgraph for its output duration.
    pub fn duration_pass(
        &self,
        graph: &AnimationGraph,
        overlay: &InputOverlay,
        pass: &PassContext,
    ) -> (r: Result<DurationData, GraphError>)
        decreases pass.fuel, 1int,
    {
        let child_pass = match pass.child() {
            Ok(c) => c,
            Err(e) => {
                return Err(e);
            },
        };
        let mut child_overlay = InputOverlay::empty();
        let mut i: usize = 0;
        while i < self.graph.input_pose_specs.len()
            invariant
                pass.fuel > 0,
                child_pass.fuel == pass.fuel - 1,
            decreases self.graph.input_pose_specs@.len() - i,
        {
            let pin = self.graph.input_pose_specs[i].0.clone();
            match pass.duration_back(graph, pin.clone(), overlay) {
                Ok(d) => {
                    child_overlay.input_durations.push((pin, d));
                },
                Err(e) => {
                    match e {
                        GraphError::UnconnectedTargetPin => {},
                        _ => {
                            return Err(e);
                        },
                    }
                },
            }
            i = i + 1;
        }
        self.graph.get_duration(&TargetPin::OutputPose, &child_overlay, &child_pass)
    }

    /// Hands the subgraph its parameter inputs pulled in the outer graph,
    /// then asks it for the requested graph-level parameter output.
    pub fn parameter_pass(
        &self,
        pin: &PinId,
        graph: &AnimationGraph,
        overlay: &InputOverlay,
        pass: &PassContext,
    ) -> (r: Result<ParamValue, GraphError>)
        decreases pass.fuel, 1int,
    {
        let child_pass = match pass.child() {
            Ok(c) => c,
            Err(e) => {
                return Err(e);
            },
        };
        let mut child_overlay = InputOverlay::empty();
        let mut j: usize = 0;
        while j < self.graph.default_parameters.len()
            invariant
                pass.fuel > 0,
                child_pass.fuel == pass.fuel - 1,
            decreases self.graph.default_parameters@.len() - j,
        {
            let in_pin = self.graph.default_parameters[j].0.clone();
            match pass.parameter_back(graph, in_pin.clone(), overlay) {
                Ok(v) => {
                    child_overlay.input_parameters.push((in_pin, v));
                },
                Err(e) => {
                    match e {
                        GraphError::UnconnectedTargetPin => {},
                        _ => {
                            return Err(e);
                        },
                    }
                },
            }
            j = j + 1;
        }
        self.graph.get_parameter(
            &TargetPin::OutputParameter(pin.clone()),
            &child_overlay,
            &child_pass,
        )
    }

    /// Pulls the subgraph's declared inputs in the outer graph, switches to
    /// the nested context owned for this node, and asks the subgraph for its
    /// output pose.  The nested context persists across frames; nothing is
    /// ever evicted from it.
    pub fn pose_pass(
        &self,
        update: TimeUpdate,
        graph: &AnimationGraph,
        gc: &mut GraphContext,
        overlay: &InputOverlay,
        pass: &PassContext,
    ) -> (r: Result<PoseFrame, GraphError>)
        ensures
            ctx_preserved(*old(gc), *final(gc)),
            time_kept(*old(gc), *final(gc)),
            pass.node_context is None ==> r == Err::<PoseFrame, GraphError>(
                GraphError::MissingNodeContext,
            ),
            pass.node_context is Some && pass.fuel == 0 ==> r == Err::<PoseFrame, GraphError>(
                GraphError::RecursionLimit,
            ),
            pass.node_context matches Some(nc) ==> r is Ok ==> final(gc).child_of(nc.node_id@)
                is Some,
        decreases pass.fuel, 1int,
    {
        let child_pass = match pass.child() {
            Ok(c) => c,
            Err(e) => {
                return Err(e);
            },
        };
        let mut child_overlay = InputOverlay::empty();
        let ghost gc0 = *gc;
        let mut i: usize = 0;
        while i < self.graph.input_pose_specs.len()
            invariant
                pass.fuel > 0,
                child_pass.fuel == pass.fuel - 1,
                gc0 == *old(gc),
                ctx_preserved(gc0, *gc),
                time_kept(gc0, *gc),
            decreases self.graph.input_pose_specs@.len() - i,
        {
            let pin = self.graph.input_pose_specs[i].0.clone();
            match pass.duration_back(graph, pin.clone(), overlay) {
                Ok(d) => {
                    child_overlay.input_durations.push((pin.clone(), d));
                },
                Err(e) => {
                    match e {
                        GraphError::UnconnectedTargetPin => {},
                        _ => {
                            return Err(e);
                        },
                    }
                },
            }
            match pass.pose_back(graph, pin.clone(), update, gc, overlay) {
                Ok(f) => {
                    child_overlay.input_poses.push((pin, f));
                },
                Err(e) => {
                    match e {
                        GraphError::UnconnectedTargetPin => {},
                        _ => {
                            return Err(e);
                        },
                    }
                },
            }
            i = i + 1;
        }
        let mut j: usize = 0;
        while j < self.graph.default_parameters.len()
            invariant
                pass.fuel > 0,
                child_pass.fuel == pass.fuel - 1,
                gc0 == *old(gc),
                ctx_preserved(gc0, *gc),
                time_kept(gc0, *gc),
            decreases self.graph.default_parameters@.len() - j,
        {
            let pin = self.graph.default_parameters[j].0.clone();
            match pass.parameter_back(graph, pin.clone(), overlay) {
                Ok(v) => {
                    child_overlay.input_parameters.push((pin, v));
                },
                Err(e) => {
                    match e {
                        GraphError::UnconnectedTargetPin => {},
                        _ => {
                            return Err(e);
                        },
                    }
                },
            }
            j = j + 1;
        }
        let node_id = match &pass.node_context {
            Some(nc) => nc.node_id.clone(),
            None => {
                return Err(GraphError::MissingNodeContext);
            },
        };
        let idx = gc.ensure_child(&node_id);
        let ghost g1 = *gc;
        let r = self.graph.get_pose(
            update,
            &TargetPin::OutputPose,
            &mut gc.children[idx].1,
            &child_overlay,
            &child_pass,
        );
        proof {
            lemma_ctx_child_update(g1, *gc, idx as int, gc.children@[idx as int].1);
        }
        r
    }
}

} // verus!
