//! Plays two animations one after the other.
//!
//! The duration is the sum of the operand durations when both are finite and
//! unbounded otherwise.  The pose pass seeks whichever segment the global
//! time falls in and re-stamps the second segment by the first's length.

use vstd::prelude::*;
use crate::context::{ctx_preserved, time_kept, GraphContext, InputOverlay, PassContext};
use crate::data::{DurationData, PoseFrame, TimeUpdate};
use crate::errors::GraphError;
use crate::graph::{AnimationGraph, AnimationNode, AnimationNodeType};
use crate::nodes::loop_node::{global_time, spec_global_time};
use crate::times::{spec_sat, sat_add, sat_sub};

verus! {

/// Chain duration policy: the sum of both operand durations, saturating;
/// unbounded as soon as either operand is unbounded.
pub open spec fn spec_chain_duration(a: DurationData, b: DurationData) -> DurationData {
    match (a, b) {
        (Some(x), Some(y)) => Some(spec_sat(x as int + y as int) as i64),
        _ => None,
    }
}

/// Combines the operand durations of a chain.
pub fn chain_duration(a: DurationData, b: DurationData) -> (r: DurationData)
    ensures
        r == spec_chain_duration(a, b),
{
    match (a, b) {
        (Some(x), Some(y)) => Some(crate::times::sat_add(x, y)),
        _ => None,
    }
}

/// Which segment a chain samples at global time `g` when the first segment
/// lasts `d1`: the first for `g < d1`, else the second, re-based by `d1`.
pub open spec fn spec_chain_in_first(g: int, d1: int) -> bool {
    g < d1
}

/// The update forwarded to the chosen segment: an absolute seek to the
/// segment-local time.
pub open spec fn spec_chain_forward(g: int, d1: int) -> TimeUpdate {
    if spec_chain_in_first(g, d1) {
        TimeUpdate::Absolute(g as i64)
    } else {
        TimeUpdate::Absolute(spec_sat(g - d1) as i64)
    }
}

/// The first-segment arm of the chain's pose guarantee: the first operand
/// is sought to the global time itself and its result passes through
/// unchanged.
pub open spec fn spec_chain_first(
    g: crate::graph::AnimationGraph,
    overlay: InputOverlay,
    name: Seq<char>,
    g_time: int,
    gc0: GraphContext,
    gc1: GraphContext,
    r: Result<PoseFrame, GraphError>,
) -> bool {
    exists|ri: Result<PoseFrame, GraphError>|
        #[trigger] crate::graph::spec_pose_resolution(
            g,
            overlay,
            crate::ids::TargetPinView::NodePose(name, "Pose In 1"@),
            TimeUpdate::Absolute(g_time as i64),
            gc0,
            gc1,
            ri,
        ) && match ri {
            Ok(inner) => r matches Ok(f) && f@ == inner@,
            Err(e) => r == Err::<PoseFrame, GraphError>(e),
        }
}

/// The second-segment arm of the chain's pose guarantee: the second operand
/// is sought to the time past the first segment's end and its frame is
/// re-stamped by the first's length.
pub open spec fn spec_chain_second(
    g: crate::graph::AnimationGraph,
    overlay: InputOverlay,
    name: Seq<char>,
    g_time: int,
    dd: i64,
    gc0: GraphContext,
    gc1: GraphContext,
    r: Result<PoseFrame, GraphError>,
) -> bool {
    exists|ri: Result<PoseFrame, GraphError>|
        #[trigger] crate::graph::spec_pose_resolution(
            g,
            overlay,
            crate::ids::TargetPinView::NodePose(name, "Pose In 2"@),
            TimeUpdate::Absolute(spec_sat(g_time - dd) as i64),
            gc0,
            gc1,
            ri,
        ) && match ri {
            Ok(inner) => r matches Ok(f) && f@.timestamp as int == spec_sat(
                inner@.timestamp + dd,
            ) && f@.bones == inner@.bones && f@.space == inner@.space,
            Err(e) => r == Err::<PoseFrame, GraphError>(e),
        }
}

/// What the chain's pose pass guarantees, given the first segment's
/// duration as the resolution model determines it: failures propagate
/// unchanged; an unbounded or non-positive first segment plays alone as a
/// transparent passthrough; otherwise the global time picks the segment.
pub open spec fn spec_chain_pose(
    g: crate::graph::AnimationGraph,
    overlay: InputOverlay,
    name: Seq<char>,
    update: TimeUpdate,
    gc0: GraphContext,
    gc1: GraphContext,
    fuel: nat,
    r: Result<PoseFrame, GraphError>,
) -> bool {
    match crate::graph::spec_pull_duration(
        g,
        overlay,
        crate::ids::TargetPinView::NodePose(name, "Pose In 1"@),
        (fuel - 1) as nat,
    ) {
        Some(Err(e)) => r == Err::<PoseFrame, GraphError>(e),
        Some(Ok(d_opt)) => ({
            let prev = match gc0.prev_of(crate::ids::SourcePinView::NodePose(name)) {
                Some(t) => t,
                None => 0,
            };
            let g_time = spec_global_time(update, prev);
            match d_opt {
                None => crate::graph::spec_pose_resolution(
                    g,
                    overlay,
                    crate::ids::TargetPinView::NodePose(name, "Pose In 1"@),
                    update,
                    gc0,
                    gc1,
                    r,
                ),
                Some(dd) => if dd >= 1 {
                    if g_time < dd {
                        spec_chain_first(g, overlay, name, g_time, gc0, gc1, r)
                    } else {
                        spec_chain_second(g, overlay, name, g_time, dd, gc0, gc1, r)
                    }
                } else {
                    crate::graph::spec_pose_resolution(
                        g,
                        overlay,
                        crate::ids::TargetPinView::NodePose(name, "Pose In 1"@),
                        update,
                        gc0,
                        gc1,
                        r,
                    )
                },
            }
        }),
        None => true,
    }
}

/// The chain node: stateless.
#[derive(Debug)]
pub struct ChainNode {}

impl ChainNode {
    pub fn new() -> (r: Self) {
        ChainNode {  }
    }

    /// The name of the first operand pose pin.
    pub fn input_pin_1() -> (r: crate::ids::PinId)
        ensures
            r@ == "Pose In 1"@,
    {
        "Pose In 1".to_owned()
    }

    /// The name of the second operand pose pin.
    pub fn input_pin_2() -> (r: crate::ids::PinId)
        ensures
            r@ == "Pose In 2"@,
    {
        "Pose In 2".to_owned()
    }

    /// The label shown for this node kind; behaviourally inert.
    pub fn display_name(&self) -> (r: String)
        ensures
            r@ == "Chain"@,
    {
        "Chain".to_owned()
    }

    /// Wraps the node under an instance name.
    pub fn wrapped(self, name: String) -> (r: AnimationNode)
        ensures
            r.name == name,
            r.node == AnimationNodeType::Chain(self),
    {
        AnimationNode::new_from_nodetype(name, AnimationNodeType::Chain(self))
    }

    /// Combines the operand durations: their sum, or unbounded; pinned by
    /// the duration resolution model wherever it is determined.
    pub fn duration_pass(
        &self,
        graph: &AnimationGraph,
        overlay: &InputOverlay,
        pass: &PassContext,
    ) -> (r: Result<DurationData, GraphError>)
        ensures
            pass.node_context is None ==> r == Err::<DurationData, GraphError>(
                GraphError::MissingNodeContext,
            ),
            pass.node_context matches Some(nc) ==> (crate::graph::spec_pair_duration(
                *graph,
                *overlay,
                nc.node_id@,
                false,
                pass.fuel as nat,
            ) matches Some(v) ==> r == v),
        decreases pass.fuel, 1int,
    {
        let d1 = match pass.duration_back(graph, ChainNode::input_pin_1(), overlay) {
            Ok(d) => d,
            Err(e) => {
                return Err(e);
            },
        };
        let d2 = match pass.duration_back(graph, ChainNode::input_pin_2(), overlay) {
            Ok(d) => d,
            Err(e) => {
                return Err(e);
            },
        };
        Ok(chain_duration(d1, d2))
    }

    /// Seeks whichever segment the global time falls in: the first segment
    /// at its own local time, the second re-based and re-stamped by the
    /// first's length.  An unbounded first segment plays alone.
    pub fn pose_pass(
        &self,
        update: TimeUpdate,
        graph: &AnimationGraph,
        gc: &mut GraphContext,
        overlay: &InputOverlay,
        pass: &PassContext,
    ) -> (r: Result<PoseFrame, GraphError>)
        ensures
            ctx_preserved(*old(gc), *final(gc)),
            time_kept(*old(gc), *final(gc)),
            pass.node_context is None ==> r == Err::<PoseFrame, GraphError>(
                GraphError::MissingNodeContext,
            ),
            pass.node_context is Some && pass.fuel == 0 ==> r == Err::<PoseFrame, GraphError>(
                GraphError::RecursionLimit,
            ),
            pass.node_context matches Some(nc) ==> pass.fuel > 0 ==> spec_chain_pose(
                *graph,
                *overlay,
                nc.node_id@,
                update,
                *old(gc),
                *final(gc),
                pass.fuel as nat,
                r,
            ),
        decreases pass.fuel, 1int,
    {
        let d1 = match pass.duration_back(graph, ChainNode::input_pin_1(), overlay) {
            Ok(d) => d,
            Err(e) => {
                return Err(e);
            },
        };
        match d1 {
            Some(d) => {
                if d >= 1 {
                    let prev = match pass.prev_time_fwd(gc) {
                        Ok(p) => p,
                        Err(e) => {
                            return Err(e);
                        },
                    };
                    let g = global_time(update, prev);
                    if g < d {
                        let pulled = pass.pose_back(
                            graph,
                            ChainNode::input_pin_1(),
                            TimeUpdate::Absolute(g),
                            gc,
                            overlay,
                        );
                        let ghost ri = pulled;
                        let res: Result<PoseFrame, GraphError> = match pulled {
                            Ok(inner) => Ok(inner),
                            Err(e) => Err(e),
                        };
                        proof {
                            if pass.node_context is Some && pass.fuel > 0 {
                                let nci = pass.node_context->Some_0.node_id@;
                                assert(crate::graph::spec_pose_resolution(
                                    *graph,
                                    *overlay,
                                    crate::ids::TargetPinView::NodePose(nci, "Pose In 1"@),
                                    TimeUpdate::Absolute(g),
                                    *old(gc),
                                    *gc,
                                    ri,
                                ));
                                assert(crate::graph::spec_pose_resolution(
                                    *graph,
                                    *overlay,
                                    crate::ids::TargetPinView::NodePose(nci, "Pose In 1"@),
                                    TimeUpdate::Absolute((g as int) as i64),
                                    *old(gc),
                                    *gc,
                                    ri,
                                ));
                                assert(spec_chain_first(
                                    *graph,
                                    *overlay,
                                    nci,
                                    g as int,
                                    *old(gc),
                                    *gc,
                                    res,
                                ));
                            }
                        }
                        res
                    } else {
                        let fwd = TimeUpdate::Absolute(sat_sub(g, d));
                        let pulled = pass.pose_back(
                            graph,
                            ChainNode::input_pin_2(),
                            fwd,
                            gc,
                            overlay,
                        );
                        let ghost ri = pulled;
                        let res: Result<PoseFrame, GraphError> = match pulled {
                            Ok(inner) => {
                                let ts = sat_add(inner.timestamp, d);
                                Ok(inner.with_timestamp(ts))
                            },
                            Err(e) => Err(e),
                        };
                        proof {
                            if pass.node_context is Some && pass.fuel > 0 {
                                let nci = pass.node_context->Some_0.node_id@;
                                assert(crate::graph::spec_pose_resolution(
                                    *graph,
                                    *overlay,
                                    crate::ids::TargetPinView::NodePose(nci, "Pose In 2"@),
                                    fwd,
                                    *old(gc),
                                    *gc,
                                    ri,
                                ));
                                assert(fwd == TimeUpdate::Absolute(
                                    spec_sat(g as int - d as int) as i64,
                                ));
                                assert(crate::graph::spec_pose_resolution(
                                    *graph,
                                    *overlay,
                                    crate::ids::TargetPinView::NodePose(nci, "Pose In 2"@),
                                    TimeUpdate::Absolute(spec_sat(g as int - d as int) as i64),
                                    *old(gc),
                                    *gc,
                                    ri,
                                ));
                                assert(spec_chain_second(
                                    *graph,
                                    *overlay,
                                    nci,
                                    g as int,
                                    d,
                                    *old(gc),
                                    *gc,
                                    res,
                                ));
                            }
                        }
                        res
                    }
                } else {
                    pass.pose_back(graph, ChainNode::input_pin_1(), update, gc, overlay)
                }
            },
            None => pass.pose_back(graph, ChainNode::input_pin_1(), update, gc, overlay),
        }
    }
}

} // verus!
