//! Plays its input faster or slower by a fixed-point factor.
//!
//! At speed `s` (with `PARAM_ONE` as one), the input is sampled at global
//! time scaled by `s`, the duration shrinks by `s`, and the inner timestamp
//! is scaled back down.  Non-positive speeds hold playback still and make
//! the output unbounded.

use vstd::prelude::*;
use crate::context::{ctx_preserved, time_kept, GraphContext, InputOverlay, PassContext};
use crate::data::{DurationData, PoseFrame, TimeUpdate, PARAM_ONE};
use crate::errors::GraphError;
use crate::graph::{AnimationGraph, AnimationNode, AnimationNodeType};
use crate::nodes::blend_node::trunc_div;
use crate::times::spec_sat;

verus! {

/// Multiplies a tick count by a fixed-point factor, saturating.
pub fn scale_time(t: i64, s: i64) -> (r: i64)
    requires
        s >= 0,
    ensures
        r as int == spec_sat(trunc_div(t as int * s as int, PARAM_ONE as int)),
{
    proof {
        let m = 0x8000_0000_0000_0000i128 as int;
        assert(-(m * m) <= t as int * s as int <= m * m) by (nonlinear_arith)
            requires
                -m <= t as int <= m,
                0 <= s as int <= m,
        ;
    }
    let num: i128 = t as i128 * s as i128;
    let q: i128 = num.checked_div(PARAM_ONE as i128).unwrap();
    if q > i64::MAX as i128 {
        i64::MAX
    } else if q < i64::MIN as i128 {
        i64::MIN
    } else {
        q as i64
    }
}

/// Divides a tick count by a fixed-point factor, saturating.
pub fn unscale_time(t: i64, s: i64) -> (r: i64)
    requires
        s >= 1,
    ensures
        r as int == spec_sat(trunc_div(t as int * PARAM_ONE as int, s as int)),
{
    proof {
        let m = 0x8000_0000_0000_0000i128 as int;
        assert(-(m * 1000) <= t as int * PARAM_ONE as int <= m * 1000) by (nonlinear_arith)
            requires
                -m <= t as int <= m,
                PARAM_ONE as int == 1000,
        ;
    }
    let num: i128 = t as i128 * PARAM_ONE as i128;
    let q: i128 = num.checked_div(s as i128).unwrap();
    if q > i64::MAX as i128 {
        i64::MAX
    } else if q < i64::MIN as i128 {
        i64::MIN
    } else {
        q as i64
    }
}

/// The scaled update a positive speed forwards upstream.
pub open spec fn spec_speed_forward(update: TimeUpdate, s: i64) -> TimeUpdate {
    match update {
        TimeUpdate::Absolute(t) => TimeUpdate::Absolute(
            spec_sat(trunc_div(t as int * s as int, PARAM_ONE as int)) as i64,
        ),
        TimeUpdate::Delta(dt) => TimeUpdate::Delta(
            spec_sat(trunc_div(dt as int * s as int, PARAM_ONE as int)) as i64,
        ),
    }
}

/// What the speed's pose pass guarantees once its factor has resolved to
/// the scalar `s`: a non-positive speed holds still (the input pulled at a
/// zero delta, its frame unchanged); a positive speed pulls the input at
/// the scaled update and scales the inner timestamp back down.
pub open spec fn spec_speed_pose(
    g: crate::graph::AnimationGraph,
    overlay: InputOverlay,
    name: Seq<char>,
    update: TimeUpdate,
    gc0: GraphContext,
    gc1: GraphContext,
    s: i64,
    r: Result<PoseFrame, GraphError>,
) -> bool {
    if s <= 0 {
        exists|ri: Result<PoseFrame, GraphError>|
            #[trigger] crate::graph::spec_pose_resolution(
                g,
                overlay,
                crate::ids::TargetPinView::NodePose(name, "Pose In"@),
                TimeUpdate::Delta(0),
                gc0,
                gc1,
                ri,
            ) && match ri {
                Ok(inner) => r matches Ok(f) && f@ == inner@,
                Err(e) => r == Err::<PoseFrame, GraphError>(e),
            }
    } else {
        exists|ri: Result<PoseFrame, GraphError>|
            #[trigger] crate::graph::spec_pose_resolution(
                g,
                overlay,
                crate::ids::TargetPinView::NodePose(name, "Pose In"@),
                spec_speed_forward(update, s),
                gc0,
                gc1,
                ri,
            ) && match ri {
                Ok(inner) => r matches Ok(f) && f@.timestamp as int == spec_sat(
                    trunc_div(inner@.timestamp as int * PARAM_ONE as int, s as int),
                ) && f@.bones == inner@.bones && f@.space == inner@.space,
                Err(e) => r == Err::<PoseFrame, GraphError>(e),
            }
    }
}

/// The speed node: stateless; the factor arrives through a parameter pin.
#[derive(Debug)]
pub struct SpeedNode {}

impl SpeedNode {
    pub fn new() -> (r: Self) {
        SpeedNode {  }
    }

    /// The name of the pose input pin.
    pub fn input_pin() -> (r: crate::ids::PinId)
        ensures
            r@ == "Pose In"@,
    {
        "Pose In".to_owned()
    }

    /// The name of the scalar speed factor pin.
    pub fn speed_pin() -> (r: crate::ids::PinId)
        ensures
            r@ == "Speed"@,
    {
        "Speed".to_owned()
    }

    /// The label shown for this node kind; behaviourally inert.
    pub fn display_name(&self) -> (r: String)
        ensures
            r@ == "Speed"@,
    {
        "Speed".to_owned()
    }

    /// Wraps the node under an instance name.
    pub fn wrapped(self, name: String) -> (r: AnimationNode)
        ensures
            r.name == name,
            r.node == AnimationNodeType::Speed(self),
    {
        AnimationNode::new_from_nodetype(name, AnimationNodeType::Speed(self))
    }

    /// The input duration divided by the speed; unbounded input, or a speed
    /// at or below zero, leaves the output unbounded.
    pub fn duration_pass(
        &self,
        graph: &AnimationGraph,
        overlay: &InputOverlay,
        pass: &PassContext,
    ) -> (r: Result<DurationData, GraphError>)
        ensures
            pass.node_context is None ==> r == Err::<DurationData, GraphError>(
                GraphError::MissingNodeContext,
            ),
            pass.node_context matches Some(nc) ==> (crate::graph::spec_speed_duration(
                *graph,
                *overlay,
                nc.node_id@,
                pass.fuel as nat,
            ) matches Some(v) ==> r == v),
        decreases pass.fuel, 1int,
    {
        let d = match pass.duration_back(graph, SpeedNode::input_pin(), overlay) {
            Ok(d) => d,
            Err(e) => {
                return Err(e);
            },
        };
        match d {
            None => Ok(None),
            Some(dd) => {
                let s = match pass.parameter_back(graph, SpeedNode::speed_pin(), overlay) {
                    Ok(v) => match v.as_scalar() {
                        Some(s) => s,
                        None => {
                            return Err(GraphError::MissingParameter);
                        },
                    },
                    Err(e) => {
                        return Err(e);
                    },
                };
                if s <= 0 {
                    Ok(None)
                } else {
                    Ok(Some(unscale_time(dd, s)))
                }
            },
        }
    }

    /// Samples the input at the update scaled by the speed and scales the
    /// inner timestamp back; a speed at or below zero holds still.
    pub fn pose_pass(
        &self,
        update: TimeUpdate,
        graph: &AnimationGraph,
        gc: &mut GraphContext,
        overlay: &InputOverlay,
        pass: &PassContext,
    ) -> (r: Result<PoseFrame, GraphError>)
        ensures
            ctx_preserved(*old(gc), *final(gc)),
            time_kept(*old(gc), *final(gc)),
            pass.node_context is None ==> r == Err::<PoseFrame, GraphError>(
                GraphError::MissingNodeContext,
            ),
            pass.node_context is Some && pass.fuel == 0 ==> r == Err::<PoseFrame, GraphError>(
                GraphError::RecursionLimit,
            ),
            pass.node_context matches Some(nc) ==> pass.fuel > 0 ==> match
            crate::graph::spec_pull_parameter(
                *graph,
                *overlay,
                crate::ids::TargetPinView::NodeParameter(nc.node_id@, "Speed"@),
                (pass.fuel - 1) as nat,
            ) {
                Some(Err(e)) => r == Err::<PoseFrame, GraphError>(e),
                Some(Ok(v)) => if !(v is Scalar) {
                    r == Err::<PoseFrame, GraphError>(GraphError::MissingParameter)
                } else {
                    spec_speed_pose(
                        *graph,
                        *overlay,
                        nc.node_id@,
                        update,
                        *old(gc),
                        *final(gc),
                        v->Scalar_0,
                        r,
                    )
                },
                None => true,
            },
        decreases pass.fuel, 1int,
    {
        let s = match pass.parameter_back(graph, SpeedNode::speed_pin(), overlay) {
            Ok(v) => match v.as_scalar() {
                Some(s) => s,
                None => {
                    return Err(GraphError::MissingParameter);
                },
            },
            Err(e) => {
                return Err(e);
            },
        };
        if s <= 0 {
            let pulled = pass.pose_back(
                graph,
                SpeedNode::input_pin(),
                TimeUpdate::Delta(0),
                gc,
                overlay,
            );
            let ghost ri = pulled;
            let res: Result<PoseFrame, GraphError> = match pulled {
                Ok(inner) => Ok(inner),
                Err(e) => Err(e),
            };
            proof {
                if pass.node_context is Some && pass.fuel > 0 {
                    let nci = pass.node_context->Some_0.node_id@;
                    assert(crate::graph::spec_pose_resolution(
                        *graph,
                        *overlay,
                        crate::ids::TargetPinView::NodePose(nci, "Pose In"@),
                        TimeUpdate::Delta(0),
                        *old(gc),
                        *gc,
                        ri,
                    ));
                    assert(spec_speed_pose(
                        *graph,
                        *overlay,
                        nci,
                        update,
                        *old(gc),
                        *gc,
                        s,
                        res,
                    ));
                }
            }
            res
        } else {
            let fwd = match update {
                TimeUpdate::Absolute(t) => TimeUpdate::Absolute(scale_time(t, s)),
                TimeUpdate::Delta(dt) => TimeUpdate::Delta(scale_time(dt, s)),
            };
            let pulled = pass.pose_back(graph, SpeedNode::input_pin(), fwd, gc, overlay);
            let ghost ri = pulled;
            let res: Result<PoseFrame, GraphError> = match pulled {
                Ok(inner) => {
                    let ts = unscale_time(inner.timestamp, s);
                    Ok(inner.with_timestamp(ts))
                },
                Err(e) => Err(e),
            };
            proof {
                if pass.node_context is Some && pass.fuel > 0 {
                    let nci = pass.node_context->Some_0.node_id@;
                    assert(fwd == spec_speed_forward(update, s));
                    assert(crate::graph::spec_pose_resolution(
                        *graph,
                        *overlay,
                        crate::ids::TargetPinView::NodePose(nci, "Pose In"@),
                        spec_speed_forward(update, s),
                        *old(gc),
                        *gc,
                        ri,
                    ));
                    assert(spec_speed_pose(
                        *graph,
                        *overlay,
                        nci,
                        update,
                        *old(gc),
                        *gc,
                        s,
                        res,
                    ));
                }
            }
            res
        }
    }
}

} // verus!
