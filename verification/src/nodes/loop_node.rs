//! Loops unbounded repetition of a finite upstream animation.
//!
//! With finite upstream duration `d`, local time is the Euclidean remainder
//! of global time by `d`.  An absolute update seeks upstream to the local
//! time; a delta update is forwarded unchanged unless the step crossed a
//! repeat boundary, in which case upstream is forced to re-seek.  The inner
//! frame is re-stamped back to global time, so output timestamps grow
//! monotonically across repeats.  With unbounded upstream duration the node
//! is a transparent passthrough.

use vstd::prelude::*;
use vstd::arithmetic::div_mod::{lemma_fundamental_div_mod, lemma_mod_bound};
use crate::context::{ctx_preserved, time_kept, GraphContext, InputOverlay, PassContext};
use crate::data::{DurationData, PoseFrame, TimeUpdate};
use crate::errors::GraphError;
use crate::graph::{AnimationGraph, AnimationNode, AnimationNodeType};
use crate::times::{spec_sat, sat_add, rem_euclid, period_start, lemma_same_period};

verus! {

/// The global time a node works at: an absolute update names it outright, a
/// delta update advances the previously emitted timestamp, saturating at the
/// ends of the representable range.
pub open spec fn spec_global_time(update: TimeUpdate, prev: i64) -> int {
    match update {
        TimeUpdate::Absolute(t) => t as int,
        TimeUpdate::Delta(dt) => spec_sat(prev as int + dt as int),
    }
}

/// Computes the global time for this frame from the update and the timestamp
/// emitted in the previous frame.
pub fn global_time(update: TimeUpdate, prev: i64) -> (g: i64)
    ensures
        g as int == spec_global_time(update, prev),
{
    match update {
        TimeUpdate::Absolute(t) => t,
        TimeUpdate::Delta(dt) => sat_add(prev, dt),
    }
}

/// The update a loop of period `d` forwards upstream: always an absolute
/// seek to local time for absolute updates; for delta updates, the delta
/// unchanged unless the step left the repeat it started in.
pub open spec fn spec_loop_forward(update: TimeUpdate, prev: int, g: int, d: int) -> TimeUpdate {
    match update {
        TimeUpdate::Absolute(_) => TimeUpdate::Absolute((g % d) as i64),
        TimeUpdate::Delta(dt) => {
            if spec_sat(g - g % d) != spec_sat(prev - prev % d) {
                TimeUpdate::Absolute((g % d) as i64)
            } else {
                TimeUpdate::Delta(dt)
            }
        },
    }
}

/// Computes the forwarded update of a loop of period `d`.
pub fn loop_forward(update: TimeUpdate, prev: i64, g: i64, d: i64) -> (r: TimeUpdate)
    requires
        d > 0,
    ensures
        r == spec_loop_forward(update, prev as int, g as int, d as int),
{
    proof {
        lemma_mod_bound(g as int, d as int);
    }
    let t = rem_euclid(g, d);
    match update {
        TimeUpdate::Absolute(_) => TimeUpdate::Absolute(t),
        TimeUpdate::Delta(dt) => {
            if period_start(g, d) != period_start(prev, d) {
                TimeUpdate::Absolute(t)
            } else {
                TimeUpdate::Delta(dt)
            }
        },
    }
}

/// Re-stamps an inner frame's timestamp from local back to global time by
/// adding the start of the repeat that `g` falls in.
pub fn loop_restamp(inner_ts: i64, g: i64, d: i64) -> (r: i64)
    requires
        d > 0,
    ensures
        r as int == spec_sat(inner_ts as int + spec_sat(g as int - g as int % d as int)),
{
    sat_add(inner_ts, period_start(g, d))
}

/// For every finite period `d > 0` and every global time `g`, the loop's
/// local time `g % d` lies in `[0, d)`.
pub proof fn lemma_loop_local_time_range(g: int, d: int)
    requires
        d > 0,
    ensures
        0 <= g % d < d,
{
    lemma_mod_bound(g, d);
}

/// Absolute round trip: when the inner frame is stamped at the local time of
/// global time `g`, re-stamping returns exactly `g`, whenever the repeat
/// start does not saturate.
pub proof fn lemma_loop_restamp_roundtrip(g: int, d: int)
    requires
        d > 0,
        i64::MIN as int + d <= g <= i64::MAX as int,
    ensures
        spec_sat(g % d + spec_sat(g - g % d)) == g,
{
    lemma_mod_bound(g, d);
}

/// Boundary detection: a delta step forwards an absolute re-seek exactly
/// when the step crossed a repeat boundary, that is when the floor quotients
/// of the previous and the current global time by the period differ.
pub proof fn lemma_loop_boundary(dt: i64, prev: int, g: int, d: int)
    requires
        d > 0,
        g == prev + dt,
        i64::MIN as int + d <= g <= i64::MAX as int,
        i64::MIN as int + d <= prev <= i64::MAX as int,
    ensures
        (spec_loop_forward(TimeUpdate::Delta(dt), prev, g, d) is Absolute) <==> (g / d != (g - dt)
            / d),
        spec_loop_forward(TimeUpdate::Delta(dt), prev, g, d) is Absolute ==> spec_loop_forward(
            TimeUpdate::Delta(dt),
            prev,
            g,
            d,
        )->Absolute_0 == g % d,
        spec_loop_forward(TimeUpdate::Delta(dt), prev, g, d) is Delta ==> spec_loop_forward(
            TimeUpdate::Delta(dt),
            prev,
            g,
            d,
        )->Delta_0 == dt,
{
    lemma_mod_bound(g, d);
    lemma_mod_bound(prev, d);
    lemma_fundamental_div_mod(g, d);
    lemma_fundamental_div_mod(prev, d);
    lemma_same_period(g, prev, d);
    assert(spec_sat(g - g % d) == g - g % d);
    assert(spec_sat(prev - prev % d) == prev - prev % d);
}

/// The finite-duration arm of the loop's pose guarantee: some inner pull
/// result satisfies the pose resolution relation at the remapped update, and
/// the node's own result is that inner frame re-stamped to global time (or
/// the inner failure unchanged).
pub open spec fn spec_loop_finite(
    g: crate::graph::AnimationGraph,
    overlay: InputOverlay,
    name: Seq<char>,
    update: TimeUpdate,
    gc0: GraphContext,
    gc1: GraphContext,
    prev: i64,
    g_time: int,
    dd: i64,
    r: Result<PoseFrame, GraphError>,
) -> bool {
    exists|ri: Result<PoseFrame, GraphError>|
        #[trigger] crate::graph::spec_pose_resolution(
            g,
            overlay,
            crate::ids::TargetPinView::NodePose(name, "Input Pose"@),
            spec_loop_forward(update, prev as int, g_time, dd as int),
            gc0,
            gc1,
            ri,
        ) && match ri {
            Ok(inner) => r matches Ok(f) && f@.timestamp as int == spec_sat(
                inner@.timestamp + spec_sat(g_time - g_time % (dd as int)),
            ) && f@.bones == inner@.bones && f@.space == inner@.space,
            Err(e) => r == Err::<PoseFrame, GraphError>(e),
        }
}

/// What the loop's pose pass guarantees, given the duration the resolution
/// model determines for its input: failures propagate unchanged; an
/// unbounded or non-positive upstream duration makes the node a transparent
/// passthrough of the unchanged update; a finite duration `d >= 1` pulls the
/// input at the remapped update and re-stamps the inner frame's timestamp to
/// global time.
pub open spec fn spec_loop_pose(
    g: crate::graph::AnimationGraph,
    overlay: InputOverlay,
    name: Seq<char>,
    update: TimeUpdate,
    gc0: GraphContext,
    gc1: GraphContext,
    fuel: nat,
    r: Result<PoseFrame, GraphError>,
) -> bool {
    match crate::graph::spec_pull_duration(
        g,
        overlay,
        crate::ids::TargetPinView::NodePose(name, "Input Pose"@),
        (fuel - 1) as nat,
    ) {
        Some(Err(e)) => r == Err::<PoseFrame, GraphError>(e),
        Some(Ok(d_opt)) => ({
            let prev = match gc0.prev_of(crate::ids::SourcePinView::NodePose(name)) {
                Some(t) => t,
                None => 0,
            };
            let g_time = spec_global_time(update, prev);
            match d_opt {
                None => crate::graph::spec_pose_resolution(
                    g,
                    overlay,
                    crate::ids::TargetPinView::NodePose(name, "Input Pose"@),
                    update,
                    gc0,
                    gc1,
                    r,
                ),
                Some(dd) => if dd >= 1 {
                    spec_loop_finite(g, overlay, name, update, gc0, gc1, prev, g_time, dd, r)
                } else {
                    crate::graph::spec_pose_resolution(
                        g,
                        overlay,
                        crate::ids::TargetPinView::NodePose(name, "Input Pose"@),
                        update,
                        gc0,
                        gc1,
                        r,
                    )
                },
            }
        }),
        None => true,
    }
}

/// The loop node itself: stateless, all phase data lives in the instance's
/// graph context.
#[derive(Debug)]
pub struct LoopNode {}

impl LoopNode {
    pub fn new() -> (r: Self) {
        LoopNode {  }
    }

    /// The name of the looped pose input pin.
    pub fn input_pin() -> (r: crate::ids::PinId)
        ensures
            r@ == "Input Pose"@,
    {
        "Input Pose".to_owned()
    }

    /// The label shown for this node kind; behaviourally inert.
    pub fn display_name(&self) -> (r: String)
        ensures
            r@ == "Loop"@,
    {
        "Loop".to_owned()
    }

    /// Wraps the node under an instance name.
    pub fn wrapped(self, name: String) -> (r: AnimationNode)
        ensures
            r.name == name,
            r.node == AnimationNodeType::Loop(self),
    {
        AnimationNode::new_from_nodetype(name, AnimationNodeType::Loop(self))
    }

    /// A loop is always unbounded, whatever its input's duration.
    pub fn duration_pass(
        &self,
        _graph: &AnimationGraph,
        _overlay: &InputOverlay,
        pass: &PassContext,
    ) -> (r: Result<DurationData, GraphError>)
        ensures
            r == Ok::<DurationData, GraphError>(None),
        decreases pass.fuel, 1int,
    {
        Ok(None)
    }

    /// Samples the looped input: with a finite upstream duration the input
    /// is pulled at local time per the loop remapping and the frame is
    /// re-stamped to global time; with an unbounded input the node is a
    /// transparent passthrough.
    #[verifier::rlimit(60)]
    pub fn pose_pass(
        &self,
        update: TimeUpdate,
        graph: &AnimationGraph,
        gc: &mut GraphContext,
        overlay: &InputOverlay,
        pass: &PassContext,
    ) -> (r: Result<PoseFrame, GraphError>)
        ensures
            ctx_preserved(*old(gc), *final(gc)),
            time_kept(*old(gc), *final(gc)),
            pass.node_context is None ==> r == Err::<PoseFrame, GraphError>(
                GraphError::MissingNodeContext,
            ),
            pass.node_context is Some && pass.fuel == 0 ==> r == Err::<PoseFrame, GraphError>(
                GraphError::RecursionLimit,
            ),
            pass.node_context matches Some(nc) ==> pass.fuel > 0 ==> spec_loop_pose(
                *graph,
                *overlay,
                nc.node_id@,
                update,
                *old(gc),
                *final(gc),
                pass.fuel as nat,
                r,
            ),
        decreases pass.fuel, 1int,
    {
        let d_res = pass.duration_back(graph, LoopNode::input_pin(), overlay);
        let d_opt = match d_res {
            Ok(d) => d,
            Err(e) => {
                let res: Result<PoseFrame, GraphError> = Err(e);
                proof {
                    if pass.node_context is Some && pass.fuel > 0 {
                        assert(spec_loop_pose(
                            *graph,
                            *overlay,
                            pass.node_context->Some_0.node_id@,
                            update,
                            *old(gc),
                            *gc,
                            pass.fuel as nat,
                            res,
                        ));
                    }
                }
                return res;
            },
        };
        match d_opt {
            Some(d) => {
                if d >= 1 {
                    let prev = match pass.prev_time_fwd(gc) {
                        Ok(p) => p,
                        Err(e) => {
                            return Err(e);
                        },
                    };
                    let g = global_time(update, prev);
                    let fwd = loop_forward(update, prev, g, d);
                    let pulled = pass.pose_back(graph, LoopNode::input_pin(), fwd, gc, overlay);
                    let ghost ri = pulled;
                    let res: Result<PoseFrame, GraphError> = match pulled {
                        Ok(inner) => {
                            let ts = loop_restamp(inner.timestamp, g, d);
                            Ok(inner.with_timestamp(ts))
                        },
                        Err(e) => Err(e),
                    };
                    proof {
                        if pass.node_context is Some && pass.fuel > 0 {
                            let nci = pass.node_context->Some_0.node_id@;
                            assert(crate::graph::spec_pose_resolution(
                                *graph,
                                *overlay,
                                crate::ids::TargetPinView::NodePose(nci, "Input Pose"@),
                                spec_loop_forward(update, prev as int, g as int, d as int),
                                *old(gc),
                                *gc,
                                ri,
                            ));
                            assert(spec_loop_finite(
                                *graph,
                                *overlay,
                                nci,
                                update,
                                *old(gc),
                                *gc,
                                prev,
                                g as int,
                                d,
                                res,
                            ));
                            assert(spec_loop_pose(
                                *graph,
                                *overlay,
                                nci,
                                update,
                                *old(gc),
                                *gc,
                                pass.fuel as nat,
                                res,
                            ));
                        }
                    }
                    res
                } else {
                    let res = pass.pose_back(graph, LoopNode::input_pin(), update, gc, overlay);
                    proof {
                        if pass.node_context is Some && pass.fuel > 0 {
                            assert(spec_loop_pose(
                                *graph,
                                *overlay,
                                pass.node_context->Some_0.node_id@,
                                update,
                                *old(gc),
                                *gc,
                                pass.fuel as nat,
                                res,
                            ));
                        }
                    }
                    res
                }
            },
            None => {
                let res = pass.pose_back(graph, LoopNode::input_pin(), update, gc, overlay);
                proof {
                    if pass.node_context is Some && pass.fuel > 0 {
                        assert(spec_loop_pose(
                            *graph,
                            *overlay,
                            pass.node_context->Some_0.node_id@,
                            update,
                            *old(gc),
                            *gc,
                            pass.fuel as nat,
                            res,
                        ));
                    }
                }
                res
            },
        }
    }
}

} // verus!
