//! Blends two poses by a scalar factor.
//!
//! The duration is the maximum of the operand durations that are present; a
//! single present operand wins outright and two absent operands leave the
//! blend unbounded.  The pose is a per-bone linear interpolation: at factor
//! zero the output equals the first operand exactly, at factor one the
//! second.

use vstd::prelude::*;
use crate::context::{ctx_preserved, time_kept, GraphContext, InputOverlay, PassContext};
use crate::data::{BonePose, DurationData, PoseFrame, PoseFrameView, TimeUpdate, PARAM_ONE};
use crate::errors::GraphError;
use crate::graph::{AnimationGraph, AnimationNode, AnimationNodeType};

verus! {

/// Truncated division by a positive divisor, as the hardware performs it.
pub open spec fn trunc_div(x: int, d: int) -> int {
    if x >= 0 {
        x / d
    } else {
        -((-x) / d)
    }
}

/// Fixed-point linear interpolation from `a` to `b`: `a` at factor zero,
/// `b` at factor `PARAM_ONE`.
pub open spec fn spec_lerp(a: int, b: int, f: int) -> int {
    a + trunc_div((b - a) * f, PARAM_ONE as int)
}

/// Interpolates between two samples; the result never leaves the interval
/// the operands span.
pub fn lerp(a: i64, b: i64, f: i64) -> (r: i64)
    requires
        0 <= f <= PARAM_ONE,
    ensures
        r as int == spec_lerp(a as int, b as int, f as int),
        a <= b ==> a <= r <= b,
        b <= a ==> b <= r <= a,
{
    let diff: i128 = b as i128 - a as i128;
    proof {
        let m = i64::MAX as i128 - i64::MIN as i128;
        assert(-(m * 1000) <= diff * (f as i128) <= m * 1000) by (nonlinear_arith)
            requires
                -m <= diff <= m,
                0 <= f as i128 <= 1000,
                m == i64::MAX as i128 - i64::MIN as i128,
        ;
    }
    let num: i128 = diff * f as i128;
    let q: i128 = num.checked_div(PARAM_ONE as i128).unwrap();
    proof {
        lemma_trunc_div_range(num as int, diff as int, f as int);
    }
    (a as i128 + q) as i64
}

/// Truncated division of `diff * f` by the unit stays between zero and
/// `diff` for factors in the unit interval.
proof fn lemma_trunc_div_range(num: int, diff: int, f: int)
    requires
        0 <= f <= PARAM_ONE as int,
        num == diff * f,
    ensures
        diff >= 0 ==> 0 <= trunc_div(num, PARAM_ONE as int) <= diff,
        diff < 0 ==> diff <= trunc_div(num, PARAM_ONE as int) <= 0,
{
    let s = PARAM_ONE as int;
    if diff >= 0 {
        assert(0 <= num <= diff * s) by (nonlinear_arith)
            requires
                0 <= f <= s,
                num == diff * f,
                diff >= 0,
        ;
        assert(num / s <= (diff * s) / s) by {
            vstd::arithmetic::div_mod::lemma_div_is_ordered(num, diff * s, s);
        }
        assert((diff * s) / s == diff) by {
            vstd::arithmetic::div_mod::lemma_div_by_multiple(diff, s);
        }
        assert(num / s >= 0) by {
            vstd::arithmetic::div_mod::lemma_div_pos_is_pos(num, s);
        }
    } else {
        assert(0 <= (-num) <= (-diff) * s) by (nonlinear_arith)
            requires
                0 <= f <= s,
                num == diff * f,
                diff < 0,
        ;
        assert((-num) / s <= ((-diff) * s) / s) by {
            vstd::arithmetic::div_mod::lemma_div_is_ordered(-num, (-diff) * s, s);
        }
        assert(((-diff) * s) / s == -diff) by {
            vstd::arithmetic::div_mod::lemma_div_by_multiple(-diff, s);
        }
        assert((-num) / s >= 0) by {
            vstd::arithmetic::div_mod::lemma_div_pos_is_pos(-num, s);
        }
    }
}

/// Per-bone interpolation: the identity of the first operand's bone with
/// each coordinate interpolated.
pub open spec fn spec_blend_bone(p: BonePose, q: BonePose, f: int) -> BonePose {
    BonePose {
        bone: p.bone,
        x: spec_lerp(p.x as int, q.x as int, f) as i64,
        y: spec_lerp(p.y as int, q.y as int, f) as i64,
        z: spec_lerp(p.z as int, q.z as int, f) as i64,
    }
}

/// The blended frame: operand bones paired by position up to the shorter
/// operand, the timestamp interpolated, the first operand's space kept.
pub open spec fn spec_blend_frame(a: PoseFrameView, b: PoseFrameView, f: int) -> PoseFrameView {
    let n = if a.bones.len() <= b.bones.len() {
        a.bones.len()
    } else {
        b.bones.len()
    };
    PoseFrameView {
        timestamp: spec_lerp(a.timestamp as int, b.timestamp as int, f) as i64,
        space: a.space,
        bones: Seq::new(n, |i: int| spec_blend_bone(a.bones[i], b.bones[i], f)),
    }
}

/// At factor zero interpolation returns the first operand exactly.
pub proof fn lemma_lerp_zero(a: int, b: int)
    requires
        i64::MIN as int <= a <= i64::MAX as int,
    ensures
        spec_lerp(a, b, 0) == a,
{
    let s = PARAM_ONE as int;
    assert((b - a) * 0 == 0) by (nonlinear_arith);
    assert(trunc_div(0, s) == 0) by {
        vstd::arithmetic::div_mod::lemma_div_of0(s);
    }
}

/// At factor one interpolation returns the second operand exactly.
pub proof fn lemma_lerp_one(a: int, b: int)
    ensures
        spec_lerp(a, b, PARAM_ONE as int) == b,
{
    let s = PARAM_ONE as int;
    let diff = b - a;
    if diff >= 0 {
        assert((diff * s) / s == diff) by {
            vstd::arithmetic::div_mod::lemma_div_by_multiple(diff, s);
        }
    } else {
        assert(-(diff * s) == (-diff) * s) by (nonlinear_arith);
        assert(((-diff) * s) / s == -diff) by {
            vstd::arithmetic::div_mod::lemma_div_by_multiple(-diff, s);
        }
    }
}

/// Blend pose law, factor zero: with operands of equal bone count the
/// blended frame equals the first operand exactly.
pub proof fn lemma_blend_frame_zero(a: PoseFrameView, b: PoseFrameView)
    requires
        a.bones.len() == b.bones.len(),
    ensures
        spec_blend_frame(a, b, 0) == a,
{
    lemma_lerp_zero(a.timestamp as int, b.timestamp as int);
    assert forall|i: int| 0 <= i < a.bones.len() implies spec_blend_bone(a.bones[i], b.bones[i], 0)
        == a.bones[i] by {
        let p = a.bones[i];
        let q = b.bones[i];
        lemma_lerp_zero(p.x as int, q.x as int);
        lemma_lerp_zero(p.y as int, q.y as int);
        lemma_lerp_zero(p.z as int, q.z as int);
    }
    assert(spec_blend_frame(a, b, 0).bones =~= a.bones);
}

/// Blend pose law, factor one: with operands of equal bone count and equal
/// bone pairing the blended frame equals the second operand exactly.
pub proof fn lemma_blend_frame_one(a: PoseFrameView, b: PoseFrameView)
    requires
        a.bones.len() == b.bones.len(),
        forall|i: int| 0 <= i < a.bones.len() ==> a.bones[i].bone == b.bones[i].bone,
    ensures
        spec_blend_frame(a, b, PARAM_ONE as int) == (PoseFrameView { space: a.space, ..b }),
{
    lemma_lerp_one(a.timestamp as int, b.timestamp as int);
    assert forall|i: int| 0 <= i < a.bones.len() implies spec_blend_bone(
        a.bones[i],
        b.bones[i],
        PARAM_ONE as int,
    ) == b.bones[i] by {
        let p = a.bones[i];
        let q = b.bones[i];
        lemma_lerp_one(p.x as int, q.x as int);
        lemma_lerp_one(p.y as int, q.y as int);
        lemma_lerp_one(p.z as int, q.z as int);
    }
    assert(spec_blend_frame(a, b, PARAM_ONE as int).bones =~= b.bones);
}

/// A raw scalar parameter clamped into the unit factor range.
pub open spec fn spec_clamp_factor(v: int) -> int {
    if v < 0 {
        0
    } else if v > PARAM_ONE as int {
        PARAM_ONE as int
    } else {
        v
    }
}

/// Clamps a raw scalar parameter into the unit factor range.
pub fn clamp_factor(v: i64) -> (r: i64)
    ensures
        0 <= r <= PARAM_ONE,
        r as int == spec_clamp_factor(v as int),
        0 <= v <= PARAM_ONE ==> r == v,
{
    if v < 0 {
        0
    } else if v > PARAM_ONE {
        PARAM_ONE
    } else {
        v
    }
}

/// Blends two pose frames: bones paired by position up to the shorter
/// operand, timestamp interpolated, the first operand's space kept.
pub fn blend_poses(a: &PoseFrame, b: &PoseFrame, f: i64) -> (r: PoseFrame)
    requires
        0 <= f <= PARAM_ONE,
    ensures
        r@ == spec_blend_frame(a@, b@, f as int),
{
    let n = if a.bones.len() <= b.bones.len() {
        a.bones.len()
    } else {
        b.bones.len()
    };
    let ghost target = spec_blend_frame(a@, b@, f as int);
    let mut bones: Vec<BonePose> = Vec::new();
    let mut i: usize = 0;
    while i < n
        invariant
            0 <= f <= PARAM_ONE,
            i <= n,
            n == if a@.bones.len() <= b@.bones.len() {
                a@.bones.len()
            } else {
                b@.bones.len()
            },
            target == spec_blend_frame(a@, b@, f as int),
            bones@ == target.bones.take(i as int),
        decreases n - i,
    {
        let pa = a.bones[i];
        let pb = b.bones[i];
        let blended = BonePose {
            bone: pa.bone,
            x: lerp(pa.x, pb.x, f),
            y: lerp(pa.y, pb.y, f),
            z: lerp(pa.z, pb.z, f),
        };
        bones.push(blended);
        proof {
            assert(bones@ =~= target.bones.take(i + 1));
        }
        i = i + 1;
    }
    proof {
        assert(bones@ =~= target.bones);
    }
    PoseFrame { timestamp: lerp(a.timestamp, b.timestamp, f), space: a.space, bones }
}

/// Blend duration policy: the maximum of present operand durations, the
/// present one when only one is present, unbounded when both are absent.
pub open spec fn spec_blend_duration(a: DurationData, b: DurationData) -> DurationData {
    match (a, b) {
        (Some(x), Some(y)) => Some(
            if x >= y {
                x
            } else {
                y
            },
        ),
        (Some(x), None) => Some(x),
        (None, Some(y)) => Some(y),
        (None, None) => None,
    }
}

/// Combines the operand durations of a blend.
pub fn blend_duration(a: DurationData, b: DurationData) -> (r: DurationData)
    ensures
        r == spec_blend_duration(a, b),
{
    match (a, b) {
        (Some(x), Some(y)) => Some(
            if x >= y {
                x
            } else {
                y
            },
        ),
        (Some(x), None) => Some(x),
        (None, Some(y)) => Some(y),
        (None, None) => None,
    }
}

/// Blend duration law: the result is present exactly when an operand is,
/// never below a present operand, and always equal to one of them.
pub proof fn lemma_blend_duration_max(a: DurationData, b: DurationData)
    ensures
        spec_blend_duration(a, b) is Some <==> (a is Some || b is Some),
        a is Some && b is Some ==> spec_blend_duration(a, b) == Some(
            if a->Some_0 >= b->Some_0 {
                a->Some_0
            } else {
                b->Some_0
            },
        ),
        a is Some && b is None ==> spec_blend_duration(a, b) == a,
        a is None && b is Some ==> spec_blend_duration(a, b) == b,
{
}

/// What the blend's pose pass guarantees once its factor has resolved to
/// the scalar `factor`: the two operand pulls, made in order at the same
/// unchanged update, satisfy the pose resolution relation through some
/// intermediate context; the first failure propagates unchanged, and two
/// frames come back blended at the clamped factor.
pub open spec fn spec_blend_pose(
    g: crate::graph::AnimationGraph,
    overlay: InputOverlay,
    name: Seq<char>,
    update: TimeUpdate,
    gc0: GraphContext,
    gc1: GraphContext,
    factor: i64,
    r: Result<PoseFrame, GraphError>,
) -> bool {
    exists|gm: GraphContext, r1: Result<PoseFrame, GraphError>|
        #[trigger] crate::graph::spec_pose_resolution(
            g,
            overlay,
            crate::ids::TargetPinView::NodePose(name, "Pose In 1"@),
            update,
            gc0,
            gm,
            r1,
        ) && match r1 {
            Err(e) => r == Err::<PoseFrame, GraphError>(e) && gc1 == gm,
            Ok(f1) => exists|r2: Result<PoseFrame, GraphError>|
                #[trigger] crate::graph::spec_pose_resolution(
                    g,
                    overlay,
                    crate::ids::TargetPinView::NodePose(name, "Pose In 2"@),
                    update,
                    gm,
                    gc1,
                    r2,
                ) && match r2 {
                    Err(e) => r == Err::<PoseFrame, GraphError>(e),
                    Ok(f2) => r matches Ok(f) && f@ == spec_blend_frame(
                        f1@,
                        f2@,
                        spec_clamp_factor(factor as int),
                    ),
                },
        }
}

/// The blend node: stateless; the factor arrives through a parameter pin.
#[derive(Debug)]
pub struct BlendNode {}

impl BlendNode {
    pub fn new() -> (r: Self) {
        BlendNode {  }
    }

    /// The name of the first operand pose pin.
    pub fn input_pin_1() -> (r: crate::ids::PinId)
        ensures
            r@ == "Pose In 1"@,
    {
        "Pose In 1".to_owned()
    }

    /// The name of the second operand pose pin.
    pub fn input_pin_2() -> (r: crate::ids::PinId)
        ensures
            r@ == "Pose In 2"@,
    {
        "Pose In 2".to_owned()
    }

    /// The name of the scalar blend factor pin.
    pub fn factor_pin() -> (r: crate::ids::PinId)
        ensures
            r@ == "Factor"@,
    {
        "Factor".to_owned()
    }

    /// The label shown for this node kind; behaviourally inert.
    pub fn display_name(&self) -> (r: String)
        ensures
            r@ == "Blend"@,
    {
        "Blend".to_owned()
    }

    /// Wraps the node under an instance name.
    pub fn wrapped(self, name: String) -> (r: AnimationNode)
        ensures
            r.name == name,
            r.node == AnimationNodeType::Blend(self),
    {
        AnimationNode::new_from_nodetype(name, AnimationNodeType::Blend(self))
    }

    /// Combines the operand durations: the maximum of those present.  The
    /// result is pinned by the duration resolution model wherever that model
    /// is determined: operand failures propagate first-come, and two
    /// resolved operands yield `spec_blend_duration` of them.
    pub fn duration_pass(
        &self,
        graph: &AnimationGraph,
        overlay: &InputOverlay,
        pass: &PassContext,
    ) -> (r: Result<DurationData, GraphError>)
        ensures
            pass.node_context is None ==> r == Err::<DurationData, GraphError>(
                GraphError::MissingNodeContext,
            ),
            pass.node_context matches Some(nc) ==> (crate::graph::spec_pair_duration(
                *graph,
                *overlay,
                nc.node_id@,
                true,
                pass.fuel as nat,
            ) matches Some(v) ==> r == v),
        decreases pass.fuel, 1int,
    {
        let d1 = match pass.duration_back(graph, BlendNode::input_pin_1(), overlay) {
            Ok(d) => d,
            Err(e) => {
                return Err(e);
            },
        };
        let d2 = match pass.duration_back(graph, BlendNode::input_pin_2(), overlay) {
            Ok(d) => d,
            Err(e) => {
                return Err(e);
            },
        };
        Ok(blend_duration(d1, d2))
    }

    /// Pulls the scalar factor, then both operand poses at the same update,
    /// and interpolates per bone.  A non-scalar factor value is a missing
    /// parameter; a factor outside the unit range is clamped into it (a
    /// fixed-point stand-in for the reference implementation, which
    /// extrapolates there on floats).
    pub fn pose_pass(
        &self,
        update: TimeUpdate,
        graph: &AnimationGraph,
        gc: &mut GraphContext,
        overlay: &InputOverlay,
        pass: &PassContext,
    ) -> (r: Result<PoseFrame, GraphError>)
        ensures
            ctx_preserved(*old(gc), *final(gc)),
            time_kept(*old(gc), *final(gc)),
            pass.node_context is None ==> r == Err::<PoseFrame, GraphError>(
                GraphError::MissingNodeContext,
            ),
            pass.node_context is Some && pass.fuel == 0 ==> r == Err::<PoseFrame, GraphError>(
                GraphError::RecursionLimit,
            ),
            pass.node_context matches Some(nc) ==> pass.fuel > 0 ==> match
            crate::graph::spec_pull_parameter(
                *graph,
                *overlay,
                crate::ids::TargetPinView::NodeParameter(nc.node_id@, "Factor"@),
                (pass.fuel - 1) as nat,
            ) {
                Some(Err(e)) => r == Err::<PoseFrame, GraphError>(e),
                Some(Ok(v)) => if !(v is Scalar) {
                    r == Err::<PoseFrame, GraphError>(GraphError::MissingParameter)
                } else {
                    spec_blend_pose(
                        *graph,
                        *overlay,
                        nc.node_id@,
                        update,
                        *old(gc),
                        *final(gc),
                        v->Scalar_0,
                        r,
                    )
                },
                None => true,
            },
        decreases pass.fuel, 1int,
    {
        let factor = match pass.parameter_back(graph, BlendNode::factor_pin(), overlay) {
            Ok(v) => match v.as_scalar() {
                Some(s) => s,
                None => {
                    return Err(GraphError::MissingParameter);
                },
            },
            Err(e) => {
                return Err(e);
            },
        };
        let pulled_1 = pass.pose_back(graph, BlendNode::input_pin_1(), update, gc, overlay);
        let ghost r1 = pulled_1;
        let ghost gm = *gc;
        let frame_1 = match pulled_1 {
            Ok(f) => f,
            Err(e) => {
                let res: Result<PoseFrame, GraphError> = Err(e);
                proof {
                    if pass.node_context is Some && pass.fuel > 0 {
                        let nci = pass.node_context->Some_0.node_id@;
                        assert(crate::graph::spec_pose_resolution(
                            *graph,
                            *overlay,
                            crate::ids::TargetPinView::NodePose(nci, "Pose In 1"@),
                            update,
                            *old(gc),
                            gm,
                            r1,
                        ));
                        assert(spec_blend_pose(
                            *graph,
                            *overlay,
                            nci,
                            update,
                            *old(gc),
                            *gc,
                            factor,
                            res,
                        ));
                    }
                }
                return res;
            },
        };
        let pulled_2 = pass.pose_back(graph, BlendNode::input_pin_2(), update, gc, overlay);
        let ghost r2 = pulled_2;
        let frame_2 = match pulled_2 {
            Ok(f) => f,
            Err(e) => {
                let res: Result<PoseFrame, GraphError> = Err(e);
                proof {
                    if pass.node_context is Some && pass.fuel > 0 {
                        let nci = pass.node_context->Some_0.node_id@;
                        assert(crate::graph::spec_pose_resolution(
                            *graph,
                            *overlay,
                            crate::ids::TargetPinView::NodePose(nci, "Pose In 1"@),
                            update,
                            *old(gc),
                            gm,
                            r1,
                        ));
                        assert(crate::graph::spec_pose_resolution(
                            *graph,
                            *overlay,
                            crate::ids::TargetPinView::NodePose(nci, "Pose In 2"@),
                            update,
                            gm,
                            *gc,
                            r2,
                        ));
                        assert(spec_blend_pose(
                            *graph,
                            *overlay,
                            nci,
                            update,
                            *old(gc),
                            *gc,
                            factor,
                            res,
                        ));
                    }
                }
                return res;
            },
        };
        let fc = clamp_factor(factor);
        let out = blend_poses(&frame_1, &frame_2, fc);
        proof {
            assert(out@ == spec_blend_frame(frame_1@, frame_2@, fc as int));
        }
        let res: Result<PoseFrame, GraphError> = Ok(out);
        proof {
            if pass.node_context is Some && pass.fuel > 0 {
                let nci = pass.node_context->Some_0.node_id@;
                assert(crate::graph::spec_pose_resolution(
                    *graph,
                    *overlay,
                    crate::ids::TargetPinView::NodePose(nci, "Pose In 1"@),
                    update,
                    *old(gc),
                    gm,
                    r1,
                ));
                assert(crate::graph::spec_pose_resolution(
                    *graph,
                    *overlay,
                    crate::ids::TargetPinView::NodePose(nci, "Pose In 2"@),
                    update,
                    gm,
                    *gc,
                    r2,
                ));
                assert(spec_blend_pose(
                    *graph,
                    *overlay,
                    nci,
                    update,
                    *old(gc),
                    *gc,
                    factor,
                    res,
                ));
            }
        }
        res
    }
}

} // verus!
