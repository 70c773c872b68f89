//! Mirrors a pose left-to-right: every bone's lateral coordinate is negated
//! and paired bones (left and right limbs) swap identities.

use vstd::prelude::*;
use crate::context::{ctx_preserved, time_kept, GraphContext, InputOverlay, PassContext};
use crate::data::{BonePose, DurationData, PoseFrame, PoseFrameView, TimeUpdate};
use crate::errors::GraphError;
use crate::graph::{AnimationGraph, AnimationNode, AnimationNodeType};
use crate::times::spec_sat;

verus! {

/// The bone a given bone maps to under mirroring: the other side of the
/// first pair that names it, or itself when no pair does.
pub open spec fn spec_mirror_id(pairs: Seq<(u64, u64)>, id: u64) -> u64
    decreases pairs.len(),
{
    if pairs.len() == 0 {
        id
    } else if pairs[0].0 == id {
        pairs[0].1
    } else if pairs[0].1 == id {
        pairs[0].0
    } else {
        spec_mirror_id(pairs.skip(1), id)
    }
}

/// Looks a bone identity up in the mirror pairing.
pub fn mirror_id(pairs: &Vec<(u64, u64)>, id: u64) -> (r: u64)
    ensures
        r == spec_mirror_id(pairs@, id),
{
    let mut i: usize = 0;
    proof {
        assert(pairs@.skip(0) =~= pairs@);
    }
    while i < pairs.len()
        invariant
            i <= pairs@.len(),
            spec_mirror_id(pairs@, id) == spec_mirror_id(pairs@.skip(i as int), id),
        decreases pairs.len() - i,
    {
        proof {
            assert(pairs@.skip(i as int)[0] == pairs@[i as int]);
            assert(pairs@.skip(i as int).skip(1) =~= pairs@.skip(i + 1));
        }
        if pairs[i].0 == id {
            return pairs[i].1;
        }
        if pairs[i].1 == id {
            return pairs[i].0;
        }
        i = i + 1;
    }
    id
}

/// One bone mirrored: lateral coordinate negated (saturating), identity
/// swapped through the pairing.
pub open spec fn spec_flip_bone(pairs: Seq<(u64, u64)>, b: BonePose) -> BonePose {
    BonePose {
        bone: spec_mirror_id(pairs, b.bone),
        x: spec_sat(0 - b.x as int) as i64,
        y: b.y,
        z: b.z,
    }
}

/// A whole frame mirrored; timestamp and space carry over.
pub open spec fn spec_flip_frame(pairs: Seq<(u64, u64)>, v: PoseFrameView) -> PoseFrameView {
    PoseFrameView {
        timestamp: v.timestamp,
        space: v.space,
        bones: Seq::new(v.bones.len(), |i: int| spec_flip_bone(pairs, v.bones[i])),
    }
}

/// Mirrors a pose frame left-to-right.
pub fn flip_pose(pairs: &Vec<(u64, u64)>, frame: &PoseFrame) -> (r: PoseFrame)
    ensures
        r@ == spec_flip_frame(pairs@, frame@),
{
    let ghost target = spec_flip_frame(pairs@, frame@);
    let mut bones: Vec<BonePose> = Vec::new();
    let mut i: usize = 0;
    while i < frame.bones.len()
        invariant
            i <= frame.bones@.len(),
            target == spec_flip_frame(pairs@, frame@),
            bones@ == target.bones.take(i as int),
        decreases frame.bones.len() - i,
    {
        let b = frame.bones[i];
        let x = crate::times::sat_sub(0, b.x);
        bones.push(BonePose { bone: mirror_id(pairs, b.bone), x, y: b.y, z: b.z });
        proof {
            assert(bones@ =~= target.bones.take(i + 1));
        }
        i = i + 1;
    }
    proof {
        assert(bones@ =~= target.bones);
    }
    PoseFrame { timestamp: frame.timestamp, space: frame.space, bones }
}

/// What the mirroring pose pass guarantees: some inner pull result
/// satisfies the pose resolution relation at the unchanged update; an inner
/// failure propagates unchanged and an inner frame comes back mirrored over
/// the node's pairing.
pub open spec fn spec_flip_pose(
    g: crate::graph::AnimationGraph,
    overlay: InputOverlay,
    name: Seq<char>,
    pairs: Seq<(u64, u64)>,
    update: TimeUpdate,
    gc0: GraphContext,
    gc1: GraphContext,
    r: Result<PoseFrame, GraphError>,
) -> bool {
    exists|ri: Result<PoseFrame, GraphError>|
        #[trigger] crate::graph::spec_pose_resolution(
            g,
            overlay,
            crate::ids::TargetPinView::NodePose(name, "Pose In"@),
            update,
            gc0,
            gc1,
            ri,
        ) && match ri {
            Ok(inner) => r matches Ok(f) && f@ == spec_flip_frame(pairs, inner@),
            Err(e) => r == Err::<PoseFrame, GraphError>(e),
        }
}

/// The left-right mirroring node; it owns the bone pairing of the skeleton
/// it mirrors.
#[derive(Debug)]
pub struct FlipLrNode {
    pub pairs: Vec<(u64, u64)>,
}

impl FlipLrNode {
    /// A mirror over the given left-right bone pairing.
    pub fn new(pairs: Vec<(u64, u64)>) -> (r: Self)
        ensures
            r.pairs == pairs,
    {
        FlipLrNode { pairs }
    }

    /// The name of the pose input pin.
    pub fn input_pin() -> (r: crate::ids::PinId)
        ensures
            r@ == "Pose In"@,
    {
        "Pose In".to_owned()
    }

    /// The label shown for this node kind; behaviourally inert.
    pub fn display_name(&self) -> (r: String)
        ensures
            r@ == "Flip Left-Right"@,
    {
        "Flip Left-Right".to_owned()
    }

    /// Wraps the node under an instance name.
    pub fn wrapped(self, name: String) -> (r: AnimationNode)
        ensures
            r.name == name,
            r.node == AnimationNodeType::FlipLr(self),
    {
        AnimationNode::new_from_nodetype(name, AnimationNodeType::FlipLr(self))
    }

    /// The input's duration, unchanged; pinned by the duration resolution
    /// model wherever it is determined.
    pub fn duration_pass(
        &self,
        graph: &AnimationGraph,
        overlay: &InputOverlay,
        pass: &PassContext,
    ) -> (r: Result<DurationData, GraphError>)
        ensures
            pass.node_context is None ==> r == Err::<DurationData, GraphError>(
                GraphError::MissingNodeContext,
            ),
            pass.node_context matches Some(nc) ==> (crate::graph::spec_passthrough_duration(
                *graph,
                *overlay,
                nc.node_id@,
                "Pose In"@,
                pass.fuel as nat,
            ) matches Some(v) ==> r == v),
        decreases pass.fuel, 1int,
    {
        pass.duration_back(graph, FlipLrNode::input_pin(), overlay)
    }

    /// Pulls the input pose and mirrors it.
    pub fn pose_pass(
        &self,
        update: TimeUpdate,
        graph: &AnimationGraph,
        gc: &mut GraphContext,
        overlay: &InputOverlay,
        pass: &PassContext,
    ) -> (r: Result<PoseFrame, GraphError>)
        ensures
            ctx_preserved(*old(gc), *final(gc)),
            time_kept(*old(gc), *final(gc)),
            pass.node_context is None ==> r == Err::<PoseFrame, GraphError>(
                GraphError::MissingNodeContext,
            ),
            pass.node_context is Some && pass.fuel == 0 ==> r == Err::<PoseFrame, GraphError>(
                GraphError::RecursionLimit,
            ),
            pass.node_context matches Some(nc) ==> pass.fuel > 0 ==> spec_flip_pose(
                *graph,
                *overlay,
                nc.node_id@,
                self.pairs@,
                update,
                *old(gc),
                *final(gc),
                r,
            ),
        decreases pass.fuel, 1int,
    {
        let pulled = pass.pose_back(graph, FlipLrNode::input_pin(), update, gc, overlay);
        let ghost ri = pulled;
        let res: Result<PoseFrame, GraphError> = match pulled {
            Ok(inner) => Ok(flip_pose(&self.pairs, &inner)),
            Err(e) => Err(e),
        };
        proof {
            if pass.node_context is Some && pass.fuel > 0 {
                let nci = pass.node_context->Some_0.node_id@;
                assert(crate::graph::spec_pose_resolution(
                    *graph,
                    *overlay,
                    crate::ids::TargetPinView::NodePose(nci, "Pose In"@),
                    update,
                    *old(gc),
                    *gc,
                    ri,
                ));
                assert(spec_flip_pose(
                    *graph,
                    *overlay,
                    nci,
                    self.pairs@,
                    update,
                    *old(gc),
                    *gc,
                    res,
                ));
            }
        }
        res
    }
}

} // verus!
