//! Extends a bone-space pose to a full skeleton: bones present in the input
//! keep their sampled values, bones missing from it take the skeleton's rest
//! values.

use vstd::prelude::*;
use crate::context::{ctx_preserved, time_kept, GraphContext, InputOverlay, PassContext};
use crate::data::{BonePose, DurationData, PoseFrame, PoseSpace, TimeUpdate};
use crate::errors::GraphError;
use crate::graph::{AnimationGraph, AnimationNode, AnimationNodeType};

verus! {

/// The first sample for a bone identity within a pose, if any.
pub open spec fn spec_find_bone(bones: Seq<BonePose>, id: u64) -> Option<BonePose>
    decreases bones.len(),
{
    if bones.len() == 0 {
        None
    } else if bones[0].bone == id {
        Some(bones[0])
    } else {
        spec_find_bone(bones.skip(1), id)
    }
}

/// Looks a bone identity up in a pose.
pub fn find_bone(bones: &Vec<BonePose>, id: u64) -> (r: Option<BonePose>)
    ensures
        r == spec_find_bone(bones@, id),
{
    let mut i: usize = 0;
    proof {
        assert(bones@.skip(0) =~= bones@);
    }
    while i < bones.len()
        invariant
            i <= bones@.len(),
            spec_find_bone(bones@, id) == spec_find_bone(bones@.skip(i as int), id),
        decreases bones.len() - i,
    {
        if bones[i].bone == id {
            proof {
                assert(bones@.skip(i as int)[0] == bones@[i as int]);
            }
            return Some(bones[i]);
        }
        proof {
            assert(bones@.skip(i as int).skip(1) =~= bones@.skip(i + 1));
        }
        i = i + 1;
    }
    proof {
        assert(bones@.skip(i as int).len() == 0);
    }
    None
}

/// A found sample carries the identity it was looked up by.
pub proof fn lemma_find_bone_id(bones: Seq<BonePose>, id: u64)
    requires
        spec_find_bone(bones, id) is Some,
    ensures
        spec_find_bone(bones, id)->Some_0.bone == id,
    decreases bones.len(),
{
    if bones.len() > 0 && bones[0].bone != id {
        lemma_find_bone_id(bones.skip(1), id);
    }
}

/// The extended bone set: one entry per skeleton bone, sampled where the
/// input pose has the bone and at rest where it does not.
pub open spec fn spec_extend_bones(bones: Seq<BonePose>, skeleton: Seq<BonePose>) -> Seq<
    BonePose,
> {
    Seq::new(
        skeleton.len(),
        |i: int|
            match spec_find_bone(bones, skeleton[i].bone) {
                Some(b) => b,
                None => skeleton[i],
            },
    )
}

/// Extends a pose frame over a skeleton's rest pose; timestamp and space
/// carry over, the output holds exactly the skeleton's bones in its order.
pub fn extend_pose(frame: &PoseFrame, skeleton: &Vec<BonePose>) -> (r: PoseFrame)
    ensures
        r@.timestamp == frame@.timestamp,
        r@.space == frame@.space,
        r@.bones == spec_extend_bones(frame@.bones, skeleton@),
{
    let mut bones: Vec<BonePose> = Vec::new();
    let mut i: usize = 0;
    while i < skeleton.len()
        invariant
            i <= skeleton@.len(),
            bones@ == spec_extend_bones(frame@.bones, skeleton@).take(i as int),
        decreases skeleton.len() - i,
    {
        let entry = match find_bone(&frame.bones, skeleton[i].bone) {
            Some(b) => b,
            None => skeleton[i],
        };
        bones.push(entry);
        proof {
            assert(bones@ =~= spec_extend_bones(frame@.bones, skeleton@).take(i + 1));
        }
        i = i + 1;
    }
    proof {
        assert(bones@ =~= spec_extend_bones(frame@.bones, skeleton@));
    }
    PoseFrame { timestamp: frame.timestamp, space: frame.space, bones }
}

/// What the extend-skeleton pose pass guarantees: some inner pull result
/// satisfies the pose resolution relation at the unchanged update; an inner
/// failure propagates unchanged, an inner pose off bone space is rejected as
/// a type mismatch, and otherwise the result is the inner frame extended
/// over the skeleton's rest pose.
pub open spec fn spec_extend_pose(
    g: crate::graph::AnimationGraph,
    overlay: InputOverlay,
    name: Seq<char>,
    update: TimeUpdate,
    gc0: GraphContext,
    gc1: GraphContext,
    r: Result<PoseFrame, GraphError>,
) -> bool {
    exists|ri: Result<PoseFrame, GraphError>|
        #[trigger] crate::graph::spec_pose_resolution(
            g,
            overlay,
            crate::ids::TargetPinView::NodePose(name, "Pose In"@),
            update,
            gc0,
            gc1,
            ri,
        ) && match ri {
            Ok(inner) => if inner@.space != PoseSpace::BoneSpace {
                r == Err::<PoseFrame, GraphError>(GraphError::TypeMismatch)
            } else {
                r matches Ok(f) && f@.timestamp == inner@.timestamp && f@.space == inner@.space
                    && f@.bones == spec_extend_bones(inner@.bones, g.skeleton@)
            },
            Err(e) => r == Err::<PoseFrame, GraphError>(e),
        }
}

/// The extend-skeleton node: stateless; the skeleton is owned by the graph.
#[derive(Debug)]
pub struct ExtendSkeleton {}

impl ExtendSkeleton {
    pub fn new() -> (r: Self) {
        ExtendSkeleton {  }
    }

    /// The name of the pose input pin.
    pub fn pose_in_pin() -> (r: crate::ids::PinId)
        ensures
            r@ == "Pose In"@,
    {
        "Pose In".to_owned()
    }

    /// The label shown for this node kind; behaviourally inert.
    pub fn display_name(&self) -> (r: String)
        ensures
            r@ == "Extend Skeleton"@,
    {
        "Extend Skeleton".to_owned()
    }

    /// Wraps the node under an instance name.
    pub fn wrapped(self, name: String) -> (r: AnimationNode)
        ensures
            r.name == name,
            r.node == AnimationNodeType::ExtendSkeleton(self),
    {
        AnimationNode::new_from_nodetype(name, AnimationNodeType::ExtendSkeleton(self))
    }

    /// The input's duration, unchanged; pinned by the duration resolution
    /// model wherever it is determined.
    pub fn duration_pass(
        &self,
        graph: &AnimationGraph,
        overlay: &InputOverlay,
        pass: &PassContext,
    ) -> (r: Result<DurationData, GraphError>)
        ensures
            pass.node_context is None ==> r == Err::<DurationData, GraphError>(
                GraphError::MissingNodeContext,
            ),
            pass.node_context matches Some(nc) ==> (crate::graph::spec_passthrough_duration(
                *graph,
                *overlay,
                nc.node_id@,
                "Pose In"@,
                pass.fuel as nat,
            ) matches Some(v) ==> r == v),
        decreases pass.fuel, 1int,
    {
        pass.duration_back(graph, ExtendSkeleton::pose_in_pin(), overlay)
    }

    /// Pulls the input pose and extends it over the graph's skeleton rest
    /// pose.  An input that is not in bone space is a wrong variant at this
    /// pin and is rejected with a typed error.
    pub fn pose_pass(
        &self,
        update: TimeUpdate,
        graph: &AnimationGraph,
        gc: &mut GraphContext,
        overlay: &InputOverlay,
        pass: &PassContext,
    ) -> (r: Result<PoseFrame, GraphError>)
        ensures
            ctx_preserved(*old(gc), *final(gc)),
            time_kept(*old(gc), *final(gc)),
            pass.node_context is None ==> r == Err::<PoseFrame, GraphError>(
                GraphError::MissingNodeContext,
            ),
            pass.node_context is Some && pass.fuel == 0 ==> r == Err::<PoseFrame, GraphError>(
                GraphError::RecursionLimit,
            ),
            r matches Ok(f) ==> f@.space == crate::data::PoseSpace::BoneSpace && f@.bones.len()
                == graph.skeleton@.len() && (forall|i: int|
                0 <= i < f@.bones.len() ==> (#[trigger] f@.bones[i]).bone
                    == graph.skeleton@[i].bone),
            pass.node_context matches Some(nc) ==> pass.fuel > 0 ==> spec_extend_pose(
                *graph,
                *overlay,
                nc.node_id@,
                update,
                *old(gc),
                *final(gc),
                r,
            ),
        decreases pass.fuel, 1int,
    {
        let pulled = pass.pose_back(graph, ExtendSkeleton::pose_in_pin(), update, gc, overlay);
        let ghost ri = pulled;
        let res: Result<PoseFrame, GraphError> = match pulled {
            Ok(inner) => {
                match inner.space {
                    crate::data::PoseSpace::BoneSpace => {
                        let out = extend_pose(&inner, &graph.skeleton);
                        proof {
                            assert forall|i: int|
                                0 <= i < out@.bones.len() implies (#[trigger] out@.bones[i]).bone
                                == graph.skeleton@[i].bone by {
                                if spec_find_bone(inner@.bones, graph.skeleton@[i].bone) is Some {
                                    lemma_find_bone_id(inner@.bones, graph.skeleton@[i].bone);
                                }
                            }
                        }
                        Ok(out)
                    },
                    _ => Err(GraphError::TypeMismatch),
                }
            },
            Err(e) => Err(e),
        };
        proof {
            if pass.node_context is Some && pass.fuel > 0 {
                let nci = pass.node_context->Some_0.node_id@;
                assert(crate::graph::spec_pose_resolution(
                    *graph,
                    *overlay,
                    crate::ids::TargetPinView::NodePose(nci, "Pose In"@),
                    update,
                    *old(gc),
                    *gc,
                    ri,
                ));
                assert(spec_extend_pose(*graph, *overlay, nci, update, *old(gc), *gc, res));
            }
        }
        res
    }
}

} // verus!
