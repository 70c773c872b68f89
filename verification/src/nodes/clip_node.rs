//! Plays a single animation clip: a validated, step-sampled keyframe track
//! with a fixed finite duration.

use vstd::prelude::*;
use crate::context::{ctx_preserved, time_kept, GraphContext, InputOverlay, PassContext};
use crate::data::{BonePose, DurationData, PoseFrame, PoseFrameView, PoseSpace, TimeUpdate};
use crate::errors::GraphError;
use crate::graph::{AnimationGraph, AnimationNode, AnimationNodeType};
use crate::nodes::loop_node::{global_time, spec_global_time};

verus! {

/// One keyframe: the tick it starts at and the pose it holds.
#[derive(Debug)]
pub struct Keyframe {
    pub time: i64,
    pub bones: Vec<BonePose>,
}

/// Mathematical model of a keyframe.
pub ghost struct KeyframeView {
    pub time: i64,
    pub bones: Seq<BonePose>,
}

impl View for Keyframe {
    type V = KeyframeView;

    open spec fn view(&self) -> KeyframeView {
        KeyframeView { time: self.time, bones: self.bones@ }
    }
}

/// An immutable clip asset: a positive duration and keyframes at strictly
/// increasing ticks, the first at tick zero.
#[derive(Debug)]
pub struct Clip {
    pub duration: i64,
    pub keys: Vec<Keyframe>,
}

/// The keyframes of a clip, as a sequence of models.
pub open spec fn keys_view(keys: Seq<Keyframe>) -> Seq<KeyframeView> {
    keys.map_values(|k: Keyframe| k@)
}

/// Validity of a clip: positive duration, at least one keyframe, the first
/// at tick zero, strictly increasing ticks never past the duration.
pub open spec fn clip_wf(c: Clip) -> bool {
    &&& c.duration >= 1
    &&& c.keys@.len() >= 1
    &&& c.keys@[0]@.time == 0
    &&& forall|i: int, j: int|
        0 <= i < j < c.keys@.len() ==> (#[trigger] c.keys@[i]@).time < (#[trigger] c.keys@[j]@).time
    &&& forall|i: int| 0 <= i < c.keys@.len() ==> 0 <= (#[trigger] c.keys@[i]@).time <= c.duration
}

impl Clip {
    /// Validates and builds a clip; rejects an empty track, a first key off
    /// tick zero, out-of-order or out-of-range keys, and a duration below
    /// one tick.
    pub fn new(duration: i64, keys: Vec<Keyframe>) -> (r: Option<Clip>)
        ensures
            match r {
                Some(c) => clip_wf(c) && c.duration == duration && c.keys@ == keys@,
                None => !clip_wf(Clip { duration, keys }),
            },
    {
        if duration < 1 || keys.len() == 0 {
            return None;
        }
        if keys[0].time != 0 {
            return None;
        }
        let mut i: usize = 0;
        while i < keys.len() - 1
            invariant
                keys@.len() >= 1,
                i <= keys@.len() - 1,
                forall|p: int, q: int|
                    0 <= p < q < i + 1 ==> (#[trigger] keys@[p]@).time < (#[trigger] keys@[q]@).time,
            decreases keys.len() - i,
        {
            if keys[i].time >= keys[i + 1].time {
                proof {
                    assert(!((keys@[i as int]@).time < (keys@[i + 1]@).time));
                }
                return None;
            }
            proof {
                assert forall|p: int, q: int| 0 <= p < q < i + 2 implies (keys@[p]@).time < (
                keys@[q]@).time by {
                    if q == i + 1 && p < i {
                        assert((keys@[p]@).time < (keys@[i as int]@).time);
                    }
                }
            }
            i = i + 1;
        }
        let mut j: usize = 0;
        while j < keys.len()
            invariant
                j <= keys@.len(),
                forall|k: int| 0 <= k < j ==> 0 <= (#[trigger] keys@[k]@).time <= duration,
            decreases keys.len() - j,
        {
            if keys[j].time < 0 || keys[j].time > duration {
                proof {
                    assert(!(0 <= (keys@[j as int]@).time <= duration));
                }
                return None;
            }
            j = j + 1;
        }
        Some(Clip { duration, keys })
    }
}

/// The index of the keyframe governing tick `t`: the last keyframe at or
/// before `t`.
pub open spec fn spec_key_index(keys: Seq<KeyframeView>, t: i64) -> int
    decreases keys.len(),
{
    if keys.len() == 0 {
        -1
    } else if keys.last().time <= t {
        keys.len() - 1
    } else {
        spec_key_index(keys.drop_last(), t)
    }
}

/// Whether `f` is the frame the clip yields at tick `t`: stamped at `t`
/// clamped into the clip, in bone space, holding the governing keyframe's
/// pose.
pub open spec fn spec_sample(c: Clip, t: int, f: PoseFrameView) -> bool {
    &&& f.timestamp as int == spec_clamp(t, c.duration as int)
    &&& f.space == PoseSpace::BoneSpace
    &&& ({
        let idx = spec_key_index(keys_view(c.keys@), f.timestamp);
        0 <= idx < c.keys@.len() && f.bones == c.keys@[idx]@.bones
    })
}

/// A tick clamped into `[0, hi]`.
pub open spec fn spec_clamp(t: int, hi: int) -> int {
    if t < 0 {
        0
    } else if t > hi {
        hi
    } else {
        t
    }
}

impl Clip {
    /// Samples the clip at a tick: the governing keyframe's pose, stamped at
    /// the tick itself clamped into the clip, in bone space.
    pub fn sample(&self, t: i64) -> (r: PoseFrame)
        requires
            clip_wf(*self),
        ensures
            spec_sample(*self, t as int, r@),
    {
        let tc: i64 = if t < 0 {
            0
        } else if t > self.duration {
            self.duration
        } else {
            t
        };
        let ghost kv = keys_view(self.keys@);
        proof {
            assert(kv.take(self.keys@.len() as int) =~= kv);
        }
        let mut i: usize = self.keys.len();
        while i > 1 && self.keys[i - 1].time > tc
            invariant
                1 <= i <= self.keys@.len(),
                clip_wf(*self),
                kv == keys_view(self.keys@),
                tc >= 0,
                spec_key_index(kv, tc) == spec_key_index(kv.take(i as int), tc),
            decreases i,
        {
            proof {
                assert(kv.take(i as int).last() == self.keys@[i - 1]@);
                assert(kv.take(i as int).drop_last() =~= kv.take(i - 1));
            }
            i = i - 1;
        }
        let idx = i - 1;
        proof {
            assert(kv.take(i as int).last() == self.keys@[i - 1]@);
            if i == 1 {
                assert(self.keys@[0]@.time == 0);
            }
            assert(spec_key_index(kv.take(i as int), tc) == i - 1);
        }
        let key = &self.keys[idx];
        let mut bones: Vec<BonePose> = Vec::new();
        let mut b: usize = 0;
        while b < key.bones.len()
            invariant
                b <= key.bones@.len(),
                bones@ == key.bones@.take(b as int),
            decreases key.bones.len() - b,
        {
            bones.push(key.bones[b]);
            b = b + 1;
        }
        proof {
            assert(bones@ =~= key.bones@);
        }
        PoseFrame { timestamp: tc, space: PoseSpace::BoneSpace, bones }
    }
}

/// A node that plays one clip; the clip is always valid.
#[derive(Debug)]
pub struct ClipNode {
    clip: Clip,
}

impl ClipNode {
    /// Validity of the wrapped clip, maintained for the node's lifetime.
    #[verifier::type_invariant]
    spec fn inv(self) -> bool {
        clip_wf(self.clip)
    }

    /// The wrapped clip.
    pub closed spec fn spec_clip(self) -> Clip {
        self.clip
    }

    /// Wraps a validated clip.
    pub fn new(clip: Clip) -> (r: Self)
        requires
            clip_wf(clip),
        ensures
            r.spec_clip() == clip,
    {
        ClipNode { clip }
    }

    /// The label shown for this node kind; behaviourally inert.
    pub fn display_name(&self) -> (r: String)
        ensures
            r@ == "Clip"@,
    {
        "Clip".to_owned()
    }

    /// Wraps the node under an instance name.
    pub fn wrapped(self, name: String) -> (r: AnimationNode)
        ensures
            r.name == name,
            r.node == AnimationNodeType::Clip(self),
    {
        AnimationNode::new_from_nodetype(name, AnimationNodeType::Clip(self))
    }

    /// The clip's own finite length.
    pub fn duration_pass(
        &self,
        _graph: &AnimationGraph,
        _overlay: &InputOverlay,
        pass: &PassContext,
    ) -> (r: Result<DurationData, GraphError>)
        ensures
            r == Ok::<DurationData, GraphError>(Some(self.spec_clip().duration)),
        decreases pass.fuel, 1int,
    {
        Ok(Some(self.clip.duration))
    }

    /// Samples the clip at the global time named by the update and the
    /// previously emitted timestamp.
    pub fn pose_pass(
        &self,
        update: TimeUpdate,
        _graph: &AnimationGraph,
        gc: &mut GraphContext,
        _overlay: &InputOverlay,
        pass: &PassContext,
    ) -> (r: Result<PoseFrame, GraphError>)
        ensures
            ctx_preserved(*old(gc), *final(gc)),
            time_kept(*old(gc), *final(gc)),
            *final(gc) == *old(gc),
            pass.node_context is None ==> r == Err::<PoseFrame, GraphError>(
                GraphError::MissingNodeContext,
            ),
            pass.node_context matches Some(nc) ==> r matches Ok(f) && spec_sample(
                self.spec_clip(),
                spec_global_time(
                    update,
                    match old(gc).prev_of(crate::ids::SourcePinView::NodePose(nc.node_id@)) {
                        Some(t) => t,
                        None => 0,
                    },
                ),
                f@,
            ),
        decreases pass.fuel, 1int,
    {
        let prev = match pass.prev_time_fwd(gc) {
            Ok(p) => p,
            Err(e) => {
                return Err(e);
            },
        };
        let g = global_time(update, prev);
        proof {
            use_type_invariant(self);
        }
        Ok(self.clip.sample(g))
    }
}

} // verus!
