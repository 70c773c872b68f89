//! The value domain carried along graph edges: time updates, durations,
//! parameter values, skeletal pose frames, and the static pin specifications
//! used for edge validation.

use vstd::prelude::*;

verus! {

/// One unit of fixed-point scale for scalar parameters: a blend factor of one
/// is `PARAM_ONE`, a factor of one half is `PARAM_ONE / 2`.
pub const PARAM_ONE: i64 = 1000;

/// How the playhead moved since the previous evaluation of a pin.
#[derive(Clone, Copy, Debug, PartialEq, Eq, Structural)]
pub enum TimeUpdate {
    /// The playhead advanced by this many ticks.
    Delta(i64),
    /// The playhead seeked to this absolute tick.
    Absolute(i64),
}

/// Optional finite length in ticks; `None` means unbounded or looping content.
pub type DurationData = Option<i64>;

/// A value flowing through a parameter pin.
#[derive(Clone, Copy, Debug, PartialEq, Eq, Structural)]
pub enum ParamValue {
    /// Fixed-point scalar, `PARAM_ONE` representing one.
    Scalar(i64),
    Bool(bool),
}

/// The static type of a parameter pin.
#[derive(Clone, Copy, Debug, PartialEq, Eq, Structural)]
pub enum ParamSpec {
    Scalar,
    Bool,
}

/// The space a pose is expressed in.
#[derive(Clone, Copy, Debug, PartialEq, Eq, Structural)]
pub enum PoseSpace {
    BoneSpace,
    CharacterSpace,
    GlobalSpace,
}

/// The space a pose pin declares: a concrete space, or any space.
#[derive(Clone, Copy, Debug, PartialEq, Eq, Structural)]
pub enum PoseSpec {
    BoneSpace,
    CharacterSpace,
    GlobalSpace,
    Any,
}

/// One bone's sample inside a pose frame.
#[derive(Clone, Copy, Debug, PartialEq, Eq, Structural)]
pub struct BonePose {
    /// Identity of the bone within the skeleton.
    pub bone: u64,
    pub x: i64,
    pub y: i64,
    pub z: i64,
}

/// A timestamped skeletal sample tagged with the space it is expressed in.
#[derive(Debug, PartialEq, Eq)]
pub struct PoseFrame {
    /// The tick this frame samples, monotonically increasing across loop
    /// repeats for downstream discontinuity detection.
    pub timestamp: i64,
    pub space: PoseSpace,
    pub bones: Vec<BonePose>,
}

/// Mathematical model of a pose frame.
pub ghost struct PoseFrameView {
    pub timestamp: i64,
    pub space: PoseSpace,
    pub bones: Seq<BonePose>,
}

impl View for PoseFrame {
    type V = PoseFrameView;

    open spec fn view(&self) -> PoseFrameView {
        PoseFrameView { timestamp: self.timestamp, space: self.space, bones: self.bones@ }
    }
}

impl PoseFrame {
    /// An exact copy of the frame.
    pub fn duplicate(&self) -> (r: PoseFrame)
        ensures
            r@ == self@,
    {
        let mut bones: Vec<BonePose> = Vec::new();
        let mut i: usize = 0;
        while i < self.bones.len()
            invariant
                i <= self.bones.len(),
                bones@ == self.bones@.take(i as int),
            decreases self.bones.len() - i,
        {
            bones.push(self.bones[i]);
            i = i + 1;
        }
        proof {
            assert(bones@ =~= self.bones@);
        }
        PoseFrame { timestamp: self.timestamp, space: self.space, bones }
    }

    /// The same frame with its timestamp replaced.
    pub fn with_timestamp(self, timestamp: i64) -> (r: PoseFrame)
        ensures
            r@.timestamp == timestamp,
            r@.space == self@.space,
            r@.bones == self@.bones,
    {
        PoseFrame { timestamp, space: self.space, bones: self.bones }
    }
}

impl ParamValue {
    /// The static type of this value.
    pub open spec fn spec_of(self) -> ParamSpec {
        match self {
            ParamValue::Scalar(_) => ParamSpec::Scalar,
            ParamValue::Bool(_) => ParamSpec::Bool,
        }
    }

    /// The declared type of the value, for edge validation.
    pub fn param_spec(&self) -> (r: ParamSpec)
        ensures
            r == self.spec_of(),
    {
        match self {
            ParamValue::Scalar(_) => ParamSpec::Scalar,
            ParamValue::Bool(_) => ParamSpec::Bool,
        }
    }

    /// The scalar carried by the value, if it is a scalar.
    pub fn as_scalar(&self) -> (r: Option<i64>)
        ensures
            match r {
                Some(v) => self is Scalar && self->Scalar_0 == v,
                None => !(self is Scalar),
            },
    {
        match self {
            ParamValue::Scalar(v) => Some(*v),
            _ => None,
        }
    }
}

/// Whether an edge may connect a source pose pin to a target pose pin:
/// either side declaring `Any` is compatible with everything, otherwise the
/// spaces must agree.
pub open spec fn spec_pose_compatible(source: PoseSpec, target: PoseSpec) -> bool {
    source == PoseSpec::Any || target == PoseSpec::Any || source == target
}

/// Decides pose pin compatibility, as used at edge-insertion time.
pub fn pose_compatible(source: PoseSpec, target: PoseSpec) -> (r: bool)
    ensures
        r == spec_pose_compatible(source, target),
{
    match (source, target) {
        (PoseSpec::Any, _) => true,
        (_, PoseSpec::Any) => true,
        (a, b) => a == b,
    }
}

} // verus!
