use animation_graph::data::{BonePose, ParamValue, PoseFrame, PoseSpace, TimeUpdate, PARAM_ONE};
use animation_graph::nodes::blend_node::{blend_duration, blend_poses};
use animation_graph::nodes::clip_node::{Clip, Keyframe};
use animation_graph::nodes::extend_skeleton::find_bone;
use animation_graph::nodes::loop_node::{global_time, loop_forward, loop_restamp};
use animation_graph::times::{rem_euclid, sat_add, sat_sub};

fn bone(id: u64, x: i64) -> BonePose {
    BonePose { bone: id, x, y: 0, z: 0 }
}

fn frame(ts: i64, bones: Vec<BonePose>) -> PoseFrame {
    PoseFrame {
        timestamp: ts,
        space: PoseSpace::BoneSpace,
        bones,
    }
}

#[test]
fn local_time_stays_in_period() {
    // g mod d lies in [0, d) also for negative global times.
    assert_eq!(rem_euclid(23, 10), 3);
    assert_eq!(rem_euclid(-3, 10), 7);
    assert_eq!(rem_euclid(-20, 10), 0);
    assert_eq!(rem_euclid(0, 1), 0);
    for g in [-25i64, -1, 0, 7, 10, 999] {
        let t = rem_euclid(g, 10);
        assert!(0 <= t && t < 10);
    }
}

#[test]
fn saturating_tick_arithmetic() {
    assert_eq!(sat_add(2, 3), 5);
    assert_eq!(sat_add(i64::MAX, 1), i64::MAX);
    assert_eq!(sat_add(i64::MIN, -1), i64::MIN);
    assert_eq!(sat_sub(2, 3), -1);
    assert_eq!(sat_sub(i64::MIN, 1), i64::MIN);
}

#[test]
fn global_time_from_update() {
    assert_eq!(global_time(TimeUpdate::Absolute(42), 7), 42);
    assert_eq!(global_time(TimeUpdate::Delta(5), 7), 12);
}

#[test]
fn loop_forward_absolute_seeks_local() {
    // An absolute update always becomes an absolute seek to local time.
    assert_eq!(
        loop_forward(TimeUpdate::Absolute(23), 0, 23, 10),
        TimeUpdate::Absolute(3)
    );
}

#[test]
fn loop_forward_delta_boundary() {
    // prev = 8, dt = 4, g = 12: the step crosses the boundary at 10, so the
    // loop forwards an absolute re-seek to local time 2.
    assert_eq!(
        loop_forward(TimeUpdate::Delta(4), 8, 12, 10),
        TimeUpdate::Absolute(2)
    );
    // prev = 12, dt = 3, g = 15: same repeat, delta passes unchanged.
    assert_eq!(
        loop_forward(TimeUpdate::Delta(3), 12, 15, 10),
        TimeUpdate::Delta(3)
    );
    // Negative side: prev = -3 (repeat [-10,0)), dt = 4, g = 1 crosses.
    assert_eq!(
        loop_forward(TimeUpdate::Delta(4), -3, 1, 10),
        TimeUpdate::Absolute(1)
    );
}

#[test]
fn loop_restamp_roundtrip() {
    // Inner frame stamped at local time 3 of g = 23 comes back at 23.
    assert_eq!(loop_restamp(3, 23, 10), 23);
    assert_eq!(loop_restamp(7, -3, 10), -3);
}

#[test]
fn blend_duration_is_max_of_present() {
    assert_eq!(blend_duration(Some(1000), Some(800)), Some(1000));
    assert_eq!(blend_duration(Some(800), Some(1000)), Some(1000));
    assert_eq!(blend_duration(Some(800), None), Some(800));
    assert_eq!(blend_duration(None, Some(1000)), Some(1000));
    assert_eq!(blend_duration(None, None), None);
}

#[test]
fn blend_factor_zero_returns_first_operand() {
    let a = frame(5, vec![bone(1, 100), bone(2, -40)]);
    let b = frame(9, vec![bone(1, 900), bone(2, 60)]);
    let out = blend_poses(&a, &b, 0);
    assert_eq!(out.timestamp, 5);
    assert_eq!(out.bones, a.bones);
}

#[test]
fn blend_factor_one_returns_second_operand() {
    let a = frame(5, vec![bone(1, 100), bone(2, -40)]);
    let b = frame(9, vec![bone(1, 900), bone(2, 60)]);
    let out = blend_poses(&a, &b, PARAM_ONE);
    assert_eq!(out.timestamp, 9);
    assert_eq!(out.bones, b.bones);
}

#[test]
fn blend_interpolates_between_operands() {
    let a = frame(0, vec![bone(1, 0)]);
    let b = frame(1000, vec![bone(1, 1000)]);
    let out = blend_poses(&a, &b, 300);
    assert_eq!(out.timestamp, 300);
    assert_eq!(out.bones[0].x, 300);
}

#[test]
fn clip_validation_rejects_bad_tracks() {
    let k = |t: i64| Keyframe {
        time: t,
        bones: vec![bone(1, t)],
    };
    assert!(Clip::new(10, vec![k(0), k(4), k(8)]).is_some());
    // Empty track.
    assert!(Clip::new(10, vec![]).is_none());
    // First keyframe off tick zero.
    assert!(Clip::new(10, vec![k(2)]).is_none());
    // Out of order.
    assert!(Clip::new(10, vec![k(0), k(8), k(4)]).is_none());
    // Keyframe past the duration.
    assert!(Clip::new(10, vec![k(0), k(12)]).is_none());
    // Nonpositive duration.
    assert!(Clip::new(0, vec![k(0)]).is_none());
}

#[test]
fn clip_sampling_picks_governing_keyframe() {
    let k = |t: i64| Keyframe {
        time: t,
        bones: vec![bone(1, t)],
    };
    let clip = Clip::new(10, vec![k(0), k(4), k(8)]).unwrap();
    let f = clip.sample(5);
    assert_eq!(f.timestamp, 5);
    assert_eq!(f.bones[0].x, 4);
    // Clamped below and above.
    assert_eq!(clip.sample(-3).timestamp, 0);
    assert_eq!(clip.sample(-3).bones[0].x, 0);
    assert_eq!(clip.sample(99).timestamp, 10);
    assert_eq!(clip.sample(99).bones[0].x, 8);
}

#[test]
fn find_bone_first_match() {
    let bones = vec![bone(1, 10), bone(2, 20)];
    assert_eq!(find_bone(&bones, 2), Some(bone(2, 20)));
    assert_eq!(find_bone(&bones, 3), None);
}

#[test]
fn param_value_variants() {
    assert_eq!(ParamValue::Scalar(7).as_scalar(), Some(7));
    assert_eq!(ParamValue::Bool(true).as_scalar(), None);
}
