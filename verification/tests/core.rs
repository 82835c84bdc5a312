use scene_core::animator::advance;
use scene_core::camera::{CameraState, PointerSample, NANOS_PER_MILLIDEGREE, PITCH_LIMIT_NANOS};
use scene_core::rotation::{Axis, RotFactor, Rotation};
use scene_core::scene::Scene;
use scene_core::scheduler::{CameraController, ConfigError, FrameScheduler};
use scene_core::transform::{AffineFactor, LocalTransform, Vec3Fx, SCALE_ONE_NANOS};

fn plain(translation: Vec3Fx) -> LocalTransform {
    LocalTransform {
        translation,
        rotation: Rotation::identity(),
        scale: Vec3Fx {
            x: SCALE_ONE_NANOS,
            y: SCALE_ONE_NANOS,
            z: SCALE_ONE_NANOS,
        },
    }
}

fn v(x: i64, y: i64, z: i64) -> Vec3Fx {
    Vec3Fx { x, y, z }
}

fn chain_of_plain(t: Vec3Fx) -> Vec<AffineFactor> {
    vec![
        AffineFactor::Translate(t),
        AffineFactor::Scale(v(SCALE_ONE_NANOS, SCALE_ONE_NANOS, SCALE_ONE_NANOS)),
    ]
}

/// A chain of depth three: every node's world transform is its parent's
/// world chain followed by its own local chain, and the root's world
/// chain is its local chain alone.
#[test]
fn world_composition_depth_three() {
    let mut scene = Scene::new();
    let root = scene.add_node(plain(v(1, 2, 3)), None, false, false);
    let child = scene.add_node(plain(v(10, 0, 0)), Some(root), false, false);
    let grand = scene.add_node(plain(v(0, 20, 0)), Some(child), false, false);
    scene.propagate();

    let root_world = scene.world(root).clone();
    let child_world = scene.world(child).clone();
    let grand_world = scene.world(grand).clone();

    assert_eq!(root_world, chain_of_plain(v(1, 2, 3)));

    let mut expected_child = root_world.clone();
    expected_child.extend(chain_of_plain(v(10, 0, 0)));
    assert_eq!(child_world, expected_child);

    let mut expected_grand = child_world.clone();
    expected_grand.extend(chain_of_plain(v(0, 20, 0)));
    assert_eq!(grand_world, expected_grand);
}

/// Propagation is idempotent: a second run with unchanged locals and
/// parent links reproduces the same world transforms.
#[test]
fn propagate_idempotent() {
    let mut scene = Scene::new();
    let root = scene.add_node(plain(v(5, 5, 5)), None, false, false);
    let child = scene.add_node(plain(v(-1, 0, 1)), Some(root), false, false);
    scene.propagate();
    let first_root = scene.world(root).clone();
    let first_child = scene.world(child).clone();
    scene.propagate();
    assert_eq!(*scene.world(root), first_root);
    assert_eq!(*scene.world(child), first_child);
}

/// A node whose parent was removed degrades gracefully to a root for
/// the tick: its world transform is its local chain alone.
#[test]
fn removed_parent_treated_as_root() {
    let mut scene = Scene::new();
    let root = scene.add_node(plain(v(1, 1, 1)), None, false, false);
    let child = scene.add_node(plain(v(7, 8, 9)), Some(root), false, false);
    scene.remove_node(root);
    scene.propagate();
    assert_eq!(*scene.world(child), chain_of_plain(v(7, 8, 9)));
}

/// Attaching to a scene with two candidate camera nodes fails fast,
/// before any tick can run.
#[test]
fn two_cameras_fail_fast() {
    let mut scene = Scene::new();
    scene.add_node(plain(v(0, 0, 0)), None, true, false);
    scene.add_node(plain(v(1, 0, 0)), None, true, false);
    let r = FrameScheduler::new(&scene, 500, 628);
    assert!(matches!(r, Err(ConfigError::MultipleCameras)));
}

/// A scene with no camera node at all is also a fatal configuration
/// error.
#[test]
fn no_camera_fails_fast() {
    let mut scene = Scene::new();
    scene.add_node(plain(v(0, 0, 0)), None, false, false);
    let r = FrameScheduler::new(&scene, 500, 628);
    assert!(matches!(r, Err(ConfigError::NoCamera)));
}

/// Exactly one camera: attachment succeeds and binds to that node.
#[test]
fn one_camera_attaches() {
    let mut scene = Scene::new();
    scene.add_node(plain(v(0, 0, 0)), None, false, false);
    let cam = scene.add_node(plain(v(0, 2, 5)), None, true, false);
    let ctrl = CameraController::attach(&scene, 500).unwrap();
    assert_eq!(ctrl.camera, cam);
    assert_eq!(ctrl.state.sensitivity, 500);
    assert_eq!(ctrl.state.yaw, 0);
    assert_eq!(ctrl.state.pitch, 0);
}

/// End-to-end: a single root camera, sensitivity 0.5 degrees per unit
/// (500 millidegrees), one tick with the sample (10, 4).  Yaw must be
/// minus five degrees and pitch minus two degrees, both expressed in
/// nanoradians through the fixed conversion constant, and the camera's
/// local rotation must be Rot(Y, yaw) * Rot(X, pitch).
#[test]
fn camera_tick_scenario() {
    let mut scene = Scene::new();
    let cam = scene.add_node(plain(v(0, 0, 0)), None, true, false);
    let mut sched = FrameScheduler::new(&scene, 500, 0).unwrap();

    let samples = vec![PointerSample { dx: 10, dy: 4 }];
    sched.tick(&mut scene, &samples, 16_667);

    let expected_yaw = -(10 * 500 * NANOS_PER_MILLIDEGREE); // -5 degrees
    let expected_pitch = -(4 * 500 * NANOS_PER_MILLIDEGREE); // -2 degrees
    assert_eq!(expected_yaw, -87_265_000);
    assert_eq!(expected_pitch, -34_906_000);
    assert_eq!(sched.controller.state.yaw, expected_yaw);
    assert_eq!(sched.controller.state.pitch, expected_pitch);
    assert!(-PITCH_LIMIT_NANOS <= expected_pitch && expected_pitch <= PITCH_LIMIT_NANOS);

    let world = scene.world(cam).clone();
    assert_eq!(
        world,
        vec![
            AffineFactor::Translate(v(0, 0, 0)),
            AffineFactor::Rotate(RotFactor {
                axis: Axis::Y,
                angle: expected_yaw
            }),
            AffineFactor::Rotate(RotFactor {
                axis: Axis::X,
                angle: expected_pitch
            }),
            AffineFactor::Scale(v(SCALE_ONE_NANOS, SCALE_ONE_NANOS, SCALE_ONE_NANOS)),
        ]
    );
}

/// A single sample whose pitch excursion overshoots the limit in one
/// step is clamped to the bound exactly.
#[test]
fn pitch_clamped_on_one_large_sample() {
    let mut state = CameraState::new(1000);
    let samples = vec![PointerSample { dx: 0, dy: 100_000 }];
    state.apply_motion(&samples);
    assert_eq!(state.pitch, -PITCH_LIMIT_NANOS);

    // And back up across the whole range: clamped at the other bound.
    let back = vec![PointerSample { dx: 0, dy: -200_000 }];
    state.apply_motion(&back);
    assert_eq!(state.pitch, PITCH_LIMIT_NANOS);
}

/// Zero samples in a tick leave yaw, pitch and the camera's local
/// rotation bit-for-bit unchanged.
#[test]
fn empty_tick_leaves_camera_unchanged() {
    let mut scene = Scene::new();
    let cam = scene.add_node(plain(v(0, 2, 5)), None, true, false);
    let mut sched = FrameScheduler::new(&scene, 500, 0).unwrap();

    let first = vec![PointerSample { dx: 3, dy: -2 }];
    sched.tick(&mut scene, &first, 16_667);
    let yaw = sched.controller.state.yaw;
    let pitch = sched.controller.state.pitch;
    let rotation = scene.world(cam).clone();

    let empty: Vec<PointerSample> = Vec::new();
    sched.tick(&mut scene, &empty, 16_667);
    assert_eq!(sched.controller.state.yaw, yaw);
    assert_eq!(sched.controller.state.pitch, pitch);
    assert_eq!(*scene.world(cam), rotation);
}

/// Feeding two samples in one tick gives the same final yaw and pitch
/// as two ticks of one sample each: the fold clamps after every single
/// sample either way.
#[test]
fn batch_equals_split_ticks() {
    let samples = [
        PointerSample { dx: 100, dy: -30 },
        PointerSample { dx: -40, dy: 70 },
    ];

    let mut batched = CameraState::new(500);
    batched.apply_motion(&vec![samples[0], samples[1]]);

    let mut split = CameraState::new(500);
    split.apply_motion(&vec![samples[0]]);
    split.apply_motion(&vec![samples[1]]);

    assert_eq!(batched.yaw, split.yaw);
    assert_eq!(batched.pitch, split.pitch);
}

/// The per-sample clamp is observable: folding a huge downward sample
/// and its exact opposite does not cancel (the excursion was clamped in
/// between), where summing the deltas before clamping would give zero.
#[test]
fn per_sample_clamp_not_batched() {
    let mut state = CameraState::new(1000);
    let samples = vec![
        PointerSample { dx: 0, dy: 100_000 },
        PointerSample { dx: 0, dy: -100_000 },
    ];
    state.apply_motion(&samples);
    assert_eq!(state.pitch, PITCH_LIMIT_NANOS);
    assert_ne!(state.pitch, 0);
    // Yaw is never clamped, so the dx deltas do cancel.
    assert_eq!(state.yaw, 0);
}

/// Frame-rate independence: advancing by t1 then t2 microseconds equals
/// one advance of t1 + t2 microseconds, exactly, for a fixed rate.
#[test]
fn animator_additive_in_time() {
    let rate = 628;
    let initial = Rotation {
        factors: vec![RotFactor {
            axis: Axis::X,
            angle: 5_000,
        }],
    };

    let mut two_steps = Scene::new();
    let a = two_steps.add_node(
        LocalTransform {
            translation: Vec3Fx { x: 0, y: 0, z: 0 },
            rotation: initial,
            scale: Vec3Fx {
                x: SCALE_ONE_NANOS,
                y: SCALE_ONE_NANOS,
                z: SCALE_ONE_NANOS,
            },
        },
        None,
        false,
        true,
    );
    advance(&mut two_steps, 16_667, rate);
    advance(&mut two_steps, 33_333, rate);

    let initial_again = Rotation {
        factors: vec![RotFactor {
            axis: Axis::X,
            angle: 5_000,
        }],
    };
    let mut one_step = Scene::new();
    let b = one_step.add_node(
        LocalTransform {
            translation: Vec3Fx { x: 0, y: 0, z: 0 },
            rotation: initial_again,
            scale: Vec3Fx {
                x: SCALE_ONE_NANOS,
                y: SCALE_ONE_NANOS,
                z: SCALE_ONE_NANOS,
            },
        },
        None,
        false,
        true,
    );
    advance(&mut one_step, 50_000, rate);

    two_steps.propagate();
    one_step.propagate();
    assert_eq!(*two_steps.world(a), *one_step.world(b));
    assert_eq!(
        *two_steps.world(a),
        vec![
            AffineFactor::Translate(v(0, 0, 0)),
            AffineFactor::Rotate(RotFactor {
                axis: Axis::Y,
                angle: 628 * 50_000
            }),
            AffineFactor::Rotate(RotFactor {
                axis: Axis::X,
                angle: 5_000
            }),
            AffineFactor::Scale(v(SCALE_ONE_NANOS, SCALE_ONE_NANOS, SCALE_ONE_NANOS)),
        ]
    );
}

/// End-to-end: a non-camera node tagged for rotation, identity initial
/// rotation, rate of a fifth of pi radians per second (628 nanoradians
/// per microsecond), one tick of five seconds: the rotation is a half
/// turn about the world up axis, within the fixed-point tolerance of
/// the rate constant.
#[test]
fn rotator_half_turn_in_five_seconds() {
    let mut scene = Scene::new();
    let cam = scene.add_node(plain(v(0, 2, 5)), None, true, false);
    let spinner = scene.add_node(plain(v(0, 0, 0)), None, false, true);
    let mut sched = FrameScheduler::new(&scene, 500, 628).unwrap();

    let empty: Vec<PointerSample> = Vec::new();
    sched.tick(&mut scene, &empty, 5_000_000);

    let world = scene.world(spinner).clone();
    let half_turn = 628 * 5_000_000_i64; // 3_140_000_000 ~ pi nanoradians
    assert_eq!(half_turn, 3_140_000_000);
    assert!((half_turn - 3_141_592_654_i64).abs() < 2_000_000);
    assert_eq!(
        world,
        vec![
            AffineFactor::Translate(v(0, 0, 0)),
            AffineFactor::Rotate(RotFactor {
                axis: Axis::Y,
                angle: half_turn
            }),
            AffineFactor::Scale(v(SCALE_ONE_NANOS, SCALE_ONE_NANOS, SCALE_ONE_NANOS)),
        ]
    );
    // The untouched camera keeps its plain chain.
    assert_eq!(*scene.world(cam), chain_of_plain(v(0, 2, 5)));
}

/// The animator composes the increment on the world-space side: the
/// new factor lands outside the node's own orientation, so the spin
/// axis stays the world up axis.
#[test]
fn animator_multiplies_on_the_outside() {
    let mut scene = Scene::new();
    let node = scene.add_node(
        LocalTransform {
            translation: Vec3Fx { x: 0, y: 0, z: 0 },
            rotation: Rotation {
                factors: vec![RotFactor {
                    axis: Axis::Z,
                    angle: 123,
                }],
            },
            scale: Vec3Fx {
                x: SCALE_ONE_NANOS,
                y: SCALE_ONE_NANOS,
                z: SCALE_ONE_NANOS,
            },
        },
        None,
        false,
        true,
    );
    advance(&mut scene, 1_000, 628);
    scene.propagate();
    assert_eq!(
        *scene.world(node),
        vec![
            AffineFactor::Translate(v(0, 0, 0)),
            AffineFactor::Rotate(RotFactor {
                axis: Axis::Y,
                angle: 628_000
            }),
            AffineFactor::Rotate(RotFactor {
                axis: Axis::Z,
                angle: 123
            }),
            AffineFactor::Scale(v(SCALE_ONE_NANOS, SCALE_ONE_NANOS, SCALE_ONE_NANOS)),
        ]
    );
}

/// Merging: successive increments about the same axis accumulate into a
/// single normalized factor, and a full cancellation drops it.
#[test]
fn rotation_factors_merge_and_cancel() {
    let mut r = Rotation::identity();
    r.premul(Axis::Y, 100);
    r.premul(Axis::Y, 23);
    assert_eq!(
        r.factors,
        vec![RotFactor {
            axis: Axis::Y,
            angle: 123
        }]
    );
    r.premul(Axis::Y, -123);
    assert_eq!(r.factors, Vec::new());
}

/// The conversion constant: one millidegree is 17_453 nanoradians
/// (the floor of 1e9 * pi / 180_000).
#[test]
fn conversion_constant_value() {
    assert_eq!(NANOS_PER_MILLIDEGREE, 17_453);
    let radians_per_degree = std::f64::consts::PI / 180.0;
    let nanos_per_millidegree = radians_per_degree * 1.0e9 / 1000.0;
    assert_eq!(nanos_per_millidegree.floor() as i64, NANOS_PER_MILLIDEGREE);
}
