//! The frame scheduler: the one place that orders the per-frame steps.
//!
//! Each tick runs, in this order and nothing else: (1) fold the frame's
//! pointer samples into the camera and write the camera node's local
//! rotation; (2) advance the tagged nodes' local rotations by the
//! elapsed time; (3) propagate world transforms over the whole node set.
//! The order is load-bearing: this frame's propagation must read the
//! camera and animator writes of this same frame.
//!
//! Attaching the controller validates, before any tick can run, that the
//! scene designates exactly one camera node; zero or several is a fatal
//! configuration error.

use vstd::prelude::*;

use crate::animator::{advance, advance_model, tick_angle};
use crate::camera::{pitch_after, yaw_after, yaw_pitch_rotation, CameraState, PointerSample};
use crate::rotation::{Axis, Rotation};
use crate::scene::{NodeView, Scene};

verus! {

/// Fatal configuration errors, detected at attachment, never per-frame.
#[derive(Clone, Copy, PartialEq, Eq, Structural, Debug)]
pub enum ConfigError {
    /// No node is tagged as the camera.
    NoCamera,
    /// More than one node is tagged as the camera.
    MultipleCameras,
}

/// How many nodes of the model are tagged as the camera.
pub open spec fn camera_count(m: Seq<NodeView>) -> nat
    decreases m.len(),
{
    if m.len() == 0 {
        0
    } else {
        camera_count(m.drop_last()) + if m.last().is_camera {
            1nat
        } else {
            0nat
        }
    }
}

proof fn lemma_camera_count_take_step(m: Seq<NodeView>, i: int)
    requires
        0 <= i < m.len(),
    ensures
        camera_count(m.take(i + 1)) == camera_count(m.take(i)) + if m[i].is_camera {
            1nat
        } else {
            0nat
        },
{
    assert(m.take(i + 1).drop_last() =~= m.take(i));
    assert(m.take(i + 1).last() == m[i]);
}

proof fn lemma_camera_count_mono(m: Seq<NodeView>, k: int, l: int)
    requires
        0 <= k <= l <= m.len(),
        camera_count(m.take(k)) >= 2,
    ensures
        camera_count(m.take(l)) >= 2,
    decreases l - k,
{
    if k < l {
        lemma_camera_count_take_step(m, k);
        lemma_camera_count_mono(m, k + 1, l);
    } else {
        assert(m.take(k) =~= m.take(l));
    }
}

/// The camera controller: the accumulated camera state, bound to the
/// one node the scene designates as the camera.
pub struct CameraController {
    pub state: CameraState,
    pub camera: usize,
}

impl CameraController {
    /// The bound handle is a real node and is the designated camera.
    pub open spec fn bound_to(&self, m: Seq<NodeView>) -> bool {
        &&& (self.camera as int) < m.len()
        &&& m[self.camera as int].is_camera
    }

    /// Attach a controller to a scene: succeeds, with fresh level state,
    /// exactly when the scene designates exactly one camera node, and
    /// binds to that node; fails fast with `NoCamera` when there is none
    /// and `MultipleCameras` when there are several.
    pub fn attach(scene: &Scene, sensitivity: u16) -> (r: Result<CameraController, ConfigError>)
        ensures
            camera_count(scene.model()) == 1 ==> (r matches Ok(c) && c.state == CameraState {
                sensitivity,
                yaw: 0i64,
                pitch: 0i64,
            } && c.bound_to(scene.model())),
            camera_count(scene.model()) == 0 ==> r == Result::<
                CameraController,
                ConfigError,
            >::Err(ConfigError::NoCamera),
            camera_count(scene.model()) > 1 ==> r == Result::<
                CameraController,
                ConfigError,
            >::Err(ConfigError::MultipleCameras),
    {
        let ghost m = scene.model();
        let n = scene.nodes.len();
        let mut found: Option<usize> = None;
        for i in 0..n
            invariant
                n == scene.nodes@.len(),
                n == m.len(),
                m == scene.model(),
                match found {
                    Some(c) => {
                        &&& camera_count(m.take(i as int)) == 1
                        &&& (c as int) < i as int
                        &&& m[c as int].is_camera
                    },
                    None => camera_count(m.take(i as int)) == 0,
                },
        {
            proof {
                assert(m[i as int] == scene.nodes@[i as int]@);
                lemma_camera_count_take_step(m, i as int);
            }
            if scene.nodes[i].is_camera {
                match found {
                    Some(c) => {
                        proof {
                            assert(camera_count(m.take(i + 1)) == 2);
                            lemma_camera_count_mono(m, i + 1, m.len() as int);
                            assert(m.take(m.len() as int) =~= m);
                        }
                        return Err(ConfigError::MultipleCameras);
                    },
                    None => {
                        found = Some(i);
                    },
                }
            }
        }
        proof {
            assert(m.take(n as int) =~= m);
        }
        match found {
            Some(c) => Ok(CameraController { state: CameraState::new(sensitivity), camera: c }),
            None => Err(ConfigError::NoCamera),
        }
    }

    /// Step (1) of a tick: fold the frame's pointer samples into yaw and
    /// pitch and, if any sample arrived, write the derived orientation
    /// into the camera node's local rotation.  With no samples, both the
    /// state and the scene are left exactly as they were — the stored
    /// orientation is already consistent with yaw and pitch.
    pub fn update(&mut self, scene: &mut Scene, samples: &Vec<PointerSample>)
        requires
            old(self).state.wf(),
            old(scene).wf(),
            (old(self).camera as int) < old(scene).model().len(),
        ensures
            final(self).camera == old(self).camera,
            final(self).state.sensitivity == old(self).state.sensitivity,
            final(self).state.yaw == yaw_after(
                old(self).state.yaw,
                old(self).state.sensitivity,
                samples@,
            ),
            final(self).state.pitch as int == pitch_after(
                old(self).state.pitch as int,
                old(self).state.sensitivity,
                samples@,
            ),
            final(self).state.wf(),
            final(scene).model() == camera_write_model(
                old(scene).model(),
                old(self).camera as int,
                final(self).state.yaw,
                final(self).state.pitch,
                samples@.len() > 0,
            ),
            final(scene).worlds == old(scene).worlds,
            final(scene).wf(),
            samples@.len() == 0 ==> *final(self) == *old(self) && final(scene).model() == old(
                scene,
            ).model(),
    {
        self.state.apply_motion(samples);
        if samples.len() > 0 {
            let q: Rotation = self.state.orientation();
            let ghost m0 = old(scene).model();
            let cam = self.camera;
            scene.nodes[cam].local.rotation = q;
            proof {
                assert(scene.nodes@[cam as int]@ == m0[cam as int].with_rotation(
                    yaw_pitch_rotation(self.state.yaw, self.state.pitch),
                ));
                assert forall|j: int| 0 <= j < m0.len() implies #[trigger] scene.model()[j]
                    == camera_write_model(
                    m0,
                    cam as int,
                    self.state.yaw,
                    self.state.pitch,
                    true,
                )[j] by {
                    assert(scene.model()[j] == scene.nodes@[j]@);
                }
                assert(scene.model() =~= camera_write_model(
                    m0,
                    cam as int,
                    self.state.yaw,
                    self.state.pitch,
                    true,
                ));
            }
        }
    }
}

/// The scene model after the camera write: the camera node's local
/// rotation becomes the orientation derived from the folded angles, but
/// only if any sample arrived this frame.
pub open spec fn camera_write_model(
    m: Seq<NodeView>,
    cam: int,
    yaw: i64,
    pitch: i64,
    any_samples: bool,
) -> Seq<NodeView> {
    if any_samples {
        m.update(cam, m[cam].with_rotation(yaw_pitch_rotation(yaw, pitch)))
    } else {
        m
    }
}

/// The per-frame driver: the configured animator rate and the attached
/// camera controller.
pub struct FrameScheduler {
    pub controller: CameraController,
    pub rate: i32,
}

impl FrameScheduler {
    /// Build the scheduler at startup: validates the camera
    /// configuration (fail fast — no tick can run on a bad scene) and
    /// fixes the animator rate, in nanoradians per microsecond.
    pub fn new(scene: &Scene, sensitivity: u16, rate: i32) -> (r: Result<
        FrameScheduler,
        ConfigError,
    >)
        ensures
            camera_count(scene.model()) == 1 ==> (r matches Ok(f) && f.rate == rate
                && f.controller.state == CameraState { sensitivity, yaw: 0i64, pitch: 0i64 }
                && f.controller.bound_to(scene.model())),
            camera_count(scene.model()) != 1 ==> r is Err,
            camera_count(scene.model()) == 0 ==> r == Result::<
                FrameScheduler,
                ConfigError,
            >::Err(ConfigError::NoCamera),
            camera_count(scene.model()) > 1 ==> r == Result::<
                FrameScheduler,
                ConfigError,
            >::Err(ConfigError::MultipleCameras),
    {
        match CameraController::attach(scene, sensitivity) {
            Ok(controller) => Ok(FrameScheduler { controller, rate }),
            Err(e) => Err(e),
        }
    }

    /// One frame: camera first, then the animator, then propagation, so
    /// the world transforms handed to the renderer reflect every write
    /// of this frame.  The final model is the animator step applied to
    /// the camera step, and every world transform agrees with it.
    pub fn tick(&mut self, scene: &mut Scene, samples: &Vec<PointerSample>, delta_micros: u32)
        requires
            old(self).controller.state.wf(),
            old(scene).wf(),
            (old(self).controller.camera as int) < old(scene).model().len(),
        ensures
            final(self).rate == old(self).rate,
            final(self).controller.camera == old(self).controller.camera,
            final(self).controller.state.sensitivity == old(self).controller.state.sensitivity,
            final(self).controller.state.yaw == yaw_after(
                old(self).controller.state.yaw,
                old(self).controller.state.sensitivity,
                samples@,
            ),
            final(self).controller.state.pitch as int == pitch_after(
                old(self).controller.state.pitch as int,
                old(self).controller.state.sensitivity,
                samples@,
            ),
            final(self).controller.state.wf(),
            final(scene).model() == advance_model(
                camera_write_model(
                    old(scene).model(),
                    old(self).controller.camera as int,
                    final(self).controller.state.yaw,
                    final(self).controller.state.pitch,
                    samples@.len() > 0,
                ),
                tick_angle(old(self).rate, delta_micros),
            ),
            final(scene).wf(),
            final(scene).propagated(),
    {
        self.controller.update(scene, samples);
        advance(scene, delta_micros, self.rate);
        scene.propagate();
    }
}

} // verus!
