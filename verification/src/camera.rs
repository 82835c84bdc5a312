//! First-person camera state: yaw and pitch accumulated from pointer
//! motion.
//!
//! Sensitivity is configured once, in millidegrees of rotation per device
//! unit of pointer travel.  Each pointer sample `(dx, dy)` subtracts
//! `dx * sensitivity` (converted to nanoradians) from the yaw and the
//! `dy` counterpart from the pitch; the pitch is clamped to just under a
//! quarter turn after every sample, before the next one is folded in, so
//! a large excursion early in a batch is already clamped when later
//! samples arrive.  Yaw is unbounded and wraps with two's-complement
//! periodicity.

use vstd::prelude::*;

use crate::rotation::{spec_premul, Axis, RotFactor, Rotation};

verus! {

/// Pitch is clamped to [-1.54, 1.54] radians, just under a quarter turn,
/// so the camera can never invert past vertical.
pub const PITCH_LIMIT_NANOS: i64 = 1_540_000_000;

/// Nanoradians per millidegree: floor(1e9 * pi / 180_000).
pub const NANOS_PER_MILLIDEGREE: i64 = 17_453;

/// One raw pointer-motion sample, in device units.
#[derive(Clone, Copy, PartialEq, Eq, Structural, Debug)]
pub struct PointerSample {
    pub dx: i32,
    pub dy: i32,
}

/// Per-camera accumulation state.  `sensitivity` is in millidegrees per
/// device unit; `yaw` and `pitch` are in nanoradians.
#[derive(Clone, Copy, PartialEq, Eq, Structural, Debug)]
pub struct CameraState {
    pub sensitivity: u16,
    pub yaw: i64,
    pub pitch: i64,
}

/// The nanoradian angle one sample axis contributes: delta times
/// sensitivity, converted from millidegrees.  Bounded by 2^47 * 17_453,
/// well inside i64.
pub open spec fn sample_angle(delta: i32, sensitivity: u16) -> i64 {
    (delta * sensitivity * NANOS_PER_MILLIDEGREE) as i64
}

/// One yaw step: subtract the sample's angle, wrapping.
pub open spec fn yaw_step(yaw: i64, dx: i32, sensitivity: u16) -> i64 {
    vstd::wrapping::i64_specs::wrapping_sub(yaw, sample_angle(dx, sensitivity))
}

/// Clamp to the pitch limits.
pub open spec fn clamp_pitch(p: int) -> int {
    if p < -PITCH_LIMIT_NANOS {
        -PITCH_LIMIT_NANOS as int
    } else if p > PITCH_LIMIT_NANOS {
        PITCH_LIMIT_NANOS as int
    } else {
        p
    }
}

/// One pitch step: subtract the sample's angle, then clamp.
pub open spec fn pitch_step(pitch: int, dy: i32, sensitivity: u16) -> int {
    clamp_pitch(pitch - sample_angle(dy, sensitivity))
}

/// Yaw after folding a whole sample sequence, front to back.
pub open spec fn yaw_after(yaw: i64, sensitivity: u16, s: Seq<PointerSample>) -> i64
    decreases s.len(),
{
    if s.len() == 0 {
        yaw
    } else {
        yaw_after(yaw_step(yaw, s[0].dx, sensitivity), sensitivity, s.drop_first())
    }
}

/// Pitch after folding a whole sample sequence, front to back, clamping
/// after every single sample.
pub open spec fn pitch_after(pitch: int, sensitivity: u16, s: Seq<PointerSample>) -> int
    decreases s.len(),
{
    if s.len() == 0 {
        pitch
    } else {
        pitch_after(pitch_step(pitch, s[0].dy, sensitivity), sensitivity, s.drop_first())
    }
}

/// The camera orientation for given yaw and pitch: the normalized factor
/// chain of `Rot(Y, yaw) * Rot(X, pitch)` (yaw in world space outside,
/// pitch inside the already-yawed frame).
pub open spec fn yaw_pitch_rotation(yaw: i64, pitch: i64) -> Seq<RotFactor> {
    spec_premul(spec_premul(Seq::empty(), Axis::X, pitch), Axis::Y, yaw)
}

/// Law: folding samples is append-compatible.  Folding `a + b` in one
/// batch gives the same yaw as folding `a`, then `b` from the result —
/// yaw accumulation is insensitive to how a sample stream is cut into
/// ticks, because yaw is never clamped.  (The pitch fold has no such law:
/// an intermediate clamp crossed inside `a` changes the outcome.)
pub proof fn lemma_yaw_after_append(yaw: i64, sensitivity: u16, a: Seq<PointerSample>, b: Seq<
    PointerSample,
>)
    ensures
        yaw_after(yaw, sensitivity, a + b) == yaw_after(
            yaw_after(yaw, sensitivity, a),
            sensitivity,
            b,
        ),
    decreases a.len(),
{
    if a.len() == 0 {
        assert(a + b =~= b);
    } else {
        assert((a + b)[0] == a[0]);
        assert((a + b).drop_first() =~= a.drop_first() + b);
        lemma_yaw_after_append(yaw_step(yaw, a[0].dx, sensitivity), sensitivity, a.drop_first(), b);
    }
}

/// The two-sample reading of the append law: one tick carrying both
/// samples ends at the same yaw as two consecutive ticks of one sample
/// each.
pub proof fn lemma_yaw_batch_equals_split(
    yaw: i64,
    sensitivity: u16,
    s1: PointerSample,
    s2: PointerSample,
)
    ensures
        yaw_after(yaw, sensitivity, seq![s1, s2]) == yaw_after(
            yaw_after(yaw, sensitivity, seq![s1]),
            sensitivity,
            seq![s2],
        ),
{
    assert(seq![s1] + seq![s2] =~= seq![s1, s2]);
    lemma_yaw_after_append(yaw, sensitivity, seq![s1], seq![s2]);
}

/// The pitch fold is append-compatible as well (each side applies the
/// same clamped steps in the same order).
pub proof fn lemma_pitch_after_append(pitch: int, sensitivity: u16, a: Seq<PointerSample>, b: Seq<
    PointerSample,
>)
    ensures
        pitch_after(pitch, sensitivity, a + b) == pitch_after(
            pitch_after(pitch, sensitivity, a),
            sensitivity,
            b,
        ),
    decreases a.len(),
{
    if a.len() == 0 {
        assert(a + b =~= b);
    } else {
        assert((a + b)[0] == a[0]);
        assert((a + b).drop_first() =~= a.drop_first() + b);
        lemma_pitch_after_append(
            pitch_step(pitch, a[0].dy, sensitivity),
            sensitivity,
            a.drop_first(),
            b,
        );
    }
}

/// Law: the pitch stays within the clamp limits after any sample
/// sequence, including a single sample whose excursion overshoots the
/// limit in one step, as long as it starts within them.
pub proof fn lemma_pitch_always_clamped(pitch: int, sensitivity: u16, s: Seq<PointerSample>)
    requires
        -PITCH_LIMIT_NANOS <= pitch <= PITCH_LIMIT_NANOS,
    ensures
        -PITCH_LIMIT_NANOS <= pitch_after(pitch, sensitivity, s) <= PITCH_LIMIT_NANOS,
    decreases s.len(),
{
    if s.len() > 0 {
        lemma_pitch_always_clamped(
            pitch_step(pitch, s[0].dy, sensitivity),
            sensitivity,
            s.drop_first(),
        );
    }
}

/// The sample angle is far from overflowing: |delta| <= 2^31 and
/// sensitivity < 2^16 keep the product under 2^63.
proof fn lemma_sample_angle_bounds(delta: i32, sensitivity: u16)
    ensures
        -0x4000_0000_0000_0000 <= (delta as int) * (sensitivity as int) * (
        NANOS_PER_MILLIDEGREE as int) <= 0x4000_0000_0000_0000,
        sample_angle(delta, sensitivity) == (delta as int) * (sensitivity as int) * (
        NANOS_PER_MILLIDEGREE as int),
{
    assert(-0x4000_0000_0000_0000 <= (delta as int) * (sensitivity as int) * 17_453
        <= 0x4000_0000_0000_0000) by (nonlinear_arith)
        requires
            -0x8000_0000 <= (delta as int) <= 0x7fff_ffff,
            0 <= (sensitivity as int) < 0x1_0000,
    ;
}

impl CameraState {
    /// The accumulated pitch never leaves the clamp interval.
    pub open spec fn wf(&self) -> bool {
        -PITCH_LIMIT_NANOS <= self.pitch <= PITCH_LIMIT_NANOS
    }

    /// Fresh state: level view, configured sensitivity.
    pub fn new(sensitivity: u16) -> (s: CameraState)
        ensures
            s == (CameraState { sensitivity, yaw: 0i64, pitch: 0i64 }),
            s.wf(),
    {
        CameraState { sensitivity, yaw: 0, pitch: 0 }
    }

    /// Fold one pointer sample into yaw and pitch, clamping the pitch.
    pub fn apply_sample(&mut self, sample: PointerSample)
        requires
            old(self).wf(),
        ensures
            final(self).sensitivity == old(self).sensitivity,
            final(self).yaw == yaw_step(old(self).yaw, sample.dx, old(self).sensitivity),
            final(self).pitch as int == pitch_step(
                old(self).pitch as int,
                sample.dy,
                old(self).sensitivity,
            ),
            final(self).wf(),
    {
        proof {
            lemma_sample_angle_bounds(sample.dx, self.sensitivity);
            lemma_sample_angle_bounds(sample.dy, self.sensitivity);
        }
        let yaw_angle: i64 = (sample.dx as i64) * (self.sensitivity as i64)
            * NANOS_PER_MILLIDEGREE;
        let pitch_angle: i64 = (sample.dy as i64) * (self.sensitivity as i64)
            * NANOS_PER_MILLIDEGREE;
        self.yaw = self.yaw.wrapping_sub(yaw_angle);
        let raw: i64 = self.pitch - pitch_angle;
        self.pitch = if raw < -PITCH_LIMIT_NANOS {
            -PITCH_LIMIT_NANOS
        } else if raw > PITCH_LIMIT_NANOS {
            PITCH_LIMIT_NANOS
        } else {
            raw
        };
    }

    /// Fold a whole frame's sample sequence, in arrival order, each
    /// sample's clamp enforced before the next is applied.  With no
    /// samples the state is left untouched.
    pub fn apply_motion(&mut self, samples: &Vec<PointerSample>)
        requires
            old(self).wf(),
        ensures
            final(self).sensitivity == old(self).sensitivity,
            final(self).yaw == yaw_after(old(self).yaw, old(self).sensitivity, samples@),
            final(self).pitch as int == pitch_after(
                old(self).pitch as int,
                old(self).sensitivity,
                samples@,
            ),
            final(self).wf(),
            samples@.len() == 0 ==> *final(self) == *old(self),
    {
        let n = samples.len();
        for i in 0..n
            invariant
                n == samples@.len(),
                self.sensitivity == old(self).sensitivity,
                self.yaw == yaw_after(old(self).yaw, old(self).sensitivity, samples@.take(i as int)),
                self.pitch as int == pitch_after(
                    old(self).pitch as int,
                    old(self).sensitivity,
                    samples@.take(i as int),
                ),
                self.wf(),
        {
            let ghost done = samples@.take(i as int);
            let ghost one = seq![samples@[i as int]];
            self.apply_sample(samples[i]);
            proof {
                let sens = old(self).sensitivity;
                assert(samples@.take(i + 1) =~= done + one);
                lemma_yaw_after_append(old(self).yaw, sens, done, one);
                lemma_pitch_after_append(old(self).pitch as int, sens, done, one);
                assert(one.drop_first() =~= Seq::<PointerSample>::empty());
                assert forall|y: i64| yaw_after(y, sens, one) == yaw_step(y, one[0].dx, sens) by {
                    reveal_with_fuel(yaw_after, 2);
                }
                assert forall|p: int| pitch_after(p, sens, one) == pitch_step(p, one[0].dy, sens)
                    by {
                    reveal_with_fuel(pitch_after, 2);
                }
            }
        }
        proof {
            assert(samples@.take(n as int) =~= samples@);
        }
    }

    /// The orientation derived from the accumulated angles:
    /// `Rot(Y, yaw) * Rot(X, pitch)` as a normalized factor chain.
    pub fn orientation(&self) -> (r: Rotation)
        ensures
            r@ == yaw_pitch_rotation(self.yaw, self.pitch),
            r.wf(),
    {
        let mut r = Rotation::identity();
        r.premul(Axis::X, self.pitch);
        r.premul(Axis::Y, self.yaw);
        r
    }
}

} // verus!
