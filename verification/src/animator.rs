//! The rotation animator: every node tagged `rotates` has a yaw
//! increment multiplied onto the *outside* (world-space side) of its
//! local rotation each tick, so the spin axis stays the world up axis
//! whatever the node's own orientation.
//!
//! The increment is `rate * delta`, with the rate in nanoradians per
//! microsecond and the elapsed time in microseconds, so the angle grows
//! linearly with elapsed time and the behaviour is frame-rate
//! independent: two short ticks accumulate exactly the angle of one long
//! tick.

use vstd::prelude::*;

use crate::rotation::{lemma_premul_additive, rot_wf, spec_premul, Axis, RotFactor};
use crate::scene::{NodeView, Scene};

verus! {

/// The yaw increment of one tick, in nanoradians: rate (nanoradians per
/// microsecond) times elapsed microseconds.  The product always fits in
/// an i64.
pub open spec fn tick_angle(rate: i32, delta_micros: u32) -> i64 {
    (rate * delta_micros) as i64
}

/// The scene model after one animator tick: every tagged node's local
/// rotation gains the increment on its outside; untagged nodes are
/// untouched.
pub open spec fn advance_model(m: Seq<NodeView>, inc: i64) -> Seq<NodeView> {
    m.map_values(
        |n: NodeView|
            if n.rotates {
                n.with_rotation(spec_premul(n.local.rotation, Axis::Y, inc))
            } else {
                n
            },
    )
}

proof fn lemma_tick_angle_fits(rate: i32, delta_micros: u32)
    ensures
        -0x8000_0000_0000_0000 <= (rate as int) * (delta_micros as int) <= 0x7fff_ffff_ffff_ffff,
        tick_angle(rate, delta_micros) == (rate as int) * (delta_micros as int),
{
    assert(-0x8000_0000_0000_0000 <= (rate as int) * (delta_micros as int)
        <= 0x7fff_ffff_ffff_ffff) by (nonlinear_arith)
        requires
            -0x8000_0000 <= (rate as int) <= 0x7fff_ffff,
            0 <= (delta_micros as int) < 0x1_0000_0000,
    ;
}

/// Advance every tagged node's local rotation by this tick's increment.
/// World transforms are untouched; the new locals are read by the next
/// propagation.
pub fn advance(scene: &mut Scene, delta_micros: u32, rate: i32)
    requires
        old(scene).wf(),
    ensures
        final(scene).model() == advance_model(old(scene).model(), tick_angle(rate, delta_micros)),
        final(scene).worlds == old(scene).worlds,
        final(scene).wf(),
{
    proof {
        lemma_tick_angle_fits(rate, delta_micros);
    }
    let inc: i64 = (rate as i64) * (delta_micros as i64);
    let n = scene.nodes.len();
    let ghost m0 = old(scene).model();
    for i in 0..n
        invariant
            n == scene.nodes@.len(),
            scene.worlds == old(scene).worlds,
            scene.model().len() == m0.len(),
            inc == tick_angle(rate, delta_micros),
            old(scene).wf(),
            forall|j: int| 0 <= j < m0.len() ==> rot_wf((#[trigger] m0[j]).local.rotation),
            forall|j: int|
                0 <= j < i ==> (#[trigger] scene.nodes@[j])@ == advance_model(m0, inc)[j],
            forall|j: int| i <= j < m0.len() ==> (#[trigger] scene.nodes@[j])@ == m0[j],
    {
        proof {
            assert(scene.nodes@[i as int]@ == m0[i as int]);
            assert(rot_wf(scene.nodes@[i as int].local.rotation@));
        }
        if scene.nodes[i].rotates {
            scene.nodes[i].local.rotation.premul(Axis::Y, inc);
            proof {
                assert(advance_model(m0, inc)[i as int] == m0[i as int].with_rotation(
                    spec_premul(m0[i as int].local.rotation, Axis::Y, inc),
                ));
                assert(scene.nodes@[i as int]@ == advance_model(m0, inc)[i as int]);
            }
        } else {
            proof {
                assert(advance_model(m0, inc)[i as int] == m0[i as int]);
                assert(scene.nodes@[i as int]@ == advance_model(m0, inc)[i as int]);
            }
        }
    }
    proof {
        assert forall|j: int| 0 <= j < m0.len() implies #[trigger] scene.model()[j]
            == advance_model(m0, inc)[j] by {
            assert(scene.model()[j] == scene.nodes@[j]@);
        }
        assert(scene.model() =~= advance_model(m0, inc));
    }
}

/// Law: a tick with no elapsed time (or a zero rate) is a no-op on the
/// node set, so a frame with no input and no elapsed time reproduces the
/// previous frame's world transforms exactly.
pub proof fn lemma_advance_zero(m: Seq<NodeView>)
    requires
        forall|j: int| 0 <= j < m.len() ==> rot_wf((#[trigger] m[j]).local.rotation),
    ensures
        advance_model(m, 0) == m,
{
    assert forall|j: int| 0 <= j < m.len() implies #[trigger] advance_model(m, 0)[j] == m[j] by {
        crate::rotation::lemma_premul_zero(m[j].local.rotation, Axis::Y);
    }
    assert(advance_model(m, 0) =~= m);
}

/// Law: advancing is additive in elapsed time.  Ticking a normalized
/// rotation by `t1` and then by `t2` microseconds yields exactly the
/// rotation of one tick of `t1 + t2` microseconds, for any fixed rate
/// (so the accumulated angle over a stretch of time does not depend on
/// how that stretch is cut into frames).
pub proof fn lemma_advance_additive(s: Seq<RotFactor>, rate: i32, t1: u32, t2: u32)
    requires
        rot_wf(s),
        t1 + t2 <= u32::MAX,
    ensures
        spec_premul(
            spec_premul(s, Axis::Y, tick_angle(rate, t1)),
            Axis::Y,
            tick_angle(rate, t2),
        ) == spec_premul(s, Axis::Y, tick_angle(rate, (t1 + t2) as u32)),
{
    lemma_tick_angle_fits(rate, t1);
    lemma_tick_angle_fits(rate, t2);
    lemma_tick_angle_fits(rate, (t1 + t2) as u32);
    assert((rate as int) * ((t1 + t2) as int) == (rate as int) * (t1 as int) + (rate as int) * (
    t2 as int)) by (nonlinear_arith);
    lemma_premul_additive(
        s,
        Axis::Y,
        tick_angle(rate, t1),
        tick_angle(rate, t2),
        tick_angle(rate, (t1 + t2) as u32),
    );
}

} // verus!
