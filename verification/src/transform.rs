//! Local transforms and exact affine factor chains.
//!
//! A local transform is the usual translation / rotation / scale triple,
//! in nano-unit fixed point.  A composed (world) transform is kept as a
//! chain of primitive affine factors, outermost first, so composition is
//! exact concatenation; the rendering backend evaluates a chain into a
//! floating-point matrix when it consumes it.

use vstd::prelude::*;

use crate::rotation::{RotFactor, Rotation};

verus! {

/// The fixed-point representation of 1.0: one nano-unit times 10^9.
pub const SCALE_ONE_NANOS: i64 = 1_000_000_000;

/// A vector of three nano-unit fixed-point coordinates.
#[derive(Clone, Copy, PartialEq, Eq, Structural, Debug)]
pub struct Vec3Fx {
    pub x: i64,
    pub y: i64,
    pub z: i64,
}

impl Vec3Fx {
    /// The zero vector.
    pub fn zero() -> (v: Vec3Fx)
        ensures
            v == (Vec3Fx { x: 0i64, y: 0i64, z: 0i64 }),
    {
        Vec3Fx { x: 0, y: 0, z: 0 }
    }

    /// The unit scale vector (1, 1, 1).
    pub fn one() -> (v: Vec3Fx)
        ensures
            v == (Vec3Fx { x: SCALE_ONE_NANOS, y: SCALE_ONE_NANOS, z: SCALE_ONE_NANOS }),
    {
        Vec3Fx { x: SCALE_ONE_NANOS, y: SCALE_ONE_NANOS, z: SCALE_ONE_NANOS }
    }
}

/// One primitive affine factor of a composed transform.
#[derive(Clone, Copy, PartialEq, Eq, Structural, Debug)]
pub enum AffineFactor {
    Translate(Vec3Fx),
    Rotate(RotFactor),
    Scale(Vec3Fx),
}

/// A node's transform relative to its parent (or to the world, if the
/// node is a root): translate, then rotate, then scale.
#[derive(Debug)]
pub struct LocalTransform {
    pub translation: Vec3Fx,
    pub rotation: Rotation,
    pub scale: Vec3Fx,
}

/// The spec-level image of a local transform: plain values only, so that
/// contracts can construct and update it.
pub ghost struct LocalView {
    pub translation: Vec3Fx,
    pub rotation: Seq<RotFactor>,
    pub scale: Vec3Fx,
}

impl LocalTransform {
    pub open spec fn view(&self) -> LocalView {
        LocalView {
            translation: self.translation,
            rotation: self.rotation@,
            scale: self.scale,
        }
    }

    pub open spec fn wf(&self) -> bool {
        crate::rotation::rot_wf(self.rotation@)
    }

    /// The identity transform: no offset, no rotation, unit scale.
    pub fn identity() -> (t: LocalTransform)
        ensures
            t@ == (LocalView {
                translation: Vec3Fx { x: 0i64, y: 0i64, z: 0i64 },
                rotation: Seq::<RotFactor>::empty(),
                scale: Vec3Fx { x: SCALE_ONE_NANOS, y: SCALE_ONE_NANOS, z: SCALE_ONE_NANOS },
            }),
            t.wf(),
    {
        LocalTransform { translation: Vec3Fx::zero(), rotation: Rotation::identity(), scale: Vec3Fx::one() }
    }
}

/// The rotation part of a chain: each factor wrapped as an affine factor.
pub open spec fn rot_chain(s: Seq<RotFactor>) -> Seq<AffineFactor> {
    s.map_values(|f: RotFactor| AffineFactor::Rotate(f))
}

/// The affine factor chain of one local transform: translate, then the
/// rotation factors, then scale, outermost first.
pub open spec fn chain_of(t: LocalView) -> Seq<AffineFactor> {
    seq![AffineFactor::Translate(t.translation)] + rot_chain(t.rotation) + seq![
        AffineFactor::Scale(t.scale),
    ]
}

/// Append the factor chain of `t` to `dst`.
pub fn push_chain(dst: &mut Vec<AffineFactor>, t: &LocalTransform)
    ensures
        final(dst)@ == old(dst)@ + chain_of(t@),
{
    dst.push(AffineFactor::Translate(t.translation));
    let n = t.rotation.factors.len();
    for i in 0..n
        invariant
            n == t.rotation.factors@.len(),
            dst@ == old(dst)@ + seq![AffineFactor::Translate(t.translation)] + rot_chain(
                t.rotation.factors@.take(i as int),
            ),
    {
        dst.push(AffineFactor::Rotate(t.rotation.factors[i]));
        proof {
            assert(rot_chain(t.rotation.factors@.take(i + 1)) =~= rot_chain(
                t.rotation.factors@.take(i as int),
            ) + seq![AffineFactor::Rotate(t.rotation.factors@[i as int])]);
            assert(dst@ =~= old(dst)@ + seq![AffineFactor::Translate(t.translation)] + rot_chain(
                t.rotation.factors@.take(i + 1),
            ));
        }
    }
    dst.push(AffineFactor::Scale(t.scale));
    proof {
        assert(t.rotation.factors@.take(n as int) =~= t.rotation.factors@);
        assert(dst@ =~= old(dst)@ + chain_of(t@));
    }
}

/// Append a copy of an existing chain to `dst`.
pub fn append_factors(dst: &mut Vec<AffineFactor>, src: &Vec<AffineFactor>)
    ensures
        final(dst)@ == old(dst)@ + src@,
{
    let n = src.len();
    for i in 0..n
        invariant
            n == src@.len(),
            dst@ == old(dst)@ + src@.take(i as int),
    {
        dst.push(src[i]);
        proof {
            assert(src@.take(i + 1) =~= src@.take(i as int) + seq![src@[i as int]]);
            assert(dst@ =~= old(dst)@ + src@.take(i + 1));
        }
    }
    proof {
        assert(src@.take(n as int) =~= src@);
    }
}

} // verus!
