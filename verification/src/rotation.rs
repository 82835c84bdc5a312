//! Rotations as normalized chains of axis-angle factors.
//!
//! A rotation is a product of primitive rotations about the coordinate
//! axes, stored outermost factor first (index 0 is applied last to a
//! vector, i.e. it is the leftmost factor of the product).  Angles are
//! exact signed nanoradians; composing two factors about the same axis
//! adds their angles with two's-complement wrap-around, which plays the
//! role of angular periodicity in this fixed-point model.  The chain is
//! kept normalized: no factor has a zero angle and adjacent factors are
//! about distinct axes.

use vstd::prelude::*;

verus! {

/// Coordinate axis of a primitive rotation factor.
#[derive(Clone, Copy, PartialEq, Eq, Structural, Debug)]
pub enum Axis {
    X,
    Y,
    Z,
}

/// One primitive rotation: an axis and a signed angle in nanoradians.
#[derive(Clone, Copy, PartialEq, Eq, Structural, Debug)]
pub struct RotFactor {
    pub axis: Axis,
    pub angle: i64,
}

/// A rotation as a normalized factor chain, outermost factor first.
#[derive(Debug)]
pub struct Rotation {
    pub factors: Vec<RotFactor>,
}

/// Angle addition with two's-complement wrap-around, the angle arithmetic
/// of this model (periodic with period 2^64 nanoradians).
pub open spec fn wadd(a: i64, b: i64) -> i64 {
    vstd::wrapping::i64_specs::wrapping_add(a, b)
}

/// A factor chain is normalized: no zero angles, adjacent axes distinct.
pub open spec fn rot_wf(s: Seq<RotFactor>) -> bool {
    &&& forall|i: int| 0 <= i < s.len() ==> (#[trigger] s[i]).angle != 0
    &&& forall|i: int, j: int|
        #![trigger s[i], s[j]]
        0 <= i && j == i + 1 && j < s.len() ==> s[i].axis != s[j].axis
}

/// The chain after multiplying a primitive rotation `Rot(axis, inc)` onto
/// the outside (the left, world-space side) of `s`: merge with the head
/// factor when the axes agree, dropping it if the angles cancel, and
/// otherwise prepend a new factor unless the increment is zero.
pub open spec fn spec_premul(s: Seq<RotFactor>, axis: Axis, inc: i64) -> Seq<RotFactor> {
    if s.len() > 0 && s[0].axis == axis {
        let w = wadd(s[0].angle, inc);
        if w == 0 {
            s.drop_first()
        } else {
            s.update(0, RotFactor { axis, angle: w })
        }
    } else {
        if inc == 0 {
            s
        } else {
            seq![RotFactor { axis, angle: inc }] + s
        }
    }
}

impl Rotation {
    pub open spec fn view(&self) -> Seq<RotFactor> {
        self.factors@
    }

    pub open spec fn wf(&self) -> bool {
        rot_wf(self@)
    }

    /// The identity rotation: the empty factor chain.
    pub fn identity() -> (r: Rotation)
        ensures
            r@ == Seq::<RotFactor>::empty(),
            r.wf(),
    {
        Rotation { factors: Vec::new() }
    }

    /// Multiply `Rot(axis, inc)` onto the outside of this rotation,
    /// keeping the chain normalized.
    pub fn premul(&mut self, axis: Axis, inc: i64)
        requires
            old(self).wf(),
        ensures
            final(self)@ == spec_premul(old(self)@, axis, inc),
            final(self).wf(),
    {
        if self.factors.len() > 0 && self.factors[0].axis == axis {
            let w = self.factors[0].angle.wrapping_add(inc);
            if w == 0 {
                self.factors.remove(0);
                proof {
                    assert(self@ =~= old(self)@.drop_first());
                }
            } else {
                let head = RotFactor { axis, angle: w };
                self.factors[0] = head;
                proof {
                    assert(self@ =~= old(self)@.update(0, head));
                }
            }
        } else {
            if inc != 0 {
                self.factors.insert(0, RotFactor { axis, angle: inc });
                proof {
                    assert(self@ =~= seq![RotFactor { axis, angle: inc }] + old(self)@);
                }
            }
        }
    }
}

/// Law: outside-multiplying about one axis is additive in the angle.
/// Multiplying `Rot(axis, i1)` and then `Rot(axis, i2)` onto a normalized
/// chain yields the same chain as multiplying `Rot(axis, i1 + i2)` once,
/// provided the combined increment is representable.
pub proof fn lemma_premul_additive(s: Seq<RotFactor>, axis: Axis, i1: i64, i2: i64, i12: i64)
    requires
        rot_wf(s),
        i12 == i1 + i2,
    ensures
        spec_premul(spec_premul(s, axis, i1), axis, i2) == spec_premul(s, axis, i12),
{
    if s.len() > 0 && s[0].axis == axis {
        let w1 = wadd(s[0].angle, i1);
        if w1 == 0 {
            let t = s.drop_first();
            assert(wadd(s[0].angle, i12) == i2);
            if t.len() > 0 {
                assert(t[0] == s[1]);
                assert(t[0].axis != axis);
            }
            if i2 != 0 {
                assert(spec_premul(s, axis, i12) =~= seq![RotFactor { axis, angle: i2 }] + t);
            }
        } else {
            let s1 = s.update(0, RotFactor { axis, angle: w1 });
            assert(s1[0].axis == axis);
            let w2 = wadd(w1, i2);
            assert(w2 == wadd(s[0].angle, i12));
            if w2 == 0 {
                assert(s1.drop_first() =~= s.drop_first());
            } else {
                assert(s1.update(0, RotFactor { axis, angle: w2 }) =~= s.update(
                    0,
                    RotFactor { axis, angle: w2 },
                ));
            }
        }
    } else {
        if i1 == 0 {
            assert(i12 == i2);
        } else {
            let s1 = seq![RotFactor { axis, angle: i1 }] + s;
            assert(s1[0].axis == axis);
            let w2 = wadd(i1, i2);
            assert(w2 == i12) by {
                assert(-0x8000_0000_0000_0000 <= i1 + i2 <= 0x7fff_ffff_ffff_ffff);
            }
            if w2 == 0 {
                assert(s1.drop_first() =~= s);
            } else {
                assert(s1.update(0, RotFactor { axis, angle: w2 }) =~= seq![
                    RotFactor { axis, angle: i12 },
                ] + s);
            }
        }
    }
}

/// Multiplying the identity increment changes nothing.
pub proof fn lemma_premul_zero(s: Seq<RotFactor>, axis: Axis)
    requires
        rot_wf(s),
    ensures
        spec_premul(s, axis, 0) == s,
{
    if s.len() > 0 && s[0].axis == axis {
        assert(wadd(s[0].angle, 0) == s[0].angle);
        assert(s.update(0, RotFactor { axis, angle: s[0].angle }) =~= s);
    }
}

} // verus!
