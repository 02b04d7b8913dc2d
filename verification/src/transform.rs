//! The pose of an object: where it is, how it is turned, how it is scaled.

use vstd::prelude::*;

use crate::linearalgebra::Vector3D;
use crate::scalar::{is_less, is_number, is_remainder, is_sum, is_zero, Real};

verus! {

/// The number of degrees in a full turn.
pub const FULL_TURN: i32 = 360;

/// `angle` lies in the half-open range from zero to a full turn: it is a
/// zero, or a value that compared as not below zero and as below 360.
pub open spec fn is_wrapped<T: Real>(angle: T) -> bool {
    is_zero(angle) || exists|zero: T, full: T|
        #![trigger is_less(angle, zero, false), is_less(angle, full, true)]
        is_zero(zero) && is_number(FULL_TURN, full) && is_less(angle, zero, false) && is_less(
            angle,
            full,
            true,
        )
}

/// `r` is a value that wrapping `angle` into a single turn may give: the
/// non-negative remainder of `angle` by 360 where that compares as inside
/// the range, and zero where it does not.
pub open spec fn is_wrapping_of<T: Real>(angle: T, r: T) -> bool {
    exists|zero: T, full: T, rest: T, below: bool|
        #![trigger is_remainder(angle, full, rest), is_less(rest, zero, below)]
        is_zero(zero) && is_number(FULL_TURN, full) && is_remainder(angle, full, rest) && is_less(
            rest,
            zero,
            below,
        ) && if below {
            r == zero
        } else {
            exists|inside: bool| #[trigger]
                is_less(rest, full, inside) && r == if inside {
                    rest
                } else {
                    zero
                }
        }
}

/// `angle` brought into the range from zero up to, and without, a full turn.
pub fn wrap_angle<T: Real>(angle: T) -> (r: T)
    ensures
        is_wrapping_of(angle, r),
        is_wrapped(r),
{
    let zero = T::zero();
    let full = T::from_i32(FULL_TURN);
    let rest = angle.rem_euclid(full);
    let below = rest.lt(zero);
    if below {
        assert(is_remainder(angle, full, rest) && is_less(rest, zero, below));
        zero
    } else {
        let inside = rest.lt(full);
        assert(is_less(rest, full, inside));
        assert(is_remainder(angle, full, rest) && is_less(rest, zero, below));
        if inside {
            assert(is_less(rest, zero, false) && is_less(rest, full, true));
            rest
        } else {
            zero
        }
    }
}

/// Position, rotation in degrees about the three axes, and scale.
#[derive(Debug)]
pub struct Transform<T> {
    pub position: Vector3D<T>,
    pub rotation: Vector3D<T>,
    pub scale: Vector3D<T>,
}

impl<T: Copy> Copy for Transform<T> {

}

impl<T: Copy> Clone for Transform<T> {
    fn clone(&self) -> (t: Self)
        ensures
            t == *self,
    {
        *self
    }
}

impl<T: Real> Transform<T> {
    /// Every rotation component lies within a single turn.
    pub open spec fn rotation_is_wrapped(&self) -> bool {
        is_wrapped(self.rotation.x) && is_wrapped(self.rotation.y) && is_wrapped(self.rotation.z)
    }

    /// The pose at the origin, unturned and unscaled.
    pub open spec fn is_unposed(&self) -> bool {
        self.position.is_zero_vector() && self.rotation.is_zero_vector()
            && self.scale.is_one_vector()
    }

    /// The pose at the origin, unturned and unscaled.
    pub fn new() -> (t: Self)
        ensures
            t.is_unposed(),
            t.rotation_is_wrapped(),
    {
        Self { position: Vector3D::zero(), rotation: Vector3D::zero(), scale: Vector3D::one() }
    }

    pub fn set_position(&mut self, x: T, y: T, z: T)
        ensures
            final(self).position == (Vector3D { x, y, z }),
            final(self).rotation == old(self).rotation,
            final(self).scale == old(self).scale,
    {
        self.position.x = x;
        self.position.y = y;
        self.position.z = z;
    }

    pub fn set_rotation(&mut self, x: T, y: T, z: T)
        ensures
            final(self).position == old(self).position,
            final(self).rotation == (Vector3D { x, y, z }),
            final(self).scale == old(self).scale,
    {
        self.rotation.x = x;
        self.rotation.y = y;
        self.rotation.z = z;
    }

    pub fn set_scale(&mut self, x: T, y: T, z: T)
        ensures
            final(self).position == old(self).position,
            final(self).rotation == old(self).rotation,
            final(self).scale == (Vector3D { x, y, z }),
    {
        self.scale.x = x;
        self.scale.y = y;
        self.scale.z = z;
    }

    /// Moves the position by (`x`, `y`, `z`).
    pub fn translate(&mut self, x: T, y: T, z: T)
        ensures
            final(self).position.is_sum_of(old(self).position, Vector3D { x, y, z }),
            final(self).rotation == old(self).rotation,
            final(self).scale == old(self).scale,
    {
        self.translate_x(x);
        self.translate_y(y);
        self.translate_z(z);
    }

    pub fn translate_x(&mut self, x: T)
        ensures
            is_sum(old(self).position.x, x, final(self).position.x),
            *final(self) == (Transform {
                position: Vector3D { x: final(self).position.x, ..old(self).position },
                ..*old(self)
            }),
    {
        self.position.x = self.position.x.add(x);
    }

    pub fn translate_y(&mut self, y: T)
        ensures
            is_sum(old(self).position.y, y, final(self).position.y),
            *final(self) == (Transform {
                position: Vector3D { y: final(self).position.y, ..old(self).position },
                ..*old(self)
            }),
    {
        self.position.y = self.position.y.add(y);
    }

    pub fn translate_z(&mut self, z: T)
        ensures
            is_sum(old(self).position.z, z, final(self).position.z),
            *final(self) == (Transform {
                position: Vector3D { z: final(self).position.z, ..old(self).position },
                ..*old(self)
            }),
    {
        self.position.z = self.position.z.add(z);
    }

    /// `after` is a value that turning `before` by `by` degrees may give.
    pub open spec fn is_turned(before: T, by: T, after: T) -> bool {
        exists|sum: T| #[trigger] is_sum(before, by, sum) && is_wrapping_of(sum, after)
    }

    /// Turns by `x`, `y` and `z` degrees about the three axes. Each angle is
    /// wrapped into a single turn on its own.
    pub fn rotate(&mut self, x: T, y: T, z: T)
        ensures
            Self::is_turned(old(self).rotation.x, x, final(self).rotation.x),
            Self::is_turned(old(self).rotation.y, y, final(self).rotation.y),
            Self::is_turned(old(self).rotation.z, z, final(self).rotation.z),
            final(self).rotation_is_wrapped(),
            final(self).position == old(self).position,
            final(self).scale == old(self).scale,
    {
        self.rotate_x(x);
        self.rotate_y(y);
        self.rotate_z(z);
    }

    pub fn rotate_x(&mut self, x: T)
        ensures
            Self::is_turned(old(self).rotation.x, x, final(self).rotation.x),
            is_wrapped(final(self).rotation.x),
            old(self).rotation_is_wrapped() ==> final(self).rotation_is_wrapped(),
            *final(self) == (Transform {
                rotation: Vector3D { x: final(self).rotation.x, ..old(self).rotation },
                ..*old(self)
            }),
    {
        let sum = self.rotation.x.add(x);
        assert(is_sum(self.rotation.x, x, sum));
        self.rotation.x = wrap_angle(sum);
    }

    pub fn rotate_y(&mut self, y: T)
        ensures
            Self::is_turned(old(self).rotation.y, y, final(self).rotation.y),
            is_wrapped(final(self).rotation.y),
            old(self).rotation_is_wrapped() ==> final(self).rotation_is_wrapped(),
            *final(self) == (Transform {
                rotation: Vector3D { y: final(self).rotation.y, ..old(self).rotation },
                ..*old(self)
            }),
    {
        let sum = self.rotation.y.add(y);
        assert(is_sum(self.rotation.y, y, sum));
        self.rotation.y = wrap_angle(sum);
    }

    pub fn rotate_z(&mut self, z: T)
        ensures
            Self::is_turned(old(self).rotation.z, z, final(self).rotation.z),
            is_wrapped(final(self).rotation.z),
            old(self).rotation_is_wrapped() ==> final(self).rotation_is_wrapped(),
            *final(self) == (Transform {
                rotation: Vector3D { z: final(self).rotation.z, ..old(self).rotation },
                ..*old(self)
            }),
    {
        let sum = self.rotation.z.add(z);
        assert(is_sum(self.rotation.z, z, sum));
        self.rotation.z = wrap_angle(sum);
    }

    /// Turns in the plane, that is about the z axis.
    pub fn rotate_2d(&mut self, angle: T)
        ensures
            Self::is_turned(old(self).rotation.z, angle, final(self).rotation.z),
            is_wrapped(final(self).rotation.z),
            old(self).rotation_is_wrapped() ==> final(self).rotation_is_wrapped(),
            *final(self) == (Transform {
                rotation: Vector3D { z: final(self).rotation.z, ..old(self).rotation },
                ..*old(self)
            }),
    {
        self.rotate_z(angle);
    }

    /// Grows the scale by (`x`, `y`, `z`).
    pub fn scale(&mut self, x: T, y: T, z: T)
        ensures
            final(self).scale.is_sum_of(old(self).scale, Vector3D { x, y, z }),
            final(self).position == old(self).position,
            final(self).rotation == old(self).rotation,
    {
        self.scale_x(x);
        self.scale_y(y);
        self.scale_z(z);
    }

    pub fn scale_x(&mut self, x: T)
        ensures
            is_sum(old(self).scale.x, x, final(self).scale.x),
            *final(self) == (Transform {
                scale: Vector3D { x: final(self).scale.x, ..old(self).scale },
                ..*old(self)
            }),
    {
        self.scale.x = self.scale.x.add(x);
    }

    pub fn scale_y(&mut self, y: T)
        ensures
            is_sum(old(self).scale.y, y, final(self).scale.y),
            *final(self) == (Transform {
                scale: Vector3D { y: final(self).scale.y, ..old(self).scale },
                ..*old(self)
            }),
    {
        self.scale.y = self.scale.y.add(y);
    }

    pub fn scale_z(&mut self, z: T)
        ensures
            is_sum(old(self).scale.z, z, final(self).scale.z),
            *final(self) == (Transform {
                scale: Vector3D { z: final(self).scale.z, ..old(self).scale },
                ..*old(self)
            }),
    {
        self.scale.z = self.scale.z.add(z);
    }

    /// However a pose is turned, step by step and about whichever axes, its
    /// rotation stays within a single turn once every axis has been turned.
    pub proof fn lemma_turns_stay_wrapped(before: Self, x: T, y: T, z: T, after: Self)
        requires
            Self::is_turned(before.rotation.x, x, after.rotation.x),
            Self::is_turned(before.rotation.y, y, after.rotation.y),
            Self::is_turned(before.rotation.z, z, after.rotation.z),
        ensures
            after.rotation_is_wrapped(),
    {
        Self::lemma_turned_is_wrapped(before.rotation.x, x, after.rotation.x);
        Self::lemma_turned_is_wrapped(before.rotation.y, y, after.rotation.y);
        Self::lemma_turned_is_wrapped(before.rotation.z, z, after.rotation.z);
    }

    /// An angle that was turned lies within a single turn, whatever it was
    /// before and however far it was turned.
    pub proof fn lemma_turned_is_wrapped(before: T, by: T, after: T)
        requires
            Self::is_turned(before, by, after),
        ensures
            is_wrapped(after),
    {
        let sum = choose|sum: T| #[trigger] is_sum(before, by, sum) && is_wrapping_of(sum, after);
        let (zero, full, rest, below) = choose|zero: T, full: T, rest: T, below: bool|
            #![trigger is_remainder(sum, full, rest), is_less(rest, zero, below)]
            is_zero(zero) && is_number(FULL_TURN, full) && is_remainder(sum, full, rest) && is_less(
                rest,
                zero,
                below,
            ) && if below {
                after == zero
            } else {
                exists|inside: bool| #[trigger]
                    is_less(rest, full, inside) && after == if inside {
                        rest
                    } else {
                        zero
                    }
            };
        if !below {
            let inside = choose|inside: bool| #[trigger]
                is_less(rest, full, inside) && after == if inside {
                    rest
                } else {
                    zero
                };
            if inside {
                assert(is_less(after, zero, false) && is_less(after, full, true));
            }
        }
    }
}

} // verus!
