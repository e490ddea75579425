use vstd::prelude::*;

use crate::length::Length;
use crate::stage::IntervalRole;

verus! {

/// Number of slots in each connector's table of per-shape rest lengths.
pub const SHAPE_COUNT: usize = 3;

/// The shape whose slot holds the plain rest lengths.
pub const REST_SHAPE: u8 = 0;

/// Countdown left after `n` substeps of a ramp that had `c` to go.
pub open spec fn countdown_after(c: nat, n: nat) -> nat {
    if n >= c { 0 } else { (c - n) as nat }
}

/// A connector between two joints.
///
/// Its rest length is a linear ramp from `length_0` to `length_1` over
/// `max_countdown` substeps, of which `countdown` remain; with no substeps
/// remaining the rest length is `length_1` exactly.
pub struct Interval<L> {
    pub alpha_index: usize,
    pub omega_index: usize,
    pub role: IntervalRole,
    pub stiffness: L,
    pub linear_density: L,
    pub strain: L,
    pub length_0: L,
    pub length_1: L,
    pub countdown: u16,
    pub max_countdown: u16,
    pub length_for_shape: Vec<L>,
}

impl<L: Length> Interval<L> {
    pub open spec fn wf(&self) -> bool {
        &&& self.length_for_shape@.len() == SHAPE_COUNT
        &&& self.countdown <= self.max_countdown
    }

    /// The rest length, where no ramp is in flight.
    pub open spec fn settled_length(&self) -> Option<L> {
        if self.countdown == 0 { Some(self.length_1) } else { None }
    }

    /// The rest length at this point of the ramp.
    pub open spec fn spec_rest_length(&self) -> L {
        if self.countdown == 0 {
            self.length_1
        } else if self.countdown == self.max_countdown {
            self.length_0
        } else {
            L::spec_interpolate(
                self.length_0,
                self.length_1,
                (self.max_countdown - self.countdown) as u16,
                self.max_countdown,
            )
        }
    }

    /// Whether `after` is this connector advanced by one substep.
    pub open spec fn ticked_to(&self, after: &Interval<L>) -> bool {
        &&& after.countdown == countdown_after(self.countdown as nat, 1)
        &&& after.max_countdown == self.max_countdown
        &&& after.length_0 == self.length_0
        &&& after.length_1 == self.length_1
        &&& after.same_fixed_parts(self)
    }

    /// Everything but the ramp is the same in both.
    pub open spec fn same_fixed_parts(&self, other: &Interval<L>) -> bool {
        &&& self.alpha_index == other.alpha_index
        &&& self.omega_index == other.omega_index
        &&& self.role == other.role
        &&& self.stiffness == other.stiffness
        &&& self.linear_density == other.linear_density
        &&& self.strain == other.strain
        &&& self.length_for_shape@ == other.length_for_shape@
    }

    /// A connector whose rest length is `rest_length`, holding for `countdown`
    /// substeps before it counts as settled.
    pub fn new(
        alpha_index: usize,
        omega_index: usize,
        role: IntervalRole,
        rest_length: L,
        stiffness: L,
        linear_density: L,
        countdown: u16,
    ) -> (r: Self)
        ensures
            r.wf(),
            r.alpha_index == alpha_index,
            r.omega_index == omega_index,
            r.role == role,
            r.stiffness == stiffness,
            r.linear_density == linear_density,
            r.length_0 == rest_length,
            r.length_1 == rest_length,
            r.countdown == countdown,
            r.max_countdown == countdown,
            forall|s: int| 0 <= s < SHAPE_COUNT ==> r.length_for_shape@[s] == rest_length,
    {
        let mut length_for_shape: Vec<L> = Vec::new();
        let mut s: usize = 0;
        while s < SHAPE_COUNT
            invariant
                s <= SHAPE_COUNT,
                length_for_shape@.len() == s,
                forall|k: int| 0 <= k < s ==> length_for_shape@[k] == rest_length,
            decreases SHAPE_COUNT - s,
        {
            length_for_shape.push(rest_length);
            s = s + 1;
        }
        Interval {
            alpha_index,
            omega_index,
            role,
            stiffness,
            linear_density,
            strain: L::zero(),
            length_0: rest_length,
            length_1: rest_length,
            countdown,
            max_countdown: countdown,
            length_for_shape,
        }
    }

    pub fn is_push(&self) -> (r: bool)
        ensures
            r == (self.role == IntervalRole::Push),
    {
        self.role.is_push()
    }

    /// The rest length at this point of the ramp.
    pub fn rest_length(&self) -> (r: L)
        requires
            self.wf(),
        ensures
            r == self.spec_rest_length(),
    {
        if self.countdown == 0 {
            self.length_1
        } else if self.countdown == self.max_countdown {
            self.length_0
        } else {
            let elapsed: u16 = self.max_countdown - self.countdown;
            L::interpolate(self.length_0, self.length_1, elapsed, self.max_countdown)
        }
    }

    /// Ramps the rest length from its present value to `rest_length` over
    /// `countdown` substeps; with a countdown of 0 the change is immediate.
    pub fn change_rest_length(&mut self, rest_length: L, countdown: u16)
        requires
            old(self).wf(),
        ensures
            final(self).wf(),
            final(self).length_1 == rest_length,
            final(self).countdown == countdown,
            final(self).max_countdown == countdown,
            final(self).length_0 == if countdown == 0 {
                rest_length
            } else {
                old(self).spec_rest_length()
            },
            final(self).same_fixed_parts(old(self)),
    {
        let now = self.rest_length();
        self.length_0 = if countdown == 0 { rest_length } else { now };
        self.length_1 = rest_length;
        self.countdown = countdown;
        self.max_countdown = countdown;
    }

    /// Ramps the rest length to its present value scaled by `factor`.
    pub fn multiply_rest_length(&mut self, factor: L, countdown: u16)
        requires
            old(self).wf(),
        ensures
            final(self).wf(),
            final(self).countdown == countdown,
            final(self).max_countdown == countdown,
            final(self).length_1 == old(self).spec_rest_length().spec_scaled(factor),
            final(self).length_0 == if countdown == 0 {
                final(self).length_1
            } else {
                old(self).spec_rest_length()
            },
            final(self).same_fixed_parts(old(self)),
    {
        let target = self.rest_length().scaled(factor);
        self.change_rest_length(target, countdown);
    }

    /// Advances the ramp by one substep.
    pub fn tick(&mut self)
        requires
            old(self).wf(),
        ensures
            final(self).wf(),
            old(self).ticked_to(final(self)),
    {
        if self.countdown > 0 {
            self.countdown = self.countdown - 1;
        }
    }

    /// Takes `measured` as the settled rest length and records it in slot `shape`.
    pub fn adopt_length(&mut self, measured: L, shape: u8)
        requires
            old(self).wf(),
            (shape as usize) < SHAPE_COUNT,
        ensures
            final(self).wf(),
            final(self).settled_length() == Some(measured),
            final(self).length_0 == measured,
            final(self).max_countdown == 0,
            final(self).length_for_shape@ == old(self).length_for_shape@.update(shape as int, measured),
            final(self).alpha_index == old(self).alpha_index,
            final(self).omega_index == old(self).omega_index,
            final(self).role == old(self).role,
            final(self).stiffness == old(self).stiffness,
            final(self).linear_density == old(self).linear_density,
            final(self).strain == old(self).strain,
    {
        self.length_0 = measured;
        self.length_1 = measured;
        self.countdown = 0;
        self.max_countdown = 0;
        self.length_for_shape.set(shape as usize, measured);
    }
}

} // verus!
