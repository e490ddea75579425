use vstd::prelude::*;

use crate::face::Face;
use crate::interval::{countdown_after, Interval, REST_SHAPE, SHAPE_COUNT};
use crate::length::Length;
use crate::stage::{
    busy_gate, grounds, requested_stage_after, starts_realizing, starts_shaping, IntervalRole,
    Stage,
};

verus! {

/// The constants that a frame's stage evaluation reads.
pub struct StageConstants<L> {
    /// Substeps run in each frame.
    pub iterations_per_frame: u32,
    /// Substeps that the fabric stays busy after entering Realizing.
    pub realizing_countdown: u32,
    /// Substeps over which the push connectors ramp when Shaping starts from Slack.
    pub interval_countdown: u16,
    /// Factor applied to push connectors when Shaping starts from Slack.
    pub shaping_pretenst_factor: L,
}

/// What a frame reports, and whether the caller is to put the lowest joint
/// back at altitude zero.
#[derive(Clone, Copy, Debug, PartialEq, Eq, Structural)]
pub struct FrameReport {
    pub stage: Stage,
    pub ground: bool,
}

/// The abstract state of a fabric.
pub struct FabricState<L> {
    pub age: nat,
    pub stage: Stage,
    pub current_shape: nat,
    pub busy_countdown: nat,
    pub joint_count: nat,
    pub intervals: Seq<Interval<L>>,
    pub faces: Seq<Face>,
}

/// Whether some connector still has a ramp in flight.
pub open spec fn settling<L>(intervals: Seq<Interval<L>>) -> bool {
    exists|k: int| 0 <= k < intervals.len() && intervals[k].countdown > 0
}

/// Whether `after` is `before` set on a ramp of `countdown` substeps from
/// its present rest length to that length scaled by `factor` if it is a push
/// connector, and `before` unchanged if it is a pull connector.
pub open spec fn push_ramped<L: Length>(
    before: Interval<L>,
    after: Interval<L>,
    factor: L,
    countdown: u16,
) -> bool {
    if before.role == IntervalRole::Push {
        &&& after.countdown == countdown
        &&& after.max_countdown == countdown
        &&& after.length_1 == before.spec_rest_length().spec_scaled(factor)
        &&& after.length_0 == if countdown == 0 {
            after.length_1
        } else {
            before.spec_rest_length()
        }
        &&& after.same_fixed_parts(&before)
    } else {
        after == before
    }
}

/// Whether `after` is `before` with every push connector set on a ramp of
/// `countdown` substeps to its rest length scaled by `factor`, and every pull
/// connector left as it was.
pub open spec fn pushes_ramped<L: Length>(
    before: Seq<Interval<L>>,
    after: Seq<Interval<L>>,
    factor: L,
    countdown: u16,
) -> bool {
    &&& after.len() == before.len()
    &&& forall|k: int|
        0 <= k < before.len() ==> push_ramped(before[k], #[trigger] after[k], factor, countdown)
}

impl<L: Length> FabricState<L> {
    /// Whether `after` is this state advanced by one substep.
    pub open spec fn ticked_to(&self, after: FabricState<L>) -> bool {
        &&& after.age == self.age
        &&& after.stage == self.stage
        &&& after.current_shape == self.current_shape
        &&& after.busy_countdown == self.busy_countdown
        &&& after.joint_count == self.joint_count
        &&& after.faces == self.faces
        &&& after.intervals.len() == self.intervals.len()
        &&& forall|k: int|
            0 <= k < self.intervals.len() ==> #[trigger] self.intervals[k].ticked_to(&after.intervals[k])
    }
}

/// Joints, connectors and faces, and the lifecycle stage of the structure they form.
///
/// Joints are counted here and their positions are kept by the caller; the
/// connectors carry their rest-length ramps, which each substep advances.
pub struct Fabric<L> {
    age: u32,
    stage: Stage,
    current_shape: u8,
    busy_countdown: u32,
    joint_count: usize,
    intervals: Vec<Interval<L>>,
    faces: Vec<Face>,
}

impl<L: Length> View for Fabric<L> {
    type V = FabricState<L>;

    closed spec fn view(&self) -> FabricState<L> {
        FabricState {
            age: self.age as nat,
            stage: self.stage,
            current_shape: self.current_shape as nat,
            busy_countdown: self.busy_countdown as nat,
            joint_count: self.joint_count as nat,
            intervals: self.intervals@,
            faces: self.faces@,
        }
    }
}

impl<L: Length> Fabric<L> {
    pub closed spec fn wf(&self) -> bool {
        &&& (self.current_shape as usize) < SHAPE_COUNT
        &&& forall|k: int|
            #![trigger self.intervals@[k]]
            0 <= k < self.intervals@.len() ==> {
                &&& self.intervals@[k].wf()
                &&& self.intervals@[k].alpha_index < self.joint_count
                &&& self.intervals@[k].omega_index < self.joint_count
            }
        &&& forall|k: int|
            #![trigger self.faces@[k]]
            0 <= k < self.faces@.len() ==> self.faces@[k].within(self.joint_count as nat)
    }

    /// An empty fabric in the initial Busy stage, with room for about `joint_count` joints.
    pub fn new(joint_count: usize) -> (r: Self)
        ensures
            r.wf(),
            r@.age == 0,
            r@.stage == Stage::Busy,
            r@.current_shape == REST_SHAPE,
            r@.busy_countdown == 0,
            r@.joint_count == 0,
            r@.intervals.len() == 0,
            r@.faces.len() == 0,
    {
        let interval_capacity: usize = if joint_count <= usize::MAX / 3 {
            joint_count * 3
        } else {
            joint_count
        };
        Fabric {
            age: 0,
            stage: Stage::Busy,
            busy_countdown: 0,
            current_shape: REST_SHAPE,
            joint_count: 0,
            intervals: Vec::with_capacity(interval_capacity),
            faces: Vec::with_capacity(joint_count),
        }
    }

    pub fn get_joint_count(&self) -> (r: u16)
        ensures
            r == self@.joint_count as u16,
    {
        self.joint_count as u16
    }

    pub fn get_interval_count(&self) -> (r: u16)
        ensures
            r == self@.intervals.len() as u16,
    {
        self.intervals.len() as u16
    }

    /// The number of connectors, in full.
    pub fn interval_count(&self) -> (r: usize)
        ensures
            r == self@.intervals.len(),
    {
        self.intervals.len()
    }

    /// What well-formedness gives a caller: the active shape has a slot in
    /// every connector's table, and every connector and face names joints of
    /// this fabric.
    pub proof fn lemma_well_formed(&self)
        requires
            self.wf(),
        ensures
            self@.current_shape < SHAPE_COUNT,
            forall|k: int|
                #![trigger self@.intervals[k]]
                0 <= k < self@.intervals.len() ==> {
                    &&& self@.intervals[k].wf()
                    &&& (self@.intervals[k].alpha_index as nat) < self@.joint_count
                    &&& (self@.intervals[k].omega_index as nat) < self@.joint_count
                },
            forall|k: int|
                0 <= k < self@.faces.len() ==> #[trigger] self@.faces[k].within(self@.joint_count),
    {
    }

    pub fn get_face_count(&self) -> (r: u16)
        ensures
            r == self@.faces.len() as u16,
    {
        self.faces.len() as u16
    }

    /// Substeps run since the fabric was made.
    pub fn age(&self) -> (r: u32)
        ensures
            r == self@.age,
    {
        self.age
    }

    /// The persisted stage.
    pub fn stage(&self) -> (r: Stage)
        ensures
            r == self@.stage,
    {
        self.stage
    }

    /// The fabric's own busy countdown, in substeps.
    pub fn busy_countdown(&self) -> (r: u32)
        ensures
            r == self@.busy_countdown,
    {
        self.busy_countdown
    }

    pub fn interval(&self, index: usize) -> (r: &Interval<L>)
        requires
            index < self@.intervals.len(),
        ensures
            *r == self@.intervals[index as int],
    {
        &self.intervals[index]
    }

    pub fn face(&self, index: usize) -> (r: Face)
        requires
            index < self@.faces.len(),
        ensures
            r == self@.faces[index as int],
    {
        self.faces[index]
    }

    /// Adds a joint and returns its index.
    pub fn create_joint(&mut self) -> (r: usize)
        requires
            old(self).wf(),
            old(self)@.joint_count < usize::MAX,
        ensures
            final(self).wf(),
            r == old(self)@.joint_count,
            final(self)@ == (FabricState { joint_count: old(self)@.joint_count + 1, ..old(self)@ }),
    {
        let index = self.joint_count;
        self.joint_count = self.joint_count + 1;
        index
    }

    /// Adds a connector between joints `alpha_index` and `omega_index` and
    /// returns its index.
    pub fn create_interval(
        &mut self,
        alpha_index: usize,
        omega_index: usize,
        interval_role: IntervalRole,
        rest_length: L,
        stiffness: L,
        linear_density: L,
        countdown: u16,
    ) -> (r: usize)
        requires
            old(self).wf(),
            alpha_index < old(self)@.joint_count,
            omega_index < old(self)@.joint_count,
            stiffness.spec_positive(),
            linear_density.spec_positive(),
        ensures
            final(self).wf(),
            r == old(self)@.intervals.len(),
            final(self)@.intervals.len() == old(self)@.intervals.len() + 1,
            final(self)@.intervals.take(r as int) == old(self)@.intervals,
            final(self)@.intervals[r as int].alpha_index == alpha_index,
            final(self)@.intervals[r as int].omega_index == omega_index,
            final(self)@.intervals[r as int].role == interval_role,
            final(self)@.intervals[r as int].stiffness == stiffness,
            final(self)@.intervals[r as int].linear_density == linear_density,
            final(self)@.intervals[r as int].length_0 == rest_length,
            final(self)@.intervals[r as int].length_1 == rest_length,
            final(self)@.intervals[r as int].countdown == countdown,
            final(self)@.intervals[r as int].max_countdown == countdown,
            final(self)@ == (FabricState { intervals: final(self)@.intervals, ..old(self)@ }),
    {
        let index = self.intervals.len();
        self.intervals.push(
            Interval::new(
                alpha_index,
                omega_index,
                interval_role,
                rest_length,
                stiffness,
                linear_density,
                countdown,
            ),
        );
        proof {
            assert(self.intervals@.take(index as int) =~= old(self).intervals@);
        }
        index
    }

    /// Removes the connector at `index`; those after it move down by one.
    pub fn remove_interval(&mut self, index: usize)
        requires
            old(self).wf(),
            index < old(self)@.intervals.len(),
        ensures
            final(self).wf(),
            final(self)@ == (FabricState {
                intervals: old(self)@.intervals.remove(index as int),
                ..old(self)@
            }),
    {
        self.intervals.remove(index);
    }

    /// Adds a face on three joints and returns its index.
    pub fn create_face(&mut self, joint0: u16, joint1: u16, joint2: u16) -> (r: usize)
        requires
            old(self).wf(),
            (joint0 as nat) < old(self)@.joint_count,
            (joint1 as nat) < old(self)@.joint_count,
            (joint2 as nat) < old(self)@.joint_count,
        ensures
            final(self).wf(),
            r == old(self)@.faces.len(),
            final(self)@ == (FabricState {
                faces: old(self)@.faces.push(Face { joint0, joint1, joint2 }),
                ..old(self)@
            }),
    {
        let index = self.faces.len();
        self.faces.push(Face::new(joint0, joint1, joint2));
        index
    }

    /// Removes the face at `index`; those after it move down by one.
    pub fn remove_face(&mut self, index: usize)
        requires
            old(self).wf(),
            index < old(self)@.faces.len(),
        ensures
            final(self).wf(),
            final(self)@ == (FabricState { faces: old(self)@.faces.remove(index as int), ..old(self)@ }),
    {
        self.faces.remove(index);
    }

    /// The rest length of connector `index` at this point of its ramp.
    pub fn rest_length(&self, index: usize) -> (r: L)
        requires
            self.wf(),
            index < self@.intervals.len(),
        ensures
            r == self@.intervals[index as int].spec_rest_length(),
    {
        self.intervals[index].rest_length()
    }

    /// Takes the lengths `measured` of the connectors, in order, as their
    /// settled rest lengths, records them in the active shape's slot, and
    /// enters Slack.
    pub fn adopt_lengths(&mut self, measured: &Vec<L>) -> (r: Stage)
        requires
            old(self).wf(),
            measured@.len() == old(self)@.intervals.len(),
        ensures
            final(self).wf(),
            r == Stage::Slack,
            final(self)@.stage == Stage::Slack,
            final(self)@.intervals.len() == old(self)@.intervals.len(),
            forall|k: int|
                #![trigger final(self)@.intervals[k]]
                0 <= k < measured@.len() ==> {
                    &&& final(self)@.intervals[k].settled_length() == Some(measured@[k])
                    &&& final(self)@.intervals[k].length_for_shape@ == old(self)@.intervals[k].length_for_shape@.update(
                        old(self)@.current_shape as int,
                        measured@[k],
                    )
                    &&& final(self)@.intervals[k].alpha_index == old(self)@.intervals[k].alpha_index
                    &&& final(self)@.intervals[k].omega_index == old(self)@.intervals[k].omega_index
                    &&& final(self)@.intervals[k].role == old(self)@.intervals[k].role
                    &&& final(self)@.intervals[k].stiffness == old(self)@.intervals[k].stiffness
                    &&& final(self)@.intervals[k].linear_density == old(self)@.intervals[k].linear_density
                    &&& final(self)@.intervals[k].strain == old(self)@.intervals[k].strain
                },
            final(self)@.age == old(self)@.age,
            final(self)@.current_shape == old(self)@.current_shape,
            final(self)@.busy_countdown == old(self)@.busy_countdown,
            final(self)@.joint_count == old(self)@.joint_count,
            final(self)@.faces == old(self)@.faces,
    {
        let n = self.intervals.len();
        let mut i: usize = 0;
        while i < n
            invariant
                i <= n,
                n == old(self)@.intervals.len(),
                n == measured@.len(),
                self.intervals@.len() == n,
                self.age == old(self).age,
                self.stage == old(self).stage,
                self.current_shape == old(self).current_shape,
                self.busy_countdown == old(self).busy_countdown,
                self.joint_count == old(self).joint_count,
                self.faces@ == old(self)@.faces,
                self.wf(),
                forall|k: int|
                    #![trigger self.intervals@[k]]
                    0 <= k < i ==> {
                        &&& self.intervals@[k].settled_length() == Some(measured@[k])
                        &&& self.intervals@[k].length_for_shape@ == old(self)@.intervals[k].length_for_shape@.update(
                            old(self)@.current_shape as int,
                            measured@[k],
                        )
                        &&& self.intervals@[k].alpha_index == old(self)@.intervals[k].alpha_index
                        &&& self.intervals@[k].omega_index == old(self)@.intervals[k].omega_index
                        &&& self.intervals@[k].role == old(self)@.intervals[k].role
                        &&& self.intervals@[k].stiffness == old(self)@.intervals[k].stiffness
                        &&& self.intervals@[k].linear_density == old(self)@.intervals[k].linear_density
                        &&& self.intervals@[k].strain == old(self)@.intervals[k].strain
                    },
                forall|k: int| i <= k < n ==> #[trigger] self.intervals@[k] == old(self)@.intervals[k],
            decreases n - i,
        {
            self.intervals[i].adopt_length(measured[i], self.current_shape);
            i = i + 1;
        }
        self.set_stage(Stage::Slack)
    }

    /// Ends growth: the persisted stage becomes Shaping.
    pub fn finish_growing(&mut self) -> (r: Stage)
        requires
            old(self).wf(),
        ensures
            final(self).wf(),
            r == Stage::Shaping,
            final(self)@ == (FabricState { stage: Stage::Shaping, ..old(self)@ }),
    {
        self.set_stage(Stage::Shaping)
    }

    fn set_stage(&mut self, stage: Stage) -> (r: Stage)
        requires
            old(self).wf(),
        ensures
            final(self).wf(),
            r == stage,
            final(self)@ == (FabricState { stage, ..old(self)@ }),
    {
        self.stage = stage;
        stage
    }

    /// Whether `after` is this fabric with only connector `index` changed.
    pub open spec fn only_interval_changed(&self, after: FabricState<L>, index: int) -> bool {
        &&& after.intervals.len() == self@.intervals.len()
        &&& after == (FabricState { intervals: after.intervals, ..self@ })
        &&& forall|k: int|
            0 <= k < self@.intervals.len() && k != index ==> #[trigger] after.intervals[k]
                == self@.intervals[k]
    }

    /// Ramps connector `index` from its present rest length to `rest_length`
    /// over `countdown` substeps; with a countdown of 0 the change is immediate.
    pub fn change_rest_length(&mut self, index: usize, rest_length: L, countdown: u16)
        requires
            old(self).wf(),
            index < old(self)@.intervals.len(),
        ensures
            final(self).wf(),
            old(self).only_interval_changed(final(self)@, index as int),
            final(self)@.intervals[index as int].length_1 == rest_length,
            final(self)@.intervals[index as int].countdown == countdown,
            final(self)@.intervals[index as int].max_countdown == countdown,
            final(self)@.intervals[index as int].length_0 == if countdown == 0 {
                rest_length
            } else {
                old(self)@.intervals[index as int].spec_rest_length()
            },
            final(self)@.intervals[index as int].same_fixed_parts(&old(self)@.intervals[index as int]),
    {
        self.intervals[index].change_rest_length(rest_length, countdown);
    }

    /// Ramps connector `index` from its present rest length to that length
    /// scaled by `factor`, over `countdown` substeps.
    pub fn multiply_rest_length(&mut self, index: usize, factor: L, countdown: u16)
        requires
            old(self).wf(),
            index < old(self)@.intervals.len(),
        ensures
            final(self).wf(),
            old(self).only_interval_changed(final(self)@, index as int),
            final(self)@.intervals[index as int].countdown == countdown,
            final(self)@.intervals[index as int].max_countdown == countdown,
            final(self)@.intervals[index as int].length_1 == old(
                self,
            )@.intervals[index as int].spec_rest_length().spec_scaled(factor),
            final(self)@.intervals[index as int].length_0 == if countdown == 0 {
                final(self)@.intervals[index as int].length_1
            } else {
                old(self)@.intervals[index as int].spec_rest_length()
            },
            final(self)@.intervals[index as int].same_fixed_parts(&old(self)@.intervals[index as int]),
    {
        self.intervals[index].multiply_rest_length(factor, countdown);
    }

    /// Makes connector `index` a push or a pull connector; nothing else changes.
    pub fn set_interval_role(&mut self, index: usize, interval_role: IntervalRole)
        requires
            old(self).wf(),
            index < old(self)@.intervals.len(),
        ensures
            final(self).wf(),
            old(self).only_interval_changed(final(self)@, index as int),
            final(self)@.intervals[index as int].role == interval_role,
            final(self)@.intervals[index as int].length_0 == old(self)@.intervals[index as int].length_0,
            final(self)@.intervals[index as int].length_1 == old(self)@.intervals[index as int].length_1,
            final(self)@.intervals[index as int].countdown == old(self)@.intervals[index as int].countdown,
            final(self)@.intervals[index as int].max_countdown == old(self)@.intervals[index as int].max_countdown,
            final(self)@.intervals[index as int].alpha_index == old(self)@.intervals[index as int].alpha_index,
            final(self)@.intervals[index as int].omega_index == old(self)@.intervals[index as int].omega_index,
            final(self)@.intervals[index as int].length_for_shape@ == old(self)@.intervals[index as int].length_for_shape@,
            final(self)@.intervals[index as int].stiffness == old(self)@.intervals[index as int].stiffness,
            final(self)@.intervals[index as int].linear_density == old(self)@.intervals[index as int].linear_density,
            final(self)@.intervals[index as int].strain == old(self)@.intervals[index as int].strain,
    {
        self.intervals[index].role = interval_role;
    }

    /// Records the strain last measured on connector `index`.
    pub fn record_strain(&mut self, index: usize, strain: L)
        requires
            old(self).wf(),
            index < old(self)@.intervals.len(),
        ensures
            final(self).wf(),
            old(self).only_interval_changed(final(self)@, index as int),
            final(self)@.intervals[index as int].strain == strain,
            final(self)@.intervals[index as int].length_0 == old(self)@.intervals[index as int].length_0,
            final(self)@.intervals[index as int].length_1 == old(self)@.intervals[index as int].length_1,
            final(self)@.intervals[index as int].countdown == old(self)@.intervals[index as int].countdown,
            final(self)@.intervals[index as int].max_countdown == old(self)@.intervals[index as int].max_countdown,
            final(self)@.intervals[index as int].role == old(self)@.intervals[index as int].role,
            final(self)@.intervals[index as int].alpha_index == old(self)@.intervals[index as int].alpha_index,
            final(self)@.intervals[index as int].omega_index == old(self)@.intervals[index as int].omega_index,
            final(self)@.intervals[index as int].stiffness == old(self)@.intervals[index as int].stiffness,
            final(self)@.intervals[index as int].linear_density == old(self)@.intervals[index as int].linear_density,
            final(self)@.intervals[index as int].length_for_shape@ == old(self)@.intervals[index as int].length_for_shape@,
    {
        self.intervals[index].strain = strain;
    }

    /// Advances every connector's rest-length ramp by one substep.
    pub fn tick(&mut self)
        requires
            old(self).wf(),
        ensures
            final(self).wf(),
            old(self)@.ticked_to(final(self)@),
    {
        let n = self.intervals.len();
        let mut i: usize = 0;
        while i < n
            invariant
                i <= n,
                n == old(self)@.intervals.len(),
                self.intervals@.len() == n,
                self.age == old(self).age,
                self.stage == old(self).stage,
                self.current_shape == old(self).current_shape,
                self.busy_countdown == old(self).busy_countdown,
                self.joint_count == old(self).joint_count,
                self.faces@ == old(self)@.faces,
                old(self).wf(),
                self.wf(),
                forall|k: int|
                    0 <= k < i ==> #[trigger] old(self)@.intervals[k].ticked_to(&self.intervals@[k]),
                forall|k: int| i <= k < n ==> #[trigger] self.intervals@[k] == old(self)@.intervals[k],
            decreases n - i,
        {
            self.intervals[i].tick();
            i = i + 1;
        }
    }

    /// Whether some connector still has a ramp in flight.
    fn any_settling(&self) -> (r: bool)
        ensures
            r == settling(self@.intervals),
    {
        let mut i: usize = 0;
        while i < self.intervals.len()
            invariant
                i <= self.intervals@.len(),
                forall|k: int| 0 <= k < i ==> #[trigger] self.intervals@[k].countdown == 0,
            decreases self.intervals@.len() - i,
        {
            if self.intervals[i].countdown > 0 {
                return true;
            }
            i = i + 1;
        }
        proof {
            assert(self@.intervals == self.intervals@);
        }
        false
    }

    /// Sets every push connector on a ramp to its rest length times the
    /// pretension factor, and enters Shaping.
    fn slack_to_shaping(&mut self, constants: &StageConstants<L>)
        requires
            old(self).wf(),
        ensures
            final(self).wf(),
            pushes_ramped(
                old(self)@.intervals,
                final(self)@.intervals,
                constants.shaping_pretenst_factor,
                constants.interval_countdown,
            ),
            final(self)@.stage == Stage::Shaping,
            final(self)@.age == old(self)@.age,
            final(self)@.current_shape == old(self)@.current_shape,
            final(self)@.busy_countdown == old(self)@.busy_countdown,
            final(self)@.joint_count == old(self)@.joint_count,
            final(self)@.faces == old(self)@.faces,
    {
        let countdown = constants.interval_countdown;
        let n = self.intervals.len();
        let mut i: usize = 0;
        while i < n
            invariant
                i <= n,
                n == old(self)@.intervals.len(),
                self.intervals@.len() == n,
                self.age == old(self).age,
                self.stage == old(self).stage,
                self.current_shape == old(self).current_shape,
                self.busy_countdown == old(self).busy_countdown,
                self.joint_count == old(self).joint_count,
                self.faces@ == old(self)@.faces,
                self.wf(),
                forall|k: int|
                    0 <= k < i ==> push_ramped(
                        old(self)@.intervals[k],
                        #[trigger] self.intervals@[k],
                        constants.shaping_pretenst_factor,
                        countdown,
                    ),
                forall|k: int| i <= k < n ==> #[trigger] self.intervals@[k] == old(self)@.intervals[k],
            decreases n - i,
        {
            if self.intervals[i].is_push() {
                self.intervals[i].multiply_rest_length(constants.shaping_pretenst_factor, countdown);
            }
            i = i + 1;
        }
        self.stage = Stage::Shaping;
    }

    /// Evaluates the lifecycle stage once a frame's substeps have run.
    ///
    /// The requests come first: Busy enters Growing on request; Shaping enters
    /// Realizing or Slack on request; Slack enters Realizing or Shaping on
    /// request. Entering Realizing restarts the fabric's busy countdown, and
    /// going from Slack to Shaping ramps every push connector by the
    /// pretension factor. Then the busy gate decides what is reported.
    pub fn finish_frame(&mut self, requested_stage: Stage, constants: &StageConstants<L>) -> (r:
        FrameReport)
        requires
            old(self).wf(),
        ensures
            final(self).wf(),
            final(self)@.age == if old(self)@.age + constants.iterations_per_frame > u32::MAX {
                u32::MAX as nat
            } else {
                (old(self)@.age + constants.iterations_per_frame) as nat
            },
            final(self)@.current_shape == old(self)@.current_shape,
            final(self)@.joint_count == old(self)@.joint_count,
            final(self)@.faces == old(self)@.faces,
            starts_shaping(old(self)@.stage, requested_stage) ==> pushes_ramped(
                old(self)@.intervals,
                final(self)@.intervals,
                constants.shaping_pretenst_factor,
                constants.interval_countdown,
            ),
            !starts_shaping(old(self)@.stage, requested_stage) ==> final(self)@.intervals == old(self)@.intervals,
            r.ground == grounds(old(self)@.stage, requested_stage),
            (final(self)@.stage, final(self)@.busy_countdown, r.stage) == busy_gate(
                requested_stage_after(old(self)@.stage, requested_stage),
                if starts_realizing(old(self)@.stage, requested_stage) {
                    constants.realizing_countdown as nat
                } else {
                    old(self)@.busy_countdown
                },
                settling(final(self)@.intervals),
                constants.iterations_per_frame as nat,
            ),
    {
        let substeps = constants.iterations_per_frame;
        self.age = self.age.saturating_add(substeps);
        let mut ground = false;
        if self.stage == Stage::Busy && requested_stage == Stage::Growing {
            self.stage = Stage::Growing;
        }
        if self.stage == Stage::Growing {
            ground = true;
        }
        if self.stage == Stage::Shaping {
            ground = true;
            if requested_stage == Stage::Realizing {
                self.start_realizing(constants);
            } else if requested_stage == Stage::Slack {
                self.stage = Stage::Slack;
            }
        }
        if self.stage == Stage::Slack {
            if requested_stage == Stage::Realizing {
                self.start_realizing(constants);
            } else if requested_stage == Stage::Shaping {
                self.slack_to_shaping(constants);
            }
        }
        let busy = self.any_settling();
        let reported = self.apply_busy_gate(busy, substeps);
        FrameReport { stage: reported, ground }
    }

    fn start_realizing(&mut self, constants: &StageConstants<L>)
        requires
            old(self).wf(),
        ensures
            final(self).wf(),
            final(self)@.stage == Stage::Realizing,
            final(self)@.busy_countdown == constants.realizing_countdown,
            final(self)@.age == old(self)@.age,
            final(self)@.current_shape == old(self)@.current_shape,
            final(self)@.joint_count == old(self)@.joint_count,
            final(self)@.intervals == old(self)@.intervals,
            final(self)@.faces == old(self)@.faces,
    {
        self.busy_countdown = constants.realizing_countdown;
        self.stage = Stage::Realizing;
    }

    /// Reports Busy while a connector ramps or the fabric's busy countdown
    /// runs, and the persisted stage otherwise; the countdown runs down by
    /// `substeps`, and as it reaches zero Realizing becomes Realized.
    fn apply_busy_gate(&mut self, settling: bool, substeps: u32) -> (r: Stage)
        requires
            old(self).wf(),
        ensures
            final(self).wf(),
            (final(self)@.stage, final(self)@.busy_countdown, r) == busy_gate(
                old(self)@.stage,
                old(self)@.busy_countdown,
                settling,
                substeps as nat,
            ),
            final(self)@.age == old(self)@.age,
            final(self)@.current_shape == old(self)@.current_shape,
            final(self)@.joint_count == old(self)@.joint_count,
            final(self)@.intervals == old(self)@.intervals,
            final(self)@.faces == old(self)@.faces,
    {
        if settling {
            return Stage::Busy;
        }
        if self.busy_countdown > 0 {
            let next: u32 = if self.busy_countdown > substeps {
                self.busy_countdown - substeps
            } else {
                0
            };
            self.busy_countdown = next;
            if next == 0 {
                if self.stage == Stage::Realizing {
                    self.stage = Stage::Realized;
                }
                return self.stage;
            }
            return Stage::Busy;
        }
        self.stage
    }
}

/// Number of substeps among a run of steps, each a substep or not.
pub open spec fn substep_count(substeps: Seq<bool>) -> nat
    decreases substeps.len(),
{
    if substeps.len() == 0 {
        0
    } else {
        substep_count(substeps.drop_last()) + if substeps.last() {
            1nat
        } else {
            0nat
        }
    }
}

/// Whether `after` follows `before` by one `tick` where `substep` holds, and
/// otherwise by a step that leaves every connector as it was (a
/// `finish_frame` that does not go from Slack to Shaping).
pub open spec fn stepped_to<L: Length>(
    before: FabricState<L>,
    after: FabricState<L>,
    substep: bool,
) -> bool {
    if substep {
        before.ticked_to(after)
    } else {
        after.intervals == before.intervals
    }
}

/// Connector `index` has had the substeps among the first `n` steps since
/// `states[0]`, with its ramp target kept.
proof fn lemma_ramp_progress<L: Length>(
    states: Seq<FabricState<L>>,
    substeps: Seq<bool>,
    index: int,
    n: int,
)
    requires
        0 <= n < states.len(),
        substeps.len() == states.len() - 1,
        0 <= index < states[0].intervals.len(),
        forall|k: int|
            0 <= k < states.len() - 1 ==> #[trigger] stepped_to(states[k], states[k + 1], substeps[k]),
    ensures
        index < states[n].intervals.len(),
        states[n].intervals[index].length_1 == states[0].intervals[index].length_1,
        states[n].intervals[index].countdown == countdown_after(
            states[0].intervals[index].countdown as nat,
            substep_count(substeps.take(n)),
        ),
    decreases n,
{
    if n > 0 {
        lemma_ramp_progress(states, substeps, index, n - 1);
        assert(stepped_to(states[n - 1], states[(n - 1) + 1], substeps[n - 1]));
        assert(substeps.take(n).drop_last() =~= substeps.take(n - 1));
        if substeps[n - 1] {
            assert(states[n - 1].intervals[index].ticked_to(&states[n].intervals[index]));
        }
    } else {
        assert(substeps.take(0) =~= Seq::<bool>::empty());
    }
}

/// A connector whose ramp has `countdown` substeps to go toward `rest_length`
/// is settled at exactly `rest_length` once `countdown` or more substeps have
/// run, whatever frame evaluations that leave the connectors alone come
/// between them. So `change_rest_length(i, rest_length, c)` followed by `c`
/// frames of at least one substep each ends with connector `i` settled at
/// `rest_length`.
pub proof fn lemma_ramp_completes<L: Length>(
    states: Seq<FabricState<L>>,
    substeps: Seq<bool>,
    index: int,
    rest_length: L,
)
    requires
        states.len() > 0,
        substeps.len() == states.len() - 1,
        0 <= index < states[0].intervals.len(),
        states[0].intervals[index].length_1 == rest_length,
        substep_count(substeps) >= states[0].intervals[index].countdown,
        forall|k: int|
            0 <= k < states.len() - 1 ==> #[trigger] stepped_to(states[k], states[k + 1], substeps[k]),
    ensures
        index < states.last().intervals.len(),
        states.last().intervals[index].countdown == 0,
        states.last().intervals[index].settled_length() == Some(rest_length),
{
    lemma_ramp_progress(states, substeps, index, states.len() - 1);
    assert(substeps.take(states.len() - 1) =~= substeps);
}

} // verus!
