use eig::fabric::{Fabric, FrameReport, StageConstants};
use eig::face::Face;
use eig::interval::{Interval, REST_SHAPE, SHAPE_COUNT};
use eig::length::Length;
use eig::stage::{IntervalRole, Stage};

#[derive(Clone, Copy, Debug, PartialEq)]
struct Len(f32);

impl Length for Len {
    fn zero() -> Self {
        Len(0.0)
    }

    fn interpolate(from: Self, to: Self, elapsed: u16, total: u16) -> Self {
        let progress = elapsed as f32 / total as f32;
        Len(from.0 * (1.0 - progress) + to.0 * progress)
    }

    fn scaled(self, factor: Self) -> Self {
        Len(self.0 * factor.0)
    }

    fn is_positive(&self) -> bool {
        self.0 > 0.0
    }

    fn spec_interpolate(from: Self, to: Self, elapsed: u16, total: u16) -> Self {
        Self::interpolate(from, to, elapsed, total)
    }

    fn spec_scaled(self, factor: Self) -> Self {
        self.scaled(factor)
    }

    fn spec_positive(self) -> bool {
        self.is_positive()
    }
}

fn constants(iterations: u32, realizing: u32) -> StageConstants<Len> {
    StageConstants {
        iterations_per_frame: iterations,
        realizing_countdown: realizing,
        interval_countdown: 4,
        shaping_pretenst_factor: Len(0.5),
    }
}

/// A fabric of two joints and one connector of each role between them.
fn pair() -> Fabric<Len> {
    let mut fabric = Fabric::new(2);
    fabric.create_joint();
    fabric.create_joint();
    fabric.create_interval(0, 1, IntervalRole::Push, Len(2.0), Len(1.0), Len(1.0), 0);
    fabric.create_interval(0, 1, IntervalRole::Pull, Len(1.0), Len(1.0), Len(1.0), 0);
    fabric
}

/// Runs one frame: `iterations` substeps, then the stage evaluation.
fn frame(fabric: &mut Fabric<Len>, requested: Stage, constants: &StageConstants<Len>) -> FrameReport {
    for _ in 0..constants.iterations_per_frame {
        fabric.tick();
    }
    fabric.finish_frame(requested, constants)
}

fn slack_pair() -> Fabric<Len> {
    let mut fabric = pair();
    fabric.adopt_lengths(&vec![Len(2.0), Len(1.0)]);
    fabric
}

#[test]
fn new_fabric_is_empty_and_busy() {
    let fabric: Fabric<Len> = Fabric::new(10);
    assert_eq!(fabric.get_joint_count(), 0);
    assert_eq!(fabric.get_interval_count(), 0);
    assert_eq!(fabric.get_face_count(), 0);
    assert_eq!(fabric.age(), 0);
    assert_eq!(fabric.stage(), Stage::Busy);
    assert_eq!(fabric.busy_countdown(), 0);
}

#[test]
fn creation_returns_consecutive_indices() {
    let mut fabric: Fabric<Len> = Fabric::new(3);
    assert_eq!(fabric.create_joint(), 0);
    assert_eq!(fabric.create_joint(), 1);
    assert_eq!(fabric.create_joint(), 2);
    assert_eq!(fabric.create_interval(0, 1, IntervalRole::Push, Len(1.0), Len(2.0), Len(3.0), 0), 0);
    assert_eq!(fabric.create_interval(1, 2, IntervalRole::Pull, Len(1.5), Len(2.0), Len(3.0), 5), 1);
    assert_eq!(fabric.create_face(0, 1, 2), 0);
    assert_eq!(fabric.get_joint_count(), 3);
    assert_eq!(fabric.get_interval_count(), 2);
    assert_eq!(fabric.get_face_count(), 1);
    let second: &Interval<Len> = fabric.interval(1);
    assert_eq!(second.alpha_index, 1);
    assert_eq!(second.omega_index, 2);
    assert_eq!(second.role, IntervalRole::Pull);
    assert_eq!(second.stiffness, Len(2.0));
    assert_eq!(second.linear_density, Len(3.0));
    assert_eq!(second.countdown, 5);
    assert_eq!(second.length_for_shape.len(), SHAPE_COUNT);
    assert_eq!(fabric.face(0), Face { joint0: 0, joint1: 1, joint2: 2 });
}

#[test]
fn removal_moves_later_items_down() {
    let mut fabric: Fabric<Len> = Fabric::new(3);
    fabric.create_joint();
    fabric.create_joint();
    fabric.create_joint();
    fabric.create_interval(0, 1, IntervalRole::Push, Len(1.0), Len(1.0), Len(1.0), 0);
    fabric.create_interval(1, 2, IntervalRole::Pull, Len(2.0), Len(1.0), Len(1.0), 0);
    fabric.create_face(0, 1, 2);
    fabric.create_face(2, 1, 0);
    fabric.remove_interval(0);
    fabric.remove_face(0);
    assert_eq!(fabric.get_interval_count(), 1);
    assert_eq!(fabric.interval(0).alpha_index, 1);
    assert_eq!(fabric.rest_length(0), Len(2.0));
    assert_eq!(fabric.get_face_count(), 1);
    assert_eq!(fabric.face(0), Face::new(2, 1, 0));
}

#[test]
fn busy_enters_growing_on_request_and_grounds() {
    let mut fabric = pair();
    let c = constants(5, 10);
    let report = frame(&mut fabric, Stage::Shaping, &c);
    assert_eq!(report, FrameReport { stage: Stage::Busy, ground: false });
    assert_eq!(fabric.stage(), Stage::Busy);
    let report = frame(&mut fabric, Stage::Growing, &c);
    assert_eq!(report, FrameReport { stage: Stage::Growing, ground: true });
    assert_eq!(fabric.stage(), Stage::Growing);
    assert_eq!(fabric.age(), 10);
}

#[test]
fn growing_grounds_every_frame() {
    let mut fabric = pair();
    let c = constants(5, 10);
    frame(&mut fabric, Stage::Growing, &c);
    for requested in [Stage::Growing, Stage::Realizing, Stage::Slack, Stage::Shaping] {
        let report = frame(&mut fabric, requested, &c);
        assert!(report.ground);
        assert_eq!(report.stage, Stage::Growing);
    }
}

#[test]
fn finish_growing_enters_shaping() {
    let mut fabric = pair();
    let c = constants(5, 10);
    frame(&mut fabric, Stage::Growing, &c);
    assert_eq!(fabric.finish_growing(), Stage::Shaping);
    let report = frame(&mut fabric, Stage::Shaping, &c);
    assert_eq!(report, FrameReport { stage: Stage::Shaping, ground: true });
}

#[test]
fn shaping_enters_slack_on_request() {
    let mut fabric = pair();
    fabric.finish_growing();
    let report = frame(&mut fabric, Stage::Slack, &constants(5, 10));
    assert_eq!(report, FrameReport { stage: Stage::Slack, ground: true });
    assert_eq!(fabric.stage(), Stage::Slack);
}

#[test]
fn slack_to_realizing_reports_busy_until_realized() {
    let mut fabric = slack_pair();
    let c = constants(3, 10);
    let first = frame(&mut fabric, Stage::Realizing, &c);
    assert_eq!(first.stage, Stage::Busy);
    assert_eq!(fabric.stage(), Stage::Realizing);
    assert_eq!(fabric.busy_countdown(), 7);
    assert_eq!(frame(&mut fabric, Stage::Realizing, &c).stage, Stage::Busy);
    assert_eq!(fabric.busy_countdown(), 4);
    assert_eq!(frame(&mut fabric, Stage::Slack, &c).stage, Stage::Busy);
    assert_eq!(fabric.busy_countdown(), 1);
    assert_eq!(fabric.stage(), Stage::Realizing);
    let last = frame(&mut fabric, Stage::Realizing, &c);
    assert_eq!(last.stage, Stage::Realized);
    assert_eq!(fabric.stage(), Stage::Realized);
    assert_eq!(fabric.busy_countdown(), 0);
    assert_eq!(frame(&mut fabric, Stage::Shaping, &c).stage, Stage::Realized);
}

#[test]
fn realizing_countdown_reaching_zero_exactly() {
    let mut fabric = slack_pair();
    let c = constants(5, 10);
    assert_eq!(frame(&mut fabric, Stage::Realizing, &c).stage, Stage::Busy);
    assert_eq!(fabric.busy_countdown(), 5);
    assert_eq!(frame(&mut fabric, Stage::Realizing, &c).stage, Stage::Realized);
}

#[test]
fn ramping_connector_reports_busy() {
    let mut fabric = slack_pair();
    fabric.change_rest_length(1, Len(3.0), 7);
    let c = constants(5, 10);
    let report = frame(&mut fabric, Stage::Slack, &c);
    assert_eq!(report.stage, Stage::Busy);
    assert_eq!(fabric.stage(), Stage::Slack);
    assert_eq!(fabric.interval(1).countdown, 2);
    let report = frame(&mut fabric, Stage::Slack, &c);
    assert_eq!(report.stage, Stage::Slack);
}

#[test]
fn slack_to_shaping_ramps_push_connectors() {
    let mut fabric = slack_pair();
    let c = constants(1, 10);
    let report = fabric.finish_frame(Stage::Shaping, &c);
    assert_eq!(report, FrameReport { stage: Stage::Busy, ground: false });
    assert_eq!(fabric.stage(), Stage::Shaping);
    let push = fabric.interval(0);
    assert_eq!(push.countdown, 4);
    assert_eq!(push.length_0, Len(2.0));
    assert_eq!(push.length_1, Len(1.0));
    let pull = fabric.interval(1);
    assert_eq!(pull.countdown, 0);
    assert_eq!(pull.length_1, Len(1.0));
    for _ in 0..4 {
        fabric.tick();
    }
    assert_eq!(fabric.rest_length(0), Len(1.0));
}

#[test]
fn adopt_lengths_settles_measured_lengths() {
    let mut fabric = pair();
    fabric.change_rest_length(0, Len(9.0), 20);
    assert_eq!(fabric.adopt_lengths(&vec![Len(2.5), Len(0.75)]), Stage::Slack);
    assert_eq!(fabric.stage(), Stage::Slack);
    assert_eq!(fabric.rest_length(0), Len(2.5));
    assert_eq!(fabric.rest_length(1), Len(0.75));
    assert_eq!(fabric.interval(0).countdown, 0);
    assert_eq!(fabric.interval(0).length_for_shape[REST_SHAPE as usize], Len(2.5));
    assert_eq!(fabric.interval(1).length_for_shape[REST_SHAPE as usize], Len(0.75));
}

#[test]
fn change_rest_length_converges_after_countdown_substeps() {
    let mut fabric = slack_pair();
    fabric.change_rest_length(1, Len(3.0), 4);
    assert_eq!(fabric.rest_length(1), Len(1.0));
    fabric.tick();
    fabric.tick();
    assert_eq!(fabric.rest_length(1), Len(2.0));
    fabric.tick();
    fabric.tick();
    assert_eq!(fabric.interval(1).countdown, 0);
    assert_eq!(fabric.rest_length(1), Len(3.0));
    fabric.tick();
    assert_eq!(fabric.rest_length(1), Len(3.0));
}

#[test]
fn change_rest_length_over_frames() {
    let mut fabric = slack_pair();
    let c = constants(1, 10);
    fabric.change_rest_length(0, Len(5.0), 3);
    for _ in 0..3 {
        frame(&mut fabric, Stage::Slack, &c);
    }
    assert_eq!(fabric.interval(0).countdown, 0);
    assert_eq!(fabric.rest_length(0), Len(5.0));
}

#[test]
fn change_rest_length_without_countdown_is_immediate() {
    let mut fabric = slack_pair();
    fabric.change_rest_length(0, Len(4.0), 0);
    assert_eq!(fabric.rest_length(0), Len(4.0));
    assert_eq!(fabric.interval(0).length_0, Len(4.0));
    assert_eq!(fabric.interval(0).countdown, 0);
}

#[test]
fn multiply_by_one_leaves_rest_length() {
    let mut fabric = slack_pair();
    fabric.multiply_rest_length(0, Len(1.0), 6);
    for _ in 0..6 {
        fabric.tick();
    }
    assert_eq!(fabric.interval(0).countdown, 0);
    assert_eq!(fabric.rest_length(0), Len(2.0));
}

#[test]
fn multiply_scales_rest_length() {
    let mut fabric = slack_pair();
    fabric.multiply_rest_length(1, Len(3.0), 0);
    assert_eq!(fabric.rest_length(1), Len(3.0));
}

#[test]
fn set_interval_role_keeps_lengths() {
    let mut fabric = slack_pair();
    fabric.change_rest_length(0, Len(3.0), 2);
    fabric.set_interval_role(0, IntervalRole::Pull);
    let interval = fabric.interval(0);
    assert_eq!(interval.role, IntervalRole::Pull);
    assert!(!interval.is_push());
    assert_eq!(interval.countdown, 2);
    assert_eq!(interval.length_1, Len(3.0));
}

#[test]
fn record_strain_stores_strain() {
    let mut fabric = pair();
    assert_eq!(fabric.interval(0).strain, Len(0.0));
    fabric.record_strain(0, Len(0.25));
    assert_eq!(fabric.interval(0).strain, Len(0.25));
    assert_eq!(fabric.interval(1).strain, Len(0.0));
}

#[test]
fn age_saturates() {
    let mut fabric = pair();
    let c = constants(u32::MAX, 10);
    fabric.finish_frame(Stage::Busy, &c);
    fabric.finish_frame(Stage::Busy, &c);
    assert_eq!(fabric.age(), u32::MAX);
}

#[test]
fn empty_fabric_reports_its_stage() {
    let mut fabric: Fabric<Len> = Fabric::new(0);
    let report = fabric.finish_frame(Stage::Growing, &constants(2, 10));
    assert_eq!(report.stage, Stage::Growing);
}

#[test]
fn multiply_without_countdown_scales_present_length() {
    let mut fabric = slack_pair();
    fabric.multiply_rest_length(0, Len(0.25), 0);
    assert_eq!(fabric.rest_length(0), Len(0.5));
    assert_eq!(fabric.interval(0).length_0, Len(0.5));
    assert_eq!(fabric.interval(0).countdown, 0);
}

#[test]
fn change_mid_ramp_starts_from_present_length() {
    let mut fabric = slack_pair();
    fabric.change_rest_length(1, Len(3.0), 4);
    fabric.tick();
    fabric.tick();
    assert_eq!(fabric.rest_length(1), Len(2.0));
    fabric.change_rest_length(1, Len(0.0), 2);
    assert_eq!(fabric.interval(1).length_0, Len(2.0));
    assert_eq!(fabric.rest_length(1), Len(2.0));
    fabric.tick();
    assert_eq!(fabric.rest_length(1), Len(1.0));
    fabric.tick();
    assert_eq!(fabric.rest_length(1), Len(0.0));
}

#[test]
fn multiply_mid_ramp_scales_present_length() {
    let mut fabric = slack_pair();
    fabric.change_rest_length(1, Len(3.0), 4);
    fabric.tick();
    fabric.tick();
    fabric.multiply_rest_length(1, Len(2.0), 3);
    assert_eq!(fabric.interval(1).length_0, Len(2.0));
    assert_eq!(fabric.interval(1).length_1, Len(4.0));
}

#[test]
fn mid_ramp_rest_length_is_interpolated() {
    let mut fabric = slack_pair();
    fabric.change_rest_length(0, Len(6.0), 4);
    fabric.tick();
    assert_eq!(fabric.rest_length(0), Len(3.0));
    fabric.tick();
    assert_eq!(fabric.rest_length(0), Len(4.0));
    fabric.tick();
    assert_eq!(fabric.rest_length(0), Len(5.0));
}

#[test]
fn role_and_adoption_keep_stiffness() {
    let mut fabric: Fabric<Len> = Fabric::new(2);
    fabric.create_joint();
    fabric.create_joint();
    fabric.create_interval(0, 1, IntervalRole::Push, Len(1.0), Len(7.0), Len(0.5), 0);
    fabric.set_interval_role(0, IntervalRole::Pull);
    fabric.adopt_lengths(&vec![Len(1.5)]);
    assert_eq!(fabric.interval(0).stiffness, Len(7.0));
    assert_eq!(fabric.interval(0).linear_density, Len(0.5));
    assert_eq!(fabric.interval_count(), 1);
}
