use arcade_engine::schedule::{Schedule, SystemPhase};
use arcade_engine::world::World;

type FlagWorld = World<(), (), (), (), ()>;

fn system_set_flag(world: &mut FlagWorld, _dt: f32) {
    world.set_input(1);
}

fn system_require_flag_then_set_next(world: &mut FlagWorld, _dt: f32) {
    assert_eq!(world.input().bits, 1);
    world.set_input(2);
}

fn run(schedule: &Schedule<fn(&mut FlagWorld, f32)>, world: &mut FlagWorld, dt: f32) {
    for system in schedule.run_sequence() {
        system(world, dt);
    }
}

#[test]
fn runs_systems_in_order() {
    let mut world: FlagWorld = World::new(());
    let schedule = Schedule::new()
        .with_system(system_set_flag as fn(&mut FlagWorld, f32))
        .with_system(system_require_flag_then_set_next);

    run(&schedule, &mut world, 0.0);

    assert_eq!(world.input().bits, 2);
}

#[test]
fn preserves_phase_order() {
    let schedule = Schedule::new()
        .with_system_in_phase(SystemPhase::Control, "control")
        .with_system_in_phase(SystemPhase::Physics, "physics")
        .with_system_in_phase(SystemPhase::Resolve, "resolve");

    assert_eq!(schedule.run_sequence(), vec!["control", "physics", "resolve"]);
}

#[test]
fn keeps_insertion_order_within_phase() {
    let schedule = Schedule::new()
        .with_system_in_phase(SystemPhase::Control, "first")
        .with_system_in_phase(SystemPhase::Control, "second");

    assert_eq!(schedule.run_sequence(), vec!["first", "second"]);
}

#[test]
fn phases_run_in_fixed_order_whatever_the_registration_order() {
    let schedule = Schedule::new()
        .with_system_in_phase(SystemPhase::Resolve, "resolve-1")
        .with_system_in_phase(SystemPhase::Physics, "physics-1")
        .with_system("control-1")
        .with_system_in_phase(SystemPhase::Resolve, "resolve-2")
        .with_system_in_phase(SystemPhase::Control, "control-2");

    assert_eq!(
        schedule.run_sequence(),
        vec!["control-1", "control-2", "physics-1", "resolve-1", "resolve-2"]
    );
    assert_eq!(schedule.systems_in_phase(SystemPhase::Physics), &vec!["physics-1"]);
}

#[test]
fn empty_schedule_runs_nothing() {
    let schedule: Schedule<u8> = Schedule::new();
    assert!(schedule.run_sequence().is_empty());
}

#[test]
fn phase_indices_follow_run_order() {
    let ordered = SystemPhase::ordered();
    assert_eq!(ordered, [SystemPhase::Control, SystemPhase::Physics, SystemPhase::Resolve]);
    assert_eq!(SystemPhase::Control.index(), 0);
    assert_eq!(SystemPhase::Physics.index(), 1);
    assert_eq!(SystemPhase::Resolve.index(), 2);
}
