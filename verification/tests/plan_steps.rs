use gantt_plan::plan::{next_step, TaskPlan, STEP_COUNT};
use gantt_plan::task::{Amplifier, ScheduledTask};

#[test]
fn next_step_runs_through_the_cycle() {
    assert_eq!(next_step(0), 1);
    assert_eq!(next_step(1), 2);
    assert_eq!(next_step(3), 4);
    assert_eq!(next_step(4), 0);
    assert_eq!(STEP_COUNT, 5);
    let mut s = 0;
    for _ in 0..5 {
        s = next_step(s);
    }
    assert_eq!(s, 0);
}

#[test]
fn new_plan_is_empty() {
    let p = TaskPlan::new();
    assert_eq!(p.step, 0);
    assert!(p.tasks.is_empty());
}

#[test]
fn one_cycle_of_steps() {
    let mut p = TaskPlan::new();
    p.receive_step(0);
    assert_eq!(p.tasks, vec![ScheduledTask::InitCapteurs]);
    p.receive_step(1);
    assert_eq!(p.tasks, vec![ScheduledTask::InitCapteurs, ScheduledTask::Transmission]);
    p.receive_step(2);
    assert_eq!(p.tasks, vec![ScheduledTask::InitCapteurs]);
    p.receive_step(3);
    assert_eq!(p.tasks, vec![ScheduledTask::InitCapteurs, ScheduledTask::SleepMode]);
    assert_eq!(p.step, 3);
    p.receive_step(4);
    assert!(p.tasks.is_empty());
    assert_eq!(p.step, 4);
}

#[test]
fn many_cycles_keep_at_most_two_tasks() {
    let mut p = TaskPlan::new();
    let mut s = 0;
    for k in 1..=23 {
        p.receive_step(s);
        assert!(p.tasks.len() <= 2);
        if k % 5 == 0 {
            assert!(p.tasks.is_empty());
        }
        s = next_step(s);
    }
}

#[test]
fn removing_from_an_empty_plan_does_nothing() {
    let mut p = TaskPlan::new();
    p.update_tasks(2);
    assert!(p.tasks.is_empty());
}

#[test]
fn removing_undoes_adding() {
    for step in [0usize, 1, 3] {
        let mut p = TaskPlan::new();
        p.update_tasks(1);
        p.update_tasks(step);
        p.update_tasks(2);
        assert_eq!(p.tasks, vec![ScheduledTask::Transmission]);
    }
}

#[test]
fn unknown_steps_are_ignored() {
    let mut p = TaskPlan::new();
    p.update_tasks(0);
    p.update_tasks(5);
    p.update_tasks(usize::MAX);
    assert_eq!(p.tasks, vec![ScheduledTask::InitCapteurs]);
    assert_eq!(p.step, 0);
}

#[test]
fn update_tasks_keeps_the_recorded_step() {
    let mut p = TaskPlan::new();
    p.receive_step(3);
    p.update_tasks(1);
    assert_eq!(p.step, 3);
}

#[test]
fn scheduled_task_data() {
    assert_eq!(ScheduledTask::InitCapteurs.name(), "Init capteurs");
    assert_eq!(ScheduledTask::Transmission.name(), "Transmission");
    assert_eq!(ScheduledTask::SleepMode.name(), "Sleep mode");
    assert_eq!(ScheduledTask::InitCapteurs.extent(), (100, 300, 0, 300));
    assert_eq!(ScheduledTask::Transmission.extent(), (1000, 2500, 300, 600));
    assert_eq!(ScheduledTask::SleepMode.extent(), (5000, 5500, 0, 1000));
    assert_eq!(ScheduledTask::InitCapteurs.amplifier(), Amplifier::A20_500);
    assert_eq!(ScheduledTask::Transmission.amplifier(), Amplifier::A1000_2500);
    assert_eq!(ScheduledTask::SleepMode.amplifier(), Amplifier::A2400_6000);
}

#[test]
fn task_colour_is_its_amplifier_colour() {
    for t in [ScheduledTask::InitCapteurs, ScheduledTask::Transmission, ScheduledTask::SleepMode] {
        assert_eq!(t.color(), t.amplifier().color());
    }
    let c = ScheduledTask::Transmission.color();
    assert_eq!((c.r, c.g, c.b, c.a), (0, 171, 142, 255));
}

#[test]
fn tasks_lie_inside_their_amplifier_band() {
    for t in [ScheduledTask::InitCapteurs, ScheduledTask::Transmission, ScheduledTask::SleepMode] {
        let (f0, f1, t0, t1) = t.extent();
        let (lo, hi) = t.amplifier().freq_range();
        assert!(lo <= f0 && f0 < f1 && f1 <= hi);
        assert!(t0 < t1 && t1 <= gantt_plan::utils::MAX_TIME);
    }
}

#[test]
fn task_records() {
    let r = ScheduledTask::Transmission.record();
    assert_eq!(r.name, "Transmission");
    assert_eq!((r.freq_start, r.freq_end, r.time_start, r.time_end), (1000, 2500, 300, 600));
    assert_eq!(r.amplifier, Amplifier::A1000_2500);
    assert_eq!(r.color(), Amplifier::A1000_2500.color());
    let custom = gantt_plan::task::TaskRecord {
        name: "x".to_string(),
        freq_start: 100,
        freq_end: 1000,
        time_start: 0,
        time_end: 10,
        amplifier: Amplifier::A500_1000,
    };
    assert_eq!(custom.color(), Amplifier::A500_1000.color());
}
