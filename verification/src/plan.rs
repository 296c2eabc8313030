use vstd::prelude::*;
use crate::task::ScheduledTask;

verus! {

/// Number of distinct steps in the plan's cycle.
pub const STEP_COUNT: usize = 5;

/// The step that follows `step` in the cycle 0, 1, 2, 3, 4, 0, ...
pub open spec fn spec_next_step(step: int) -> int {
    (step + 1) % (STEP_COUNT as int)
}

/// The step that follows `step` in the cycle 0, 1, 2, 3, 4, 0, ...
pub fn next_step(step: usize) -> (n: usize)
    requires
        step < usize::MAX,
    ensures
        n == spec_next_step(step as int),
        n < STEP_COUNT,
{
    (step + 1) % STEP_COUNT
}

/// What a step does to the list of tasks: step 0 adds "Init capteurs",
/// step 1 adds "Transmission", step 2 removes the last task (if any), step 3
/// adds "Sleep mode", step 4 removes every task, and any other step does nothing.
pub open spec fn apply_step(tasks: Seq<ScheduledTask>, step: int) -> Seq<ScheduledTask> {
    if step == 0 {
        tasks.push(ScheduledTask::InitCapteurs)
    } else if step == 1 {
        tasks.push(ScheduledTask::Transmission)
    } else if step == 2 {
        if tasks.len() > 0 { tasks.drop_last() } else { tasks }
    } else if step == 3 {
        tasks.push(ScheduledTask::SleepMode)
    } else if step == 4 {
        Seq::empty()
    } else {
        tasks
    }
}

/// The plan: the last step received and the tasks currently scheduled, in the
/// order in which they were added.
pub struct TaskPlan {
    pub step: usize,
    pub tasks: Vec<ScheduledTask>,
}

impl TaskPlan {
    /// The plan before any step: step 0, no task.
    pub fn new() -> (p: TaskPlan)
        ensures
            p.step == 0,
            p.tasks@ == Seq::<ScheduledTask>::empty(),
    {
        TaskPlan { step: 0, tasks: Vec::new() }
    }

    /// Applies `step` to the tasks; the recorded step is left as it was.
    pub fn update_tasks(&mut self, step: usize)
        ensures
            final(self).tasks@ == apply_step(old(self).tasks@, step as int),
            final(self).step == old(self).step,
    {
        if step == 0 {
            self.tasks.push(ScheduledTask::InitCapteurs);
        } else if step == 1 {
            self.tasks.push(ScheduledTask::Transmission);
        } else if step == 2 {
            self.tasks.pop();
        } else if step == 3 {
            self.tasks.push(ScheduledTask::SleepMode);
        } else if step == 4 {
            self.tasks.clear();
        }
    }

    /// A step has arrived: record it and apply it to the tasks.
    pub fn receive_step(&mut self, step: usize)
        ensures
            final(self).step == step,
            final(self).tasks@ == apply_step(old(self).tasks@, step as int),
    {
        self.step = step;
        self.update_tasks(step);
    }
}

/// The step sent after `k` earlier steps, the first one being 0.
pub open spec fn step_at(k: nat) -> int
    decreases k,
{
    if k == 0 {
        0
    } else {
        spec_next_step(step_at((k - 1) as nat))
    }
}

/// The tasks after the first `k` steps of the cycle, from an empty plan.
pub open spec fn tasks_after(k: nat) -> Seq<ScheduledTask>
    decreases k,
{
    if k == 0 {
        Seq::empty()
    } else {
        apply_step(tasks_after((k - 1) as nat), step_at((k - 1) as nat))
    }
}

/// The tasks scheduled once step `s` of the cycle has been applied.
pub open spec fn tasks_at_step(s: int) -> Seq<ScheduledTask> {
    if s == 0 {
        seq![ScheduledTask::InitCapteurs]
    } else if s == 1 {
        seq![ScheduledTask::InitCapteurs, ScheduledTask::Transmission]
    } else if s == 2 {
        seq![ScheduledTask::InitCapteurs]
    } else if s == 3 {
        seq![ScheduledTask::InitCapteurs, ScheduledTask::SleepMode]
    } else {
        Seq::empty()
    }
}

/// The steps run through the cycle: the `k`-th step sent is `k` modulo 5.
pub proof fn law_step_cycle(k: nat)
    ensures
        step_at(k) == (k as int) % (STEP_COUNT as int),
        0 <= step_at(k) < STEP_COUNT,
    decreases k,
{
    if k > 0 {
        law_step_cycle((k - 1) as nat);
    }
}

/// Following the cycle from an empty plan, the tasks after `k` steps depend
/// only on the last step applied, there are never more than two of them, and
/// every fifth step leaves the plan empty again.
pub proof fn law_tasks_follow_cycle(k: nat)
    ensures
        k > 0 ==> tasks_after(k) == tasks_at_step(step_at((k - 1) as nat)),
        (k as int) % (STEP_COUNT as int) == 0 ==> tasks_after(k) == Seq::<ScheduledTask>::empty(),
        tasks_after(k).len() <= 2,
    decreases k,
{
    if k > 0 {
        law_tasks_follow_cycle((k - 1) as nat);
        law_step_cycle((k - 1) as nat);
        law_step_cycle(k);
        if k >= 2 {
            law_step_cycle((k - 2) as nat);
        }
        assert(tasks_after(k) =~= tasks_at_step(step_at((k - 1) as nat)));
    }
}

/// Removing the last task undoes a step that added one.
pub proof fn law_remove_undoes_add(tasks: Seq<ScheduledTask>, step: int)
    requires
        step == 0 || step == 1 || step == 3,
    ensures
        apply_step(apply_step(tasks, step), 2) == tasks,
{
    assert(apply_step(apply_step(tasks, step), 2) =~= tasks);
}

/// Step 4 leaves no task, whatever the plan held.
pub proof fn law_clear_empties(tasks: Seq<ScheduledTask>)
    ensures
        apply_step(tasks, 4) == Seq::<ScheduledTask>::empty(),
{
}

/// A step outside the cycle leaves the tasks unchanged.
pub proof fn law_unknown_step_is_ignored(tasks: Seq<ScheduledTask>, step: int)
    requires
        !(0 <= step < STEP_COUNT),
    ensures
        apply_step(tasks, step) == tasks,
{
}

/// Steps 0, 1 and 3 append one task to whatever the plan holds and keep the
/// earlier tasks in place: step 0 the task "Init capteurs" (100-300 MHz,
/// 0-300 ms, on the 20-500 MHz amplifier), step 1 "Transmission"
/// (1000-2500 MHz, 300-600 ms, on the 1000-2500 MHz amplifier) and step 3
/// "Sleep mode" (5000-5500 MHz, 0-1000 ms, on the 2400-6000 MHz amplifier).
pub proof fn law_adding_steps(tasks: Seq<ScheduledTask>)
    ensures
        apply_step(tasks, 0) == tasks.push(ScheduledTask::InitCapteurs),
        apply_step(tasks, 1) == tasks.push(ScheduledTask::Transmission),
        apply_step(tasks, 3) == tasks.push(ScheduledTask::SleepMode),
        ({
            let t = apply_step(tasks, 0).last();
            &&& t.spec_name() == "Init capteurs"@
            &&& t.spec_extent() == (100u32, 300u32, 0u32, 300u32)
            &&& t.spec_amplifier().spec_freq_start() == 20
            &&& t.spec_amplifier().spec_freq_end() == 500
        }),
        ({
            let t = apply_step(tasks, 1).last();
            &&& t.spec_name() == "Transmission"@
            &&& t.spec_extent() == (1000u32, 2500u32, 300u32, 600u32)
            &&& t.spec_amplifier().spec_freq_start() == 1000
            &&& t.spec_amplifier().spec_freq_end() == 2500
        }),
        ({
            let t = apply_step(tasks, 3).last();
            &&& t.spec_name() == "Sleep mode"@
            &&& t.spec_extent() == (5000u32, 5500u32, 0u32, 1000u32)
            &&& t.spec_amplifier().spec_freq_start() == 2400
            &&& t.spec_amplifier().spec_freq_end() == 6000
        }),
{
}

/// Step 2 removes exactly the last task and keeps the others in order; on an
/// empty plan it does nothing.
pub proof fn law_removing_step(tasks: Seq<ScheduledTask>)
    ensures
        tasks.len() > 0 ==> apply_step(tasks, 2) == tasks.subrange(0, tasks.len() - 1),
        tasks.len() == 0 ==> apply_step(tasks, 2) == tasks,
{
}

/// Every step acts on the plan by its number alone, whatever the plan held:
/// the length changes by +1 (steps 0, 1, 3), -1 or 0 (step 2), to 0 (step 4),
/// and not at all for any other step.
pub proof fn law_step_lengths(tasks: Seq<ScheduledTask>, step: int)
    ensures
        (step == 0 || step == 1 || step == 3) ==> apply_step(tasks, step).len() == tasks.len() + 1,
        step == 2 && tasks.len() > 0 ==> apply_step(tasks, step).len() == tasks.len() - 1,
        step == 4 ==> apply_step(tasks, step).len() == 0,
        !(0 <= step < 5) ==> apply_step(tasks, step) == tasks,
{
}

/// The next step counts up by one and wraps from 4 back to 0.
pub proof fn law_next_step_values(step: int)
    requires
        0 <= step,
    ensures
        step < 4 ==> spec_next_step(step) == step + 1,
        step == 4 ==> spec_next_step(step) == 0,
{
}

} // verus!
