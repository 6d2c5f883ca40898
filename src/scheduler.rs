//! The tick scheduler: a state machine from the current phase and an event
//! (a tick timeout, a command, the outcome of a reload) to the next phase and
//! the action the caller performs.
use vstd::prelude::*;
use crate::wasm::{Runtime, next_battery, next_frame, SENSOR_BATTERY};

verus! {

/// Commands delivered to the scheduler through its command channel.
#[derive(PartialEq, Eq, Structural, Debug, Clone, Copy)]
pub enum RunnerCommand {
    Reload,
    Stop,
}

/// What the scheduler reacts to. `M` is the active module's handle.
pub enum Event<M> {
    /// The tick interval passed with no command.
    Timeout,
    /// A command arrived.
    Command(RunnerCommand),
    /// A reload produced this fully linked module.
    Loaded(M),
    /// A reload failed to load or link the module.
    LoadFailed,
    /// A guest call faulted.
    GuestFault,
    /// Every producer of commands is gone.
    Disconnected,
}

/// Scheduler phase.
#[derive(PartialEq, Eq, Structural, Debug, Clone, Copy)]
pub enum Phase {
    Running,
    Reloading,
    Stopped,
}

/// What happens when a reload fails to load or link.
#[derive(PartialEq, Eq, Structural, Debug, Clone, Copy)]
pub enum ReloadPolicy {
    /// Stop the runtime, with a failure status.
    FailFast,
    /// Reject the new module and keep running the previous one.
    KeepPrevious,
}

/// What the caller does after an event.
#[derive(PartialEq, Eq, Structural, Debug, Clone, Copy)]
pub enum Action {
    /// Nothing.
    Idle,
    /// Call `sensor_update(sensor_id, sensor_value)`, then `apply(frame)`, on
    /// the active module.
    Tick { sensor_id: i32, sensor_value: i32, frame: i32 },
    /// Wait the quiescence delay, load and link the module file, and report
    /// the outcome as `Loaded` or `LoadFailed`.
    Reload,
    /// Clean up the output sink and end the process with this status.
    Shutdown { success: bool },
}

/// The scheduler's state as a value.
pub struct SchedulerView<M> {
    pub phase: Phase,
    pub active: M,
    pub frame: int,
    pub battery: int,
}

/// Phase after `e` in phase `p`.
pub open spec fn next_phase<M>(policy: ReloadPolicy, p: Phase, e: Event<M>) -> Phase {
    if p == Phase::Stopped {
        Phase::Stopped
    } else {
        match e {
            Event::Timeout => p,
            Event::Command(RunnerCommand::Reload) => Phase::Reloading,
            Event::Command(RunnerCommand::Stop) => Phase::Stopped,
            Event::Loaded(_) => Phase::Running,
            Event::LoadFailed => if policy == ReloadPolicy::FailFast {
                Phase::Stopped
            } else {
                Phase::Running
            },
            Event::GuestFault => Phase::Stopped,
            Event::Disconnected => Phase::Stopped,
        }
    }
}

/// Whether `e` in phase `p` is a tick that runs the guest.
pub open spec fn ticks<M>(p: Phase, e: Event<M>) -> bool {
    p == Phase::Running && e is Timeout
}

/// Whether `e` in phase `p` ends the runtime, which cleans up the output sink.
pub open spec fn cleans_up<M>(policy: ReloadPolicy, p: Phase, e: Event<M>) -> bool {
    p != Phase::Stopped && next_phase(policy, p, e) == Phase::Stopped
}

/// State after `e` in state `s`.
pub open spec fn step<M>(policy: ReloadPolicy, s: SchedulerView<M>, e: Event<M>) -> SchedulerView<M> {
    SchedulerView {
        phase: next_phase(policy, s.phase, e),
        active: match e {
            Event::Loaded(m) => if s.phase != Phase::Stopped {
                m
            } else {
                s.active
            },
            _ => s.active,
        },
        frame: if ticks(s.phase, e) {
            next_frame(s.frame)
        } else {
            s.frame
        },
        battery: if ticks(s.phase, e) {
            next_battery(s.battery)
        } else {
            s.battery
        },
    }
}

/// Action for `e` in state `s`.
pub open spec fn action<M>(policy: ReloadPolicy, s: SchedulerView<M>, e: Event<M>) -> Action {
    if cleans_up(policy, s.phase, e) {
        Action::Shutdown { success: e == Event::<M>::Command(RunnerCommand::Stop) }
    } else if ticks(s.phase, e) {
        Action::Tick {
            sensor_id: SENSOR_BATTERY,
            sensor_value: next_battery(s.battery) as i32,
            frame: next_frame(s.frame) as i32,
        }
    } else if s.phase != Phase::Stopped && e == Event::<M>::Command(RunnerCommand::Reload) {
        Action::Reload
    } else {
        Action::Idle
    }
}

/// Number of output-sink cleanups over a run of events from phase `p`.
pub open spec fn cleanup_count<M>(policy: ReloadPolicy, p: Phase, events: Seq<Event<M>>) -> nat
    decreases events.len(),
{
    if events.len() == 0 {
        0
    } else {
        (if cleans_up(policy, p, events[0]) {
            1nat
        } else {
            0nat
        }) + cleanup_count(policy, next_phase(policy, p, events[0]), events.drop_first())
    }
}

/// The scheduler: sole owner of the runtime state and the active module.
pub struct Scheduler<M> {
    pub phase: Phase,
    pub policy: ReloadPolicy,
    pub runtime: Runtime,
    pub active: M,
}

impl<M> Scheduler<M> {
    pub open spec fn view(&self) -> SchedulerView<M> {
        SchedulerView {
            phase: self.phase,
            active: self.active,
            frame: self.runtime.frame as int,
            battery: self.runtime.remaining_battery as int,
        }
    }

    pub open spec fn wf(&self) -> bool {
        self.runtime.wf()
    }

    /// A running scheduler on a freshly loaded module, at frame 0 with a full
    /// battery.
    pub fn new(active: M, policy: ReloadPolicy) -> (r: Self)
        ensures
            r.wf(),
            r.phase == Phase::Running,
            r.policy == policy,
            r.active == active,
            r.runtime.frame == 0,
            r.runtime.remaining_battery == crate::wasm::FULL_BATTERY,
            r.runtime.pending_writes().len() == 0,
    {
        Scheduler { phase: Phase::Running, policy, runtime: Runtime::new(), active }
    }

    /// The module that ticks run on.
    pub fn active(&self) -> (r: &M)
        ensures
            r == self.active,
    {
        &self.active
    }

    /// Reacts to one event: moves to the next state and says what the caller
    /// does next.
    pub fn handle(&mut self, event: Event<M>) -> (r: Action)
        requires
            old(self).wf(),
        ensures
            final(self).wf(),
            final(self).policy == old(self).policy,
            final(self).view() == step(old(self).policy, old(self).view(), event),
            r == action(old(self).policy, old(self).view(), event),
            final(self).runtime.pending_writes() == old(self).runtime.pending_writes(),
    {
        if self.phase == Phase::Stopped {
            return Action::Idle;
        }
        match event {
            Event::Timeout => {
                if self.phase == Phase::Running {
                    self.runtime.reduce_battery();
                    self.runtime.advance_frame();
                    Action::Tick {
                        sensor_id: SENSOR_BATTERY,
                        sensor_value: self.runtime.remaining_battery,
                        frame: self.runtime.frame,
                    }
                } else {
                    Action::Idle
                }
            },
            Event::Command(RunnerCommand::Reload) => {
                self.phase = Phase::Reloading;
                Action::Reload
            },
            Event::Command(RunnerCommand::Stop) => {
                self.phase = Phase::Stopped;
                Action::Shutdown { success: true }
            },
            Event::Loaded(m) => {
                self.active = m;
                self.phase = Phase::Running;
                Action::Idle
            },
            Event::LoadFailed => {
                match self.policy {
                    ReloadPolicy::FailFast => {
                        self.phase = Phase::Stopped;
                        Action::Shutdown { success: false }
                    },
                    ReloadPolicy::KeepPrevious => {
                        self.phase = Phase::Running;
                        Action::Idle
                    },
                }
            },
            Event::GuestFault => {
                self.phase = Phase::Stopped;
                Action::Shutdown { success: false }
            },
            Event::Disconnected => {
                self.phase = Phase::Stopped;
                Action::Shutdown { success: false }
            },
        }
    }
}

/// Once stopped, no further event cleans up again.
pub proof fn lemma_stopped_no_cleanup<M>(policy: ReloadPolicy, events: Seq<Event<M>>)
    ensures
        cleanup_count(policy, Phase::Stopped, events) == 0,
    decreases events.len(),
{
    if events.len() > 0 {
        lemma_stopped_no_cleanup(policy, events.drop_first());
    }
}

/// A run of events from a live phase cleans up the output sink at most once.
pub proof fn lemma_cleanup_at_most_once<M>(policy: ReloadPolicy, p: Phase, events: Seq<Event<M>>)
    ensures
        cleanup_count(policy, p, events) <= 1,
    decreases events.len(),
{
    if events.len() > 0 {
        let q = next_phase(policy, p, events[0]);
        if cleans_up(policy, p, events[0]) {
            lemma_stopped_no_cleanup(policy, events.drop_first());
        } else {
            lemma_cleanup_at_most_once(policy, q, events.drop_first());
        }
    }
}

/// A Stop command that reaches a running or reloading scheduler leads to
/// exactly one cleanup of the output sink: never zero, never more than one.
pub proof fn lemma_stop_cleans_up_once<M>(
    policy: ReloadPolicy,
    p: Phase,
    events: Seq<Event<M>>,
    i: int,
)
    requires
        p == Phase::Running || p == Phase::Reloading,
        0 <= i < events.len(),
        events[i] == Event::<M>::Command(RunnerCommand::Stop),
    ensures
        cleanup_count(policy, p, events) == 1,
    decreases events.len(),
{
    let q = next_phase(policy, p, events[0]);
    if cleans_up(policy, p, events[0]) {
        lemma_stopped_no_cleanup(policy, events.drop_first());
    } else {
        assert(i > 0);
        assert(events.drop_first()[i - 1] == events[i]);
        lemma_stop_cleans_up_once(policy, q, events.drop_first(), i - 1);
    }
}

/// A Reload command while running moves to reloading and asks for a reload;
/// once the new module is loaded the scheduler is running again, and the next
/// tick runs on the new module.
pub proof fn lemma_reload_then_tick<M>(policy: ReloadPolicy, s: SchedulerView<M>, m: M)
    requires
        s.phase == Phase::Running,
    ensures
        ({
            let s1 = step(policy, s, Event::Command(RunnerCommand::Reload));
            let s2 = step(policy, s1, Event::Loaded(m));
            let s3 = step(policy, s2, Event::Timeout);
            &&& action(policy, s, Event::Command(RunnerCommand::Reload)) == Action::Reload
            &&& s1.phase == Phase::Reloading
            &&& s2.phase == Phase::Running
            &&& s2.active == m
            &&& action(policy, s2, Event::Timeout) is Tick
            &&& s3.active == m
            &&& s3.phase == Phase::Running
        }),
{
}

} // verus!
