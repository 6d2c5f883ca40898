use pihost::scheduler::{Action, Event, Phase, ReloadPolicy, RunnerCommand, Scheduler};
use pihost::watcher::{handle_event, FsEvent};

fn tick(s: &mut Scheduler<u32>) -> Action {
    s.handle(Event::Timeout)
}

#[test]
fn tick_advances_state_and_calls_guest() {
    let mut s = Scheduler::new(1u32, ReloadPolicy::KeepPrevious);
    assert_eq!(
        tick(&mut s),
        Action::Tick { sensor_id: 20, sensor_value: 99, frame: 1 }
    );
    assert_eq!(
        tick(&mut s),
        Action::Tick { sensor_id: 20, sensor_value: 98, frame: 2 }
    );
    assert_eq!(s.phase, Phase::Running);
}

#[test]
fn reload_swaps_module_then_ticks_on_it() {
    let mut s = Scheduler::new(1u32, ReloadPolicy::FailFast);
    tick(&mut s);
    assert_eq!(s.handle(Event::Command(RunnerCommand::Reload)), Action::Reload);
    assert_eq!(s.phase, Phase::Reloading);
    assert_eq!(tick(&mut s), Action::Idle);
    assert_eq!(s.handle(Event::Loaded(2u32)), Action::Idle);
    assert_eq!(s.phase, Phase::Running);
    assert_eq!(*s.active(), 2);
    assert_eq!(
        tick(&mut s),
        Action::Tick { sensor_id: 20, sensor_value: 98, frame: 2 }
    );
}

#[test]
fn failed_reload_keeps_previous_module() {
    let mut s = Scheduler::new(1u32, ReloadPolicy::KeepPrevious);
    s.handle(Event::Command(RunnerCommand::Reload));
    assert_eq!(s.handle(Event::LoadFailed), Action::Idle);
    assert_eq!(s.phase, Phase::Running);
    assert_eq!(*s.active(), 1);
}

#[test]
fn failed_reload_fails_fast() {
    let mut s = Scheduler::new(1u32, ReloadPolicy::FailFast);
    s.handle(Event::Command(RunnerCommand::Reload));
    assert_eq!(s.handle(Event::LoadFailed), Action::Shutdown { success: false });
    assert_eq!(s.phase, Phase::Stopped);
}

fn count_shutdowns(s: &mut Scheduler<u32>, events: Vec<Event<u32>>) -> usize {
    let mut n = 0;
    for e in events {
        if let Action::Shutdown { .. } = s.handle(e) {
            n += 1;
        }
    }
    n
}

#[test]
fn stop_while_running_cleans_up_once() {
    let mut s = Scheduler::new(1u32, ReloadPolicy::KeepPrevious);
    let events = vec![
        Event::Timeout,
        Event::Command(RunnerCommand::Stop),
        Event::Command(RunnerCommand::Stop),
        Event::Timeout,
        Event::GuestFault,
    ];
    assert_eq!(count_shutdowns(&mut s, events), 1);
    assert_eq!(s.phase, Phase::Stopped);
}

#[test]
fn stop_while_reloading_cleans_up_once() {
    let mut s = Scheduler::new(1u32, ReloadPolicy::FailFast);
    s.handle(Event::Command(RunnerCommand::Reload));
    assert_eq!(
        s.handle(Event::Command(RunnerCommand::Stop)),
        Action::Shutdown { success: true }
    );
    let events = vec![Event::Loaded(2u32), Event::LoadFailed, Event::Command(RunnerCommand::Stop)];
    assert_eq!(count_shutdowns(&mut s, events), 0);
    assert_eq!(*s.active(), 1);
}

#[test]
fn guest_fault_and_disconnect_end_the_runtime() {
    let mut s = Scheduler::new(1u32, ReloadPolicy::KeepPrevious);
    assert_eq!(s.handle(Event::GuestFault), Action::Shutdown { success: false });
    let mut s = Scheduler::new(1u32, ReloadPolicy::KeepPrevious);
    assert_eq!(s.handle(Event::Disconnected), Action::Shutdown { success: false });
}

#[test]
fn module_file_write_requests_reload() {
    assert_eq!(
        handle_event(&FsEvent::NoticeWrite("indicator.wasm".to_string())),
        Some(RunnerCommand::Reload)
    );
    assert_eq!(handle_event(&FsEvent::NoticeWrite("other.wasm".to_string())), None);
    assert_eq!(handle_event(&FsEvent::NoticeWrite("indicator.wasm~".to_string())), None);
    assert_eq!(handle_event(&FsEvent::Other), None);
}
