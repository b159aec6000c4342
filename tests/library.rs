use robo_sim::behavior::{get_behavior_name, CycleCache, NameAllocator};
use robo_sim::color::Color;
use robo_sim::controller::{Controller, StepAction};
use robo_sim::messages::{
    KillMsg, Message, MessageType, PauseMsg, PositionMsg, PoseBits, RequestPositionMsg, StartMsg,
};
use robo_sim::registry::{RegistryError, RobotRegistry};
use robo_sim::robot_comm::MessageQueue;

#[test]
fn color_names() {
    assert_eq!(Color::from_str("red"), Color::new(255, 0, 0, 255));
    assert_eq!(Color::from_str("RED"), Color::red());
    assert_eq!(Color::from_str("Blue"), Color::new(0, 0, 255, 255));
    assert_eq!(Color::from_str("green"), Color::black());
    assert_eq!(Color::from_str(""), Color::new(0, 0, 0, 255));
    assert_eq!(Color::from_lowercase("BLUE"), Color::black());
}

#[test]
fn node_computes_once_per_cycle() {
    let mut calls = 0u32;
    let mut cache = CycleCache::new(0i64);
    // two dependents pull the node in the same cycle
    cache.pull(7, |c| {
        calls += 1;
        c as i64 * 10
    });
    let first = *cache.output();
    cache.pull(7, |c| {
        calls += 1;
        c as i64 * 100
    });
    let second = *cache.output();
    assert_eq!(calls, 1);
    assert_eq!(first, 70);
    assert_eq!(second, 70);
    assert!(cache.is_current(7));
    assert!(!cache.is_current(8));
    cache.pull(8, |c| {
        calls += 1;
        c as i64
    });
    assert_eq!(calls, 2);
    assert_eq!(*cache.output(), 8);
}

#[test]
fn first_pull_computes_even_for_cycle_zero() {
    let mut cache = CycleCache::new(String::from("unset"));
    assert!(!cache.is_current(0));
    cache.pull(0, |_| String::from("fresh"));
    assert_eq!(cache.output(), "fresh");
}

#[test]
fn behavior_names() {
    let mut names = NameAllocator::new();
    assert_eq!(get_behavior_name(Some("goto"), &mut names), "goto");
    assert_eq!(names.next_id(), 0);
    assert_eq!(get_behavior_name(None, &mut names), "AN_0");
    assert_eq!(get_behavior_name(None, &mut names), "AN_1");
    for _ in 0..8 {
        get_behavior_name(None, &mut names);
    }
    assert_eq!(get_behavior_name(None, &mut names), "AN_10");
    assert_eq!(names.next_id(), 11);
}

fn start() -> Message {
    Message::Start(StartMsg::new())
}

fn pause() -> Message {
    Message::Pause(PauseMsg::new())
}

fn kill() -> Message {
    Message::Kill(KillMsg::new())
}

#[test]
fn controller_starts_paused() {
    let mut c: Controller<u8> = Controller::new();
    assert!(c.is_paused());
    assert_eq!(c.cycle(), 0);
    assert_eq!(c.step(&vec![]), StepAction::Idle);
    assert_eq!(c.cycle(), 0);
}

#[test]
fn controller_runs_after_start_and_counts_cycles() {
    let mut c: Controller<&str> = Controller::new();
    c.add_behavior("goto");
    assert_eq!(c.behaviors(), &vec!["goto"]);
    assert_eq!(c.step(&vec![start()]), StepAction::Evaluate { cycle: 0 });
    assert_eq!(c.step(&vec![]), StepAction::Evaluate { cycle: 1 });
    assert_eq!(c.cycle(), 2);
    // pause toggles
    assert_eq!(c.step(&vec![pause()]), StepAction::Idle);
    assert_eq!(c.cycle(), 2);
    assert_eq!(c.step(&vec![pause()]), StepAction::Evaluate { cycle: 2 });
    // start while running keeps running; other kinds are ignored
    let other = Message::RequestPosition(RequestPositionMsg::new(1));
    assert_eq!(c.step(&vec![start(), other]), StepAction::Evaluate { cycle: 3 });
}

#[test]
fn controller_kill_stops_before_later_messages() {
    let mut c: Controller<u8> = Controller::new();
    assert!(c.handle_msgs(&vec![start(), kill(), pause()]));
    assert!(!c.is_paused());
    let mut c: Controller<u8> = Controller::new();
    assert_eq!(c.step(&vec![start(), kill()]), StepAction::Die);
    assert_eq!(c.cycle(), 0);
    c.set_paused(true);
    assert!(!c.handle_msgs(&vec![pause(), pause()]));
    assert!(c.is_paused());
}

fn position(x: u32) -> Message {
    Message::Position(PositionMsg::new(PoseBits::new(x, 0, 0, 0)))
}

#[test]
fn waiting_holds_back_other_kinds_in_order() {
    let mut q = MessageQueue::new();
    let mut out = q.begin_check(Some(MessageType::Position));
    assert!(out.is_empty());
    assert!(!q.route(pause(), Some(MessageType::Position), &mut out));
    assert!(!q.route(start(), Some(MessageType::Position), &mut out));
    assert!(q.route(position(4), Some(MessageType::Position), &mut out));
    assert_eq!(out, vec![position(4)]);
    assert_eq!(q.len(), 2);

    // a plain check hands the held messages out first, then the new ones
    let mut out = q.begin_check(None);
    assert_eq!(out, vec![pause(), start()]);
    assert!(!q.route(position(5), None, &mut out));
    assert_eq!(out, vec![pause(), start(), position(5)]);
    assert_eq!(q.len(), 0);
}

#[test]
fn registry_refuses_duplicates_and_reports_empty() {
    let mut reg: RobotRegistry<(i32, i32)> = RobotRegistry::new();
    assert!(reg.is_empty());
    assert_eq!(reg.register(1, (0, 0)), Ok(()));
    assert_eq!(reg.register(1, (5, 5)), Err(RegistryError::AlreadyRegistered { id: 1 }));
    assert_eq!(reg.get(1), Some(&(0, 0)));
    assert_eq!(reg.register(2, (3, 4)), Ok(()));
    assert_eq!(reg.len(), 2);
    assert!(reg.update(2, (6, 7)));
    assert_eq!(reg.get(2), Some(&(6, 7)));
    assert!(!reg.update(9, (1, 1)));
    assert_eq!(reg.get(9), None);
    assert!(!reg.contains(9));
    assert!(!reg.unregister(1));
    assert!(!reg.unregister(1));
    assert!(reg.unregister(2));
    assert!(reg.is_empty());
}
