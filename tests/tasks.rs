use cdc_blink::arena::{BufferId, DoubleInit, StaticArena};
use cdc_blink::task::{Blink, Executor, Firmware, Level, SpawnError, TaskId};

fn run_until_idle(f: &mut Firmware) -> Vec<TaskId> {
    let mut ran = Vec::new();
    while let Some(t) = f.poll() {
        ran.push(t);
    }
    ran
}

#[test]
fn blink_levels_alternate_from_low() {
    let mut b = Blink::new();
    assert_eq!(b.step(), Level::Low);
    assert_eq!(b.step(), Level::High);
    assert_eq!(b.step(), Level::Low);
    let mut w = Blink { counter: u64::MAX };
    assert_eq!(w.step(), Level::High);
    assert_eq!(w.counter, 0);
}

#[test]
fn blink_toggles_once_per_second_despite_usb_wakes() {
    let mut f = Firmware::new();
    let first = run_until_idle(&mut f);
    assert!(first.contains(&TaskId::Blink));
    assert_eq!(f.led, Level::Low);
    let mut expected = Level::Low;
    for second in 1..=6u64 {
        for _ in 0..3 {
            f.usb_interrupt();
            assert_eq!(f.poll(), Some(TaskId::Usb));
            assert_eq!(f.led, expected);
        }
        f.advance_time(second * 1000 - 1);
        assert_eq!(run_until_idle(&mut f), Vec::<TaskId>::new());
        assert_eq!(f.led, expected);
        f.usb_interrupt();
        f.advance_time(second * 1000);
        let ran = run_until_idle(&mut f);
        assert_eq!(ran.iter().filter(|t| **t == TaskId::Blink).count(), 1);
        assert_eq!(ran.iter().filter(|t| **t == TaskId::Usb).count(), 1);
        expected = if expected == Level::Low { Level::High } else { Level::Low };
        assert_eq!(f.led, expected);
        assert_eq!(f.blink.counter, second + 1);
    }
}

#[test]
fn usb_interrupt_only_sets_wake_signal() {
    let mut f = Firmware::new();
    run_until_idle(&mut f);
    let before = f;
    f.usb_interrupt();
    assert!(f.executor.usb.wake);
    assert_eq!(f.blink, before.blink);
    assert_eq!(f.led, before.led);
    assert_eq!(f.executor.blink, before.executor.blink);
}

#[test]
fn spawn_only_before_start_and_once() {
    let mut e = Executor::new();
    assert_eq!(e.next_task(), None);
    assert_eq!(e.spawn(TaskId::Usb), Ok(()));
    assert_eq!(e.spawn(TaskId::Usb), Err(SpawnError::AlreadySpawned));
    e.start();
    assert_eq!(e.spawn(TaskId::Blink), Err(SpawnError::Started));
    assert_eq!(e.next_task(), Some(TaskId::Usb));
    assert_eq!(e.next_task(), None);
    e.usb_interrupt();
    assert!(e.is_runnable(TaskId::Usb));
    assert_eq!(e.next_task(), Some(TaskId::Usb));
    assert!(!e.usb.wake);
}

#[test]
fn timer_deadline_saturates() {
    let mut e = Executor::new();
    e.advance_time(u64::MAX - 10);
    e.delay_blink(1000);
    assert_eq!(e.deadline_ms, u64::MAX);
    e.delay_blink(10);
    assert_eq!(e.deadline_ms, u64::MAX);
}

#[test]
fn arena_reserves_each_buffer_once() {
    let mut a = StaticArena::new();
    assert_eq!(a.reserve(BufferId::ConfigDescriptor).map(|b| b.len()), Ok(256));
    assert_eq!(a.reserve(BufferId::ControlBuf), Ok(vec![0u8; 64]));
    assert_eq!(a.reserve(BufferId::ConfigDescriptor), Err(DoubleInit));
    assert_eq!(a.reserve(BufferId::BosDescriptor).map(|b| b.len()), Ok(256));
    assert_eq!(a.reserve(BufferId::BosDescriptor), Err(DoubleInit));
}
