use vstd::prelude::*;

verus! {

/// Interval between two toggles of the LED, in milliseconds.
pub const BLINK_PERIOD_MS: u64 = 1000;

/// Level of a digital output.
#[derive(Clone, Copy, Debug, PartialEq, Eq, Structural)]
pub enum Level {
    Low,
    High,
}

/// The level driven after the counter has reached `c`: high on even counts.
pub open spec fn level_of(c: u64) -> Level {
    if c % 2 == 0 { Level::High } else { Level::Low }
}

/// The level driven on the `k`-th resumption (from 0): low first, then
/// alternating.
pub open spec fn blink_level(k: nat) -> Level {
    if k % 2 == 0 { Level::Low } else { Level::High }
}

/// The blink task's saved state: how many times it has run.
#[derive(Clone, Copy, Debug, PartialEq, Eq, Structural)]
pub struct Blink {
    pub counter: u64,
}

impl Blink {
    pub fn new() -> (r: Blink)
        ensures
            r.counter == 0,
    {
        Blink { counter: 0 }
    }

    /// One resumption: counts, and returns the level to drive until the next.
    pub fn step(&mut self) -> (r: Level)
        ensures
            final(self).counter == (old(self).counter + 1) % 0x1_0000_0000_0000_0000,
            r == level_of(final(self).counter),
    {
        self.counter = self.counter.wrapping_add(1);
        if self.counter % 2 == 0 { Level::High } else { Level::Low }
    }
}

/// After `k` resumptions from a fresh start, the next one drives
/// `blink_level(k)`: the output starts low and changes on every resumption.
pub proof fn lemma_blink_alternates(k: nat)
    ensures
        level_of(((k + 1) % 0x1_0000_0000_0000_0000) as u64) == blink_level(k),
        blink_level(k) != blink_level(k + 1),
        blink_level(0) == Level::Low,
{
    let m = (k + 1) % 0x1_0000_0000_0000_0000;
    assert(m % 2 == (k + 1) % 2) by {
        vstd::arithmetic::div_mod::lemma_mod_mod((k + 1) as int, 2, 0x8000_0000_0000_0000);
    }
}

/// The tasks of the firmware.
#[derive(Clone, Copy, Debug, PartialEq, Eq, Structural)]
pub enum TaskId {
    Usb,
    Blink,
}

/// Why a task could not be registered.
#[derive(Clone, Copy, Debug, PartialEq, Eq, Structural)]
pub enum SpawnError {
    /// The run loop has already started.
    Started,
    /// The task is registered already.
    AlreadySpawned,
}

/// One task's slot: registered, resumed at least once, wake signal pending.
#[derive(Clone, Copy, Debug, PartialEq, Eq, Structural)]
pub struct TaskSlot {
    pub spawned: bool,
    pub ran: bool,
    pub wake: bool,
}

pub open spec fn runnable(t: TaskSlot) -> bool {
    t.spawned && (!t.ran || t.wake)
}

/// A cooperative scheduler for the two tasks, with the timer that the blink
/// task waits on. Interrupts only set wake signals; a task runs only when
/// the executor hands it the turn.
#[derive(Clone, Copy, Debug, PartialEq, Eq, Structural)]
pub struct Executor {
    pub started: bool,
    pub usb: TaskSlot,
    pub blink: TaskSlot,
    /// The task resumed last, so that a pending task is never passed over twice.
    pub last: TaskId,
    pub now_ms: u64,
    /// When the blink task's delay elapses.
    pub deadline_ms: u64,
}

pub open spec fn idle_slot() -> TaskSlot {
    TaskSlot { spawned: false, ran: false, wake: false }
}

pub open spec fn slot_of(e: Executor, t: TaskId) -> TaskSlot {
    match t {
        TaskId::Usb => e.usb,
        TaskId::Blink => e.blink,
    }
}

pub open spec fn with_slot(e: Executor, t: TaskId, s: TaskSlot) -> Executor {
    match t {
        TaskId::Usb => Executor { usb: s, ..e },
        TaskId::Blink => Executor { blink: s, ..e },
    }
}

pub open spec fn other(t: TaskId) -> TaskId {
    match t {
        TaskId::Usb => TaskId::Blink,
        TaskId::Blink => TaskId::Usb,
    }
}

/// The task to resume: the one not resumed last when both are runnable.
pub open spec fn pick(e: Executor) -> Option<TaskId> {
    if !e.started {
        None
    } else if runnable(slot_of(e, other(e.last))) {
        Some(other(e.last))
    } else if runnable(slot_of(e, e.last)) {
        Some(e.last)
    } else {
        None
    }
}

impl Executor {
    pub fn new() -> (r: Executor)
        ensures
            r == (Executor {
                started: false,
                usb: idle_slot(),
                blink: idle_slot(),
                last: TaskId::Blink,
                now_ms: 0,
                deadline_ms: 0,
            }),
    {
        Executor {
            started: false,
            usb: TaskSlot { spawned: false, ran: false, wake: false },
            blink: TaskSlot { spawned: false, ran: false, wake: false },
            last: TaskId::Blink,
            now_ms: 0,
            deadline_ms: 0,
        }
    }

    /// Registers a task; only before the run loop starts, once per task.
    pub fn spawn(&mut self, t: TaskId) -> (r: Result<(), SpawnError>)
        ensures
            old(self).started ==> r == Err::<(), SpawnError>(SpawnError::Started),
            !old(self).started && slot_of(*old(self), t).spawned
                ==> r == Err::<(), SpawnError>(SpawnError::AlreadySpawned),
            r.is_err() ==> *final(self) == *old(self),
            r.is_ok() == (!old(self).started && !slot_of(*old(self), t).spawned),
            r.is_ok() ==> *final(self) == with_slot(*old(self), t, TaskSlot { spawned: true, ran: false, wake: false }),
    {
        if self.started {
            return Err(SpawnError::Started);
        }
        let fresh = TaskSlot { spawned: true, ran: false, wake: false };
        match t {
            TaskId::Usb => {
                if self.usb.spawned {
                    return Err(SpawnError::AlreadySpawned);
                }
                self.usb = fresh;
            },
            TaskId::Blink => {
                if self.blink.spawned {
                    return Err(SpawnError::AlreadySpawned);
                }
                self.blink = fresh;
            },
        }
        Ok(())
    }

    /// Enters the run loop: no task can be registered after this.
    pub fn start(&mut self)
        ensures
            *final(self) == (Executor { started: true, ..*old(self) }),
    {
        self.started = true;
    }

    /// The USB interrupt: sets the USB task's wake signal and nothing else.
    pub fn usb_interrupt(&mut self)
        ensures
            *final(self) == (Executor { usb: TaskSlot { wake: true, ..old(self).usb }, ..*old(self) }),
    {
        self.usb.wake = true;
    }

    /// The clock reads `now`: when the blink task's delay has elapsed, its
    /// wake signal is set. Nothing else changes.
    pub fn advance_time(&mut self, now: u64)
        requires
            old(self).now_ms <= now,
        ensures
            *final(self) == (Executor {
                now_ms: now,
                blink: TaskSlot {
                    wake: old(self).blink.wake || (old(self).blink.spawned && old(self).blink.ran
                        && old(self).deadline_ms <= now),
                    ..old(self).blink
                },
                ..*old(self)
            }),
    {
        self.now_ms = now;
        if self.blink.spawned && self.blink.ran && self.deadline_ms <= now {
            self.blink.wake = true;
        }
    }

    /// Hands the turn to one runnable task, clearing the wake signal it
    /// consumes; `None` when no task is runnable (wait for an interrupt).
    pub fn next_task(&mut self) -> (r: Option<TaskId>)
        ensures
            r == pick(*old(self)),
            r matches Some(t) ==> *final(self) == (Executor {
                last: t,
                ..with_slot(*old(self), t, (TaskSlot { ran: true, wake: false, ..slot_of(*old(self), t) }))
            }),
            r.is_none() ==> *final(self) == *old(self),
    {
        if !self.started {
            return None;
        }
        let first = match self.last {
            TaskId::Usb => TaskId::Blink,
            TaskId::Blink => TaskId::Usb,
        };
        let chosen = if self.is_runnable(first) {
            first
        } else if self.is_runnable(self.last) {
            self.last
        } else {
            return None;
        };
        match chosen {
            TaskId::Usb => {
                self.usb.ran = true;
                self.usb.wake = false;
            },
            TaskId::Blink => {
                self.blink.ran = true;
                self.blink.wake = false;
            },
        }
        self.last = chosen;
        Some(chosen)
    }

    pub fn is_runnable(&self, t: TaskId) -> (r: bool)
        ensures
            r == runnable(slot_of(*self, t)),
    {
        let s = match t {
            TaskId::Usb => self.usb,
            TaskId::Blink => self.blink,
        };
        s.spawned && (!s.ran || s.wake)
    }

    /// The blink task suspends on a delay of `ms` from now.
    pub fn delay_blink(&mut self, ms: u64)
        ensures
            *final(self) == (Executor {
                deadline_ms: if old(self).now_ms + ms > u64::MAX { u64::MAX } else { (old(self).now_ms + ms) as u64 },
                ..*old(self)
            }),
    {
        self.deadline_ms = if self.now_ms > u64::MAX - ms { u64::MAX } else { self.now_ms + ms };
    }
}

pub open spec fn delay_end(now: u64, ms: u64) -> u64 {
    if now + ms > u64::MAX { u64::MAX } else { (now + ms) as u64 }
}

pub open spec fn next_count(c: u64) -> u64 {
    ((c + 1) % 0x1_0000_0000_0000_0000) as u64
}

/// The firmware after one scheduling step.
pub open spec fn fw_poll(f: Firmware) -> Firmware {
    match pick(f.executor) {
        None => f,
        Some(t) => {
            let e = Executor {
                last: t,
                ..with_slot(f.executor, t, TaskSlot { ran: true, wake: false, ..slot_of(f.executor, t) })
            };
            if t == TaskId::Blink {
                Firmware {
                    executor: Executor { deadline_ms: delay_end(e.now_ms, BLINK_PERIOD_MS), ..e },
                    blink: Blink { counter: next_count(f.blink.counter) },
                    led: level_of(next_count(f.blink.counter)),
                }
            } else {
                Firmware { executor: e, ..f }
            }
        },
    }
}

/// The firmware after the clock reads `now`.
pub open spec fn fw_advance(f: Firmware, now: u64) -> Firmware {
    Firmware {
        executor: Executor {
            now_ms: now,
            blink: TaskSlot {
                wake: f.executor.blink.wake || (f.executor.blink.spawned && f.executor.blink.ran
                    && f.executor.deadline_ms <= now),
                ..f.executor.blink
            },
            ..f.executor
        },
        ..f
    }
}

/// The firmware after a USB interrupt.
pub open spec fn fw_usb_interrupt(f: Firmware) -> Firmware {
    Firmware { executor: Executor { usb: TaskSlot { wake: true, ..f.executor.usb }, ..f.executor }, ..f }
}

/// The blink task has run `k` times (modulo 2^64), drives the level of its
/// last run and waits for a deadline one period after its last run.
pub open spec fn blink_waiting(f: Firmware, k: u64) -> bool {
    &&& f.executor.started
    &&& f.executor.blink.spawned && f.executor.blink.ran && !f.executor.blink.wake
    &&& f.blink.counter == k
    &&& f.led == level_of(k)
    &&& f.executor.now_ms < f.executor.deadline_ms
}

/// As `blink_waiting`, but the deadline has come: the wake signal is set.
pub open spec fn blink_due(f: Firmware, k: u64) -> bool {
    &&& f.executor.started
    &&& f.executor.blink.spawned && f.executor.blink.ran && f.executor.blink.wake
    &&& f.blink.counter == k
    &&& f.led == level_of(k)
}

/// While its delay runs, the blink task neither runs nor changes the LED,
/// whatever USB interrupts and scheduling steps come; once the clock reaches
/// its deadline it is due, and within two scheduling steps it has run exactly
/// once, flipping the LED, and waits one period from the deadline.
pub proof fn lemma_blink_once_per_period(f: Firmware, k: u64, now: u64)
    requires
        blink_waiting(f, k),
        f.executor.now_ms <= now,
        f.executor.deadline_ms as int + BLINK_PERIOD_MS <= u64::MAX,
    ensures
        blink_waiting(fw_usb_interrupt(f), k),
        blink_waiting(fw_poll(f), k),
        now < f.executor.deadline_ms ==> blink_waiting(fw_advance(f, now), k),
        now >= f.executor.deadline_ms ==> blink_due(fw_advance(f, now), k),
{
}

/// A due blink task stays due through USB interrupts; a scheduling step
/// either runs it, leaving it waiting with the LED flipped, or runs the USB
/// task, after which the next step runs it.
pub proof fn lemma_due_blink_runs(f: Firmware, k: u64)
    requires
        blink_due(f, k),
        f.executor.now_ms as int + BLINK_PERIOD_MS <= u64::MAX,
    ensures
        blink_due(fw_usb_interrupt(f), k),
        f.executor.last == TaskId::Usb ==> blink_waiting(fw_poll(f), next_count(k)),
        blink_waiting(fw_poll(f), next_count(k)) || (blink_due(fw_poll(f), k)
            && fw_poll(f).executor.last == TaskId::Usb && fw_poll(f).executor.now_ms == f.executor.now_ms),
        level_of(next_count(k)) != level_of(k),
{
    assert(next_count(k) % 2 != k % 2) by {
        if k == u64::MAX {
            assert(next_count(k) == 0);
        } else {
            assert(next_count(k) == k + 1);
        }
    }
}

/// Whatever the order of interrupts and scheduling steps, the blink task's
/// state changes only on its own turn, and an interrupt or a clock reading
/// only sets a wake signal: the state a task owns is mutated only while that
/// task runs.
pub proof fn lemma_exclusive_mutation(f: Firmware, now: u64)
    ensures
        fw_usb_interrupt(f).blink == f.blink && fw_usb_interrupt(f).led == f.led,
        fw_usb_interrupt(f).executor == (Executor { usb: fw_usb_interrupt(f).executor.usb, ..f.executor }),
        fw_usb_interrupt(f).executor.usb == (TaskSlot { wake: true, ..f.executor.usb }),
        fw_advance(f, now).blink == f.blink && fw_advance(f, now).led == f.led,
        fw_advance(f, now).executor.usb == f.executor.usb,
        pick(f.executor) != Some(TaskId::Blink) ==> fw_poll(f).blink == f.blink && fw_poll(f).led == f.led,
        pick(f.executor) == Some(TaskId::Blink) ==> fw_poll(f).executor.usb == f.executor.usb,
{
}

/// The two tasks and their shared scheduler. The USB device is driven by
/// the caller when the USB task has the turn; nothing here can reach it.
#[derive(Clone, Copy, Debug, PartialEq, Eq, Structural)]
pub struct Firmware {
    pub executor: Executor,
    pub blink: Blink,
    pub led: Level,
}

impl Firmware {
    /// Both tasks registered and the run loop entered; the LED is low.
    pub fn new() -> (r: Firmware)
        ensures
            r.executor.started,
            r.executor.usb == (TaskSlot { spawned: true, ran: false, wake: false }),
            r.executor.blink == (TaskSlot { spawned: true, ran: false, wake: false }),
            r.executor.now_ms == 0,
            r.blink.counter == 0,
            r.led == Level::Low,
    {
        let mut executor = Executor::new();
        let _ = executor.spawn(TaskId::Usb);
        let _ = executor.spawn(TaskId::Blink);
        executor.start();
        Firmware { executor, blink: Blink::new(), led: Level::Low }
    }

    /// Runs one scheduling step. When the blink task has the turn it counts,
    /// drives the LED and waits one period again; when the USB task has it,
    /// the caller services the device. Returns the task that ran.
    pub fn poll(&mut self) -> (r: Option<TaskId>)
        ensures
            *final(self) == fw_poll(*old(self)),
            r == pick(old(self).executor),
            r != Some(TaskId::Blink) ==> final(self).blink == old(self).blink && final(self).led == old(self).led,
            r == Some(TaskId::Blink) ==> final(self).blink.counter == (old(self).blink.counter + 1) % 0x1_0000_0000_0000_0000
                && final(self).led == level_of(final(self).blink.counter)
                && !final(self).executor.blink.wake
                && final(self).executor.deadline_ms == (if old(self).executor.now_ms + BLINK_PERIOD_MS > u64::MAX { u64::MAX } else { (old(self).executor.now_ms + BLINK_PERIOD_MS) as u64 }),
            final(self).executor.now_ms == old(self).executor.now_ms,
            final(self).executor.started == old(self).executor.started,
            r == Some(TaskId::Usb) ==> !final(self).executor.usb.wake && final(self).executor.blink == old(self).executor.blink
                && final(self).executor.deadline_ms == old(self).executor.deadline_ms,
            r.is_none() ==> *final(self) == *old(self),
    {
        let t = self.executor.next_task();
        match t {
            Some(TaskId::Blink) => {
                self.led = self.blink.step();
                self.executor.delay_blink(BLINK_PERIOD_MS);
            },
            _ => {},
        }
        t
    }

    /// The clock reads `now`.
    pub fn advance_time(&mut self, now: u64)
        requires
            old(self).executor.now_ms <= now,
        ensures
            *final(self) == fw_advance(*old(self), now),
            final(self).blink == old(self).blink,
            final(self).led == old(self).led,
            final(self).executor.now_ms == now,
            final(self).executor.blink.wake == (old(self).executor.blink.wake || (old(self).executor.blink.spawned
                && old(self).executor.blink.ran && old(self).executor.deadline_ms <= now)),
            final(self).executor == (Executor { now_ms: now, blink: final(self).executor.blink, ..old(self).executor }),
    {
        self.executor.advance_time(now);
    }

    /// A USB interrupt: only the USB task's wake signal changes.
    pub fn usb_interrupt(&mut self)
        ensures
            *final(self) == fw_usb_interrupt(*old(self)),
    {
        self.executor.usb_interrupt();
    }
}

} // verus!
