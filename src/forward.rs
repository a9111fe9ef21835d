use vstd::prelude::*;
use crate::errno::{EAGAIN, EIO, ETIMEDOUT};
use crate::relay::{Relay, RelayEvent, RelayView, relay_step, relay_start};

verus! {

/// The readiness tag of the caller's input.
pub const STDIN_EVENT: u64 = 1;

/// The readiness tag of the PTY master.
pub const MASTER_EVENT: u64 = 2;

/// The readiness tag of the window-size signal descriptor.
pub const SIGNAL_EVENT: u64 = 3;

/// How many bytes one read takes at most.
pub const READ_BUFFER_SIZE: usize = 4096;

/// How often the master is probed for the remote shell before giving up.
pub const READY_ATTEMPTS: u32 = 30;

/// The pause between two probes, in milliseconds.
pub const READY_PAUSE_MS: u64 = 100;

/// What a descriptor registered with the multiplexer is for.
#[derive(Clone, Copy, Debug, PartialEq, Eq, Structural)]
pub enum Role {
    /// The caller's input: its bytes go to the master.
    Input,
    /// The PTY master: its bytes go to the caller's output.
    Master,
    /// The descriptor that reports window-size changes.
    Signal,
}

/// Where relayed bytes go.
#[derive(Clone, Copy, Debug, PartialEq, Eq, Structural)]
pub enum Direction {
    /// From the caller's input to the master.
    ToMaster,
    /// From the master to the caller's output.
    ToOutput,
}

/// The tag a role is registered under.
pub open spec fn role_tag(role: Role) -> u64 {
    match role {
        Role::Input => STDIN_EVENT,
        Role::Master => MASTER_EVENT,
        Role::Signal => SIGNAL_EVENT,
    }
}

/// The role registered under a tag, if any.
pub open spec fn tag_role(tag: u64) -> Option<Role> {
    if tag == STDIN_EVENT {
        Some(Role::Input)
    } else if tag == MASTER_EVENT {
        Some(Role::Master)
    } else if tag == SIGNAL_EVENT {
        Some(Role::Signal)
    } else {
        None
    }
}

/// The tag a role is registered under.
pub fn tag_of(role: Role) -> (r: u64)
    ensures
        r == role_tag(role),
{
    match role {
        Role::Input => STDIN_EVENT,
        Role::Master => MASTER_EVENT,
        Role::Signal => SIGNAL_EVENT,
    }
}

/// The role registered under a tag, if any.
pub fn role_of(tag: u64) -> (r: Option<Role>)
    ensures
        r == tag_role(tag),
{
    if tag == STDIN_EVENT {
        Some(Role::Input)
    } else if tag == MASTER_EVENT {
        Some(Role::Master)
    } else if tag == SIGNAL_EVENT {
        Some(Role::Signal)
    } else {
        None
    }
}

/// Each registered descriptor has one tag, and the tag alone tells its role.
pub proof fn lemma_tags_identify_roles(a: Role, b: Role)
    ensures
        tag_role(role_tag(a)) == Some(a),
        role_tag(a) == role_tag(b) ==> a == b,
{
}

/// Where the bytes read through a role go.
pub open spec fn direction_of(role: Role) -> Direction {
    match role {
        Role::Master => Direction::ToOutput,
        _ => Direction::ToMaster,
    }
}

/// What the caller of a session does next.
#[derive(Clone, Copy, Debug, PartialEq, Eq, Structural)]
pub enum Action {
    /// Write the bytes waiting in this direction, then read its source again.
    Write(Direction),
    /// Nothing more to do on this descriptor until it is ready again.
    Idle,
    /// Apply the caller's window size to the master.
    Resize,
    /// Sleep this many milliseconds, then probe the master again.
    Sleep(u64),
    /// The remote shell has gone: tear down, and report success.
    Hangup,
    /// The master never became readable: tear down, and report a timeout.
    TimedOut,
    /// Tear down, and report this error.
    Fail(i32),
}

/// Whether an action ends the session.
pub open spec fn ends(a: Action) -> bool {
    a is Hangup || a is TimedOut || a is Fail
}

/// The stages of a session.
#[derive(Clone, Copy, Debug, PartialEq, Eq, Structural)]
pub enum Phase {
    /// Probing the master until the remote shell has attached.
    Waiting,
    /// Relaying bytes.
    Forwarding,
    /// Done: the terminal is to be, or has been, restored.
    Closed,
}

/// The action after probing the master, at the given number of earlier
/// failed probes: a successful read means the remote shell is there.
pub open spec fn probe_action(attempts: nat, ok: bool) -> Action {
    if ok {
        Action::Write(Direction::ToOutput)
    } else if attempts + 1 >= READY_ATTEMPTS {
        Action::TimedOut
    } else {
        Action::Sleep(READY_PAUSE_MS)
    }
}

/// The action after a read from the caller's input or from the master.
/// An empty read means nothing is there now; "would block" likewise; a
/// device error on the master means the remote side has closed; any other
/// error is fatal.
pub open spec fn read_action(role: Role, r: Result<Seq<u8>, i32>) -> Action {
    match r {
        Ok(b) => if b.len() > 0 {
            Action::Write(direction_of(role))
        } else {
            Action::Idle
        },
        Err(e) => if e == EAGAIN {
            Action::Idle
        } else if e == EIO && role == Role::Master {
            Action::Hangup
        } else {
            Action::Fail(e)
        },
    }
}

/// The action after draining the window-size signal descriptor.
pub open spec fn signal_action(r: Result<(), i32>) -> Action {
    match r {
        Ok(()) => Action::Resize,
        Err(e) => Action::Fail(e),
    }
}

/// The action after a write in a direction failed: "would block" means try
/// again; anything else is fatal.
pub open spec fn write_error_action(dir: Direction, e: i32) -> Action {
    if e == EAGAIN {
        Action::Write(dir)
    } else {
        Action::Fail(e)
    }
}

/// The result a session reports once an action has ended it.
pub open spec fn exit_result(a: Action) -> Option<Result<(), i32>> {
    match a {
        Action::Hangup => Some(Ok(())),
        Action::TimedOut => Some(Err(ETIMEDOUT)),
        Action::Fail(e) => Some(Err(e)),
        _ => None,
    }
}

/// The result a session reports once an action has ended it.
pub fn exit_result_of(a: Action) -> (r: Option<Result<(), i32>>)
    ensures
        r == exit_result(a),
{
    match a {
        Action::Hangup => Some(Ok(())),
        Action::TimedOut => Some(Err(ETIMEDOUT)),
        Action::Fail(e) => Some(Err(e)),
        _ => None,
    }
}

/// The stage, the failed probes and the saved terminal attributes of a session.
pub struct Control<T> {
    pub phase: Phase,
    pub attempts: nat,
    pub terminal: Option<T>,
}

/// One event of a session, as far as its stage and terminal are concerned.
pub enum ControlEvent {
    /// A probe of the master, that read something or failed.
    Probe(bool),
    /// A read through a role.
    Read(Role, Result<Seq<u8>, i32>),
    /// A drain of the signal descriptor.
    Signal(Result<(), i32>),
    /// A failed write in a direction.
    WriteFailed(Direction, i32),
    /// The teardown.
    Finish,
}

/// A session that has just saved the terminal attributes `saved`.
pub open spec fn control_start<T>(saved: T) -> Control<T> {
    Control { phase: Phase::Waiting, attempts: 0, terminal: Some(saved) }
}

/// The stage after an action: an ending action closes the session.
pub open spec fn phase_after(phase: Phase, a: Action) -> Phase {
    if ends(a) {
        Phase::Closed
    } else {
        phase
    }
}

/// A session's stage, failed probes and saved attributes after one event.
pub open spec fn control_step<T>(c: Control<T>, e: ControlEvent) -> Control<T> {
    match e {
        ControlEvent::Probe(ok) => {
            let a = probe_action(c.attempts, ok);
            Control {
                phase: if ok {
                    Phase::Forwarding
                } else {
                    phase_after(c.phase, a)
                },
                attempts: if ok {
                    c.attempts
                } else {
                    c.attempts + 1
                },
                terminal: c.terminal,
            }
        },
        ControlEvent::Read(role, r) => Control {
            phase: phase_after(c.phase, read_action(role, r)),
            ..c
        },
        ControlEvent::Signal(r) => Control { phase: phase_after(c.phase, signal_action(r)), ..c },
        ControlEvent::WriteFailed(dir, e) => Control {
            phase: phase_after(c.phase, write_error_action(dir, e)),
            ..c
        },
        ControlEvent::Finish => Control { phase: Phase::Closed, attempts: c.attempts, terminal: None },
    }
}

/// A session's stage, failed probes and saved attributes after a sequence
/// of events.
pub open spec fn control_run<T>(saved: T, evs: Seq<ControlEvent>) -> Control<T>
    decreases evs.len(),
{
    if evs.len() == 0 {
        control_start(saved)
    } else {
        control_step(control_run(saved, evs.drop_last()), evs.last())
    }
}

/// Whatever a session went through (the remote side hanging up, a fatal
/// error, a timeout, or none yet), the saved attributes stay exactly those
/// captured before raw mode, until the first teardown hands them back for
/// restoring; no later teardown hands anything back.
pub proof fn lemma_restore_exactly_once<T>(saved: T, evs: Seq<ControlEvent>)
    ensures
        control_run(saved, evs).terminal == if exists|i: int|
            0 <= i < evs.len() && #[trigger] evs[i] is Finish {
            None
        } else {
            Some(saved)
        },
    decreases evs.len(),
{
    if evs.len() > 0 {
        let prev = evs.drop_last();
        lemma_restore_exactly_once(saved, prev);
        if exists|i: int| 0 <= i < prev.len() && #[trigger] prev[i] is Finish {
            let i = choose|i: int| 0 <= i < prev.len() && #[trigger] prev[i] is Finish;
            assert(evs[i] == prev[i]);
        }
        if exists|i: int| 0 <= i < evs.len() && #[trigger] evs[i] is Finish {
            let i = choose|i: int| 0 <= i < evs.len() && #[trigger] evs[i] is Finish;
            if i < prev.len() {
                assert(prev[i] == evs[i]);
            }
        }
    }
}

/// A sequence of `k` failed probes.
pub open spec fn failed_probes(k: nat) -> Seq<ControlEvent> {
    Seq::new(k, |i: int| ControlEvent::Probe(false))
}

/// While the master stays unreadable, a session keeps waiting, never
/// forwarding, until the last allowed probe closes it.
pub proof fn lemma_unready_master_closes<T>(saved: T, k: nat)
    requires
        1 <= k <= READY_ATTEMPTS,
    ensures
        control_run(saved, failed_probes(k)).attempts == k,
        control_run(saved, failed_probes(k)).phase == if k < READY_ATTEMPTS {
            Phase::Waiting
        } else {
            Phase::Closed
        },
        probe_action((k - 1) as nat, false) == if k < READY_ATTEMPTS {
            Action::Sleep(READY_PAUSE_MS)
        } else {
            Action::TimedOut
        },
    decreases k,
{
    assert(failed_probes(k).drop_last() =~= failed_probes((k - 1) as nat));
    if k > 1 {
        lemma_unready_master_closes(saved, (k - 1) as nat);
    } else {
        assert(failed_probes(0) =~= Seq::<ControlEvent>::empty());
    }
}


/// A descriptor's status flags with the non-blocking bit `bit` set or cleared.
pub fn nonblock_flags(flags: i32, bit: i32, nonblock: bool) -> (r: i32)
    ensures
        r == if nonblock {
            flags | bit
        } else {
            flags & !bit
        },
{
    if nonblock {
        flags | bit
    } else {
        flags & !bit
    }
}

/// A forwarding session between the caller's terminal and a PTY master: its
/// stage, the attributes saved before raw mode, and one relay buffer each way.
pub struct Session<T> {
    phase: Phase,
    attempts: u32,
    terminal: Option<T>,
    to_master: Relay,
    to_output: Relay,
}

impl<T> Session<T> {
    /// The stage, failed probes and saved attributes.
    pub closed spec fn control(&self) -> Control<T> {
        Control { phase: self.phase, attempts: self.attempts as nat, terminal: self.terminal }
    }

    /// The relay buffer of a direction.
    pub closed spec fn relay(&self, dir: Direction) -> RelayView {
        match dir {
            Direction::ToMaster => self.to_master@,
            Direction::ToOutput => self.to_output@,
        }
    }

    /// The bounds the session keeps.
    pub closed spec fn wf(&self) -> bool {
        self.attempts <= READY_ATTEMPTS && (self.phase == Phase::Waiting ==> self.attempts
            < READY_ATTEMPTS)
    }

    /// A session whose terminal attributes before raw mode were `saved`.
    pub fn new(saved: T) -> (r: Session<T>)
        ensures
            r.wf(),
            r.control() == control_start(saved),
            r.relay(Direction::ToMaster) == relay_start(),
            r.relay(Direction::ToOutput) == relay_start(),
    {
        Session {
            phase: Phase::Waiting,
            attempts: 0,
            terminal: Some(saved),
            to_master: Relay::new(),
            to_output: Relay::new(),
        }
    }

    /// The session's stage.
    pub fn phase(&self) -> (r: Phase)
        ensures
            r == self.control().phase,
    {
        self.phase
    }

    /// Takes the outcome of a probe of the master while waiting for the
    /// remote shell: the bytes read, or the error.
    pub fn probe(&mut self, r: Result<&[u8], i32>) -> (a: Action)
        requires
            old(self).wf(),
            old(self).control().phase == Phase::Waiting,
        ensures
            final(self).wf(),
            a == probe_action(old(self).control().attempts, r is Ok),
            final(self).control() == control_step(old(self).control(), ControlEvent::Probe(r is Ok)),
            final(self).relay(Direction::ToMaster) == old(self).relay(Direction::ToMaster),
            final(self).relay(Direction::ToOutput) == match r {
                Ok(b) => relay_step(old(self).relay(Direction::ToOutput), RelayEvent::Read(b@)),
                Err(_) => old(self).relay(Direction::ToOutput),
            },
    {
        match r {
            Ok(b) => {
                self.to_output.read(b);
                self.phase = Phase::Forwarding;
                Action::Write(Direction::ToOutput)
            },
            Err(_) => {
                if self.attempts + 1 >= READY_ATTEMPTS {
                    self.attempts = self.attempts + 1;
                    self.phase = Phase::Closed;
                    Action::TimedOut
                } else {
                    self.attempts = self.attempts + 1;
                    Action::Sleep(READY_PAUSE_MS)
                }
            },
        }
    }

    /// Takes the outcome of a read through the caller's input or the master:
    /// the bytes read, or the error.
    pub fn on_read(&mut self, role: Role, r: Result<&[u8], i32>) -> (a: Action)
        requires
            old(self).wf(),
            old(self).control().phase == Phase::Forwarding,
            role != Role::Signal,
        ensures
            final(self).wf(),
            a == read_action(
                role,
                match r {
                    Ok(b) => Ok(b@),
                    Err(e) => Err(e),
                },
            ),
            final(self).control() == control_step(
                old(self).control(),
                ControlEvent::Read(
                    role,
                    match r {
                        Ok(b) => Ok(b@),
                        Err(e) => Err(e),
                    },
                ),
            ),
            forall|dir: Direction|
                #![trigger final(self).relay(dir)]
                final(self).relay(dir) == match r {
                    Ok(b) => if dir == direction_of(role) {
                        relay_step(old(self).relay(dir), RelayEvent::Read(b@))
                    } else {
                        old(self).relay(dir)
                    },
                    Err(_) => old(self).relay(dir),
                },
    {
        match r {
            Ok(b) => {
                if role == Role::Master {
                    self.to_output.read(b);
                } else {
                    self.to_master.read(b);
                }
                if b.len() > 0 {
                    Action::Write(if role == Role::Master {
                        Direction::ToOutput
                    } else {
                        Direction::ToMaster
                    })
                } else {
                    Action::Idle
                }
            },
            Err(e) => {
                if e == EAGAIN {
                    Action::Idle
                } else if e == EIO && role == Role::Master {
                    self.phase = Phase::Closed;
                    Action::Hangup
                } else {
                    self.phase = Phase::Closed;
                    Action::Fail(e)
                }
            },
        }
    }

    /// Takes the outcome of draining the window-size signal descriptor.
    pub fn on_signal(&mut self, r: Result<(), i32>) -> (a: Action)
        requires
            old(self).control().phase == Phase::Forwarding,
        ensures
            a == signal_action(r),
            final(self).control() == control_step(old(self).control(), ControlEvent::Signal(r)),
            final(self).wf() == old(self).wf(),
            forall|d: Direction|
                #![trigger final(self).relay(d)]
                final(self).relay(d) == old(self).relay(d),
    {
        match r {
            Ok(()) => Action::Resize,
            Err(e) => {
                self.phase = Phase::Closed;
                Action::Fail(e)
            },
        }
    }

    /// The bytes waiting to be written in a direction.
    pub fn pending(&self, dir: Direction) -> (r: &[u8])
        ensures
            r@ == self.relay(dir).pending,
    {
        match dir {
            Direction::ToMaster => self.to_master.pending(),
            Direction::ToOutput => self.to_output.pending(),
        }
    }

    /// Whether nothing waits to be written in a direction.
    pub fn is_drained(&self, dir: Direction) -> (r: bool)
        ensures
            r == (self.relay(dir).pending.len() == 0),
    {
        match dir {
            Direction::ToMaster => self.to_master.is_drained(),
            Direction::ToOutput => self.to_output.is_drained(),
        }
    }

    /// Records that a write in a direction took the first `n` waiting bytes.
    pub fn wrote(&mut self, dir: Direction, n: usize)
        requires
            n <= old(self).relay(dir).pending.len(),
        ensures
            final(self).control() == old(self).control(),
            final(self).wf() == old(self).wf(),
            forall|d: Direction|
                #![trigger final(self).relay(d)]
                final(self).relay(d) == if d == dir {
                    relay_step(old(self).relay(d), RelayEvent::Wrote(n as nat))
                } else {
                    old(self).relay(d)
                },
    {
        match dir {
            Direction::ToMaster => self.to_master.wrote(n),
            Direction::ToOutput => self.to_output.wrote(n),
        }
    }

    /// Takes the error of a failed write in a direction.
    pub fn on_write_error(&mut self, dir: Direction, e: i32) -> (a: Action)
        ensures
            a == write_error_action(dir, e),
            final(self).control() == control_step(
                old(self).control(),
                ControlEvent::WriteFailed(dir, e),
            ),
            old(self).wf() ==> final(self).wf(),
            forall|d: Direction|
                #![trigger final(self).relay(d)]
                final(self).relay(d) == old(self).relay(d),
    {
        if e == EAGAIN {
            Action::Write(dir)
        } else {
            self.phase = Phase::Closed;
            Action::Fail(e)
        }
    }

    /// The teardown: hands back the saved terminal attributes, to be
    /// restored, the first time; nothing afterwards.
    pub fn finish(&mut self) -> (r: Option<T>)
        ensures
            r == old(self).control().terminal,
            final(self).control() == control_step(old(self).control(), ControlEvent::Finish),
            old(self).wf() ==> final(self).wf(),
            forall|d: Direction|
                #![trigger final(self).relay(d)]
                final(self).relay(d) == old(self).relay(d),
    {
        self.phase = Phase::Closed;
        self.terminal.take()
    }
}

} // verus!
