use vstd::prelude::*;
use vstd::string::StringSliceAdditionalSpecFns;
use crate::bytes::{cstr, same, text_cstr};
use crate::errno::ESRCH;

verus! {

/// The largest process id.
pub const PID_MAX: i64 = 0x7fff_ffff;

/// A decimal digit.
pub open spec fn is_digit(b: u8) -> bool {
    48u8 <= b <= 57u8
}

/// The number that a string of decimal digits writes.
pub open spec fn decimal_value(s: Seq<u8>) -> int
    decreases s.len(),
{
    if s.len() == 0 {
        0
    } else {
        decimal_value(s.drop_last()) * 10 + (s.last() - 48u8)
    }
}

/// The process id that a process-table entry name stands for: a non-empty
/// string of decimal digits whose value lies in 1 ..= `PID_MAX`.
pub open spec fn pid_of(name: Seq<u8>) -> Option<int> {
    if name.len() > 0 && (forall|i: int| 0 <= i < name.len() ==> is_digit(#[trigger] name[i]))
        && 1 <= decimal_value(name) <= PID_MAX {
        Some(decimal_value(name))
    } else {
        None
    }
}

/// The process id that an entry name stands for, if any.
pub fn parse_pid(name: &[u8]) -> (r: Option<i32>)
    ensures
        match r {
            Some(p) => pid_of(name@) == Some(p as int),
            None => pid_of(name@) is None,
        },
{
    let n = name.len();
    if n == 0 {
        return None;
    }
    let big: i64 = PID_MAX + 1;
    let mut v: i64 = 0;
    let mut i: usize = 0;
    while i < n
        invariant
            n == name@.len(),
            i <= n,
            big == PID_MAX + 1,
            forall|j: int| 0 <= j < i ==> is_digit(#[trigger] name@[j]),
            v == if decimal_value(name@.subrange(0, i as int)) >= big {
                big as int
            } else {
                decimal_value(name@.subrange(0, i as int))
            },
            decimal_value(name@.subrange(0, i as int)) >= 0,
        decreases n - i,
    {
        let b = name[i];
        if b < 48u8 || b > 57u8 {
            return None;
        }
        let ghost prev = name@.subrange(0, i as int);
        assert(name@.subrange(0, i + 1).drop_last() =~= prev);
        let d = (b - 48u8) as i64;
        let next = v * 10 + d;
        v = if next >= big {
            big
        } else {
            next
        };
        i += 1;
    }
    assert(name@.subrange(0, n as int) =~= name@);
    if v >= 1 && v <= PID_MAX {
        Some(v as i32)
    } else {
        None
    }
}

/// An entry of the process table: its name, and the command name of the
/// process where it could be read.
pub struct ProcEntry {
    pub name: Vec<u8>,
    pub comm: Option<Vec<u8>>,
}

/// The command name, as the process table shows it, of the init program.
pub open spec fn init_comm() -> Seq<u8> {
    "systemd\n".spec_bytes()
}

/// An entry of a running init: a process id, with the init program's name.
pub open spec fn is_init_entry(e: ProcEntry) -> bool {
    pid_of(e.name@) is Some && match e.comm {
        Some(c) => c@ == init_comm(),
        None => false,
    }
}

/// The process ids of the init entries from position `i` on, in order.
pub open spec fn init_pids(t: Seq<ProcEntry>, i: int) -> Seq<int>
    decreases t.len() - i,
{
    if i < 0 || i >= t.len() {
        Seq::empty()
    } else if is_init_entry(t[i]) {
        seq![pid_of(t[i].name@)->Some_0] + init_pids(t, i + 1)
    } else {
        init_pids(t, i + 1)
    }
}

/// The first init entry's process id from position `i` on.
pub open spec fn first_init_from(t: Seq<ProcEntry>, i: int) -> Option<int>
    decreases t.len() - i,
{
    if i < 0 || i >= t.len() {
        None
    } else if is_init_entry(t[i]) {
        pid_of(t[i].name@)
    } else {
        first_init_from(t, i + 1)
    }
}

/// The process id of the first init in the process table.
pub open spec fn first_init(t: Seq<ProcEntry>) -> Option<int> {
    first_init_from(t, 0)
}

/// Whether a command name is the init program's.
pub fn is_init_comm(comm: &[u8]) -> (r: bool)
    ensures
        r == (comm@ == init_comm()),
{
    same(comm, "systemd\n".as_bytes())
}

/// The process id of the first running init in the process table, if any.
/// Entries that are not process ids, or whose command name could not be
/// read, are passed over.
pub fn locate(table: &Vec<ProcEntry>) -> (r: Option<i32>)
    ensures
        match r {
            Some(p) => first_init(table@) == Some(p as int),
            None => first_init(table@) is None,
        },
{
    let mut i: usize = 0;
    while i < table.len()
        invariant
            i <= table@.len(),
            first_init_from(table@, i as int) == first_init(table@),
        decreases table@.len() - i,
    {
        let e = &table[i];
        match parse_pid(e.name.as_slice()) {
            Some(pid) => {
                match &e.comm {
                    Some(c) => {
                        if is_init_comm(c.as_slice()) {
                            return Some(pid);
                        }
                    },
                    None => {},
                }
            },
            None => {},
        }
        i += 1;
    }
    None
}

proof fn lemma_first_is_head(t: Seq<ProcEntry>, i: int)
    requires
        0 <= i,
    ensures
        first_init_from(t, i) == if init_pids(t, i).len() > 0 {
            Some(init_pids(t, i)[0])
        } else {
            None::<int>
        },
    decreases t.len() - i,
{
    if i < t.len() {
        lemma_first_is_head(t, i + 1);
    }
}

/// Two scans of the process table that list the same init processes in the
/// same order, whatever other processes came or went between them, locate
/// the same process; in particular two scans of an unchanged table do.
pub proof fn lemma_locate_stable(t1: Seq<ProcEntry>, t2: Seq<ProcEntry>)
    requires
        init_pids(t1, 0) == init_pids(t2, 0),
    ensures
        first_init(t1) == first_init(t2),
{
    lemma_first_is_head(t1, 0);
    lemma_first_is_head(t2, 0);
}

/// What `ensure` does once it has scanned the process table.
#[derive(Clone, Copy, Debug, PartialEq, Eq, Structural)]
pub enum EnsureStep {
    /// An init runs already, with this process id: nothing to do.
    Running(i32),
    /// No init runs: create one.
    Create,
}

/// The step of `ensure` after a scan that located `found`.
pub fn ensure_step(found: Option<i32>) -> (r: EnsureStep)
    ensures
        r == match found {
            Some(p) => EnsureStep::Running(p),
            None => EnsureStep::Create,
        },
{
    match found {
        Some(p) => EnsureStep::Running(p),
        None => EnsureStep::Create,
    }
}

proof fn lemma_some_init_found(t: Seq<ProcEntry>, i: int, k: int)
    requires
        0 <= i <= k < t.len(),
        is_init_entry(t[k]),
    ensures
        first_init_from(t, i) is Some,
    decreases k - i,
{
    if !is_init_entry(t[i]) {
        lemma_some_init_found(t, i + 1, k);
    }
}

/// A scan right after `ensure` never finds the init absent: where an init
/// was running and is still listed as before, it is found; where one was
/// created, the table lists it under the init program's name, and a scan
/// finds an init.
pub proof fn lemma_ensure_then_locate(before: Seq<ProcEntry>, after: Seq<ProcEntry>)
    requires
        first_init(before) is Some ==> init_pids(after, 0) == init_pids(before, 0),
        first_init(before) is None ==> exists|k: int|
            0 <= k < after.len() && is_init_entry(#[trigger] after[k]),
    ensures
        first_init(after) is Some,
{
    if first_init(before) is Some {
        lemma_locate_stable(before, after);
    } else {
        let k = choose|k: int| 0 <= k < after.len() && is_init_entry(#[trigger] after[k]);
        lemma_some_init_found(after, 0, k);
    }
}

/// How the nested init is started: the program, its argument vector and
/// environment, and the private `/proc` mounted in its namespaces first.
pub struct InitLaunch {
    /// The init program's path, in C form.
    pub program: Vec<u8>,
    /// Its argument vector, each in C form.
    pub argv: Vec<Vec<u8>>,
    /// Its environment: empty, nothing is inherited.
    pub environment: Vec<Vec<u8>>,
    /// The mount source, target and file system type, in C form.
    pub mount_source: Vec<u8>,
    pub mount_target: Vec<u8>,
    pub mount_fstype: Vec<u8>,
    /// The mount forbids set-user-id bits, execution and device files.
    pub no_setuid: bool,
    pub no_exec: bool,
    pub no_devices: bool,
    /// The child gets a new PID namespace and a new mount namespace.
    pub new_pid_namespace: bool,
    pub new_mount_namespace: bool,
}

/// The way the nested init is started.
pub fn init_launch() -> (r: InitLaunch)
    ensures
        r.program@ == cstr("/lib/systemd/systemd".spec_bytes()),
        r.argv@.len() == 1,
        r.argv@[0]@ == r.program@,
        r.environment@.len() == 0,
        r.mount_source@ == cstr("proc".spec_bytes()),
        r.mount_target@ == cstr("/proc".spec_bytes()),
        r.mount_fstype@ == cstr("proc".spec_bytes()),
        r.no_setuid && r.no_exec && r.no_devices,
        r.new_pid_namespace && r.new_mount_namespace,
{
    let mut argv: Vec<Vec<u8>> = Vec::new();
    argv.push(text_cstr("/lib/systemd/systemd"));
    InitLaunch {
        program: text_cstr("/lib/systemd/systemd"),
        argv,
        environment: Vec::new(),
        mount_source: text_cstr("proc"),
        mount_target: text_cstr("/proc"),
        mount_fstype: text_cstr("proc"),
        no_setuid: true,
        no_exec: true,
        no_devices: true,
        new_pid_namespace: true,
        new_mount_namespace: true,
    }
}

/// The outcome of `shutdown` from that of the termination signal: a process
/// that is gone already counts as terminated.
pub fn shutdown_outcome(signal: Result<(), i32>) -> (r: Result<(), i32>)
    ensures
        r == match signal {
            Ok(()) => Ok(()),
            Err(e) => if e == ESRCH {
                Ok(())
            } else {
                Err(e)
            },
        },
{
    match signal {
        Ok(()) => Ok(()),
        Err(e) => if e == ESRCH {
            Ok(())
        } else {
            Err(e)
        },
    }
}

} // verus!
