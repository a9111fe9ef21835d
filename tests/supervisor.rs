use angea::bus::{bus_status, connect_step, ConnectStep, CALL_TIMEOUT_USEC, CONNECT_ATTEMPTS, CONNECT_PAUSE_MS};
use angea::config::{parse_operation, Operation};
use angea::errno::{EAGAIN, ECONNREFUSED, EIO, ESRCH, ETIMEDOUT};
use angea::supervisor::{ensure_step, init_launch, is_init_comm, locate, parse_pid, shutdown_outcome, EnsureStep, ProcEntry};

fn entry(name: &str, comm: Option<&str>) -> ProcEntry {
    ProcEntry { name: name.as_bytes().to_vec(), comm: comm.map(|c| c.as_bytes().to_vec()) }
}

#[test]
fn pid_names_are_positive_decimals() {
    assert_eq!(parse_pid(b"1"), Some(1));
    assert_eq!(parse_pid(b"4242"), Some(4242));
    assert_eq!(parse_pid(b"007"), Some(7));
    assert_eq!(parse_pid(b"2147483647"), Some(2147483647));
    assert_eq!(parse_pid(b"2147483648"), None);
    assert_eq!(parse_pid(b"99999999999999999999"), None);
    assert_eq!(parse_pid(b"0"), None);
    assert_eq!(parse_pid(b""), None);
    assert_eq!(parse_pid(b"12a"), None);
    assert_eq!(parse_pid(b"self"), None);
    assert_eq!(parse_pid(b"+5"), None);
    assert_eq!(parse_pid(b"-1"), None);
}

#[test]
fn init_comm_is_exact() {
    assert!(is_init_comm(b"systemd\n"));
    assert!(!is_init_comm(b"systemd"));
    assert!(!is_init_comm(b"systemd-journal\n"));
    assert!(!is_init_comm(b"bash\n"));
}

fn sample_table() -> Vec<ProcEntry> {
    vec![
        entry(".", None),
        entry("self", Some("systemd\n")),
        entry("12", Some("bash\n")),
        entry("40", None),
        entry("57", Some("systemd\n")),
        entry("60", Some("systemd\n")),
    ]
}

#[test]
fn locate_finds_first_init() {
    let table = sample_table();
    assert_eq!(locate(&table), Some(57));
    // a second scan of the same table gives the same answer
    assert_eq!(locate(&table), Some(57));
    let none = vec![entry("1", Some("init\n")), entry("2", None)];
    assert_eq!(locate(&none), None);
    assert_eq!(locate(&Vec::new()), None);
}

#[test]
fn locate_ignores_other_processes_coming_and_going() {
    let mut table = sample_table();
    let first = locate(&table);
    table.remove(2);
    table.insert(0, entry("3", Some("sleep\n")));
    assert_eq!(locate(&table), first);
}

#[test]
fn ensure_creates_only_when_absent() {
    assert_eq!(ensure_step(None), EnsureStep::Create);
    assert_eq!(ensure_step(Some(57)), EnsureStep::Running(57));
    let mut table = vec![entry("12", Some("bash\n"))];
    assert_eq!(ensure_step(locate(&table)), EnsureStep::Create);
    table.push(entry("99", Some("systemd\n")));
    assert!(locate(&table).is_some());
}

#[test]
fn shutdown_treats_missing_process_as_done() {
    assert_eq!(shutdown_outcome(Ok(())), Ok(()));
    assert_eq!(shutdown_outcome(Err(ESRCH)), Ok(()));
    assert_eq!(shutdown_outcome(Err(1)), Err(1));
}

#[test]
fn init_launch_mounts_private_proc() {
    let l = init_launch();
    assert_eq!(l.program, b"/lib/systemd/systemd\0".to_vec());
    assert_eq!(l.argv, vec![b"/lib/systemd/systemd\0".to_vec()]);
    assert!(l.environment.is_empty());
    assert_eq!(l.mount_source, b"proc\0".to_vec());
    assert_eq!(l.mount_target, b"/proc\0".to_vec());
    assert_eq!(l.mount_fstype, b"proc\0".to_vec());
    assert!(l.no_setuid && l.no_exec && l.no_devices);
    assert!(l.new_pid_namespace && l.new_mount_namespace);
}

#[test]
fn errno_values_match_the_platform() {
    assert_eq!(ESRCH, libc::ESRCH);
    assert_eq!(EIO, libc::EIO);
    assert_eq!(EAGAIN, libc::EAGAIN);
    assert_eq!(EAGAIN, libc::EWOULDBLOCK);
    assert_eq!(ETIMEDOUT, libc::ETIMEDOUT);
    assert_eq!(ECONNREFUSED, libc::ECONNREFUSED);
}

#[test]
fn bus_status_negates_error_numbers() {
    assert_eq!(bus_status(0), Ok(()));
    assert_eq!(bus_status(7), Ok(()));
    assert_eq!(bus_status(-111), Err(111));
    assert_eq!(bus_status(i32::MIN), Err(2147483648));
}

#[test]
fn refused_connection_is_retried_then_times_out() {
    assert_eq!(connect_step(1, ECONNREFUSED), ConnectStep::Retry(CONNECT_PAUSE_MS));
    assert_eq!(connect_step(CONNECT_ATTEMPTS - 1, ECONNREFUSED), ConnectStep::Retry(500));
    assert_eq!(connect_step(CONNECT_ATTEMPTS, ECONNREFUSED), ConnectStep::Fail(ETIMEDOUT));
    assert_eq!(connect_step(1, 2), ConnectStep::Fail(2));
    assert_eq!(CALL_TIMEOUT_USEC, 3_000_000);
}

#[test]
fn operations_from_command_words() {
    assert_eq!(parse_operation(Some("boot".as_bytes())), Operation::Boot);
    assert_eq!(parse_operation(Some("shell".as_bytes())), Operation::Shell);
    assert_eq!(parse_operation(Some("shutdown".as_bytes())), Operation::Shutdown);
    assert_eq!(parse_operation(Some("help".as_bytes())), Operation::Help);
    assert_eq!(parse_operation(Some("Boot".as_bytes())), Operation::Help);
    assert_eq!(parse_operation(None), Operation::Help);
}
