use angea::errno::{EAGAIN, EIO, ETIMEDOUT};
use angea::forward::{
    exit_result_of, nonblock_flags, role_of, tag_of, Action, Direction, Phase, Role, Session, MASTER_EVENT,
    READY_ATTEMPTS, READY_PAUSE_MS, SIGNAL_EVENT, STDIN_EVENT,
};
use angea::relay::Relay;

/// A terminal snapshot stand-in: the attribute bytes.
type Snapshot = Vec<u8>;

fn ready_session(saved: &[u8]) -> Session<Snapshot> {
    let mut s = Session::new(saved.to_vec());
    assert_eq!(s.probe(Ok(b"")), Action::Write(Direction::ToOutput));
    assert_eq!(s.phase(), Phase::Forwarding);
    s
}

#[test]
fn relay_keeps_bytes_in_order_across_chunks() {
    let mut r = Relay::new();
    let mut out: Vec<u8> = Vec::new();
    r.read(b"ab");
    r.read(b"cde");
    out.extend_from_slice(&r.pending()[..1]);
    r.wrote(1);
    assert_eq!(r.pending(), b"bcde");
    out.extend_from_slice(&r.pending()[..3]);
    r.wrote(3);
    r.read(b"f");
    assert!(!r.is_drained());
    out.extend_from_slice(&r.pending()[..2]);
    r.wrote(2);
    assert!(r.is_drained());
    assert_eq!(out, b"abcdef".to_vec());
}

#[test]
fn tags_identify_roles() {
    for role in [Role::Input, Role::Master, Role::Signal] {
        assert_eq!(role_of(tag_of(role)), Some(role));
    }
    assert_eq!(tag_of(Role::Input), STDIN_EVENT);
    assert_eq!(tag_of(Role::Master), MASTER_EVENT);
    assert_eq!(tag_of(Role::Signal), SIGNAL_EVENT);
    assert_eq!(role_of(0), None);
    assert_eq!(role_of(4), None);
}

#[test]
fn unreadable_master_times_out_without_forwarding() {
    let mut s: Session<Snapshot> = Session::new(b"cooked".to_vec());
    for _ in 0..READY_ATTEMPTS - 1 {
        assert_eq!(s.probe(Err(EAGAIN)), Action::Sleep(READY_PAUSE_MS));
        assert_eq!(s.phase(), Phase::Waiting);
    }
    let last = s.probe(Err(EIO));
    assert_eq!(last, Action::TimedOut);
    assert_eq!(s.phase(), Phase::Closed);
    assert_eq!(exit_result_of(last), Some(Err(ETIMEDOUT)));
    assert_eq!(s.finish(), Some(b"cooked".to_vec()));
}

#[test]
fn device_error_on_master_ends_normally_and_restores() {
    let mut s: Session<Snapshot> = Session::new(b"saved-attrs".to_vec());
    assert_eq!(s.probe(Ok(b"hi")), Action::Write(Direction::ToOutput));
    assert_eq!(s.pending(Direction::ToOutput), b"hi");
    s.wrote(Direction::ToOutput, 2);
    assert!(s.is_drained(Direction::ToOutput));
    let a = s.on_read(Role::Master, Err(EIO));
    assert_eq!(a, Action::Hangup);
    assert_eq!(s.phase(), Phase::Closed);
    assert_eq!(exit_result_of(a), Some(Ok(())));
    assert_eq!(s.finish(), Some(b"saved-attrs".to_vec()));
    assert_eq!(s.finish(), None);
}

#[test]
fn fatal_error_still_restores_terminal() {
    let mut s = ready_session(b"orig");
    let a = s.on_read(Role::Input, Err(EIO));
    assert_eq!(a, Action::Fail(EIO));
    assert_eq!(exit_result_of(a), Some(Err(EIO)));
    assert_eq!(s.finish(), Some(b"orig".to_vec()));
}

#[test]
fn reads_are_relayed_each_way() {
    let mut s = ready_session(b"t");
    assert_eq!(s.on_read(Role::Input, Ok(b"ls\r")), Action::Write(Direction::ToMaster));
    assert_eq!(s.pending(Direction::ToMaster), b"ls\r");
    assert!(s.is_drained(Direction::ToOutput));
    s.wrote(Direction::ToMaster, 1);
    assert_eq!(s.pending(Direction::ToMaster), b"s\r");
    assert_eq!(s.on_write_error(Direction::ToMaster, EAGAIN), Action::Write(Direction::ToMaster));
    s.wrote(Direction::ToMaster, 2);
    assert!(s.is_drained(Direction::ToMaster));
    assert_eq!(s.on_read(Role::Master, Ok(b"file\n")), Action::Write(Direction::ToOutput));
    assert_eq!(s.pending(Direction::ToOutput), b"file\n");
    assert_eq!(s.on_read(Role::Input, Ok(b"")), Action::Idle);
    assert_eq!(s.on_read(Role::Master, Err(EAGAIN)), Action::Idle);
    assert_eq!(s.phase(), Phase::Forwarding);
    assert_eq!(s.on_signal(Ok(())), Action::Resize);
    assert_eq!(s.on_signal(Err(9)), Action::Fail(9));
    assert_eq!(s.phase(), Phase::Closed);
}

#[test]
fn failed_write_ends_session() {
    let mut s = ready_session(b"t");
    assert_eq!(s.on_write_error(Direction::ToOutput, 32), Action::Fail(32));
    assert_eq!(s.phase(), Phase::Closed);
    assert_eq!(exit_result_of(Action::Idle), None);
}

#[test]
fn nonblock_bit_set_and_cleared() {
    assert_eq!(nonblock_flags(0o2, 0o4000, true), 0o4002);
    assert_eq!(nonblock_flags(0o4002, 0o4000, false), 0o2);
    assert_eq!(nonblock_flags(0o4002, 0o4000, true), 0o4002);
}
