use angea::config::{command_words, environment_entries, shell_request, split_list, trimmed, Inherited};
use angea::encoder::{start_transient_unit, strip_leading, transient_unit_ops, unit_name_of, BusOp, ContainerKind, UnitRequest};

fn c(s: &str) -> Vec<u8> {
    let mut v = s.as_bytes().to_vec();
    v.push(0);
    v
}

fn words(list: &[&str]) -> Vec<Vec<u8>> {
    list.iter().map(|s| s.as_bytes().to_vec()).collect()
}

/// The value of the string property `name` in a message body.
fn string_property(ops: &[BusOp], name: &str) -> Option<Vec<u8>> {
    for i in 0..ops.len() {
        if let BusOp::Str(s) = &ops[i] {
            if *s == c(name) {
                if let BusOp::Str(v) = &ops[i + 2] {
                    return Some(v.clone());
                }
            }
        }
    }
    None
}

fn check_well_formed(ops: &[BusOp]) {
    let mut depth: i64 = 0;
    for op in ops {
        match op {
            BusOp::Open(_, sig) => {
                assert_eq!(sig.last(), Some(&0u8));
                depth += 1;
            }
            BusOp::Close => {
                depth -= 1;
                assert!(depth >= 0);
            }
            BusOp::Str(s) => assert_eq!(s.last(), Some(&0u8)),
            BusOp::Bool(_) => {}
            BusOp::StrList(l) => {
                for s in l {
                    assert_eq!(s.last(), Some(&0u8));
                }
            }
        }
    }
    assert_eq!(depth, 0);
}

#[test]
fn shell_for_root_uses_default_shell_and_term() {
    let inherited: Vec<Inherited> = Vec::new();
    let request = shell_request(None, b"/dev/pts/3", None, None, Some("xterm-256color".as_bytes()), &inherited);
    assert_eq!(request.user, b"root".to_vec());
    let call = start_transient_unit(&request);
    assert_eq!(call.destination, c("org.freedesktop.systemd1"));
    assert_eq!(call.path, c("/org/freedesktop/systemd1"));
    assert_eq!(call.interface, c("org.freedesktop.systemd1.Manager"));
    assert_eq!(call.member, c("StartTransientUnit"));
    let ops = &call.body;
    match &ops[0] {
        BusOp::Str(s) => assert_eq!(*s, c("angea-shell@3.service")),
        _ => panic!("unit name expected"),
    }
    match &ops[1] {
        BusOp::Str(s) => assert_eq!(*s, c("fail")),
        _ => panic!("mode expected"),
    }
    assert_eq!(string_property(ops, "User"), Some(c("root")));
    assert_eq!(string_property(ops, "TTYPath"), Some(c("/dev/pts/3")));
    assert_eq!(string_property(ops, "WorkingDirectory"), Some(c("~")));
    assert_eq!(string_property(ops, "StandardInput"), Some(c("tty")));
    assert_eq!(string_property(ops, "StandardOutput"), Some(c("tty")));
    assert_eq!(string_property(ops, "StandardError"), Some(c("tty")));
    let exec = ops.iter().position(|o| matches!(o, BusOp::Str(s) if *s == c("ExecStart"))).unwrap();
    match (&ops[exec + 4], &ops[exec + 5], &ops[exec + 6]) {
        (BusOp::Str(path), BusOp::StrList(argv), BusOp::Bool(wait)) => {
            assert_eq!(*path, c("/bin/bash"));
            assert_eq!(*argv, vec![c("/bin/bash"), c("-l")]);
            assert!(*wait);
        }
        _ => panic!("exec entry expected"),
    }
    let env = ops.iter().position(|o| matches!(o, BusOp::Str(s) if *s == c("Environment"))).unwrap();
    match &ops[env + 2] {
        BusOp::StrList(l) => assert_eq!(*l, vec![c("TERM=xterm-256color")]),
        _ => panic!("environment expected"),
    }
    check_well_formed(ops);
}

#[test]
fn empty_environment_still_well_formed() {
    let request = UnitRequest {
        user: b"alice".to_vec(),
        tty_path: b"/dev/pts/12".to_vec(),
        command: Vec::new(),
        environment: Vec::new(),
    };
    let ops = transient_unit_ops(&request);
    assert_eq!(ops.len(), 3 + 7 * 6 + 6 + 12 + 3);
    check_well_formed(&ops);
    let env = ops.iter().position(|o| matches!(o, BusOp::Str(s) if *s == c("Environment"))).unwrap();
    assert!(matches!(&ops[env - 1], BusOp::Open(ContainerKind::Struct, _)));
    match &ops[env + 1] {
        BusOp::Open(ContainerKind::Variant, sig) => assert_eq!(*sig, c("as")),
        _ => panic!("variant expected"),
    }
    match &ops[env + 2] {
        BusOp::StrList(l) => assert!(l.is_empty()),
        _ => panic!("environment expected"),
    }
    match &ops[ops.len() - 2] {
        BusOp::Open(ContainerKind::Array, sig) => assert_eq!(*sig, c("(sa(sv))")),
        _ => panic!("auxiliary list expected"),
    }
}

#[test]
fn command_override_replaces_default() {
    let inherited: Vec<Inherited> = Vec::new();
    let request = shell_request(Some("bob".as_bytes()), b"/dev/pts/0", Some("  /bin/zsh\t-i  ".as_bytes()), None, None, &inherited);
    assert_eq!(request.user, b"bob".to_vec());
    assert_eq!(request.command, words(&["/bin/zsh", "-i"]));
    let ops = transient_unit_ops(&request);
    let exec = ops.iter().position(|o| matches!(o, BusOp::Str(s) if *s == c("ExecStart"))).unwrap();
    match (&ops[exec + 4], &ops[exec + 5]) {
        (BusOp::Str(path), BusOp::StrList(argv)) => {
            assert_eq!(*path, c("/bin/zsh"));
            assert_eq!(*argv, vec![c("/bin/zsh"), c("-i")]);
        }
        _ => panic!("exec entry expected"),
    }
    check_well_formed(&ops);
}

#[test]
fn blank_command_override_keeps_default() {
    let inherited: Vec<Inherited> = Vec::new();
    let request = shell_request(None, b"/dev/pts/0", Some("   ".as_bytes()), None, None, &inherited);
    assert!(request.command.is_empty());
    let ops = transient_unit_ops(&request);
    let exec = ops.iter().position(|o| matches!(o, BusOp::Str(s) if *s == c("ExecStart"))).unwrap();
    match &ops[exec + 4] {
        BusOp::Str(path) => assert_eq!(*path, c("/bin/bash")),
        _ => panic!("exec path expected"),
    }
}

#[test]
fn unit_name_strips_every_leading_prefix() {
    assert_eq!(unit_name_of(b"/dev/pts/7"), c("angea-shell@7.service"));
    assert_eq!(unit_name_of(b"/dev/pts//dev/pts/7"), c("angea-shell@7.service"));
    assert_eq!(unit_name_of(b"/dev/tty1"), c("angea-shell@/dev/tty1.service"));
    assert_eq!(strip_leading(b"abab-x", b"ab"), b"-x".to_vec());
    assert_eq!(strip_leading(b"abc", b""), b"abc".to_vec());
}

#[test]
fn command_words_split_on_ascii_space() {
    assert_eq!(command_words(b"/bin/sh -c  ls\n-l"), words(&["/bin/sh", "-c", "ls", "-l"]));
    assert!(command_words(b"").is_empty());
    assert!(command_words(b" \t\r\n\x0c").is_empty());
    assert_eq!(command_words(b"a\x0bb"), words(&["a\x0bb"]));
}

#[test]
fn list_items_are_trimmed_pieces() {
    assert_eq!(split_list(b"A=1, B=2 ,,"), words(&["A=1", "B=2", "", ""]));
    assert_eq!(split_list(b""), words(&[""]));
    assert_eq!(split_list(b" \x0bX=y\t"), words(&["X=y"]));
    assert_eq!(trimmed(b"  a b  "), b"a b".to_vec());
    assert_eq!(trimmed(b"   "), Vec::<u8>::new());
}

#[test]
fn environment_order_explicit_term_inherited() {
    let inherited = vec![
        Inherited { name: b"LANG".to_vec(), value: Some(b"C.UTF-8".to_vec()) },
        Inherited { name: b"MISSING".to_vec(), value: None },
        Inherited { name: b"EDITOR".to_vec(), value: Some(b"vi".to_vec()) },
    ];
    let env = environment_entries(Some("A=1, B=2".as_bytes()), Some("xterm".as_bytes()), &inherited);
    assert_eq!(env, words(&["A=1", "B=2", "TERM=xterm", "LANG=C.UTF-8", "EDITOR=vi"]));
    let none: Vec<Inherited> = Vec::new();
    assert!(environment_entries(None, None, &none).is_empty());
}
