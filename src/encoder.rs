use vstd::prelude::*;
use vstd::string::StringSliceAdditionalSpecFns;
use crate::bytes::{append, cstr, nul_terminated, text_cstr, to_cstr, to_vec};

verus! {

/// The kinds of container a bus message nests.
#[derive(Clone, Copy, Debug, PartialEq, Eq, Structural)]
pub enum ContainerKind {
    Array,
    Struct,
    Variant,
}

/// One step of writing a bus message body, in order.
///
/// Every byte string is held in its C form, NUL-terminated.
#[derive(Debug)]
pub enum BusOp {
    /// Opens a container whose contents have the given signature.
    Open(ContainerKind, Vec<u8>),
    /// Closes the container opened last.
    Close,
    /// Appends a string.
    Str(Vec<u8>),
    /// Appends a boolean.
    Bool(bool),
    /// Appends an array of strings.
    StrList(Vec<Vec<u8>>),
}

/// What a `BusOp` holds, as mathematical values.
pub enum OpModel {
    Open(ContainerKind, Seq<u8>),
    Close,
    Str(Seq<u8>),
    Bool(bool),
    StrList(Seq<Seq<u8>>),
}

/// The byte contents of a sequence of byte vectors.
pub open spec fn views(v: Seq<Vec<u8>>) -> Seq<Seq<u8>> {
    v.map_values(|x: Vec<u8>| x@)
}

/// The C forms of a sequence of byte strings.
pub open spec fn cstrs(v: Seq<Seq<u8>>) -> Seq<Seq<u8>> {
    v.map_values(|x: Seq<u8>| cstr(x))
}

impl View for BusOp {
    type V = OpModel;

    open spec fn view(&self) -> OpModel {
        match self {
            BusOp::Open(k, s) => OpModel::Open(*k, s@),
            BusOp::Close => OpModel::Close,
            BusOp::Str(s) => OpModel::Str(s@),
            BusOp::Bool(b) => OpModel::Bool(*b),
            BusOp::StrList(l) => OpModel::StrList(views(l@)),
        }
    }
}

/// The models of a sequence of operations.
pub open spec fn ops_view(ops: Seq<BusOp>) -> Seq<OpModel> {
    ops.map_values(|o: BusOp| o@)
}

/// The C form of a text's bytes.
pub open spec fn text(s: &str) -> Seq<u8> {
    cstr(s.spec_bytes())
}

/// A property of a transient unit whose value is a string.
pub open spec fn string_property(name: Seq<u8>, value: Seq<u8>) -> Seq<OpModel> {
    seq![
        OpModel::Open(ContainerKind::Struct, text("sv")),
        OpModel::Str(cstr(name)),
        OpModel::Open(ContainerKind::Variant, text("s")),
        OpModel::Str(cstr(value)),
        OpModel::Close,
        OpModel::Close,
    ]
}


/// A property of a transient unit whose value is a list of strings.
pub open spec fn environment_property(entries: Seq<Seq<u8>>) -> Seq<OpModel> {
    seq![
        OpModel::Open(ContainerKind::Struct, text("sv")),
        OpModel::Str(text("Environment")),
        OpModel::Open(ContainerKind::Variant, text("as")),
        OpModel::StrList(cstrs(entries)),
        OpModel::Close,
        OpModel::Close,
    ]
}

/// The command a unit runs when no other is given: an interactive login shell.
pub open spec fn default_command() -> Seq<Seq<u8>> {
    seq!["/bin/bash".spec_bytes(), "-l".spec_bytes()]
}

/// The command a unit runs: the given one, or the default where none is given.
pub open spec fn command_line(command: Seq<Seq<u8>>) -> Seq<Seq<u8>> {
    if command.len() == 0 {
        default_command()
    } else {
        command
    }
}

/// The `ExecStart` property: the program, its argument vector with argv[0],
/// and the flag that the unit counts as started only once it has run.
pub open spec fn exec_property(command: Seq<Seq<u8>>) -> Seq<OpModel> {
    let argv = command_line(command);
    seq![
        OpModel::Open(ContainerKind::Struct, text("sv")),
        OpModel::Str(text("ExecStart")),
        OpModel::Open(ContainerKind::Variant, text("a(sasb)")),
        OpModel::Open(ContainerKind::Array, text("(sasb)")),
        OpModel::Open(ContainerKind::Struct, text("sasb")),
        OpModel::Str(cstr(argv[0])),
        OpModel::StrList(cstrs(argv)),
        OpModel::Bool(true),
        OpModel::Close,
        OpModel::Close,
        OpModel::Close,
        OpModel::Close,
    ]
}

/// `s` with every leading copy of `p` removed.
pub open spec fn strip_prefixes(s: Seq<u8>, p: Seq<u8>) -> Seq<u8>
    decreases s.len(),
{
    if p.len() > 0 && p.len() <= s.len() && s.subrange(0, p.len() as int) == p {
        strip_prefixes(s.subrange(p.len() as int, s.len() as int), p)
    } else {
        s
    }
}

/// The terminal number of a PTY slave path: what follows `/dev/pts/`.
pub open spec fn pts_id(tty_path: Seq<u8>) -> Seq<u8> {
    strip_prefixes(tty_path, "/dev/pts/".spec_bytes())
}

/// The name of the unit that serves the PTY slave at `tty_path`.
pub open spec fn unit_name(tty_path: Seq<u8>) -> Seq<u8> {
    "angea-shell@".spec_bytes() + pts_id(tty_path) + ".service".spec_bytes()
}

/// The properties of the unit, in the order they are sent.
pub open spec fn unit_properties(
    user: Seq<u8>,
    tty_path: Seq<u8>,
    command: Seq<Seq<u8>>,
    environment: Seq<Seq<u8>>,
) -> Seq<OpModel> {
    string_property("Description".spec_bytes(), "Angea Shell Service".spec_bytes())
        + string_property("WorkingDirectory".spec_bytes(), "~".spec_bytes())
        + string_property("StandardOutput".spec_bytes(), "tty".spec_bytes())
        + string_property("StandardInput".spec_bytes(), "tty".spec_bytes())
        + string_property("StandardError".spec_bytes(), "tty".spec_bytes())
        + string_property("TTYPath".spec_bytes(), tty_path)
        + string_property("User".spec_bytes(), user)
        + environment_property(environment)
        + exec_property(command)
}

/// The body of the start-transient-unit call: the unit name, the mode that
/// fails on a conflicting unit, the properties, and an empty auxiliary list.
pub open spec fn transient_unit_body(
    user: Seq<u8>,
    tty_path: Seq<u8>,
    command: Seq<Seq<u8>>,
    environment: Seq<Seq<u8>>,
) -> Seq<OpModel> {
    seq![
        OpModel::Str(cstr(unit_name(tty_path))),
        OpModel::Str(text("fail")),
        OpModel::Open(ContainerKind::Array, text("(sv)")),
    ] + unit_properties(user, tty_path, command, environment) + seq![
        OpModel::Close,
        OpModel::Open(ContainerKind::Array, text("(sa(sv))")),
        OpModel::Close,
    ]
}

/// Appends one operation.
fn push_op(out: &mut Vec<BusOp>, op: BusOp)
    ensures
        ops_view(final(out)@) == ops_view(old(out)@).push(op@),
{
    out.push(op);
    assert(ops_view(out@) =~= ops_view(old(out)@).push(op@));
}

/// Appends a string property.
fn push_string_property(out: &mut Vec<BusOp>, name: &str, value: &[u8])
    ensures
        ops_view(final(out)@) == ops_view(old(out)@) + string_property(name.spec_bytes(), value@),
{
    let ghost start = ops_view(out@);
    push_op(out, BusOp::Open(ContainerKind::Struct, text_cstr("sv")));
    push_op(out, BusOp::Str(text_cstr(name)));
    push_op(out, BusOp::Open(ContainerKind::Variant, text_cstr("s")));
    push_op(out, BusOp::Str(to_cstr(value)));
    push_op(out, BusOp::Close);
    push_op(out, BusOp::Close);
    assert(ops_view(out@) =~= start + string_property(name.spec_bytes(), value@));
}

/// The C forms of a list of byte strings.
pub fn cstr_list(v: &Vec<Vec<u8>>) -> (r: Vec<Vec<u8>>)
    ensures
        views(r@) == cstrs(views(v@)),
{
    let mut r: Vec<Vec<u8>> = Vec::new();
    let mut i: usize = 0;
    while i < v.len()
        invariant
            i <= v@.len(),
            views(r@) =~= cstrs(views(v@)).subrange(0, i as int),
        decreases v@.len() - i,
    {
        let c = to_cstr(v[i].as_slice());
        assert(views(v@)[i as int] == v@[i as int]@);
        let ghost prev = r@;
        r.push(c);
        assert(views(r@) =~= views(prev).push(c@));
        i += 1;
        assert(views(r@) =~= cstrs(views(v@)).subrange(0, i as int));
    }
    assert(cstrs(views(v@)).subrange(0, i as int) =~= cstrs(views(v@)));
    r
}

/// Appends the `Environment` property.
fn push_environment_property(out: &mut Vec<BusOp>, environment: &Vec<Vec<u8>>)
    ensures
        ops_view(final(out)@) == ops_view(old(out)@) + environment_property(views(environment@)),
{
    let ghost start = ops_view(out@);
    push_op(out, BusOp::Open(ContainerKind::Struct, text_cstr("sv")));
    push_op(out, BusOp::Str(text_cstr("Environment")));
    push_op(out, BusOp::Open(ContainerKind::Variant, text_cstr("as")));
    push_op(out, BusOp::StrList(cstr_list(environment)));
    push_op(out, BusOp::Close);
    push_op(out, BusOp::Close);
    assert(ops_view(out@) =~= start + environment_property(views(environment@)));
}

/// The default command, as byte strings.
pub fn default_command_words() -> (r: Vec<Vec<u8>>)
    ensures
        views(r@) == default_command(),
{
    let mut r: Vec<Vec<u8>> = Vec::new();
    r.push(to_vec("/bin/bash".as_bytes()));
    r.push(to_vec("-l".as_bytes()));
    assert(views(r@) =~= default_command());
    r
}

/// Appends the `ExecStart` property.
fn push_exec_property(out: &mut Vec<BusOp>, command: &Vec<Vec<u8>>)
    ensures
        ops_view(final(out)@) == ops_view(old(out)@) + exec_property(views(command@)),
{
    let ghost start = ops_view(out@);
    let argv = if command.len() == 0 {
        default_command_words()
    } else {
        let c = command.clone();
        assert(views(c@) =~= views(command@));
        c
    };
    assert(views(argv@) == command_line(views(command@)));
    push_op(out, BusOp::Open(ContainerKind::Struct, text_cstr("sv")));
    push_op(out, BusOp::Str(text_cstr("ExecStart")));
    push_op(out, BusOp::Open(ContainerKind::Variant, text_cstr("a(sasb)")));
    push_op(out, BusOp::Open(ContainerKind::Array, text_cstr("(sasb)")));
    push_op(out, BusOp::Open(ContainerKind::Struct, text_cstr("sasb")));
    push_op(out, BusOp::Str(to_cstr(argv[0].as_slice())));
    push_op(out, BusOp::StrList(cstr_list(&argv)));
    push_op(out, BusOp::Bool(true));
    push_op(out, BusOp::Close);
    push_op(out, BusOp::Close);
    push_op(out, BusOp::Close);
    push_op(out, BusOp::Close);
    assert(ops_view(out@) =~= start + exec_property(views(command@)));
}


/// Whether `p` occurs in `s` at position `at`.
fn occurs_at(s: &[u8], at: usize, p: &[u8]) -> (r: bool)
    requires
        at <= s@.len(),
    ensures
        r == (p@.len() <= s@.len() - at && s@.subrange(at as int, at + p@.len()) == p@),
{
    let n = s.len();
    if p.len() > n - at {
        return false;
    }
    let mut i: usize = 0;
    while i < p.len()
        invariant
            i <= p@.len(),
            n == s@.len(),
            at <= s@.len(),
            p@.len() <= s@.len() - at,
            forall|j: int| 0 <= j < i ==> s@[at + j] == p@[j],
        decreases p@.len() - i,
    {
        if s[at + i] != p[i] {
            assert(s@.subrange(at as int, at + p@.len())[i as int] != p@[i as int]);
            return false;
        }
        i += 1;
    }
    assert(s@.subrange(at as int, at + p@.len()) =~= p@);
    true
}

/// `s` with every leading copy of `p` removed.
pub fn strip_leading(s: &[u8], p: &[u8]) -> (r: Vec<u8>)
    ensures
        r@ == strip_prefixes(s@, p@),
{
    let n = s.len();
    let mut at: usize = 0;
    assert(s@.subrange(0, s@.len() as int) =~= s@);
    while p.len() > 0
        invariant
            n == s@.len(),
            at <= s@.len(),
            strip_prefixes(s@.subrange(at as int, s@.len() as int), p@) == strip_prefixes(s@, p@),
        ensures
            at <= s@.len(),
            strip_prefixes(s@.subrange(at as int, s@.len() as int), p@) == strip_prefixes(s@, p@),
            p@.len() == 0 || !(p@.len() <= s@.len() - at && s@.subrange(at as int, at + p@.len())
                == p@),
        decreases s@.len() - at,
    {
        if !occurs_at(s, at, p) {
            break;
        }
        let ghost rest = s@.subrange(at as int, s@.len() as int);
        assert(rest.subrange(0, p@.len() as int) =~= s@.subrange(at as int, at + p@.len()));
        assert(rest.subrange(p@.len() as int, rest.len() as int) =~= s@.subrange(
            at + p@.len(),
            s@.len() as int,
        ));
        at = at + p.len();
    }
    proof {
        let rest = s@.subrange(at as int, s@.len() as int);
        if p@.len() > 0 && p@.len() <= rest.len() {
            assert(rest.subrange(0, p@.len() as int) =~= s@.subrange(at as int, at + p@.len()));
        }
    }
    let mut r: Vec<u8> = Vec::new();
    let mut i: usize = at;
    while i < s.len()
        invariant
            at <= i <= s@.len(),
            r@ == s@.subrange(at as int, i as int),
        decreases s@.len() - i,
    {
        r.push(s[i]);
        i += 1;
        assert(r@ =~= s@.subrange(at as int, i as int));
    }
    r
}

/// The name of the unit that serves the PTY slave at `tty_path`, in C form.
pub fn unit_name_of(tty_path: &[u8]) -> (r: Vec<u8>)
    ensures
        r@ == cstr(unit_name(tty_path@)),
{
    let mut r = to_vec("angea-shell@".as_bytes());
    let id = strip_leading(tty_path, "/dev/pts/".as_bytes());
    append(&mut r, id.as_slice());
    append(&mut r, ".service".as_bytes());
    r.push(0u8);
    r
}

/// What the shell unit is made of.
pub struct UnitRequest {
    /// The user the shell runs as.
    pub user: Vec<u8>,
    /// The path of the PTY slave that becomes the shell's terminal.
    pub tty_path: Vec<u8>,
    /// The program and its arguments, argv[0] first; empty for the default.
    pub command: Vec<Vec<u8>>,
    /// `KEY=VALUE` entries of the shell's environment.
    pub environment: Vec<Vec<u8>>,
}

/// A bus method call: where it goes and the operations that write its body.
pub struct MethodCall {
    pub destination: Vec<u8>,
    pub path: Vec<u8>,
    pub interface: Vec<u8>,
    pub member: Vec<u8>,
    pub body: Vec<BusOp>,
}

/// The operations that write the body of the start-transient-unit call.
pub fn transient_unit_ops(request: &UnitRequest) -> (r: Vec<BusOp>)
    ensures
        ops_view(r@) == transient_unit_body(
            request.user@,
            request.tty_path@,
            views(request.command@),
            views(request.environment@),
        ),
{
    let mut out: Vec<BusOp> = Vec::new();
    push_op(&mut out, BusOp::Str(unit_name_of(request.tty_path.as_slice())));
    push_op(&mut out, BusOp::Str(text_cstr("fail")));
    push_op(&mut out, BusOp::Open(ContainerKind::Array, text_cstr("(sv)")));
    let ghost head = ops_view(out@);
    push_string_property(&mut out, "Description", "Angea Shell Service".as_bytes());
    push_string_property(&mut out, "WorkingDirectory", "~".as_bytes());
    push_string_property(&mut out, "StandardOutput", "tty".as_bytes());
    push_string_property(&mut out, "StandardInput", "tty".as_bytes());
    push_string_property(&mut out, "StandardError", "tty".as_bytes());
    push_string_property(&mut out, "TTYPath", request.tty_path.as_slice());
    push_string_property(&mut out, "User", request.user.as_slice());
    push_environment_property(&mut out, &request.environment);
    push_exec_property(&mut out, &request.command);
    let ghost props = unit_properties(
        request.user@,
        request.tty_path@,
        views(request.command@),
        views(request.environment@),
    );
    assert(ops_view(out@) =~= head + props);
    push_op(&mut out, BusOp::Close);
    push_op(&mut out, BusOp::Open(ContainerKind::Array, text_cstr("(sa(sv))")));
    push_op(&mut out, BusOp::Close);
    assert(ops_view(out@) =~= transient_unit_body(
        request.user@,
        request.tty_path@,
        views(request.command@),
        views(request.environment@),
    ));
    out
}

/// The start-transient-unit call on the service manager.
pub fn start_transient_unit(request: &UnitRequest) -> (r: MethodCall)
    ensures
        r.destination@ == text("org.freedesktop.systemd1"),
        r.path@ == text("/org/freedesktop/systemd1"),
        r.interface@ == text("org.freedesktop.systemd1.Manager"),
        r.member@ == text("StartTransientUnit"),
        ops_view(r.body@) == transient_unit_body(
            request.user@,
            request.tty_path@,
            views(request.command@),
            views(request.environment@),
        ),
{
    MethodCall {
        destination: text_cstr("org.freedesktop.systemd1"),
        path: text_cstr("/org/freedesktop/systemd1"),
        interface: text_cstr("org.freedesktop.systemd1.Manager"),
        member: text_cstr("StartTransientUnit"),
        body: transient_unit_ops(request),
    }
}


/// How an operation changes the number of open containers.
pub open spec fn depth_change(op: OpModel) -> int {
    match op {
        OpModel::Open(_, _) => 1,
        OpModel::Close => -1,
        _ => 0,
    }
}

/// From position `i` on, starting with `d` open containers, no operation
/// closes a container that is not open.
pub open spec fn fits_from(ops: Seq<OpModel>, i: int, d: int) -> bool
    decreases ops.len() - i,
{
    if i < 0 || i >= ops.len() {
        true
    } else {
        d + depth_change(ops[i]) >= 0 && fits_from(ops, i + 1, d + depth_change(ops[i]))
    }
}

/// The number of open containers after the operations from position `i`
/// on, starting with `d`.
pub open spec fn depth_after(ops: Seq<OpModel>, i: int, d: int) -> int
    decreases ops.len() - i,
{
    if i < 0 || i >= ops.len() {
        d
    } else {
        depth_after(ops, i + 1, d + depth_change(ops[i]))
    }
}

/// Containers are opened and closed in last-in, first-out order, and none
/// is left open.
pub open spec fn balanced(ops: Seq<OpModel>) -> bool {
    fits_from(ops, 0, 0) && depth_after(ops, 0, 0) == 0
}

/// Every string, signature and string list element of an operation is in C form.
pub open spec fn op_terminated(op: OpModel) -> bool {
    match op {
        OpModel::Open(_, sig) => nul_terminated(sig),
        OpModel::Str(s) => nul_terminated(s),
        OpModel::StrList(l) => forall|j: int| 0 <= j < l.len() ==> nul_terminated(#[trigger] l[j]),
        _ => true,
    }
}

/// Every operation from position `i` on is in C form.
pub open spec fn terminated_from(ops: Seq<OpModel>, i: int) -> bool
    decreases ops.len() - i,
{
    if i < 0 || i >= ops.len() {
        true
    } else {
        op_terminated(ops[i]) && terminated_from(ops, i + 1)
    }
}

proof fn lemma_concat_from(a: Seq<OpModel>, b: Seq<OpModel>, i: int, d: int)
    requires
        0 <= i <= a.len(),
        fits_from(a, i, d),
        fits_from(b, 0, depth_after(a, i, d)),
        terminated_from(a, i),
        terminated_from(b, 0),
    ensures
        fits_from(a + b, i, d),
        depth_after(a + b, i, d) == depth_after(b, 0, depth_after(a, i, d)),
        terminated_from(a + b, i),
    decreases a.len() - i,
{
    if i < a.len() {
        assert((a + b)[i] == a[i]);
        lemma_concat_from(a, b, i + 1, d + depth_change(a[i]));
    } else {
        lemma_shift(a, b, 0, d);
    }
}

proof fn lemma_shift(a: Seq<OpModel>, b: Seq<OpModel>, j: int, d: int)
    requires
        0 <= j <= b.len(),
        fits_from(b, j, d),
        terminated_from(b, j),
    ensures
        fits_from(a + b, a.len() + j, d),
        depth_after(a + b, a.len() + j, d) == depth_after(b, j, d),
        terminated_from(a + b, a.len() + j),
    decreases b.len() - j,
{
    if j < b.len() {
        assert((a + b)[a.len() + j] == b[j]);
        lemma_shift(a, b, j + 1, d + depth_change(b[j]));
    }
}

/// Joining two operation lists: the second starts where the first left off.
proof fn lemma_concat(a: Seq<OpModel>, b: Seq<OpModel>, d: int)
    requires
        fits_from(a, 0, d),
        fits_from(b, 0, depth_after(a, 0, d)),
        terminated_from(a, 0),
        terminated_from(b, 0),
    ensures
        fits_from(a + b, 0, d),
        depth_after(a + b, 0, d) == depth_after(b, 0, depth_after(a, 0, d)),
        terminated_from(a + b, 0),
{
    lemma_concat_from(a, b, 0, d);
}

proof fn lemma_terminated_all(ops: Seq<OpModel>, i: int)
    requires
        0 <= i <= ops.len(),
        terminated_from(ops, i),
    ensures
        forall|k: int| i <= k < ops.len() ==> op_terminated(#[trigger] ops[k]),
    decreases ops.len() - i,
{
    if i < ops.len() {
        lemma_terminated_all(ops, i + 1);
    }
}

proof fn lemma_cstrs_terminated(l: Seq<Seq<u8>>)
    ensures
        op_terminated(OpModel::StrList(cstrs(l))),
{
    assert forall|j: int| 0 <= j < cstrs(l).len() implies nul_terminated(#[trigger] cstrs(l)[j]) by {
        assert(cstrs(l)[j] == cstr(l[j]));
    }
}

proof fn lemma_string_property(name: Seq<u8>, value: Seq<u8>, d: int)
    requires
        d >= 0,
    ensures
        fits_from(string_property(name, value), 0, d),
        depth_after(string_property(name, value), 0, d) == d,
        terminated_from(string_property(name, value), 0),
{
    reveal_with_fuel(fits_from, 7);
    reveal_with_fuel(depth_after, 7);
    reveal_with_fuel(terminated_from, 7);
}

proof fn lemma_environment_property(entries: Seq<Seq<u8>>, d: int)
    requires
        d >= 0,
    ensures
        fits_from(environment_property(entries), 0, d),
        depth_after(environment_property(entries), 0, d) == d,
        terminated_from(environment_property(entries), 0),
{
    lemma_cstrs_terminated(entries);
    reveal_with_fuel(fits_from, 7);
    reveal_with_fuel(depth_after, 7);
    reveal_with_fuel(terminated_from, 7);
}

proof fn lemma_exec_property(command: Seq<Seq<u8>>, d: int)
    requires
        d >= 0,
    ensures
        fits_from(exec_property(command), 0, d),
        depth_after(exec_property(command), 0, d) == d,
        terminated_from(exec_property(command), 0),
{
    lemma_cstrs_terminated(command_line(command));
    reveal_with_fuel(fits_from, 13);
    reveal_with_fuel(depth_after, 13);
    reveal_with_fuel(terminated_from, 13);
}

/// The operations before the unit's properties.
spec fn body_head(tty_path: Seq<u8>) -> Seq<OpModel> {
    seq![
        OpModel::Str(cstr(unit_name(tty_path))),
        OpModel::Str(text("fail")),
        OpModel::Open(ContainerKind::Array, text("(sv)")),
    ]
}

/// The operations after the unit's properties.
spec fn body_tail() -> Seq<OpModel> {
    seq![
        OpModel::Close,
        OpModel::Open(ContainerKind::Array, text("(sa(sv))")),
        OpModel::Close,
    ]
}

proof fn lemma_head_tail(tty_path: Seq<u8>)
    ensures
        fits_from(body_head(tty_path), 0, 0),
        depth_after(body_head(tty_path), 0, 0) == 1,
        terminated_from(body_head(tty_path), 0),
        fits_from(body_tail(), 0, 1),
        depth_after(body_tail(), 0, 1) == 0,
        terminated_from(body_tail(), 0),
{
    reveal_with_fuel(fits_from, 4);
    reveal_with_fuel(depth_after, 4);
    reveal_with_fuel(terminated_from, 4);
}

/// Every string placed in the start-transient-unit call, its container
/// signatures and the elements of its string lists included, ends with a NUL
/// byte; and its containers are opened and closed in last-in, first-out
/// order with none left open, whatever the user, terminal, command and
/// environment (an empty environment list too).
pub proof fn lemma_transient_unit_body_well_formed(
    user: Seq<u8>,
    tty_path: Seq<u8>,
    command: Seq<Seq<u8>>,
    environment: Seq<Seq<u8>>,
)
    ensures
        balanced(transient_unit_body(user, tty_path, command, environment)),
        forall|i: int|
            0 <= i < transient_unit_body(user, tty_path, command, environment).len()
                ==> op_terminated(#[trigger] transient_unit_body(user, tty_path, command, environment)[i]),
{
    let head = body_head(tty_path);
    let tail = body_tail();
    lemma_head_tail(tty_path);

    let p1 = string_property("Description".spec_bytes(), "Angea Shell Service".spec_bytes());
    let p2 = string_property("WorkingDirectory".spec_bytes(), "~".spec_bytes());
    let p3 = string_property("StandardOutput".spec_bytes(), "tty".spec_bytes());
    let p4 = string_property("StandardInput".spec_bytes(), "tty".spec_bytes());
    let p5 = string_property("StandardError".spec_bytes(), "tty".spec_bytes());
    let p6 = string_property("TTYPath".spec_bytes(), tty_path);
    let p7 = string_property("User".spec_bytes(), user);
    let p8 = environment_property(environment);
    let p9 = exec_property(command);
    lemma_string_property("Description".spec_bytes(), "Angea Shell Service".spec_bytes(), 1);
    lemma_string_property("WorkingDirectory".spec_bytes(), "~".spec_bytes(), 1);
    lemma_string_property("StandardOutput".spec_bytes(), "tty".spec_bytes(), 1);
    lemma_string_property("StandardInput".spec_bytes(), "tty".spec_bytes(), 1);
    lemma_string_property("StandardError".spec_bytes(), "tty".spec_bytes(), 1);
    lemma_string_property("TTYPath".spec_bytes(), tty_path, 1);
    lemma_string_property("User".spec_bytes(), user, 1);
    lemma_environment_property(environment, 1);
    lemma_exec_property(command, 1);

    let a1 = head + p1;
    lemma_concat(head, p1, 0);
    let a2 = a1 + p2;
    lemma_concat(a1, p2, 0);
    let a3 = a2 + p3;
    lemma_concat(a2, p3, 0);
    let a4 = a3 + p4;
    lemma_concat(a3, p4, 0);
    let a5 = a4 + p5;
    lemma_concat(a4, p5, 0);
    let a6 = a5 + p6;
    lemma_concat(a5, p6, 0);
    let a7 = a6 + p7;
    lemma_concat(a6, p7, 0);
    let a8 = a7 + p8;
    lemma_concat(a7, p8, 0);
    let a9 = a8 + p9;
    lemma_concat(a8, p9, 0);
    let all = a9 + tail;
    lemma_concat(a9, tail, 0);
    assert(all =~= transient_unit_body(user, tty_path, command, environment));
    lemma_terminated_all(all, 0);
}

} // verus!
