use vstd::prelude::*;
use vstd::string::StringSliceAdditionalSpecFns;
use crate::bytes::{append, same, to_vec};
use crate::encoder::{UnitRequest, views};

verus! {

/// The bytes that separate the words of a command override: space, tab,
/// line feed, form feed and carriage return.
pub open spec fn is_word_space(b: u8) -> bool {
    b == 32u8 || b == 9u8 || b == 10u8 || b == 12u8 || b == 13u8
}

/// The ASCII bytes that are white space around a list item: those of
/// `is_word_space` and the vertical tab.
pub open spec fn is_blank(b: u8) -> bool {
    is_word_space(b) || b == 11u8
}

/// Scanning `s[..i]` for words: the words completed so far and the word
/// being read.
pub open spec fn words_scan(s: Seq<u8>, i: int) -> (Seq<Seq<u8>>, Seq<u8>)
    decreases i,
{
    if i <= 0 {
        (Seq::empty(), Seq::empty())
    } else {
        let (done, cur) = words_scan(s, i - 1);
        if is_word_space(s[i - 1]) {
            if cur.len() > 0 {
                (done.push(cur), Seq::empty())
            } else {
                (done, Seq::empty())
            }
        } else {
            (done, cur.push(s[i - 1]))
        }
    }
}

/// The maximal runs of non-space bytes of `s`, in order.
pub open spec fn words(s: Seq<u8>) -> Seq<Seq<u8>> {
    let (done, cur) = words_scan(s, s.len() as int);
    if cur.len() > 0 {
        done.push(cur)
    } else {
        done
    }
}

/// The words of a command override: the program first, then its arguments.
pub fn command_words(s: &[u8]) -> (r: Vec<Vec<u8>>)
    ensures
        views(r@) == words(s@),
{
    let n = s.len();
    let mut done: Vec<Vec<u8>> = Vec::new();
    let mut cur: Vec<u8> = Vec::new();
    let mut i: usize = 0;
    while i < n
        invariant
            n == s@.len(),
            i <= n,
            views(done@) == words_scan(s@, i as int).0,
            cur@ == words_scan(s@, i as int).1,
        decreases n - i,
    {
        let b = s[i];
        if b == 32u8 || b == 9u8 || b == 10u8 || b == 12u8 || b == 13u8 {
            if cur.len() > 0 {
                let ghost prev = done@;
                done.push(cur);
                assert(views(done@) =~= views(prev).push(
                    words_scan(s@, i as int).1,
                ));
            }
            cur = Vec::new();
        } else {
            cur.push(b);
        }
        i += 1;
    }
    if cur.len() > 0 {
        let ghost prev = done@;
        done.push(cur);
        assert(views(done@) =~= views(prev).push(
            words_scan(s@, n as int).1,
        ));
    }
    done
}

/// Scanning `s[..i]` for comma-separated pieces: the pieces completed so far
/// and the piece being read.
pub open spec fn pieces_scan(s: Seq<u8>, i: int) -> (Seq<Seq<u8>>, Seq<u8>)
    decreases i,
{
    if i <= 0 {
        (Seq::empty(), Seq::empty())
    } else {
        let (done, cur) = pieces_scan(s, i - 1);
        if s[i - 1] == 44u8 {
            (done.push(cur), Seq::empty())
        } else {
            (done, cur.push(s[i - 1]))
        }
    }
}

/// The pieces of `s` between commas: one more than there are commas.
pub open spec fn pieces(s: Seq<u8>) -> Seq<Seq<u8>> {
    let (done, cur) = pieces_scan(s, s.len() as int);
    done.push(cur)
}

/// `s` without its leading blanks.
pub open spec fn trim_start(s: Seq<u8>) -> Seq<u8>
    decreases s.len(),
{
    if s.len() > 0 && is_blank(s[0]) {
        trim_start(s.subrange(1, s.len() as int))
    } else {
        s
    }
}

/// `s` without its trailing blanks.
pub open spec fn trim_end(s: Seq<u8>) -> Seq<u8>
    decreases s.len(),
{
    if s.len() > 0 && is_blank(s.last()) {
        trim_end(s.drop_last())
    } else {
        s
    }
}

/// `s` without blanks at either end.
pub open spec fn trim(s: Seq<u8>) -> Seq<u8> {
    trim_end(trim_start(s))
}

/// The items of a comma-separated list, each without blanks at its ends.
pub open spec fn list_items(s: Seq<u8>) -> Seq<Seq<u8>> {
    pieces(s).map_values(|p: Seq<u8>| trim(p))
}

fn is_blank_byte(b: u8) -> (r: bool)
    ensures
        r == is_blank(b),
{
    b == 32u8 || b == 9u8 || b == 10u8 || b == 11u8 || b == 12u8 || b == 13u8
}

/// `s` without blanks at either end.
pub fn trimmed(s: &[u8]) -> (r: Vec<u8>)
    ensures
        r@ == trim(s@),
{
    let n = s.len();
    let mut lo: usize = 0;
    assert(s@.subrange(0, n as int) =~= s@);
    while lo < n && is_blank_byte(s[lo])
        invariant
            n == s@.len(),
            lo <= n,
            trim_start(s@.subrange(lo as int, n as int)) == trim_start(s@),
        decreases n - lo,
    {
        assert(s@.subrange(lo as int, n as int).subrange(1, n - lo) =~= s@.subrange(
            lo + 1,
            n as int,
        ));
        lo += 1;
    }
    let ghost front = s@.subrange(lo as int, n as int);
    assert(trim_start(front) == front);
    let mut hi: usize = n;
    assert(front.subrange(0, hi - lo) =~= front);
    while hi > lo && is_blank_byte(s[hi - 1])
        invariant
            n == s@.len(),
            lo <= hi <= n,
            front == s@.subrange(lo as int, n as int),
            trim_end(s@.subrange(lo as int, hi as int)) == trim_end(front),
        decreases hi - lo,
    {
        assert(s@.subrange(lo as int, hi as int).drop_last() =~= s@.subrange(
            lo as int,
            hi - 1,
        ));
        hi -= 1;
    }
    let mut r: Vec<u8> = Vec::new();
    let mut i: usize = lo;
    while i < hi
        invariant
            lo <= i <= hi,
            hi <= n,
            n == s@.len(),
            r@ == s@.subrange(lo as int, i as int),
        decreases hi - i,
    {
        r.push(s[i]);
        i += 1;
        assert(r@ =~= s@.subrange(lo as int, i as int));
    }
    r
}

/// The items of a comma-separated list, each without blanks at its ends.
pub fn split_list(s: &[u8]) -> (r: Vec<Vec<u8>>)
    ensures
        views(r@) == list_items(s@),
{
    let n = s.len();
    let mut done: Vec<Vec<u8>> = Vec::new();
    let mut start: usize = 0;
    let mut i: usize = 0;
    while i < n
        invariant
            n == s@.len(),
            start <= i <= n,
            views(done@) == pieces_scan(s@, i as int).0.map_values(
                |p: Seq<u8>| trim(p),
            ),
            s@.subrange(start as int, i as int) == pieces_scan(s@, i as int).1,
        decreases n - i,
    {
        if s[i] == 44u8 {
            let piece = &s[start..i];
            assert(piece@ == s@.subrange(start as int, i as int));
            let item = trimmed(piece);
            let ghost prev = done@;
            let ghost scan = pieces_scan(s@, i as int);
            assert(pieces_scan(s@, i + 1).0 == scan.0.push(scan.1));
            done.push(item);
            assert(views(done@) =~= views(prev).push(
                trim(scan.1),
            ));
            assert(views(done@) =~= pieces_scan(s@, i + 1).0.map_values(
                |p: Seq<u8>| trim(p),
            ));
            start = i + 1;
            assert(s@.subrange(start as int, i + 1) =~= Seq::<u8>::empty());
        } else {
            assert(s@.subrange(start as int, i + 1) =~= s@.subrange(start as int, i as int).push(
                s@[i as int],
            ));
        }
        i += 1;
    }
    let piece = &s[start..n];
    assert(piece@ == s@.subrange(start as int, n as int));
    let item = trimmed(piece);
    let ghost prev = done@;
    let ghost scan = pieces_scan(s@, n as int);
    done.push(item);
    assert(views(done@) =~= views(prev).push(
        trim(scan.1),
    ));
    assert(views(done@) =~= list_items(s@));
    done
}


/// A variable of the caller's environment that the shell inherits: its name
/// and its value, absent where the caller has no such variable.
pub struct Inherited {
    pub name: Vec<u8>,
    pub value: Option<Vec<u8>>,
}

/// The environment entry `key=value`.
pub open spec fn assignment(key: Seq<u8>, value: Seq<u8>) -> Seq<u8> {
    key + "=".spec_bytes() + value
}

/// The entries of the inherited variables that the caller has, in order.
pub open spec fn inherited_entries(vars: Seq<Inherited>) -> Seq<Seq<u8>>
    decreases vars.len(),
{
    if vars.len() == 0 {
        Seq::empty()
    } else {
        let rest = inherited_entries(vars.drop_last());
        match vars.last().value {
            Some(v) => rest.push(assignment(vars.last().name@, v@)),
            None => rest,
        }
    }
}

/// The bytes of an optional byte slice.
pub open spec fn opt_bytes(o: Option<&[u8]>) -> Option<Seq<u8>> {
    match o {
        Some(t) => Some(t@),
        None => None,
    }
}

/// The shell's environment: the items of the explicit list, then `TERM`
/// where the caller has it, then the inherited variables that the caller has.
pub open spec fn environment_list(
    explicit: Option<Seq<u8>>,
    term: Option<Seq<u8>>,
    vars: Seq<Inherited>,
) -> Seq<Seq<u8>> {
    let given = match explicit {
        Some(t) => list_items(t),
        None => Seq::empty(),
    };
    let terminal = match term {
        Some(v) => seq![assignment("TERM".spec_bytes(), v)],
        None => Seq::empty(),
    };
    given + terminal + inherited_entries(vars)
}

/// The entry `key=value`.
pub fn assignment_of(key: &[u8], value: &[u8]) -> (r: Vec<u8>)
    ensures
        r@ == assignment(key@, value@),
{
    let mut r = to_vec(key);
    append(&mut r, "=".as_bytes());
    append(&mut r, value);
    r
}

/// The shell's environment entries.
pub fn environment_entries(
    explicit: Option<&[u8]>,
    term: Option<&[u8]>,
    inherited: &Vec<Inherited>,
) -> (r: Vec<Vec<u8>>)
    ensures
        views(r@) == environment_list(
            opt_bytes(explicit),
            opt_bytes(term),
            inherited@,
        ),
{
    let mut r: Vec<Vec<u8>> = match explicit {
        Some(t) => split_list(t),
        None => Vec::new(),
    };
    let ghost given = views(r@);
    match term {
        Some(v) => {
            r.push(assignment_of("TERM".as_bytes(), v));
        },
        None => {},
    }
    let ghost head = views(r@);
    assert(head =~= given + match opt_bytes(term) {
        Some(v) => seq![assignment("TERM".spec_bytes(), v)],
        None => Seq::<Seq<u8>>::empty(),
    });
    let mut i: usize = 0;
    while i < inherited.len()
        invariant
            i <= inherited@.len(),
            views(r@) == head + inherited_entries(
                inherited@.subrange(0, i as int),
            ),
        decreases inherited@.len() - i,
    {
        let var = &inherited[i];
        let ghost prev = views(r@);
        assert(inherited@.subrange(0, i + 1).drop_last() =~= inherited@.subrange(0, i as int));
        match &var.value {
            Some(v) => {
                r.push(assignment_of(var.name.as_slice(), v.as_slice()));
                assert(views(r@) =~= prev.push(
                    assignment(var.name@, v@),
                ));
            },
            None => {},
        }
        i += 1;
    }
    assert(inherited@.subrange(0, i as int) =~= inherited@);
    r
}


/// The user a shell runs as: the one asked for, else `root`.
pub open spec fn shell_user(user: Option<Seq<u8>>) -> Seq<u8> {
    match user {
        Some(u) => u,
        None => "root".spec_bytes(),
    }
}

/// The request for a shell unit on the PTY slave at `tty_path`: the user
/// asked for (else `root`); the words of the command override, where there
/// is one (no words means the default shell); and the environment built
/// from the explicit list, `TERM` and the inherited variables.
pub fn shell_request(
    user: Option<&[u8]>,
    tty_path: &[u8],
    command: Option<&[u8]>,
    explicit: Option<&[u8]>,
    term: Option<&[u8]>,
    inherited: &Vec<Inherited>,
) -> (r: UnitRequest)
    ensures
        r.user@ == shell_user(opt_bytes(user)),
        r.tty_path@ == tty_path@,
        views(r.command@) == match command {
            Some(c) => words(c@),
            None => Seq::<Seq<u8>>::empty(),
        },
        views(r.environment@) == environment_list(opt_bytes(explicit), opt_bytes(term), inherited@),
{
    let user = match user {
        Some(u) => to_vec(u),
        None => to_vec("root".as_bytes()),
    };
    let command = match command {
        Some(c) => command_words(c),
        None => Vec::new(),
    };
    let environment = environment_entries(explicit, term, inherited);
    UnitRequest { user, tty_path: to_vec(tty_path), command, environment }
}

/// The operations a command line asks for.
#[derive(Clone, Copy, Debug, PartialEq, Eq, Structural)]
pub enum Operation {
    /// Make sure the nested init runs.
    Boot,
    /// Make sure the nested init runs, then open a shell in it.
    Shell,
    /// Terminate the nested init.
    Shutdown,
    /// Print the usage text.
    Help,
}

/// The operation that a command word names; anything else asks for help.
pub open spec fn operation_of(word: Option<Seq<u8>>) -> Operation {
    match word {
        Some(w) => if w == "boot".spec_bytes() {
            Operation::Boot
        } else if w == "shell".spec_bytes() {
            Operation::Shell
        } else if w == "shutdown".spec_bytes() {
            Operation::Shutdown
        } else {
            Operation::Help
        },
        None => Operation::Help,
    }
}

/// The operation that a command word names.
pub fn parse_operation(word: Option<&[u8]>) -> (r: Operation)
    ensures
        r == operation_of(opt_bytes(word)),
{
    match word {
        Some(w) => if same(w, "boot".as_bytes()) {
            Operation::Boot
        } else if same(w, "shell".as_bytes()) {
            Operation::Shell
        } else if same(w, "shutdown".as_bytes()) {
            Operation::Shutdown
        } else {
            Operation::Help
        },
        None => Operation::Help,
    }
}

} // verus!
