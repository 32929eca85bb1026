//! Commands that ask a machine about itself, and the reading of their
//! answers: the login user's home, the network interface, cleanup.
use vstd::prelude::*;
use crate::template::{fill, fill_spec, views_of};

verus! {

/// Prints the home directory of a user.
pub const HOME_QUERY: &'static str = "echo ~{}";

/// Lists the addresses of each interface, one line per address.
pub const IFACE_QUERY: &'static str = "bash -c \"ip -o addr | awk '{print $2}'\"";

/// An address line of `ip -o addr`; the group is the interface name.
pub const IFACE_PATTERN: &'static str = r"[0-9]+:\s+([a-z]+[0-9]+)\s+inet";

/// The loopback interface, never used for traffic.
pub const LOOPBACK: &'static str = "lo";

/// Kills every process whose name matches.
pub const PKILL: &'static str = "pkill -9 {}";

/// The processes the stages start, killed before each stage.
pub open spec fn measurement_processes() -> Seq<Seq<char>> {
    seq!["iperf"@, "bmon"@, "udping"@, "inbox"@, "outbox"@, "nimbus"@]
}

/// What `regex` finds for the first group of `pattern` at the leftmost match
/// in `text`; `None` when the pattern does not compile or does not match.
pub uninterp spec fn regex_first_group(pattern: Seq<char>, text: Seq<char>) -> Option<Seq<char>>;

/// What `str::trim` leaves of `s`.
pub uninterp spec fn trimmed(s: Seq<char>) -> Seq<char>;

pub open spec fn opt_view(o: Option<String>) -> Option<Seq<char>> {
    match o {
        Some(s) => Some(s@),
        None => None,
    }
}

/// Relies on `regex::Regex::new` to compile `pattern` and on
/// `regex::Regex::captures` for the leftmost match in `text`, of which the
/// first group is taken.
#[verifier::external_body]
fn capture_first_group(pattern: &str, text: &str) -> (r: Option<String>)
    ensures
        opt_view(r) == regex_first_group(pattern@, text@),
{
    let re = regex::Regex::new(pattern).ok()?;
    re.captures(text)?.get(1).map(|m| m.as_str().to_string())
}

/// Relies on `str::trim`: `s` without its leading and trailing whitespace.
#[verifier::external_body]
fn trim_str(s: &str) -> (r: String)
    ensures
        r@ == trimmed(s@),
{
    s.trim().to_string()
}

/// The command that prints the home directory of `user`.
pub fn get_home(user: &str) -> (r: String)
    ensures
        r@ == fill_spec(HOME_QUERY@, seq![user@]),
{
    let args = vec![user];
    assert(views_of(args@) =~= seq![user@]);
    fill(HOME_QUERY, &args)
}

/// The home directory, read from what the home query printed.
pub fn home_from_output(stdout: &str) -> (r: String)
    ensures
        r@ == trimmed(stdout@),
{
    trim_str(stdout)
}

/// The command that kills the processes named `procname`.
pub fn pkill(procname: &str) -> (r: String)
    ensures
        r@ == fill_spec(PKILL@, seq![procname@]),
{
    let args = vec![procname];
    assert(views_of(args@) =~= seq![procname@]);
    fill(PKILL, &args)
}

/// The cleanup run on both machines before each stage: one kill command
/// per measurement process.
pub fn reset_commands() -> (r: Vec<String>)
    ensures
        r@.len() == measurement_processes().len(),
        forall|i: int| 0 <= i < r@.len() ==> r@[i]@ == fill_spec(PKILL@, seq![measurement_processes()[i]]),
{
    let names: Vec<&str> = vec!["iperf", "bmon", "udping", "inbox", "outbox", "nimbus"];
    proof {
        reveal_strlit("iperf");
        reveal_strlit("bmon");
        reveal_strlit("udping");
        reveal_strlit("inbox");
        reveal_strlit("outbox");
        reveal_strlit("nimbus");
    }
    assert(views_of(names@) =~= measurement_processes());
    let mut r: Vec<String> = Vec::new();
    let mut i: usize = 0;
    while i < names.len()
        invariant
            names@.len() == measurement_processes().len(),
            views_of(names@) == measurement_processes(),
            i <= names@.len(),
            r@.len() == i,
            forall|k: int| 0 <= k < i ==> r@[k]@ == fill_spec(PKILL@, seq![measurement_processes()[k]]),
        decreases names@.len() - i,
    {
        assert(names@[i as int]@ == views_of(names@)[i as int]);
        r.push(pkill(names[i]));
        i = i + 1;
    }
    r
}

/// The lines of `s`, split at each newline; a last line without a newline
/// counts when it is not empty. `cur` is the line begun before `s`.
pub open spec fn lines_from(s: Seq<char>, cur: Seq<char>) -> Seq<Seq<char>>
    decreases s.len(),
{
    if s.len() == 0 {
        if cur.len() == 0 {
            Seq::empty()
        } else {
            seq![cur]
        }
    } else if s[0] == '\n' {
        seq![cur] + lines_from(s.skip(1), Seq::empty())
    } else {
        lines_from(s.skip(1), cur.push(s[0]))
    }
}

pub open spec fn lines_of(s: Seq<char>) -> Seq<Seq<char>> {
    lines_from(s, Seq::empty())
}

pub open spec fn strings_view(v: Seq<String>) -> Seq<Seq<char>> {
    v.map_values(|x: String| x@)
}

/// Splits `s` into its lines.
pub fn split_lines(s: &str) -> (r: Vec<String>)
    ensures
        strings_view(r@) == lines_of(s@),
{
    let n = s.unicode_len();
    let mut r: Vec<String> = Vec::new();
    let mut cur = String::new();
    let mut i: usize = 0;
    assert(s@.skip(0) =~= s@);
    assert(strings_view(r@) + lines_from(s@.skip(0), cur@) =~= lines_of(s@));
    while i < n
        invariant
            n == s@.len(),
            i <= n,
            strings_view(r@) + lines_from(s@.skip(i as int), cur@) == lines_of(s@),
        decreases n - i,
    {
        let c = s.get_char(i);
        let ghost rest = s@.skip(i as int);
        assert(rest[0] == c);
        assert(rest.skip(1) =~= s@.skip(i + 1));
        if c == '\n' {
            let ghost before = strings_view(r@);
            let done = cur;
            r.push(done);
            cur = String::new();
            assert(strings_view(r@) =~= before.push(done@));
            assert(strings_view(r@) + lines_from(s@.skip(i + 1), cur@) =~= before + (seq![done@]
                + lines_from(s@.skip(i + 1), Seq::empty())));
        } else {
            let one = s.substring_char(i, i + 1);
            assert(one@ =~= seq![c]);
            let ghost old_cur = cur@;
            cur.append(one);
            assert(cur@ =~= old_cur.push(c));
        }
        i = i + 1;
    }
    assert(s@.skip(n as int) =~= Seq::<char>::empty());
    if cur.unicode_len() > 0 {
        let ghost before = strings_view(r@);
        let ghost last = cur@;
        r.push(cur);
        assert(strings_view(r@) =~= before + seq![last]);
    } else {
        assert(strings_view(r@) =~= strings_view(r@) + lines_from(s@.skip(n as int), cur@));
    }
    r
}

/// No interface other than loopback has an address.
#[derive(PartialEq, Eq, Structural, Clone, Copy, Debug)]
pub enum IfaceError {
    NoMatchingInterfaces,
}

/// The first interface name among `caps` that is not loopback.
pub open spec fn pick_spec(caps: Seq<Option<Seq<char>>>) -> Option<Seq<char>>
    decreases caps.len(),
{
    if caps.len() == 0 {
        None
    } else if caps[0] is Some && caps[0]->0 != LOOPBACK@ {
        caps[0]
    } else {
        pick_spec(caps.drop_first())
    }
}

pub open spec fn opts_view(v: Seq<Option<String>>) -> Seq<Option<Seq<char>>> {
    v.map_values(|o: Option<String>| opt_view(o))
}

/// Picks the interface: the first name found, in line order, that is not
/// loopback; an error when there is none.
pub fn pick_iface(caps: &Vec<Option<String>>) -> (r: Result<String, IfaceError>)
    ensures
        r matches Ok(name) ==> pick_spec(opts_view(caps@)) == Some(name@),
        r is Err ==> pick_spec(opts_view(caps@)) is None,
{
    let ghost all = opts_view(caps@);
    let lo = String::from_str(LOOPBACK);
    let mut i: usize = 0;
    assert(all.skip(0) =~= all);
    while i < caps.len()
        invariant
            all == opts_view(caps@),
            i <= caps@.len(),
            lo@ == LOOPBACK@,
            pick_spec(all.skip(i as int)) == pick_spec(all),
        decreases caps@.len() - i,
    {
        assert(all.skip(i as int)[0] == opt_view(caps@[i as int]));
        assert(all.skip(i as int).drop_first() =~= all.skip(i + 1));
        match &caps[i] {
            Some(name) => {
                if !(*name == lo) {
                    return Ok(name.clone());
                }
            },
            None => {},
        }
        i = i + 1;
    }
    Err(IfaceError::NoMatchingInterfaces)
}

/// The interface name found on each line.
pub open spec fn line_captures(lines: Seq<Seq<char>>) -> Seq<Option<Seq<char>>> {
    lines.map_values(|l: Seq<char>| regex_first_group(IFACE_PATTERN@, l))
}

/// The traffic interface, read from what the interface query printed: the
/// first line that names an interface other than loopback gives it.
pub fn iface_name(stdout: &str) -> (r: Result<String, IfaceError>)
    ensures
        r matches Ok(name) ==> pick_spec(line_captures(lines_of(stdout@))) == Some(name@),
        r is Err ==> pick_spec(line_captures(lines_of(stdout@))) is None,
{
    let lines = split_lines(stdout);
    let mut caps: Vec<Option<String>> = Vec::new();
    let mut i: usize = 0;
    while i < lines.len()
        invariant
            strings_view(lines@) == lines_of(stdout@),
            i <= lines@.len(),
            caps@.len() == i,
            forall|k: int| 0 <= k < i ==> opt_view(#[trigger] caps@[k]) == regex_first_group(IFACE_PATTERN@, lines@[k]@),
        decreases lines@.len() - i,
    {
        caps.push(capture_first_group(IFACE_PATTERN, lines[i].as_str()));
        i = i + 1;
    }
    assert(opts_view(caps@) =~= line_captures(lines_of(stdout@)));
    pick_iface(&caps)
}

/// The command that asks a machine for its interfaces.
pub fn get_iface_name() -> (r: String)
    ensures
        r@ == IFACE_QUERY@,
{
    String::from_str(IFACE_QUERY)
}

} // verus!
