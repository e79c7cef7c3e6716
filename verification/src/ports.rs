//! The port inspector: the commands that probe and free a TCP port, and the
//! reading of what the socket-listing tool prints.

use vstd::prelude::*;
use vstd::string::{StrSliceExecFns, StringExecFns};
use crate::decimal::{decimal, decimal_string, digit_run, digits_value, read_digits};
use crate::error::{O2Error, O2ErrorView};
use crate::text::{
    chars_of, find, find_from, is_space, lemma_blank_trims_to_nothing, lemma_find_from, space_char,
    trimmed,
};

verus! {

/// The state of one TCP port.
#[derive(Debug, PartialEq, Eq)]
pub struct PortStatus {
    pub port: u16,
    /// Whether a socket listens on the port.
    pub listening: bool,
    /// The process that holds the socket, where the tool names it.
    pub pid: Option<u32>,
    /// The name of that process, where the tool names it.
    pub cmd: Option<String>,
    /// Why the probe could not be made, where it could not.
    pub err: Option<String>,
}

/// The mathematical content of a `PortStatus`.
pub struct PortStatusView {
    pub port: u16,
    pub listening: bool,
    pub pid: Option<u32>,
    pub cmd: Option<Seq<char>>,
    pub err: Option<Seq<char>>,
}

impl PortStatusView {
    /// A port on which nothing listens has no process and no process name.
    pub open spec fn wf(self) -> bool {
        !self.listening ==> self.pid is None && self.cmd is None
    }
}

/// The view of an optional text.
pub open spec fn text_view(t: Option<String>) -> Option<Seq<char>> {
    match t {
        Some(s) => Some(s@),
        None => None,
    }
}

impl View for PortStatus {
    type V = PortStatusView;

    open spec fn view(&self) -> PortStatusView {
        PortStatusView {
            port: self.port,
            listening: self.listening,
            pid: self.pid,
            cmd: text_view(self.cmd),
            err: text_view(self.err),
        }
    }
}

impl PortStatus {
    /// A port on which nothing listens has no process and no process name.
    pub open spec fn wf(&self) -> bool {
        self@.wf()
    }
}

/// The command line that lists the sockets listening on `port`.
pub open spec fn probe_command(port: u16) -> Seq<char> {
    "ss -ltnpH 'sport = :"@ + decimal(port as nat) + "' 2>/dev/null || true"@
}

/// The command line that ends whatever holds `port`.
pub open spec fn kill_command(port: u16) -> Seq<char> {
    "fuser -k "@ + decimal(port as nat) + "/tcp || true"@
}

/// The tool printed a listener: some character of its output is not white
/// space. Line breaks are white space, so this is to say that some line is
/// not empty after trimming.
pub open spec fn has_listener(out: Seq<char>) -> bool {
    exists|i: int| 0 <= i < out.len() && !is_space(#[trigger] out[i])
}

/// The part `out[a..b]` lies within one line: it holds no line feed.
pub open spec fn within_line(out: Seq<char>, a: int, b: int) -> bool {
    0 <= a <= b <= out.len() && forall|i: int| a <= i < b ==> out[i] != '\n'
}

/// The output holds a listener exactly when some line of it, or part of a
/// line, is not empty after trimming.
pub proof fn lemma_listener_is_line(out: Seq<char>)
    ensures
        has_listener(out) <==> exists|a: int, b: int|
            within_line(out, a, b) && trimmed(#[trigger] out.subrange(a, b)).len() > 0,
{
    if has_listener(out) {
        let i = choose|i: int| 0 <= i < out.len() && !is_space(#[trigger] out[i]);
        let part = out.subrange(i, i + 1);
        assert(part[0] == out[i]);
        lemma_blank_trims_to_nothing(part);
        assert(within_line(out, i, i + 1));
    }
    if exists|a: int, b: int|
        within_line(out, a, b) && trimmed(#[trigger] out.subrange(a, b)).len() > 0 {
        let (a, b) = choose|a: int, b: int|
            within_line(out, a, b) && trimmed(#[trigger] out.subrange(a, b)).len() > 0;
        let part = out.subrange(a, b);
        lemma_blank_trims_to_nothing(part);
        let k = choose|k: int| 0 <= k < part.len() && !is_space(#[trigger] part[k]);
        assert(out[a + k] == part[k]);
    }
}

/// The process id in the tool's output: the longest run of digits right
/// after the first `pid=`, read as a number. Absent where there is no
/// `pid=`, where no digit follows it, or where the number exceeds 32 bits.
pub open spec fn pid_in(s: Seq<char>) -> Option<u32> {
    match find_from(s, "pid="@, 0) {
        None => None,
        Some(i) => {
            let run = s.subrange(i + 4, i + 4 + digit_run(s, i + 4));
            if run.len() > 0 && digits_value(run) <= u32::MAX {
                Some(digits_value(run) as u32)
            } else {
                None
            }
        },
    }
}

/// The process name in the tool's output: what stands between the first
/// two double quotes after the first `((`. Absent where there is no `((`,
/// where fewer than two double quotes follow it, or where nothing stands
/// between them.
pub open spec fn prog_in(s: Seq<char>) -> Option<Seq<char>> {
    match find_from(s, "(("@, 0) {
        None => None,
        Some(p) => match find_from(s, "\""@, p + 2) {
            None => None,
            Some(open) => match find_from(s, "\""@, open + 1) {
                None => None,
                Some(close) => if close == open + 1 {
                    None
                } else {
                    Some(s.subrange(open + 1, close))
                },
            },
        },
    }
}

/// The state of `port` as a probe shows it. A probe that failed gives a
/// port that is not known to listen, with the failure's message. A probe
/// that ran gives a listening port, with the process the output names,
/// where the output holds a listener, and an idle port where it holds none.
pub open spec fn status_of(port: u16, probe: Result<Seq<char>, O2ErrorView>) -> PortStatusView {
    match probe {
        Err(e) => PortStatusView {
            port,
            listening: false,
            pid: None,
            cmd: None,
            err: Some(e.message()),
        },
        Ok(out) => if has_listener(out) {
            PortStatusView { port, listening: true, pid: pid_in(out), cmd: prog_in(out), err: None }
        } else {
            PortStatusView { port, listening: false, pid: None, cmd: None, err: None }
        },
    }
}

/// The view of a probe's outcome.
pub open spec fn probe_view(probe: Result<String, O2Error>) -> Result<Seq<char>, O2ErrorView> {
    match probe {
        Ok(out) => Ok(out@),
        Err(e) => Err(e@),
    }
}

/// Whatever a probe shows, a port that does not listen has no process.
pub proof fn lemma_status_wf(port: u16, probe: Result<Seq<char>, O2ErrorView>)
    ensures
        status_of(port, probe).wf(),
        status_of(port, probe).port == port,
        status_of(port, probe).err is Some <==> probe is Err,
{
}

/// Writes the command line that lists the sockets listening on `port`.
pub fn port_status_command(port: u16) -> (r: String)
    ensures
        r@ == probe_command(port),
{
    let number = decimal_string(port as u64);
    let mut s = String::from_str("ss -ltnpH 'sport = :");
    s.append(number.as_str());
    s.append("' 2>/dev/null || true");
    s
}

/// Writes the command line that ends whatever holds `port`.
pub fn kill_port_command(port: u16) -> (r: String)
    ensures
        r@ == kill_command(port),
{
    let number = decimal_string(port as u64);
    let mut s = String::from_str("fuser -k ");
    s.append(number.as_str());
    s.append("/tcp || true");
    s
}

/// Whether some character of `v` is not white space.
pub fn any_listener(v: &Vec<char>) -> (b: bool)
    ensures
        b == has_listener(v@),
{
    let mut i: usize = 0;
    while i < v.len()
        invariant
            i <= v.len(),
            forall|j: int| 0 <= j < i ==> is_space(#[trigger] v@[j]),
        decreases v.len() - i,
    {
        if !space_char(v[i]) {
            return true;
        }
        i += 1;
    }
    false
}

/// Reads the process id out of characters that the tool printed.
fn pid_of(v: &Vec<char>) -> (r: Option<u32>)
    ensures
        r == pid_in(v@),
{
    let word = chars_of("pid=");
    proof {
        reveal_strlit("pid=");
        lemma_find_from(v@, word@, 0);
    }
    match find(v, &word, 0) {
        None => None,
        Some(i) => {
            assert(word@.len() == 4);
            let (end, value) = read_digits(v, i + 4);
            if end == i + 4 {
                None
            } else {
                value
            }
        },
    }
}

/// Reads the process id out of the tool's output.
pub fn parse_pid_from_ss(s: &str) -> (r: Option<u32>)
    ensures
        r == pid_in(s@),
{
    let v = chars_of(s);
    pid_of(&v)
}

/// Finds the process name in characters that the tool printed: the bounds
/// of what stands between the two quotes.
fn prog_bounds(v: &Vec<char>) -> (r: Option<(usize, usize)>)
    ensures
        match r {
            Some((a, b)) => a < b <= v@.len() && prog_in(v@) == Some(
                v@.subrange(a as int, b as int),
            ),
            None => prog_in(v@) is None,
        },
{
    let parens = chars_of("((");
    let quote = chars_of("\"");
    proof {
        reveal_strlit("((");
        reveal_strlit("\"");
        lemma_find_from(v@, parens@, 0);
    }
    let p = match find(v, &parens, 0) {
        None => {
            return None;
        },
        Some(p) => p,
    };
    assert(parens@.len() == 2);
    proof {
        lemma_find_from(v@, quote@, p + 2);
    }
    let open = match find(v, &quote, p + 2) {
        None => {
            return None;
        },
        Some(q) => q,
    };
    assert(quote@.len() == 1);
    proof {
        lemma_find_from(v@, quote@, open + 1);
    }
    let close = match find(v, &quote, open + 1) {
        None => {
            return None;
        },
        Some(q) => q,
    };
    if close == open + 1 {
        None
    } else {
        Some((open + 1, close))
    }
}

/// Reads the process name out of the text `s`, whose characters are `v`.
fn prog_of(s: &str, v: &Vec<char>) -> (r: Option<String>)
    requires
        v@ == s@,
    ensures
        text_view(r) == prog_in(s@),
{
    match prog_bounds(v) {
        None => None,
        Some((a, b)) => Some(String::from_str(s.substring_char(a, b))),
    }
}

/// Reads the process name out of the tool's output.
pub fn parse_prog_from_ss(s: &str) -> (r: Option<String>)
    ensures
        text_view(r) == prog_in(s@),
{
    let v = chars_of(s);
    prog_of(s, &v)
}

/// Reads the process id and the process name out of the tool's output.
pub fn parse_pid_and_cmd_from_ss(s: &str) -> (r: (Option<u32>, Option<String>))
    ensures
        r.0 == pid_in(s@),
        text_view(r.1) == prog_in(s@),
{
    let v = chars_of(s);
    (pid_of(&v), prog_of(s, &v))
}

/// The state of `port`, from the outcome of running the probe command.
///
/// Always gives a record. A probe that could not be run is reported in
/// `err`; the process is looked for only where the output holds a listener.
pub fn port_status(port: u16, probe: Result<String, O2Error>) -> (r: PortStatus)
    ensures
        r@ == status_of(port, probe_view(probe)),
        r.wf(),
{
    match probe {
        Err(e) => PortStatus {
            port,
            listening: false,
            pid: None,
            cmd: None,
            err: Some(e.message()),
        },
        Ok(out) => {
            let v = chars_of(out.as_str());
            if any_listener(&v) {
                let pid = pid_of(&v);
                let cmd = prog_of(out.as_str(), &v);
                PortStatus { port, listening: true, pid, cmd, err: None }
            } else {
                PortStatus { port, listening: false, pid: None, cmd: None, err: None }
            }
        },
    }
}

} // verus!
