//! The dispatcher: from a command key to the one shell script that carries
//! it out. The script is fixed text around two interpolated words, the
//! script's file name and a token of the key.

use vstd::prelude::*;
use vstd::string::StringExecFns;
use crate::error::{ErrorKind, O2Error, O2ErrorView};
use crate::key::{parse_key, parse_o2_key, right_token, O2Key, O2KeyView};
use crate::text::{is_space, lemma_skip_leading, lemma_skip_trailing, trimmed};
use crate::token::{is_shell_special, lemma_token_is_inert};
use crate::verbs::{known_verb, script_of, verb_to_script};

verus! {

/// The file name of the script that reports on a port.
pub open spec fn port_status_script() -> Seq<char> {
    "o2_port_status_verb.sh"@
}

/// The lines that every dispatched script starts with: strict mode, the
/// root directory taken from `O2_ROOT` or else `$HOME/dev/o2`, and the change
/// into it.
pub open spec fn preamble() -> Seq<char> {
    "\nset -euo pipefail\nO2_ROOT=\"${O2_ROOT:-$HOME/dev/o2}\"\ncd \"${O2_ROOT}\"\n"@
}

/// The command that runs `script` with the one argument `arg`.
pub open spec fn invocation(script: Seq<char>, arg: Seq<char>) -> Seq<char> {
    "bash \"scripts/"@ + script + "\" \""@ + arg + "\""@
}

/// The whole shell script that runs `script` on `arg` from the root
/// directory.
pub open spec fn script_text(script: Seq<char>, arg: Seq<char>) -> Seq<char> {
    preamble() + invocation(script, arg) + "\n"@
}

/// What a parsed key dispatches to: for a project and a known verb, the
/// verb's script on the project; for a port, the port script on the port;
/// for an unknown verb, the failure that names it.
pub open spec fn dispatch(key: O2KeyView) -> Result<Seq<char>, O2ErrorView> {
    match key {
        O2KeyView::ProjectVerb { project, verb } => match script_of(verb) {
            Some(script) => Ok(script_text(script, project)),
            None => Err(O2ErrorView::UnknownVerb { verb }),
        },
        O2KeyView::PortStatus { port } => Ok(script_text(port_status_script(), port)),
    }
}

/// What a key text dispatches to: the parse's failure, or what the parsed
/// key dispatches to.
pub open spec fn dispatch_text(key: Seq<char>) -> Result<Seq<char>, O2ErrorView> {
    match parse_key(key) {
        Ok(k) => dispatch(k),
        Err(e) => Err(e),
    }
}

/// The command of a dispatched script, with the white space around it
/// stripped, is `bash "scripts/<script>" "<arg>"` and nothing else; it is
/// what follows the preamble, which changes into the root directory.
pub proof fn lemma_script_shape(script: Seq<char>, arg: Seq<char>)
    ensures
        script_text(script, arg) == preamble() + (invocation(script, arg) + "\n"@),
        trimmed(invocation(script, arg) + "\n"@) == invocation(script, arg),
{
    reveal_strlit("bash \"scripts/");
    reveal_strlit("\" \"");
    reveal_strlit("\"");
    reveal_strlit("\n");
    let line = invocation(script, arg);
    let text = line + "\n"@;
    assert(script_text(script, arg) =~= preamble() + text);
    assert(text[0] == 'b');
    assert(text.subrange(0, 0) =~= Seq::<char>::empty());
    lemma_skip_leading(text, 0);
    assert(text.subrange(0, text.len() as int) =~= text);
    let n = line.len() as int;
    assert(text[n - 1] == '"');
    assert(text.subrange(n, text.len() as int) =~= seq!['\n']);
    assert(is_space('\n'));
    lemma_skip_trailing(text, n);
    assert(text.subrange(0, n) =~= line);
}

/// Every key of a project and a known verb dispatches to the preamble
/// followed by one command, which is the verb's script run on the project.
pub proof fn lemma_dispatch_shape(project: Seq<char>, verb: Seq<char>)
    requires
        known_verb(verb),
    ensures
        script_of(verb) is Some,
        dispatch(O2KeyView::ProjectVerb { project, verb }) == Ok::<Seq<char>, O2ErrorView>(
            preamble() + (invocation(script_of(verb)->0, project) + "\n"@),
        ),
        trimmed(invocation(script_of(verb)->0, project) + "\n"@) == invocation(
            script_of(verb)->0,
            project,
        ),
{
    lemma_script_shape(script_of(verb)->0, project);
}

/// The file names that a dispatched script can name: those of the verb
/// table, and the one of the port script.
pub open spec fn recognised_script(name: Seq<char>) -> bool {
    ||| name == "o2_dev.sh"@
    ||| name == "o2_dev_strict.sh"@
    ||| name == "o2_snapshot.sh"@
    ||| name == "o2_commit.sh"@
    ||| name == "o2_map.sh"@
    ||| name == "o2_proofpack.sh"@
    ||| name == "o2_truth_map.sh"@
    ||| name == "o2_port_status_verb.sh"@
}

/// No character of `s` ends a double-quoted shell word or starts an
/// expansion inside one.
pub open spec fn is_inert(s: Seq<char>) -> bool {
    forall|i: int| 0 <= i < s.len() ==> !is_shell_special(#[trigger] s[i])
}

/// Every recognised script name is inert inside a double-quoted shell word.
pub proof fn lemma_script_names_are_inert(name: Seq<char>)
    requires
        recognised_script(name),
    ensures
        is_inert(name),
{
    reveal_strlit("o2_dev.sh");
    reveal_strlit("o2_dev_strict.sh");
    reveal_strlit("o2_snapshot.sh");
    reveal_strlit("o2_commit.sh");
    reveal_strlit("o2_map.sh");
    reveal_strlit("o2_proofpack.sh");
    reveal_strlit("o2_truth_map.sh");
    reveal_strlit("o2_port_status_verb.sh");
}

/// Whatever a well-formed key dispatches to is the fixed script text around
/// two words, a recognised script name and a token of the key, and neither
/// word can leave its double quotes: no key makes the shell run anything
/// but one of the recognised scripts on one inert argument.
pub proof fn lemma_dispatch_is_safe(key: O2KeyView)
    requires
        key.wf(),
        dispatch(key) is Ok,
    ensures
        exists|script: Seq<char>, arg: Seq<char>|
            #![trigger script_text(script, arg)]
            dispatch(key) == Ok::<Seq<char>, O2ErrorView>(script_text(script, arg))
                && recognised_script(script) && is_inert(script) && is_inert(arg),
{
    match key {
        O2KeyView::ProjectVerb { project, verb } => {
            let script = script_of(verb)->0;
            lemma_script_names_are_inert(script);
            lemma_token_is_inert(project);
            assert(dispatch(key) == Ok::<Seq<char>, O2ErrorView>(script_text(script, project)));
        },
        O2KeyView::PortStatus { port } => {
            lemma_script_names_are_inert(port_status_script());
            lemma_token_is_inert(port);
            assert(dispatch(key) == Ok::<Seq<char>, O2ErrorView>(
                script_text(port_status_script(), port),
            ));
        },
    }
}

/// A key text that parses to a project and a verb gets past the verb table
/// exactly when the verb is one of the known seven; when it does not, the
/// failure names the verb.
pub proof fn lemma_verb_closure(key: Seq<char>)
    requires
        parse_key(key) matches Ok(O2KeyView::ProjectVerb { .. }),
    ensures
        dispatch_text(key) is Ok <==> known_verb(right_token(key)),
        dispatch_text(key) is Err ==> dispatch_text(key)->Err_0 == (O2ErrorView::UnknownVerb {
            verb: right_token(key),
        }),
{
}

/// A dispatch fails in one of three ways only: the key has a bad shape, a
/// token is unsafe, or the verb is unknown.
pub proof fn lemma_dispatch_failures(key: Seq<char>)
    ensures
        dispatch_text(key) matches Err(e) ==> e.kind() == ErrorKind::BadKeyShape || e.kind()
            == ErrorKind::UnsafeToken || e.kind() == ErrorKind::UnknownVerb,
{
}

/// Writes the script that runs `script` on `arg`.
fn build_script(script: &str, arg: &str) -> (r: String)
    ensures
        r@ == script_text(script@, arg@),
{
    let mut s = String::from_str(
        "\nset -euo pipefail\nO2_ROOT=\"${O2_ROOT:-$HOME/dev/o2}\"\ncd \"${O2_ROOT}\"\n",
    );
    s.append("bash \"scripts/");
    s.append(script);
    s.append("\" \"");
    s.append(arg);
    s.append("\"");
    s.append("\n");
    assert(s@ =~= script_text(script@, arg@));
    s
}

/// Constructs the script for a parsed key.
///
/// The key's tokens must be of their classes, as those of every parsed key
/// are: they are written into double-quoted shell words as they stand.
pub fn run_o2_key(key: &O2Key) -> (r: Result<String, O2Error>)
    requires
        key.wf(),
    ensures
        match r {
            Ok(script) => dispatch(key@) == Ok::<Seq<char>, O2ErrorView>(script@),
            Err(e) => dispatch(key@) == Err::<Seq<char>, O2ErrorView>(e@),
        },
{
    match key {
        O2Key::ProjectVerb { project, verb } => {
            match verb_to_script(verb.as_str()) {
                Ok(script) => Ok(build_script(script, project.as_str())),
                Err(e) => Err(e),
            }
        },
        O2Key::PortStatus { port } => Ok(build_script("o2_port_status_verb.sh", port.as_str())),
    }
}

/// Turns a key text into the script that carries it out, or into the
/// failure that says why there is none.
pub fn run_o2_proxy(key: &str) -> (r: Result<String, O2Error>)
    ensures
        match r {
            Ok(script) => dispatch_text(key@) == Ok::<Seq<char>, O2ErrorView>(script@),
            Err(e) => dispatch_text(key@) == Err::<Seq<char>, O2ErrorView>(e@),
        },
{
    match parse_o2_key(key) {
        Ok(k) => run_o2_key(&k),
        Err(e) => Err(e),
    }
}

/// The command of the user interface: the script for `key`, for the shell
/// runner to execute, or the failure to show.
pub fn run_o2(key: &str) -> (r: Result<String, O2Error>)
    ensures
        match r {
            Ok(script) => dispatch_text(key@) == Ok::<Seq<char>, O2ErrorView>(script@),
            Err(e) => dispatch_text(key@) == Err::<Seq<char>, O2ErrorView>(e@),
        },
{
    run_o2_proxy(key)
}

} // verus!
