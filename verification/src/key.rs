//! Command keys: the dot-separated text that the user interface submits, and
//! the tagged value that it parses to.

use vstd::prelude::*;
use vstd::string::{StrSliceExecFns, StringExecFns};
use crate::error::{ErrorKind, O2Error, O2ErrorView, TokenRole};
use crate::text::{chars_of, find, lemma_find_from, occurs_at, text_is, trim_bounds, trimmed};
use crate::token::{digit_chars, port_token, safe_chars, safe_token};

verus! {

/// A parsed command key.
#[derive(Debug, PartialEq, Eq)]
pub enum O2Key {
    /// A verb to run on a project.
    ProjectVerb { project: String, verb: String },
    /// A query for the state of a port.
    PortStatus { port: String },
}

/// The mathematical content of an `O2Key`.
pub enum O2KeyView {
    ProjectVerb { project: Seq<char>, verb: Seq<char> },
    PortStatus { port: Seq<char> },
}

impl O2KeyView {
    /// The tokens are of the classes that make them safe to interpolate:
    /// project and verb are safe tokens, a port is a port token.
    pub open spec fn wf(self) -> bool {
        match self {
            O2KeyView::ProjectVerb { project, verb } => safe_token(project) && safe_token(verb),
            O2KeyView::PortStatus { port } => port_token(port),
        }
    }
}

impl View for O2Key {
    type V = O2KeyView;

    open spec fn view(&self) -> O2KeyView {
        match self {
            O2Key::ProjectVerb { project, verb } => O2KeyView::ProjectVerb {
                project: project@,
                verb: verb@,
            },
            O2Key::PortStatus { port } => O2KeyView::PortStatus { port: port@ },
        }
    }
}

impl O2Key {
    /// Whether the tokens of the key are of their classes.
    pub open spec fn wf(&self) -> bool {
        self@.wf()
    }
}

/// The key holds a dot at `d` and nowhere else.
pub open spec fn sole_dot(key: Seq<char>, d: int) -> bool {
    &&& 0 <= d < key.len()
    &&& key[d] == '.'
    &&& forall|j: int| 0 <= j < key.len() && j != d ==> key[j] != '.'
}

/// The key holds exactly one dot.
pub open spec fn has_sole_dot(key: Seq<char>) -> bool {
    exists|d: int| sole_dot(key, d)
}

/// The part of the key before its dot, trimmed.
pub open spec fn left_token(key: Seq<char>) -> Seq<char> {
    let d = choose|d: int| sole_dot(key, d);
    trimmed(key.subrange(0, d))
}

/// The part of the key after its dot, trimmed.
pub open spec fn right_token(key: Seq<char>) -> Seq<char> {
    let d = choose|d: int| sole_dot(key, d);
    trimmed(key.subrange(d + 1, key.len() as int))
}

/// What a key text parses to: a key with exactly one dot whose left part is
/// `port_status` asks for a port, and its right part must be a port token;
/// any other key with exactly one dot names a project and a verb, and both
/// parts must be safe tokens.
pub open spec fn parse_key(key: Seq<char>) -> Result<O2KeyView, O2ErrorView> {
    if !has_sole_dot(key) {
        Err(O2ErrorView::BadKeyShape { key })
    } else {
        let left = left_token(key);
        let right = right_token(key);
        if left == "port_status"@ {
            if port_token(right) {
                Ok(O2KeyView::PortStatus { port: right })
            } else {
                Err(O2ErrorView::UnsafeToken { role: TokenRole::Port, token: right })
            }
        } else if !safe_token(left) {
            Err(O2ErrorView::UnsafeToken { role: TokenRole::Project, token: left })
        } else if !safe_token(right) {
            Err(O2ErrorView::UnsafeToken { role: TokenRole::Verb, token: right })
        } else {
            Ok(O2KeyView::ProjectVerb { project: left, verb: right })
        }
    }
}

/// Parsing is total and closed: every text parses to a well-formed key of
/// one of the two variants, or fails as a key of bad shape or as an unsafe
/// token.
pub proof fn lemma_parse_key_total(key: Seq<char>)
    ensures
        match parse_key(key) {
            Ok(k) => k.wf(),
            Err(e) => e.kind() == ErrorKind::BadKeyShape || e.kind() == ErrorKind::UnsafeToken,
        },
{
}

/// The failure of a parse names the text at fault: the whole key where its
/// shape is wrong, else the trimmed token that is out of its class.
pub proof fn lemma_parse_key_offender(key: Seq<char>)
    requires
        parse_key(key) is Err,
    ensures
        match parse_key(key)->Err_0 {
            O2ErrorView::BadKeyShape { key: k } => k == key && !has_sole_dot(key),
            O2ErrorView::UnsafeToken { role, token } => has_sole_dot(key) && match role {
                TokenRole::Port => token == right_token(key) && !port_token(token),
                TokenRole::Project => token == left_token(key) && !safe_token(token),
                TokenRole::Verb => token == right_token(key) && !safe_token(token),
            },
            _ => false,
        },
{
}

/// A pattern of one character stands exactly where that character stands.
pub proof fn lemma_single_char_occurs(hay: Seq<char>, c: char, i: int)
    ensures
        occurs_at(hay, seq![c], i) <==> (0 <= i < hay.len() && hay[i] == c),
{
    if 0 <= i < hay.len() {
        if hay[i] == c {
            assert(hay.subrange(i, i + 1) =~= seq![c]);
        } else {
            assert(hay.subrange(i, i + 1)[0] == hay[i]);
        }
    }
}

/// The index of the only dot of `v`, if it holds exactly one.
fn find_sole_dot(v: &Vec<char>) -> (r: Option<usize>)
    ensures
        match r {
            Some(d) => sole_dot(v@, d as int),
            None => !has_sole_dot(v@),
        },
{
    let mut dot: Vec<char> = Vec::new();
    dot.push('.');
    assert(dot@ =~= seq!['.']);
    proof {
        lemma_find_from(v@, dot@, 0);
        assert forall|j: int| occurs_at(v@, dot@, j) <==> (0 <= j < v@.len() && v@[j] == '.') by {
            lemma_single_char_occurs(v@, '.', j);
        }
    }
    match find(v, &dot, 0) {
        None => {
            assert forall|d: int| !sole_dot(v@, d) by {
                if 0 <= d < v@.len() {
                    assert(!occurs_at(v@, dot@, d));
                }
            }
            None
        },
        Some(d) => {
            assert(dot@.len() == 1);
            proof {
                lemma_find_from(v@, dot@, d + 1);
            }
            match find(v, &dot, d + 1) {
                None => {
                    assert forall|j: int| 0 <= j < v@.len() && j != d implies v@[j] != '.' by {
                        assert(!occurs_at(v@, dot@, j));
                    }
                    Some(d)
                },
                Some(e) => {
                    assert(occurs_at(v@, dot@, d as int));
                    assert(occurs_at(v@, dot@, e as int));
                    assert forall|x: int| !sole_dot(v@, x) by {
                        if sole_dot(v@, x) {
                            assert(v@[d as int] == '.');
                            assert(v@[e as int] == '.');
                        }
                    }
                    None
                },
            }
        },
    }
}

/// Parses a command key.
///
/// The key must hold exactly one dot. Both parts are trimmed. If the left
/// part is `port_status`, the right part must be a port token; otherwise
/// both parts must be safe tokens. The result is what `parse_key` gives: a
/// well-formed key, or the failure that names the text at fault.
pub fn parse_o2_key(key: &str) -> (r: Result<O2Key, O2Error>)
    ensures
        match r {
            Ok(k) => parse_key(key@) == Ok::<O2KeyView, O2ErrorView>(k@) && k.wf(),
            Err(e) => parse_key(key@) == Err::<O2KeyView, O2ErrorView>(e@) && (e@.kind()
                == ErrorKind::BadKeyShape || e@.kind() == ErrorKind::UnsafeToken),
        },
{
    let v = chars_of(key);
    let d = match find_sole_dot(&v) {
        None => {
            return Err(O2Error::BadKeyShape { key: String::from_str(key) });
        },
        Some(d) => d,
    };
    proof {
        let c = choose|x: int| sole_dot(key@, x);
        assert(sole_dot(key@, d as int));
        assert(c == d);
    }
    assert(d < v.len());
    let (la, lb) = trim_bounds(&v, 0, d);
    let (ra, rb) = trim_bounds(&v, d + 1, v.len());
    let left = key.substring_char(la, lb);
    let right = key.substring_char(ra, rb);
    let left_chars = chars_of(left);
    let right_chars = chars_of(right);
    if text_is(&left_chars, "port_status") {
        if digit_chars(&right_chars) {
            Ok(O2Key::PortStatus { port: String::from_str(right) })
        } else {
            Err(O2Error::UnsafeToken { role: TokenRole::Port, token: String::from_str(right) })
        }
    } else {
        if !safe_chars(&left_chars) {
            Err(O2Error::UnsafeToken { role: TokenRole::Project, token: String::from_str(left) })
        } else if !safe_chars(&right_chars) {
            Err(O2Error::UnsafeToken { role: TokenRole::Verb, token: String::from_str(right) })
        } else {
            Ok(O2Key::ProjectVerb { project: String::from_str(left), verb: String::from_str(right) })
        }
    }
}

} // verus!
