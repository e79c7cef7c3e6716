//! The failures of the command surface and the one-line messages in which
//! they reach the user interface.

use vstd::prelude::*;
use vstd::string::StringExecFns;
use crate::decimal::{signed_decimal, signed_decimal_string};
use crate::text::{
    lemma_foreign_char_occurs_once, lemma_inserted_text_occurs, occurs_at, occurs_once,
    stands_elsewhere,
};

verus! {

/// Which part of a command key a token was read as.
#[derive(Clone, Copy, Debug, PartialEq, Eq, Structural)]
pub enum TokenRole {
    Project,
    Verb,
    Port,
}

/// The kinds of failure that the command surface reports.
#[derive(Clone, Copy, Debug, PartialEq, Eq, Structural)]
pub enum ErrorKind {
    BadKeyShape,
    UnsafeToken,
    UnknownVerb,
    SpawnFailed,
    NonZeroExit,
    MissingEnv,
    MissingFile,
    BadRegistry,
}

/// What is wrong with a registry file that exists.
#[derive(Debug, PartialEq, Eq)]
pub enum RegistryFault {
    /// The file could not be read as text.
    Unreadable { reason: String },
    /// The text is not a JSON document.
    InvalidJson { detail: String },
    /// The document is not an array.
    NotArray,
    /// The array could not be written back as text.
    Unserializable { detail: String },
}

/// A failure of one command.
#[derive(Debug, PartialEq, Eq)]
pub enum O2Error {
    /// The key does not hold exactly one dot.
    BadKeyShape { key: String },
    /// A token of the key holds a character outside its class, or none.
    UnsafeToken { role: TokenRole, token: String },
    /// The verb is well formed and not in the verb table.
    UnknownVerb { verb: String },
    /// The operating system did not start the child process.
    SpawnFailed { reason: String },
    /// The child process ended with a status other than zero; `code` is
    /// absent where the system reported none.
    NonZeroExit { code: Option<i32>, output: String },
    /// The home directory is not known from the environment.
    MissingEnv { reason: String },
    /// The registry path names no regular file.
    MissingFile { path: String },
    /// The registry file is no JSON array.
    BadRegistry { path: String, fault: RegistryFault },
}

/// The mathematical content of a `RegistryFault`.
pub enum RegistryFaultView {
    Unreadable { reason: Seq<char> },
    InvalidJson { detail: Seq<char> },
    NotArray,
    Unserializable { detail: Seq<char> },
}

/// The mathematical content of an `O2Error`.
pub enum O2ErrorView {
    BadKeyShape { key: Seq<char> },
    UnsafeToken { role: TokenRole, token: Seq<char> },
    UnknownVerb { verb: Seq<char> },
    SpawnFailed { reason: Seq<char> },
    NonZeroExit { code: Option<i32>, output: Seq<char> },
    MissingEnv { reason: Seq<char> },
    MissingFile { path: Seq<char> },
    BadRegistry { path: Seq<char>, fault: RegistryFaultView },
}

impl View for RegistryFault {
    type V = RegistryFaultView;

    open spec fn view(&self) -> RegistryFaultView {
        match self {
            RegistryFault::Unreadable { reason } => RegistryFaultView::Unreadable {
                reason: reason@,
            },
            RegistryFault::InvalidJson { detail } => RegistryFaultView::InvalidJson {
                detail: detail@,
            },
            RegistryFault::NotArray => RegistryFaultView::NotArray,
            RegistryFault::Unserializable { detail } => RegistryFaultView::Unserializable {
                detail: detail@,
            },
        }
    }
}

impl View for O2Error {
    type V = O2ErrorView;

    open spec fn view(&self) -> O2ErrorView {
        match self {
            O2Error::BadKeyShape { key } => O2ErrorView::BadKeyShape { key: key@ },
            O2Error::UnsafeToken { role, token } => O2ErrorView::UnsafeToken {
                role: *role,
                token: token@,
            },
            O2Error::UnknownVerb { verb } => O2ErrorView::UnknownVerb { verb: verb@ },
            O2Error::SpawnFailed { reason } => O2ErrorView::SpawnFailed { reason: reason@ },
            O2Error::NonZeroExit { code, output } => O2ErrorView::NonZeroExit {
                code: *code,
                output: output@,
            },
            O2Error::MissingEnv { reason } => O2ErrorView::MissingEnv { reason: reason@ },
            O2Error::MissingFile { path } => O2ErrorView::MissingFile { path: path@ },
            O2Error::BadRegistry { path, fault } => O2ErrorView::BadRegistry {
                path: path@,
                fault: fault@,
            },
        }
    }
}

/// The exit code that a message shows: the child's own, or -1 where the
/// system reported none.
pub open spec fn shown_exit_code(code: Option<i32>) -> int {
    match code {
        Some(c) => c as int,
        None => -1,
    }
}

/// The words that stand before the token in the message about a token.
pub open spec fn token_lead(role: TokenRole) -> Seq<char> {
    match role {
        TokenRole::Project => "Unsafe project token: '"@,
        TokenRole::Verb => "Unsafe verb token: '"@,
        TokenRole::Port => "Invalid port token: '"@,
    }
}

impl O2ErrorView {
    /// The kind of this failure.
    pub open spec fn kind(self) -> ErrorKind {
        match self {
            O2ErrorView::BadKeyShape { .. } => ErrorKind::BadKeyShape,
            O2ErrorView::UnsafeToken { .. } => ErrorKind::UnsafeToken,
            O2ErrorView::UnknownVerb { .. } => ErrorKind::UnknownVerb,
            O2ErrorView::SpawnFailed { .. } => ErrorKind::SpawnFailed,
            O2ErrorView::NonZeroExit { .. } => ErrorKind::NonZeroExit,
            O2ErrorView::MissingEnv { .. } => ErrorKind::MissingEnv,
            O2ErrorView::MissingFile { .. } => ErrorKind::MissingFile,
            O2ErrorView::BadRegistry { .. } => ErrorKind::BadRegistry,
        }
    }

    /// The token or path that the failure is about, where it is about one.
    pub open spec fn offender(self) -> Option<Seq<char>> {
        match self {
            O2ErrorView::BadKeyShape { key } => Some(key),
            O2ErrorView::UnsafeToken { token, .. } => Some(token),
            O2ErrorView::UnknownVerb { verb } => Some(verb),
            O2ErrorView::MissingFile { path } => Some(path),
            O2ErrorView::BadRegistry { path, fault } => match fault {
                RegistryFaultView::Unserializable { .. } => None,
                _ => Some(path),
            },
            _ => None,
        }
    }

    /// The part of the message that stands before the offending text, or
    /// before the system's account where there is no such text.
    pub open spec fn lead(self) -> Seq<char> {
        match self {
            O2ErrorView::BadKeyShape { .. } => "Invalid key '"@,
            O2ErrorView::UnsafeToken { role, .. } => token_lead(role),
            O2ErrorView::UnknownVerb { .. } => "Unknown verb '"@,
            O2ErrorView::SpawnFailed { .. } => "Failed to spawn shell: "@,
            O2ErrorView::NonZeroExit { .. } => "Command failed (exit "@,
            O2ErrorView::MissingEnv { .. } => "HOME not set: "@,
            O2ErrorView::MissingFile { .. } => "O2 registry missing: "@,
            O2ErrorView::BadRegistry { fault, .. } => match fault {
                RegistryFaultView::Unreadable { .. } => "Failed to read "@,
                RegistryFaultView::InvalidJson { .. } => "Invalid JSON in "@,
                RegistryFaultView::NotArray => "Registry at "@,
                RegistryFaultView::Unserializable { .. } => "Failed to serialize registry: "@,
            },
        }
    }

    /// The part of the message that stands after the offending text.
    pub open spec fn tail(self) -> Seq<char> {
        match self {
            O2ErrorView::BadKeyShape { .. } =>
                "'. Expected '<project>.<verb>' OR 'port_status.<port>' (one dot)."@,
            O2ErrorView::UnsafeToken { .. } => "'"@,
            O2ErrorView::UnknownVerb { .. } => "' (not wired in O2 verb map)"@,
            O2ErrorView::SpawnFailed { reason } => reason,
            O2ErrorView::NonZeroExit { code, output } => signed_decimal(shown_exit_code(code))
                + "):\n"@ + output,
            O2ErrorView::MissingEnv { reason } => reason,
            O2ErrorView::MissingFile { .. } => Seq::empty(),
            O2ErrorView::BadRegistry { fault, .. } => match fault {
                RegistryFaultView::Unreadable { reason } => ": "@ + reason,
                RegistryFaultView::InvalidJson { detail } => ": "@ + detail,
                RegistryFaultView::NotArray => " is not a JSON array"@,
                RegistryFaultView::Unserializable { detail } => detail,
            },
        }
    }

    /// The single message in which the failure reaches the user interface.
    pub open spec fn message(self) -> Seq<char> {
        match self.offender() {
            Some(text) => self.lead() + text + self.tail(),
            None => self.lead() + self.tail(),
        }
    }
}

/// The offending token or path stands verbatim in the message, right after
/// the kind's opening words.
pub proof fn lemma_message_names_offender(e: O2ErrorView)
    requires
        e.offender() is Some,
    ensures
        e.message() == e.lead() + e.offender()->0 + e.tail(),
        occurs_at(e.message(), e.offender()->0, e.lead().len() as int),
{
    lemma_inserted_text_occurs(e.lead(), e.offender()->0, e.tail());
}

/// The offending token or path occurs in the message exactly once, unless
/// the same text also stands in the wording around it: a key `e` of bad
/// shape, for one, is met again in the words that follow it.
pub proof fn lemma_message_names_offender_once(e: O2ErrorView)
    requires
        e.offender() is Some,
        !stands_elsewhere(e.lead(), e.offender()->0, e.tail()),
    ensures
        occurs_once(e.message(), e.offender()->0),
{
    lemma_inserted_text_occurs(e.lead(), e.offender()->0, e.tail());
}

/// An unsafe project or verb token that holds an upper-case letter other
/// than `U`, or a port token that holds one other than `I`, occurs in its
/// message exactly once.
pub proof fn lemma_upper_case_token_named_once(role: TokenRole, token: Seq<char>, k: int)
    requires
        0 <= k < token.len(),
        'A' <= token[k] <= 'Z',
        token[k] != 'U',
        token[k] != 'I',
    ensures
        occurs_once((O2ErrorView::UnsafeToken { role, token }).message(), token),
{
    let e = O2ErrorView::UnsafeToken { role, token };
    reveal_strlit("Unsafe project token: '");
    reveal_strlit("Unsafe verb token: '");
    reveal_strlit("Invalid port token: '");
    reveal_strlit("'");
    let c = token[k];
    assert(!e.lead().contains(c)) by {
        if e.lead().contains(c) {
            let i = choose|i: int| 0 <= i < e.lead().len() && e.lead()[i] == c;
            assert(e.lead()[i] == c);
        }
    }
    assert(!e.tail().contains(c)) by {
        if e.tail().contains(c) {
            let i = choose|i: int| 0 <= i < e.tail().len() && e.tail()[i] == c;
            assert(e.tail()[i] == c);
        }
    }
    lemma_foreign_char_occurs_once(e.lead(), token, e.tail(), k);
}

impl TokenRole {
    /// The opening words of the message about a token read in this role.
    pub fn lead(&self) -> (r: &'static str)
        ensures
            r@ == token_lead(*self),
    {
        match self {
            TokenRole::Project => "Unsafe project token: '",
            TokenRole::Verb => "Unsafe verb token: '",
            TokenRole::Port => "Invalid port token: '",
        }
    }
}

impl O2Error {
    /// The kind of this failure.
    pub fn kind(&self) -> (k: ErrorKind)
        ensures
            k == self@.kind(),
    {
        match self {
            O2Error::BadKeyShape { .. } => ErrorKind::BadKeyShape,
            O2Error::UnsafeToken { .. } => ErrorKind::UnsafeToken,
            O2Error::UnknownVerb { .. } => ErrorKind::UnknownVerb,
            O2Error::SpawnFailed { .. } => ErrorKind::SpawnFailed,
            O2Error::NonZeroExit { .. } => ErrorKind::NonZeroExit,
            O2Error::MissingEnv { .. } => ErrorKind::MissingEnv,
            O2Error::MissingFile { .. } => ErrorKind::MissingFile,
            O2Error::BadRegistry { .. } => ErrorKind::BadRegistry,
        }
    }

    /// The single message in which the failure reaches the user interface.
    pub fn message(&self) -> (r: String)
        ensures
            r@ == self@.message(),
    {
        match self {
            O2Error::BadKeyShape { key } => {
                let mut s = String::from_str("Invalid key '");
                s.append(key.as_str());
                s.append("'. Expected '<project>.<verb>' OR 'port_status.<port>' (one dot).");
                s
            },
            O2Error::UnsafeToken { role, token } => {
                let mut s = String::from_str(role.lead());
                s.append(token.as_str());
                s.append("'");
                s
            },
            O2Error::UnknownVerb { verb } => {
                let mut s = String::from_str("Unknown verb '");
                s.append(verb.as_str());
                s.append("' (not wired in O2 verb map)");
                s
            },
            O2Error::SpawnFailed { reason } => {
                let mut s = String::from_str("Failed to spawn shell: ");
                s.append(reason.as_str());
                s
            },
            O2Error::NonZeroExit { code, output } => {
                let shown: i32 = match code {
                    Some(c) => *c,
                    None => -1,
                };
                let number = signed_decimal_string(shown);
                let mut s = String::from_str("Command failed (exit ");
                s.append(number.as_str());
                s.append("):\n");
                s.append(output.as_str());
                assert(s@ =~= self@.message());
                s
            },
            O2Error::MissingEnv { reason } => {
                let mut s = String::from_str("HOME not set: ");
                s.append(reason.as_str());
                s
            },
            O2Error::MissingFile { path } => {
                let mut s = String::from_str("O2 registry missing: ");
                s.append(path.as_str());
                assert(s@ =~= self@.message());
                s
            },
            O2Error::BadRegistry { path, fault } => {
                match fault {
                    RegistryFault::Unreadable { reason } => {
                        let mut s = String::from_str("Failed to read ");
                        s.append(path.as_str());
                        s.append(": ");
                        s.append(reason.as_str());
                        assert(s@ =~= self@.message());
                        s
                    },
                    RegistryFault::InvalidJson { detail } => {
                        let mut s = String::from_str("Invalid JSON in ");
                        s.append(path.as_str());
                        s.append(": ");
                        s.append(detail.as_str());
                        assert(s@ =~= self@.message());
                        s
                    },
                    RegistryFault::NotArray => {
                        let mut s = String::from_str("Registry at ");
                        s.append(path.as_str());
                        s.append(" is not a JSON array");
                        s
                    },
                    RegistryFault::Unserializable { detail } => {
                        let mut s = String::from_str("Failed to serialize registry: ");
                        s.append(detail.as_str());
                        s
                    },
                }
            },
        }
    }
}

} // verus!
