//! The registry reader: the well-known place of the project registry, the
//! reading of its text as a JSON array, and the listing handed to the user
//! interface. The JSON itself is parsed and printed by `serde_json`.

use vstd::prelude::*;
use vstd::string::StringExecFns;
use crate::decimal::{decimal, decimal_string};
use crate::error::{O2Error, O2ErrorView, RegistryFault, RegistryFaultView};

verus! {

/// `serde_json::Value`: a JSON document. It is carried through unopened.
#[verifier::external_type_specification]
#[verifier::external_body]
pub struct ExJsonValue(serde_json::Value);

/// `serde_json::Error`: why a text is no JSON, or why a document could not
/// be written.
#[verifier::external_type_specification]
#[verifier::external_body]
pub struct ExJsonError(serde_json::Error);

/// What `serde_json::from_str` returns for a text: the document it denotes,
/// or why it denotes none.
pub uninterp spec fn json_parsed(text: Seq<char>) -> Result<serde_json::Value, serde_json::Error>;

/// The elements of a document that is an array, in order; `None` for a
/// document that is not an array.
pub uninterp spec fn json_items(doc: serde_json::Value) -> Option<Seq<serde_json::Value>>;

/// What `serde_json::to_string_pretty` returns for a document: its text
/// with indentation, or why it could not be written.
pub uninterp spec fn json_pretty(doc: serde_json::Value) -> Result<Seq<char>, serde_json::Error>;

/// The text that `Display` writes for a `serde_json::Error`.
pub uninterp spec fn json_error_text(e: serde_json::Error) -> Seq<char>;

/// Calls `serde_json::from_str` for a `Value`. The contract claims that the
/// result is a function of the text, and gives that function a name; it
/// does not say which texts are JSON.
#[verifier::external_body]
fn parse_json(text: &str) -> (r: Result<serde_json::Value, serde_json::Error>)
    ensures
        r == json_parsed(text@),
{
    serde_json::from_str::<serde_json::Value>(text)
}

/// `Value::as_array` returns the vector of a document that is an array, and
/// `None` for any other document. The contract names what it returns.
pub assume_specification[ serde_json::Value::as_array ](doc: &serde_json::Value) -> (r: Option<
    &Vec<serde_json::Value>,
>)
    ensures
        match r {
            Some(items) => json_items(*doc) == Some(items@),
            None => json_items(*doc) is None,
        },
;

/// Calls `serde_json::to_string_pretty`. The contract claims that the
/// result is a function of the document, and gives that function a name;
/// it does not claim that the call succeeds.
#[verifier::external_body]
fn pretty_json(doc: &serde_json::Value) -> (r: Result<String, serde_json::Error>)
    ensures
        match r {
            Ok(s) => json_pretty(*doc) == Ok::<Seq<char>, serde_json::Error>(s@),
            Err(e) => json_pretty(*doc) == Err::<Seq<char>, serde_json::Error>(e),
        },
{
    serde_json::to_string_pretty(doc)
}

/// Formats a `serde_json::Error` through its `Display`. The contract claims
/// that the text is a function of the failure, and gives it a name.
#[verifier::external_body]
fn error_text(e: &serde_json::Error) -> (r: String)
    ensures
        r@ == json_error_text(*e),
{
    format!("{e}")
}

/// What reading a text as JSON showed, as far as the listing needs it.
#[derive(Debug, PartialEq, Eq)]
pub enum JsonReading {
    /// The text is no JSON document; `detail` says why.
    Invalid { detail: String },
    /// The text is a JSON document and not an array.
    NotArray,
    /// The text is an array of `entries` elements. `pretty` is the array
    /// printed with indentation, or why it could not be printed.
    Array { entries: usize, pretty: Result<String, String> },
}

/// The mathematical content of a `JsonReading`.
pub enum JsonReadingView {
    Invalid { detail: Seq<char> },
    NotArray,
    Array { entries: nat, pretty: Result<Seq<char>, Seq<char>> },
}

/// The view of a text or of the reason why there is none.
pub open spec fn outcome_view(r: Result<String, String>) -> Result<Seq<char>, Seq<char>> {
    match r {
        Ok(s) => Ok(s@),
        Err(e) => Err(e@),
    }
}

impl View for JsonReading {
    type V = JsonReadingView;

    open spec fn view(&self) -> JsonReadingView {
        match self {
            JsonReading::Invalid { detail } => JsonReadingView::Invalid { detail: detail@ },
            JsonReading::NotArray => JsonReadingView::NotArray,
            JsonReading::Array { entries, pretty } => JsonReadingView::Array {
                entries: *entries as nat,
                pretty: outcome_view(*pretty),
            },
        }
    }
}

/// The listing of the registry.
#[derive(Debug, PartialEq, Eq)]
pub struct RegistryListing {
    /// The registry's array, printed with indentation.
    pub json: String,
    /// The line to log: how many entries were loaded, and from where.
    pub log_line: String,
}

/// The mathematical content of a `RegistryListing`.
pub struct RegistryListingView {
    pub json: Seq<char>,
    pub log_line: Seq<char>,
}

impl View for RegistryListing {
    type V = RegistryListingView;

    open spec fn view(&self) -> RegistryListingView {
        RegistryListingView { json: self.json@, log_line: self.log_line@ }
    }
}

/// The place of the registry under the home directory `home`.
pub open spec fn registry_path_of(home: Seq<char>) -> Seq<char> {
    home + "/dev/o2/registry/projects.json"@
}

/// The line that reports a registry of `entries` entries loaded from `path`.
pub open spec fn log_line_of(entries: nat, path: Seq<char>) -> Seq<char> {
    "[registry] loaded O2: "@ + decimal(entries) + " entries ("@ + path + ")"@
}

/// What reading `text` as JSON shows, in terms of what `serde_json` makes
/// of it.
pub open spec fn reading_of(text: Seq<char>) -> JsonReadingView {
    match json_parsed(text) {
        Err(e) => JsonReadingView::Invalid { detail: json_error_text(e) },
        Ok(doc) => match json_items(doc) {
            None => JsonReadingView::NotArray,
            Some(items) => JsonReadingView::Array {
                entries: items.len(),
                pretty: match json_pretty(doc) {
                    Ok(s) => Ok(s),
                    Err(e) => Err(json_error_text(e)),
                },
            },
        },
    }
}

/// The listing that a reading of the file at `path` amounts to: the printed
/// array and the log line where the file holds an array, else the fault.
pub open spec fn listing_of(path: Seq<char>, reading: JsonReadingView) -> Result<
    RegistryListingView,
    O2ErrorView,
> {
    match reading {
        JsonReadingView::Invalid { detail } => Err(
            O2ErrorView::BadRegistry { path, fault: RegistryFaultView::InvalidJson { detail } },
        ),
        JsonReadingView::NotArray => Err(
            O2ErrorView::BadRegistry { path, fault: RegistryFaultView::NotArray },
        ),
        JsonReadingView::Array { entries, pretty } => match pretty {
            Ok(json) => Ok(RegistryListingView { json, log_line: log_line_of(entries, path) }),
            Err(detail) => Err(
                O2ErrorView::BadRegistry {
                    path,
                    fault: RegistryFaultView::Unserializable { detail },
                },
            ),
        },
    }
}

/// What the registry command amounts to, given what the environment and the
/// file system showed: the home directory or why it is not known, whether
/// the registry path names a regular file, and the file's text or why it
/// could not be read, already read as JSON.
pub open spec fn registry_outcome(
    home: Result<Seq<char>, Seq<char>>,
    is_file: bool,
    reading: Result<JsonReadingView, Seq<char>>,
) -> Result<RegistryListingView, O2ErrorView> {
    match home {
        Err(reason) => Err(O2ErrorView::MissingEnv { reason }),
        Ok(dir) => {
            let path = registry_path_of(dir);
            if !is_file {
                Err(O2ErrorView::MissingFile { path })
            } else {
                match reading {
                    Err(reason) => Err(
                        O2ErrorView::BadRegistry {
                            path,
                            fault: RegistryFaultView::Unreadable { reason },
                        },
                    ),
                    Ok(r) => listing_of(path, r),
                }
            }
        },
    }
}

/// The view of a listing or of the failure in its place.
pub open spec fn listing_view(r: Result<RegistryListing, O2Error>) -> Result<
    RegistryListingView,
    O2ErrorView,
> {
    match r {
        Ok(l) => Ok(l@),
        Err(e) => Err(e@),
    }
}

/// The view of a reading or of the reason why the file gave no text.
pub open spec fn reading_view(r: Result<JsonReading, String>) -> Result<
    JsonReadingView,
    Seq<char>,
> {
    match r {
        Ok(reading) => Ok(reading@),
        Err(reason) => Err(reason@),
    }
}

/// What reading the text of a file shows, or why the file gave no text.
pub open spec fn text_reading(text: Result<Seq<char>, Seq<char>>) -> Result<
    JsonReadingView,
    Seq<char>,
> {
    match text {
        Ok(t) => Ok(reading_of(t)),
        Err(reason) => Err(reason),
    }
}

/// Reading the same registry twice gives the same listing, byte for byte,
/// or the same failure: the outcome is a function of what was found.
pub proof fn lemma_listing_repeatable(
    home: Result<Seq<char>, Seq<char>>,
    is_file: bool,
    text: Result<Seq<char>, Seq<char>>,
    first: Result<RegistryListingView, O2ErrorView>,
    second: Result<RegistryListingView, O2ErrorView>,
)
    requires
        first == registry_outcome(home, is_file, text_reading(text)),
        second == registry_outcome(home, is_file, text_reading(text)),
    ensures
        first == second,
        first matches Ok(a) ==> second matches Ok(b) && a.json == b.json,
{
}

/// The registry is listed exactly when the home directory is known, the
/// path names a regular file, and the file's text is a JSON array that can
/// be printed.
pub proof fn lemma_listing_success(
    home: Result<Seq<char>, Seq<char>>,
    is_file: bool,
    reading: Result<JsonReadingView, Seq<char>>,
)
    ensures
        registry_outcome(home, is_file, reading) is Ok <==> ({
            &&& home is Ok
            &&& is_file
            &&& reading matches Ok(JsonReadingView::Array { pretty, .. })
            &&& pretty is Ok
        }),
{
}

/// Composes the place of the registry under the home directory `home`.
pub fn registry_path(home: &str) -> (r: String)
    ensures
        r@ == registry_path_of(home@),
{
    let mut s = String::from_str(home);
    s.append("/dev/o2/registry/projects.json");
    s
}

/// Writes the line that reports a registry of `entries` entries loaded from
/// `path`.
pub fn registry_log_line(entries: usize, path: &str) -> (r: String)
    ensures
        r@ == log_line_of(entries as nat, path@),
{
    let number = decimal_string(entries as u64);
    let mut s = String::from_str("[registry] loaded O2: ");
    s.append(number.as_str());
    s.append(" entries (");
    s.append(path);
    s.append(")");
    assert(s@ =~= log_line_of(entries as nat, path@));
    s
}

/// Reads `text` as JSON and reports what the listing needs: whether it is
/// a document, whether the document is an array, and if so of how many
/// elements and how it prints.
pub fn read_json_array(text: &str) -> (r: JsonReading)
    ensures
        r@ == reading_of(text@),
{
    match parse_json(text) {
        Err(e) => JsonReading::Invalid { detail: error_text(&e) },
        Ok(doc) => match doc.as_array() {
            None => JsonReading::NotArray,
            Some(items) => {
                let entries = items.len();
                let pretty = match pretty_json(&doc) {
                    Ok(s) => Ok(s),
                    Err(e) => Err(error_text(&e)),
                };
                JsonReading::Array { entries, pretty }
            },
        },
    }
}

/// Decides the registry command from what was found: the home directory
/// `home` or why it is not known, whether the registry path names a regular
/// file, and what reading the file showed or why it could not be read.
pub fn list_projects(
    home: Result<String, String>,
    is_file: bool,
    reading: Result<JsonReading, String>,
) -> (r: Result<RegistryListing, O2Error>)
    ensures
        listing_view(r) == registry_outcome(outcome_view(home), is_file, reading_view(reading)),
{
    let dir = match home {
        Err(reason) => {
            return Err(O2Error::MissingEnv { reason });
        },
        Ok(dir) => dir,
    };
    let path = registry_path(dir.as_str());
    if !is_file {
        return Err(O2Error::MissingFile { path });
    }
    match reading {
        Err(reason) => Err(
            O2Error::BadRegistry { path, fault: RegistryFault::Unreadable { reason } },
        ),
        Ok(JsonReading::Invalid { detail }) => Err(
            O2Error::BadRegistry { path, fault: RegistryFault::InvalidJson { detail } },
        ),
        Ok(JsonReading::NotArray) => Err(
            O2Error::BadRegistry { path, fault: RegistryFault::NotArray },
        ),
        Ok(JsonReading::Array { entries, pretty }) => match pretty {
            Ok(json) => {
                let log_line = registry_log_line(entries, path.as_str());
                Ok(RegistryListing { json, log_line })
            },
            Err(detail) => Err(
                O2Error::BadRegistry { path, fault: RegistryFault::Unserializable { detail } },
            ),
        },
    }
}

/// The registry command: lists the projects of the registry under the home
/// directory, given the home directory, whether the registry path names a
/// regular file, and the text of that file; each of the last two as found
/// by the caller, who does the looking.
pub fn o2_list_projects(
    home: Result<String, String>,
    is_file: bool,
    text: Result<String, String>,
) -> (r: Result<RegistryListing, O2Error>)
    ensures
        listing_view(r) == registry_outcome(
            outcome_view(home),
            is_file,
            text_reading(outcome_view(text)),
        ),
{
    let reading = match text {
        Ok(t) => Ok(read_json_array(t.as_str())),
        Err(reason) => Err(reason),
    };
    list_projects(home, is_file, reading)
}

} // verus!
