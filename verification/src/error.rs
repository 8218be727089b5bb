//! What the loader reports when it cannot go on, and the text of each report.

use vstd::prelude::*;
use vstd::slice::slice_to_vec;
use vstd::utf8::{decode_utf8, valid_utf8};

verus! {

/// Name of the environment variable that holds the path of the indirection
/// library.
pub const LIBRARY_VARIABLE: &'static str = "MPITRAMPOLINE_LIB";

/// Makes `libloading::Error` known to the verifier as a type of which
/// nothing is known: a value of it is carried, never looked into.
#[verifier::external_type_specification]
#[verifier::external_body]
pub struct ExLoadingError(libloading::Error);

/// The text that `String::from_utf8_lossy` makes of a sequence of bytes.
pub uninterp spec fn utf8_lossy(bytes: Seq<u8>) -> Seq<char>;

/// Calls `String::from_utf8_lossy`. Trusted: the text is the one function of
/// the bytes that `utf8_lossy` names, and bytes that are valid UTF-8 come
/// back as the characters that they encode.
#[verifier::external_body]
fn lossy_text(bytes: &[u8]) -> (text: String)
    ensures
        text@ == utf8_lossy(bytes@),
        valid_utf8(bytes@) ==> text@ == decode_utf8(bytes@),
{
    String::from_utf8_lossy(bytes).into_owned()
}

/// The text that the `Display` impl of `libloading::Error` gives for an
/// error: the dynamic loader's own words where the system reported any, a
/// fixed sentence for each other kind of error.
pub uninterp spec fn loading_error_text(error: libloading::Error) -> Seq<char>;

/// Calls the `Display` impl of `libloading::Error` through `to_string`.
/// Trusted: the text is the one function of the error that
/// `loading_error_text` names. Nothing is claimed of what it says.
#[verifier::external_body]
pub(crate) fn error_text(error: &libloading::Error) -> (text: String)
    ensures
        text@ == loading_error_text(*error),
{
    error.to_string()
}

/// Why the loader gave up. Each of these ends the process: none is retried.
#[derive(Debug, PartialEq, Eq)]
pub enum LoadError {
    /// The environment variable that names the library is not set.
    VariableNotSet,
    /// The library at `path` could not be opened; `cause` is what the
    /// dynamic loader said.
    OpenFailed { path: String, cause: String },
    /// The open library does not export `name`; `cause` is what the dynamic
    /// loader said.
    SymbolNotFound { name: Vec<u8>, cause: String },
}

/// A `LoadError` as plain values.
pub enum LoadErrorView {
    VariableNotSet,
    OpenFailed { path: Seq<char>, cause: Seq<char> },
    SymbolNotFound { name: Seq<u8>, cause: Seq<char> },
}

impl View for LoadError {
    type V = LoadErrorView;

    open spec fn view(&self) -> LoadErrorView {
        match self {
            LoadError::VariableNotSet => LoadErrorView::VariableNotSet,
            LoadError::OpenFailed { path, cause } => LoadErrorView::OpenFailed {
                path: path@,
                cause: cause@,
            },
            LoadError::SymbolNotFound { name, cause } => LoadErrorView::SymbolNotFound {
                name: name@,
                cause: cause@,
            },
        }
    }
}

/// The report of a variable that is not set: it names the variable.
pub open spec fn variable_message() -> Seq<char> {
    LIBRARY_VARIABLE@ + " environment variable not set"@
}

/// The report of a library that could not be opened: it holds the path that
/// was tried and the loader's own words.
pub open spec fn open_message(path: Seq<char>, cause: Seq<char>) -> Seq<char> {
    "Failed to load MPIwrapper library '"@ + path + "': "@ + cause
}

/// The report of a symbol that could not be resolved: it holds the symbol's
/// name as text and the loader's own words.
pub open spec fn symbol_message(name: Seq<char>, cause: Seq<char>) -> Seq<char> {
    "Failed to load symbol '"@ + name + "': "@ + cause
}

impl LoadErrorView {
    /// The text of the report.
    pub open spec fn message(self) -> Seq<char> {
        match self {
            LoadErrorView::VariableNotSet => variable_message(),
            LoadErrorView::OpenFailed { path, cause } => open_message(path, cause),
            LoadErrorView::SymbolNotFound { name, cause } => symbol_message(
                utf8_lossy(name),
                cause,
            ),
        }
    }
}

/// The report of a variable that is not set.
pub fn variable_text() -> (text: String)
    ensures
        text@ == variable_message(),
{
    let mut text = String::from_str(LIBRARY_VARIABLE);
    text.append(" environment variable not set");
    text
}

/// The report of a library that could not be opened.
pub fn open_text(path: &str, cause: &str) -> (text: String)
    ensures
        text@ == open_message(path@, cause@),
{
    let mut text = String::from_str("Failed to load MPIwrapper library '");
    text.append(path);
    text.append("': ");
    text.append(cause);
    text
}

/// The report of a symbol that could not be resolved, from the symbol's name
/// as text.
pub fn symbol_text(name: &str, cause: &str) -> (text: String)
    ensures
        text@ == symbol_message(name@, cause@),
{
    let mut text = String::from_str("Failed to load symbol '");
    text.append(name);
    text.append("': ");
    text.append(cause);
    text
}

impl LoadError {
    /// The text of the report. A symbol's name stands in it as
    /// `String::from_utf8_lossy` renders its bytes: as the characters that
    /// they encode, where they are valid UTF-8.
    pub fn message(&self) -> (text: String)
        ensures
            text@ == self@.message(),
            self@ matches LoadErrorView::SymbolNotFound { name, cause } ==> (valid_utf8(name)
                ==> text@ == symbol_message(decode_utf8(name), cause)),
    {
        match self {
            LoadError::VariableNotSet => variable_text(),
            LoadError::OpenFailed { path, cause } => open_text(path.as_str(), cause.as_str()),
            LoadError::SymbolNotFound { name, cause } => {
                let shown = lossy_text(name.as_slice());
                symbol_text(shown.as_str(), cause.as_str())
            },
        }
    }
}

impl Clone for LoadError {
    /// A copy of the error.
    fn clone(&self) -> (error: LoadError)
        ensures
            error@ == self@,
    {
        match self {
            LoadError::VariableNotSet => LoadError::VariableNotSet,
            LoadError::OpenFailed { path, cause } => LoadError::OpenFailed {
                path: path.clone(),
                cause: cause.clone(),
            },
            LoadError::SymbolNotFound { name, cause } => LoadError::SymbolNotFound {
                name: slice_to_vec(name.as_slice()),
                cause: cause.clone(),
            },
        }
    }
}

} // verus!
