//! The error that creating a world can end in, and its message.
use vstd::prelude::*;

use ecow::EcoString;
use std::io;
use std::path::PathBuf;
use typst::syntax::VirtualizeError;
use vstd::std_specs::convert::FromSpecImpl;

verus! {

/// A file system path, seen by Verus as an opaque value.
#[verifier::external_type_specification]
#[verifier::external_body]
pub struct ExPathBuf(PathBuf);

/// An I/O error, seen by Verus as an opaque value.
#[verifier::external_type_specification]
#[verifier::external_body]
pub struct ExIoError(io::Error);

/// The error of placing a path inside a project root, seen by Verus as an
/// opaque value.
#[verifier::external_type_specification]
#[verifier::external_body]
pub struct ExVirtualizeError(VirtualizeError);

/// Typst's string type, seen by Verus as an opaque value.
#[verifier::external_type_specification]
#[verifier::external_body]
pub struct ExEcoString(EcoString);

/// An error that occurs during world construction.
#[derive(Debug)]
pub enum WorldCreationError {
    /// The input file does not appear to exist.
    InputNotFound(PathBuf),
    /// The input file path was malformed or escapes the project root.
    InputMalformed(VirtualizeError),
    /// The root directory does not appear to exist.
    RootNotFound(PathBuf),
    /// Another type of I/O error.
    Io(io::Error),
}

/// The kind of a world creation error, without its payload.
#[derive(Debug, Clone, Copy, PartialEq, Eq)]
pub enum CreationErrorKind {
    /// The input file does not appear to exist.
    InputNotFound,
    /// The input file path was malformed or escapes the project root.
    InputMalformed,
    /// The root directory does not appear to exist.
    RootNotFound,
    /// Another type of I/O error.
    Io,
}

/// The kind of an error.
pub open spec fn kind_of(err: WorldCreationError) -> CreationErrorKind {
    match err {
        WorldCreationError::InputNotFound(_) => CreationErrorKind::InputNotFound,
        WorldCreationError::InputMalformed(_) => CreationErrorKind::InputMalformed,
        WorldCreationError::RootNotFound(_) => CreationErrorKind::RootNotFound,
        WorldCreationError::Io(_) => CreationErrorKind::Io,
    }
}

/// The message of an error of a kind, given the text of its payload
/// (`detail`): the displayed path for the two "not found" errors, the error's
/// own message for an I/O error; a malformed input has a fixed message.
pub open spec fn kind_message_text(kind: CreationErrorKind, detail: Seq<char>) -> Seq<char> {
    match kind {
        CreationErrorKind::InputNotFound => "input file not found (searched at "@ + detail + ")"@,
        CreationErrorKind::InputMalformed => "source file must be contained in project root"@,
        CreationErrorKind::RootNotFound => "root directory not found (searched at "@ + detail
            + ")"@,
        CreationErrorKind::Io => detail,
    }
}

/// The message of an error, given the text of its payload.
pub open spec fn message_text(err: WorldCreationError, detail: Seq<char>) -> Seq<char> {
    kind_message_text(kind_of(err), detail)
}

/// The message for an error of the given kind, with `detail` as the text of
/// its payload.
pub fn message_of(kind: CreationErrorKind, detail: &str) -> (message: String)
    ensures
        message@ == kind_message_text(kind, detail@),
{
    match kind {
        CreationErrorKind::InputNotFound => {
            let mut text = String::from_str("input file not found (searched at ");
            text.append(detail);
            text.append(")");
            text
        },
        CreationErrorKind::InputMalformed => {
            String::from_str("source file must be contained in project root")
        },
        CreationErrorKind::RootNotFound => {
            let mut text = String::from_str("root directory not found (searched at ");
            text.append(detail);
            text.append(")");
            text
        },
        CreationErrorKind::Io => String::from_str(detail),
    }
}

/// Calls `Path::display` on the path and renders it as a `String`. Nothing is
/// claimed of the text: it is the path as the platform shows it.
#[verifier::external_body]
fn display_path(path: &PathBuf) -> String {
    path.display().to_string()
}

/// Calls `io::Error`'s `Display` implementation. Nothing is claimed of the
/// text, which comes from the operating system.
#[verifier::external_body]
fn io_error_message(err: &io::Error) -> String {
    err.to_string()
}

/// The characters that an `EcoString` holds.
pub uninterp spec fn eco_chars(text: EcoString) -> Seq<char>;

/// Calls `EcoString::from` on the text: the new string holds its characters.
#[verifier::external_body]
fn eco_string(text: &str) -> (eco: EcoString)
    ensures
        eco_chars(eco) == text@,
{
    EcoString::from(text)
}

impl WorldCreationError {
    /// The error for an input file that could not be resolved: "not found"
    /// when the I/O error says so, else the I/O error itself.
    pub fn for_input(input: PathBuf, err: io::Error, not_found: bool) -> (e: WorldCreationError)
        ensures
            not_found ==> e == WorldCreationError::InputNotFound(input),
            !not_found ==> e == WorldCreationError::Io(err),
    {
        if not_found {
            WorldCreationError::InputNotFound(input)
        } else {
            WorldCreationError::Io(err)
        }
    }

    /// The error for a root directory that could not be resolved: "not found"
    /// (naming the directory searched) when the I/O error says so, else the
    /// I/O error itself.
    pub fn for_root(root: PathBuf, err: io::Error, not_found: bool) -> (e: WorldCreationError)
        ensures
            not_found ==> e == WorldCreationError::RootNotFound(root),
            !not_found ==> e == WorldCreationError::Io(err),
    {
        if not_found {
            WorldCreationError::RootNotFound(root)
        } else {
            WorldCreationError::Io(err)
        }
    }

    /// The kind of this error.
    pub fn kind(&self) -> (kind: CreationErrorKind)
        ensures
            kind == kind_of(*self),
    {
        match self {
            WorldCreationError::InputNotFound(_) => CreationErrorKind::InputNotFound,
            WorldCreationError::InputMalformed(_) => CreationErrorKind::InputMalformed,
            WorldCreationError::RootNotFound(_) => CreationErrorKind::RootNotFound,
            WorldCreationError::Io(_) => CreationErrorKind::Io,
        }
    }

    /// The message for this error, with `detail` as the text of its payload.
    pub fn compose_message(&self, detail: &str) -> (message: String)
        ensures
            message@ == message_text(*self, detail@),
    {
        message_of(self.kind(), detail)
    }

    /// The message that displaying this error shows.
    pub fn message(&self) -> (message: String)
        ensures
            exists|detail: Seq<char>| message@ == message_text(*self, detail),
    {
        let detail = match self {
            WorldCreationError::InputNotFound(path) => display_path(path),
            WorldCreationError::InputMalformed(_) => String::new(),
            WorldCreationError::RootNotFound(path) => display_path(path),
            WorldCreationError::Io(err) => io_error_message(err),
        };
        let message = self.compose_message(detail.as_str());
        assert(message@ == message_text(*self, detail@));
        message
    }

    /// The lower-level error this one wraps: only an I/O error has one.
    pub fn source(&self) -> (inner: Option<&io::Error>)
        ensures
            match *self {
                WorldCreationError::Io(err) => inner == Some(&err),
                _ => inner is None,
            },
    {
        match self {
            WorldCreationError::Io(err) => Some(err),
            _ => None,
        }
    }
}

impl From<VirtualizeError> for WorldCreationError {
    fn from(err: VirtualizeError) -> (res: Self) {
        WorldCreationError::InputMalformed(err)
    }
}

impl FromSpecImpl<VirtualizeError> for WorldCreationError {
    open spec fn obeys_from_spec() -> bool {
        true
    }

    open spec fn from_spec(err: VirtualizeError) -> Self {
        WorldCreationError::InputMalformed(err)
    }
}

impl From<WorldCreationError> for EcoString {
    /// The error's message as a Typst string.
    fn from(err: WorldCreationError) -> (res: EcoString)
        ensures
            exists|detail: Seq<char>| eco_chars(res) == message_text(err, detail),
    {
        let message = err.message();
        eco_string(message.as_str())
    }
}

impl FromSpecImpl<WorldCreationError> for EcoString {
    /// The message's detail is text that cannot be named, so the result is
    /// stated in `from`'s own `ensures` rather than here.
    open spec fn obeys_from_spec() -> bool {
        false
    }

    open spec fn from_spec(err: WorldCreationError) -> EcoString {
        arbitrary()
    }
}

} // verus!
