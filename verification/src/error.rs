//! The one error type of the library.

use vstd::prelude::*;
use vstd::string::*;

verus! {

pub type InvmstResult<T> = Result<T, InvmstError>;

/// What went wrong. The variants with two fields hold a stable code and a
/// message for people; the others hold the text that their origin gave.
#[derive(Debug)]
pub enum InvmstError {
    /// A file or stream could not be read or written.
    IoError(String),
    /// Something asked for by name does not exist.
    NotExists(&'static str, String),
    /// There is nothing to work on.
    NoData(&'static str, String),
    /// A mandatory value is missing.
    Required(&'static str, String),
    /// A value is malformed or not supported.
    Invalid(&'static str, String),
    /// The server answered with a status that is no success.
    HttpStatusError(String),
    /// The request could not be made, or the response could not be read.
    HttpError(String),
    /// A text is no JSON document.
    JsonError(String),
    /// The stored configuration could not be read or written.
    ConfigError(String),
    /// A worker task panicked or was aborted.
    JoinError(String),
}

/// The tag of an error, without what it carries.
#[derive(Clone, Copy, Debug, PartialEq, Eq, Structural)]
pub enum ErrorKind {
    Io,
    NotExists,
    NoData,
    Required,
    Invalid,
    HttpStatus,
    Http,
    Json,
    Config,
    Join,
}

/// An error as contracts see it: its tag, its code (empty where the variant
/// has none) and its text.
pub struct ErrorView {
    pub kind: ErrorKind,
    pub code: Seq<char>,
    pub detail: Seq<char>,
}

impl View for InvmstError {
    type V = ErrorView;

    open spec fn view(&self) -> ErrorView {
        match *self {
            InvmstError::IoError(d) => ErrorView { kind: ErrorKind::Io, code: Seq::empty(), detail: d@ },
            InvmstError::NotExists(c, d) => ErrorView { kind: ErrorKind::NotExists, code: c@, detail: d@ },
            InvmstError::NoData(c, d) => ErrorView { kind: ErrorKind::NoData, code: c@, detail: d@ },
            InvmstError::Required(c, d) => ErrorView { kind: ErrorKind::Required, code: c@, detail: d@ },
            InvmstError::Invalid(c, d) => ErrorView { kind: ErrorKind::Invalid, code: c@, detail: d@ },
            InvmstError::HttpStatusError(d) => ErrorView {
                kind: ErrorKind::HttpStatus,
                code: Seq::empty(),
                detail: d@,
            },
            InvmstError::HttpError(d) => ErrorView { kind: ErrorKind::Http, code: Seq::empty(), detail: d@ },
            InvmstError::JsonError(d) => ErrorView { kind: ErrorKind::Json, code: Seq::empty(), detail: d@ },
            InvmstError::ConfigError(d) => ErrorView {
                kind: ErrorKind::Config,
                code: Seq::empty(),
                detail: d@,
            },
            InvmstError::JoinError(d) => ErrorView { kind: ErrorKind::Join, code: Seq::empty(), detail: d@ },
        }
    }
}

/// What `message` puts before the text of an error of the given kind.
pub open spec fn kind_label(kind: ErrorKind) -> Seq<char> {
    match kind {
        ErrorKind::Io => "[IO Error] "@,
        ErrorKind::NotExists => "[Not Exists] "@,
        ErrorKind::NoData => "[No Data] "@,
        ErrorKind::Required => "[Required] "@,
        ErrorKind::Invalid => "[Invalid] "@,
        ErrorKind::HttpStatus => "[HTTP Status Error] "@,
        ErrorKind::Http => "[HTTP Error] "@,
        ErrorKind::Json => "[JSON Error] "@,
        ErrorKind::Config => "[Config Error] "@,
        ErrorKind::Join => "[Join Error] "@,
    }
}

/// The view of an error of `kind` with `code` and `detail`.
pub open spec fn error_view(kind: ErrorKind, code: Seq<char>, detail: Seq<char>) -> ErrorView {
    ErrorView { kind, code, detail }
}

impl InvmstError {
    /// The tag of this error.
    pub fn kind(&self) -> (k: ErrorKind)
        ensures
            k == self@.kind,
    {
        match self {
            InvmstError::IoError(_) => ErrorKind::Io,
            InvmstError::NotExists(_, _) => ErrorKind::NotExists,
            InvmstError::NoData(_, _) => ErrorKind::NoData,
            InvmstError::Required(_, _) => ErrorKind::Required,
            InvmstError::Invalid(_, _) => ErrorKind::Invalid,
            InvmstError::HttpStatusError(_) => ErrorKind::HttpStatus,
            InvmstError::HttpError(_) => ErrorKind::Http,
            InvmstError::JsonError(_) => ErrorKind::Json,
            InvmstError::ConfigError(_) => ErrorKind::Config,
            InvmstError::JoinError(_) => ErrorKind::Join,
        }
    }

    /// The stable code of this error, empty where its kind has none.
    pub fn code(&self) -> (c: &'static str)
        ensures
            c@ == self@.code,
    {
        match self {
            InvmstError::NotExists(c, _) => c,
            InvmstError::NoData(c, _) => c,
            InvmstError::Required(c, _) => c,
            InvmstError::Invalid(c, _) => c,
            _ => {
                proof {
                    reveal_strlit("");
                }
                assert(""@ =~= Seq::<char>::empty());
                ""
            },
        }
    }

    /// The text that this error carries.
    pub fn detail(&self) -> (d: &str)
        ensures
            d@ == self@.detail,
    {
        match self {
            InvmstError::IoError(d) => d.as_str(),
            InvmstError::NotExists(_, d) => d.as_str(),
            InvmstError::NoData(_, d) => d.as_str(),
            InvmstError::Required(_, d) => d.as_str(),
            InvmstError::Invalid(_, d) => d.as_str(),
            InvmstError::HttpStatusError(d) => d.as_str(),
            InvmstError::HttpError(d) => d.as_str(),
            InvmstError::JsonError(d) => d.as_str(),
            InvmstError::ConfigError(d) => d.as_str(),
            InvmstError::JoinError(d) => d.as_str(),
        }
    }

    /// The one line shown to people: the label of the kind, then the text.
    pub fn message(&self) -> (m: String)
        ensures
            m@ == kind_label(self@.kind) + self@.detail,
    {
        let label = match self.kind() {
            ErrorKind::Io => "[IO Error] ",
            ErrorKind::NotExists => "[Not Exists] ",
            ErrorKind::NoData => "[No Data] ",
            ErrorKind::Required => "[Required] ",
            ErrorKind::Invalid => "[Invalid] ",
            ErrorKind::HttpStatus => "[HTTP Status Error] ",
            ErrorKind::Http => "[HTTP Error] ",
            ErrorKind::Json => "[JSON Error] ",
            ErrorKind::Config => "[Config Error] ",
            ErrorKind::Join => "[Join Error] ",
        };
        String::from_str(label).concat(self.detail())
    }

    /// The one line shown to people; the same as `message`.
    pub fn to_string(&self) -> (m: String)
        ensures
            m@ == kind_label(self@.kind) + self@.detail,
    {
        self.message()
    }
}

} // verus!
