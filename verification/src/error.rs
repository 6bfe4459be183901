//! The closed set of failures the packaging pipeline can report.

use vstd::prelude::*;

verus! {

/// The mathematical value of an [`Error`]: the same eight kinds, with the
/// carried text as a sequence of characters.
pub enum SpecError {
    Build(Seq<char>),
    Compile(Seq<char>),
    Generic(Seq<char>),
    Io(Seq<char>),
    Link(Seq<char>),
    Manifest(Seq<char>),
    Sign(Seq<char>),
    ParseFailure(Seq<char>),
}

/// A failure of the packaging pipeline.
///
/// Every kind carries a human-readable message, except `Manifest`, which
/// carries the name of the manifest field that could not be found, so the
/// message can name it.
#[derive(Debug, Clone, PartialEq, Eq)]
pub enum Error {
    /// A build operation for the release binary failed.
    Build(String),
    /// A compiler operation failed.
    Compile(String),
    /// A generic or custom error occurred.
    Generic(String),
    /// An I/O operation failed; the message describes the underlying cause.
    Io(String),
    /// A linker operation failed.
    Link(String),
    /// A needed field within the package's manifest could not be found.
    Manifest(String),
    /// A signing operation failed.
    Sign(String),
    /// Parsing of the package's manifest failed; the message describes the
    /// underlying cause.
    ParseFailure(String),
}

impl View for Error {
    type V = SpecError;

    open spec fn view(&self) -> SpecError {
        match self {
            Error::Build(m) => SpecError::Build(m@),
            Error::Compile(m) => SpecError::Compile(m@),
            Error::Generic(m) => SpecError::Generic(m@),
            Error::Io(m) => SpecError::Io(m@),
            Error::Link(m) => SpecError::Link(m@),
            Error::Manifest(f) => SpecError::Manifest(f@),
            Error::Sign(m) => SpecError::Sign(m@),
            Error::ParseFailure(m) => SpecError::ParseFailure(m@),
        }
    }
}

/// The numeric code of each error kind.
pub open spec fn spec_code(e: SpecError) -> int {
    match e {
        SpecError::Build(_) => 1,
        SpecError::Compile(_) => 2,
        SpecError::Generic(_) => 3,
        SpecError::Io(_) => 4,
        SpecError::Link(_) => 5,
        SpecError::Manifest(_) => 6,
        SpecError::Sign(_) => 7,
        SpecError::ParseFailure(_) => 8,
    }
}

/// The name of each error kind.
pub open spec fn spec_kind_name(e: SpecError) -> Seq<char> {
    match e {
        SpecError::Build(_) => "Build"@,
        SpecError::Compile(_) => "Compile"@,
        SpecError::Generic(_) => "Generic"@,
        SpecError::Io(_) => "Io"@,
        SpecError::Link(_) => "Link"@,
        SpecError::Manifest(_) => "Manifest"@,
        SpecError::Sign(_) => "Sign"@,
        SpecError::ParseFailure(_) => "ParseFailure"@,
    }
}

/// The human-readable message of each error: the carried text, except for
/// `Manifest`, whose message names the missing field.
pub open spec fn spec_message(e: SpecError) -> Seq<char> {
    match e {
        SpecError::Build(m) => m,
        SpecError::Compile(m) => m,
        SpecError::Generic(m) => m,
        SpecError::Io(m) => m,
        SpecError::Link(m) => m,
        SpecError::Manifest(f) => "No '"@ + f
            + "' field found in the package's manifest (Cargo.toml)"@,
        SpecError::Sign(m) => m,
        SpecError::ParseFailure(m) => m,
    }
}

impl Error {
    /// Gets the numeric code related to the error, distinct and positive for
    /// each kind. It is useful as an exit code for a command-line
    /// application, where a non-zero integer indicates a failure.
    pub fn code(&self) -> (r: i32)
        ensures
            r as int == spec_code(self@),
    {
        match self {
            Error::Build(_) => 1,
            Error::Compile(_) => 2,
            Error::Generic(_) => 3,
            Error::Io(_) => 4,
            Error::Link(_) => 5,
            Error::Manifest(_) => 6,
            Error::Sign(_) => 7,
            Error::ParseFailure(_) => 8,
        }
    }

    /// Gets the name of the error's kind.
    pub fn kind_name(&self) -> (r: &'static str)
        ensures
            r@ == spec_kind_name(self@),
    {
        match self {
            Error::Build(_) => "Build",
            Error::Compile(_) => "Compile",
            Error::Generic(_) => "Generic",
            Error::Io(_) => "Io",
            Error::Link(_) => "Link",
            Error::Manifest(_) => "Manifest",
            Error::Sign(_) => "Sign",
            Error::ParseFailure(_) => "ParseFailure",
        }
    }

    /// Gets the human-readable message of the error.
    pub fn message(&self) -> (r: String)
        ensures
            r@ == spec_message(self@),
    {
        match self {
            Error::Build(m) => m.clone(),
            Error::Compile(m) => m.clone(),
            Error::Generic(m) => m.clone(),
            Error::Io(m) => m.clone(),
            Error::Link(m) => m.clone(),
            Error::Manifest(f) => {
                let r = String::from_str("No '").concat(f.as_str()).concat(
                    "' field found in the package's manifest (Cargo.toml)",
                );
                proof {
                    assert(r@ =~= spec_message(self@));
                }
                r
            },
            Error::Sign(m) => m.clone(),
            Error::ParseFailure(m) => m.clone(),
        }
    }
}

} // verus!
