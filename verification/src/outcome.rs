//! What a conversion, or a whole run, ends with.

use vstd::prelude::*;

verus! {

/// The step at which a run failed.
#[derive(Clone, Copy, Debug, PartialEq, Eq, Structural)]
pub enum FailureKind {
    /// The output directory could not be created.
    Setup,
    /// The directory tree could not be read.
    Traversal,
    /// An input file is no bitmap that can be decoded.
    Decode,
    /// An image could not be encoded.
    Encode,
    /// A file could not be read, created or written.
    Io,
}

/// A failure: its kind, a message, and the path it arose at, if any.
#[derive(Debug, PartialEq, Eq)]
pub struct Failure {
    pub kind: FailureKind,
    pub message: String,
    pub path: Option<String>,
}

/// A failure with its texts as character sequences.
pub struct FailureView {
    pub kind: FailureKind,
    pub message: Seq<char>,
    pub path: Option<Seq<char>>,
}

impl View for Failure {
    type V = FailureView;

    open spec fn view(&self) -> FailureView {
        FailureView {
            kind: self.kind,
            message: self.message@,
            path: match self.path {
                Some(p) => Some(p@),
                None => None,
            },
        }
    }
}

/// The result of converting one file.
#[derive(Debug, PartialEq, Eq)]
pub enum ConversionOutcome {
    Success,
    Failure(Failure),
}

/// The line that describes a failure: the path and a colon before the
/// message where there is a path, the message alone where there is none.
pub open spec fn diagnostic(failure: FailureView) -> Seq<char> {
    match failure.path {
        Some(path) => path + seq![':', ' '] + failure.message,
        None => failure.message,
    }
}

impl Failure {
    /// A failure that arose at `path`.
    pub fn at(kind: FailureKind, message: String, path: &str) -> (r: Failure)
        ensures
            r@ == (FailureView { kind, message: message@, path: Some(path@) }),
    {
        Failure { kind, message, path: Some(String::from_str(path)) }
    }

    /// The line that describes this failure.
    pub fn describe(&self) -> (r: String)
        ensures
            r@ == diagnostic(self@),
    {
        match &self.path {
            Some(path) => {
                let mut line = String::from_str(path.as_str());
                proof {
                    reveal_strlit(": ");
                }
                line.append(": ");
                assert(": "@ =~= seq![':', ' ']);
                line.append(self.message.as_str());
                line
            },
            None => String::from_str(self.message.as_str()),
        }
    }
}

} // verus!
