use vstd::prelude::*;

verus! {

/// The kinds of filesystem or process failure that the library tells apart.
#[derive(Debug, Clone, Copy, PartialEq, Eq, Structural)]
pub enum IoErrorKind {
    NotFound,
    PermissionDenied,
    AlreadyExists,
    Other,
}

/// A failed I/O operation, as reported back by the code that performed it.
#[derive(Debug, Clone, PartialEq, Eq)]
pub struct IoError {
    pub kind: IoErrorKind,
    pub message: String,
}

pub struct IoErrorModel {
    pub kind: IoErrorKind,
    pub message: Seq<char>,
}

impl View for IoError {
    type V = IoErrorModel;

    open spec fn view(&self) -> IoErrorModel {
        IoErrorModel { kind: self.kind, message: self.message@ }
    }
}

impl IoError {
    pub fn new(kind: IoErrorKind, message: String) -> (r: IoError)
        ensures
            r.kind == kind,
            r.message@ == message@,
    {
        IoError { kind, message }
    }

    /// Whether the failure means that a file, directory or executable is missing.
    pub fn is_not_found(&self) -> (r: bool)
        ensures
            r == (self.kind == IoErrorKind::NotFound),
    {
        self.kind == IoErrorKind::NotFound
    }
}

} // verus!
