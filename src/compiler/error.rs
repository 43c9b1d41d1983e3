use vstd::prelude::*;

use crate::io_error::{IoError, IoErrorKind, IoErrorModel};
use crate::project_generator::error::{generation_error_text, GenerationIssue, ProjectGenerationError};

verus! {

/// A compiler configuration that cannot be used.
#[derive(Debug, Clone, PartialEq, Eq)]
pub struct ConfigError {
    pub message: String,
}

/// Why compiling failed.
#[derive(Debug)]
pub enum CompilerError {
    /// Spawning the compiler or waiting for it failed.
    Io(IoError),
    /// The project was never initialized.
    VibraniumDirectoryNotFound(ProjectGenerationError),
    /// The compiler configuration is invalid.
    InvalidConfig(ConfigError),
}

pub enum CompilerIssue {
    Io(IoErrorModel),
    VibraniumDirectoryNotFound(GenerationIssue),
    InvalidConfig(Seq<char>),
}

impl View for CompilerError {
    type V = CompilerIssue;

    open spec fn view(&self) -> CompilerIssue {
        match self {
            CompilerError::Io(e) => CompilerIssue::Io(e@),
            CompilerError::VibraniumDirectoryNotFound(e) => CompilerIssue::VibraniumDirectoryNotFound(e@),
            CompilerError::InvalidConfig(e) => CompilerIssue::InvalidConfig(e.message@),
        }
    }
}

/// The text that describes a compiler error: a missing executable gets a
/// message of its own, every other error the description of its cause.
pub open spec fn compiler_error_text(issue: CompilerIssue) -> Seq<char> {
    match issue {
        CompilerIssue::Io(e) => if e.kind == IoErrorKind::NotFound {
            "Couldn't find executable for requested compiler"@
        } else {
            e.message
        },
        CompilerIssue::VibraniumDirectoryNotFound(e) => generation_error_text(e),
        CompilerIssue::InvalidConfig(message) => message,
    }
}

impl CompilerError {
    /// A short description of the error.
    pub fn description(&self) -> (r: String)
        ensures
            r@ == compiler_error_text(self@),
    {
        match self {
            CompilerError::Io(e) => if e.is_not_found() {
                "Couldn't find executable for requested compiler".to_owned()
            } else {
                e.message.clone()
            },
            CompilerError::VibraniumDirectoryNotFound(e) => e.description(),
            CompilerError::InvalidConfig(e) => e.message.clone(),
        }
    }
}

} // verus!
