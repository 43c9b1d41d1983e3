use vstd::prelude::*;

use crate::io_error::{IoError, IoErrorKind, IoErrorModel};
use crate::project_config::{ConfigFormatError, ConfigIssue};

verus! {

/// Why a project could not be generated or reset.
#[derive(Debug)]
pub enum ProjectGenerationError {
    /// The project path does not exist.
    ProjectPathNotFound,
    /// The project holds no tool-state directory: it was never initialized.
    VibraniumDirectoryNotFound,
    /// The config could not be rendered as TOML.
    ConfigSerialization(toml::ser::Error),
    /// The persisted config could not be read.
    ConfigDeserialization(ConfigFormatError),
    /// A filesystem operation failed.
    Io(IoError),
}

pub enum GenerationIssue {
    ProjectPathNotFound,
    VibraniumDirectoryNotFound,
    ConfigSerialization,
    ConfigDeserialization(ConfigIssue),
    Io(IoErrorModel),
}

impl View for ProjectGenerationError {
    type V = GenerationIssue;

    open spec fn view(&self) -> GenerationIssue {
        match self {
            ProjectGenerationError::ProjectPathNotFound => GenerationIssue::ProjectPathNotFound,
            ProjectGenerationError::VibraniumDirectoryNotFound => GenerationIssue::VibraniumDirectoryNotFound,
            ProjectGenerationError::ConfigSerialization(_) => GenerationIssue::ConfigSerialization,
            ProjectGenerationError::ConfigDeserialization(e) => GenerationIssue::ConfigDeserialization(e@),
            ProjectGenerationError::Io(e) => GenerationIssue::Io(e@),
        }
    }
}

/// The text that describes an error of each kind.
pub open spec fn generation_error_text(issue: GenerationIssue) -> Seq<char> {
    match issue {
        GenerationIssue::ProjectPathNotFound => "Couldn't find directory for given project path"@,
        GenerationIssue::VibraniumDirectoryNotFound =>
            "Not a Vibranium project: couldn't find .vibranium directory"@,
        GenerationIssue::ConfigSerialization => "Couldn't serialize Vibranium config"@,
        GenerationIssue::ConfigDeserialization(_) => "Couldn't deserialize Vibranium config"@,
        GenerationIssue::Io(e) => if e.kind == IoErrorKind::NotFound {
            "Couldn't find file or directory"@
        } else {
            e.message
        },
    }
}

impl ProjectGenerationError {
    /// A short description of the error.
    pub fn description(&self) -> (r: String)
        ensures
            r@ == generation_error_text(self@),
    {
        match self {
            ProjectGenerationError::ProjectPathNotFound =>
                "Couldn't find directory for given project path".to_owned(),
            ProjectGenerationError::VibraniumDirectoryNotFound =>
                "Not a Vibranium project: couldn't find .vibranium directory".to_owned(),
            ProjectGenerationError::ConfigSerialization(_) => "Couldn't serialize Vibranium config".to_owned(),
            ProjectGenerationError::ConfigDeserialization(_) => "Couldn't deserialize Vibranium config".to_owned(),
            ProjectGenerationError::Io(e) => if e.is_not_found() {
                "Couldn't find file or directory".to_owned()
            } else {
                e.message.clone()
            },
        }
    }
}

/// The outcome of an operation without a result, seen through the error's view.
pub open spec fn unit_outcome(r: Result<(), ProjectGenerationError>) -> Result<(), GenerationIssue> {
    match r {
        Ok(_) => Ok(()),
        Err(e) => Err(e@),
    }
}

} // verus!
