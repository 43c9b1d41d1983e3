pub mod compiler;
pub mod io_error;
pub mod project_config;
pub mod project_generator;
pub mod toml_format;

use vstd::prelude::*;

use crate::compiler::error::CompilerError;
use crate::project_generator::error::{GenerationIssue, ProjectGenerationError};
use crate::project_generator::{
    generation, reset, ConfigFile, GenerationPlan, GenerationPlanModel, ProjectGenerator, ResetPlan,
};

verus! {

/// The entry point for one project: plans its initialization and reset, and
/// decides whether it can be compiled. The caller performs the filesystem and
/// process work that these plans and decisions call for.
#[derive(Debug)]
pub struct Vibranium {
    project_path: String,
}

impl View for Vibranium {
    type V = Seq<char>;

    closed spec fn view(&self) -> Seq<char> {
        self.project_path@
    }
}

impl Vibranium {
    pub fn new(project_path: String) -> (r: Vibranium)
        ensures
            r@ == project_path@,
    {
        Vibranium { project_path }
    }

    /// The project root.
    pub fn project_path(&self) -> (r: &String)
        ensures
            r@ == self@,
    {
        &self.project_path
    }

    /// Plans the project's initialization, given whether the project path
    /// exists and what was found at its config file's path.
    pub fn init_project(&self, project_exists: bool, config: ConfigFile) -> (r: Result<GenerationPlan, ProjectGenerationError>)
        ensures
            match r {
                Ok(plan) => generation(project_exists, config@) == Ok::<_, GenerationIssue>(plan@),
                Err(e) => generation(project_exists, config@) == Err::<GenerationPlanModel, _>(e@),
            },
    {
        let generator = ProjectGenerator::new();
        generator.generate_project(project_exists, config)
    }

    /// Plans the first half of the project's reset, given whether its
    /// tool-state directory exists and what was found at its config file's
    /// path. Once the removals are done, `generate_after_reset` plans the rest.
    pub fn reset_project(&self, state_dir_exists: bool, config: ConfigFile) -> (r: ResetPlan)
        ensures
            r@ == reset(state_dir_exists, config@),
    {
        let generator = ProjectGenerator::new();
        generator.reset_project(state_dir_exists, config)
    }

    /// Plans the second half of the project's reset: the reset's error is
    /// returned as it is, and only after a successful reset is the project
    /// generated anew, from what is found on disk after the removals.
    pub fn generate_after_reset(
        &self,
        reset_outcome: Result<(), ProjectGenerationError>,
        project_exists: bool,
        config: ConfigFile,
    ) -> (r: Result<GenerationPlan, ProjectGenerationError>)
        ensures
            reset_outcome is Err ==> r is Err && r->Err_0 == reset_outcome->Err_0,
            reset_outcome is Ok ==> match r {
                Ok(plan) => generation(project_exists, config@) == Ok::<_, GenerationIssue>(plan@),
                Err(e) => generation(project_exists, config@) == Err::<GenerationPlanModel, _>(e@),
            },
    {
        match reset_outcome {
            Err(e) => Err(e),
            Ok(()) => self.init_project(project_exists, config),
        }
    }

    /// Decides whether the compiler may be started: only once the project's
    /// tool-state directory exists.
    pub fn check_compile_ready(&self, state_dir_exists: bool) -> (r: Result<(), CompilerError>)
        ensures
            state_dir_exists <==> r is Ok,
            !state_dir_exists ==> r matches Err(
                CompilerError::VibraniumDirectoryNotFound(ProjectGenerationError::VibraniumDirectoryNotFound),
            ),
    {
        let generator = ProjectGenerator::new();
        match generator.check_vibranium_dir_exists(state_dir_exists) {
            Ok(()) => Ok(()),
            Err(e) => Err(CompilerError::VibraniumDirectoryNotFound(e)),
        }
    }
}

} // verus!
