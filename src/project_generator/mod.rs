pub mod error;

use vstd::prelude::*;

use crate::io_error::{IoError, IoErrorModel};
use crate::project_config::{
    is_relative_dir, is_relative_dir_name, is_separator, is_separator_char, config_from_text, config_table, config_text, lemma_config_table_round_trip, ProjectConfig,
    ProjectConfigModel,
};
use crate::toml_format::{as_read, nesting_marks, toml_table_of, TomlValueModel, MAX_NESTING_MARKS};
use crate::project_generator::error::{unit_outcome, GenerationIssue, ProjectGenerationError};

verus! {

/// Name of the config file at the project root.
pub const VIBRANIUM_CONFIG_FILE: &'static str = "vibranium.toml";

/// Name of the hidden tool-state directory at the project root.
pub const VIBRANIUM_PROJECT_DIRECTORY: &'static str = ".vibranium";

/// Name of the directory that holds contract sources.
pub const DEFAULT_CONTRACTS_DIRECTORY: &'static str = "contracts";

/// Name of the artifacts directory where the config names none.
pub const DEFAULT_ARTIFACTS_DIRECTORY: &'static str = "artifacts";

/// The glob that a fresh config gives as its only contract source.
pub const DEFAULT_CONTRACT_SOURCES: &'static str = "contracts/**";

/// What was found at the config file's path.
#[derive(Debug)]
pub enum ConfigFile {
    /// No file is there.
    Missing,
    /// A file is there but reading it failed.
    Unreadable(IoError),
    /// The file's text.
    Contents(String),
}

pub enum ConfigFileState {
    Missing,
    Unreadable(IoErrorModel),
    Contents(Seq<char>),
}

impl View for ConfigFile {
    type V = ConfigFileState;

    open spec fn view(&self) -> ConfigFileState {
        match self {
            ConfigFile::Missing => ConfigFileState::Missing,
            ConfigFile::Unreadable(e) => ConfigFileState::Unreadable(e@),
            ConfigFile::Contents(t) => ConfigFileState::Contents(t@),
        }
    }
}

/// The work that brings a project to its skeleton: first write the config
/// file, if there is text to write, then create each listed directory (with
/// its parents) that is not present yet, in order, stopping at the first
/// failure.
#[derive(Debug)]
pub struct GenerationPlan {
    pub config_text: Option<String>,
    pub directories: Vec<String>,
}

pub struct GenerationPlanModel {
    pub config_text: Option<Seq<char>>,
    pub directories: Seq<Seq<char>>,
}

impl View for GenerationPlan {
    type V = GenerationPlanModel;

    open spec fn view(&self) -> GenerationPlanModel {
        GenerationPlanModel {
            config_text: match self.config_text {
                Some(t) => Some(t@),
                None => None,
            },
            directories: self.directories@.map_values(|d: String| d@),
        }
    }
}

/// The work that resets a project: remove each listed directory, ignoring any
/// failure, then report `outcome`.
#[derive(Debug)]
pub struct ResetPlan {
    pub removals: Vec<String>,
    pub outcome: Result<(), ProjectGenerationError>,
}

pub struct ResetPlanModel {
    pub removals: Seq<Seq<char>>,
    pub outcome: Result<(), GenerationIssue>,
}

impl View for ResetPlan {
    type V = ResetPlanModel;

    open spec fn view(&self) -> ResetPlanModel {
        ResetPlanModel {
            removals: self.removals@.map_values(|d: String| d@),
            outcome: unit_outcome(self.outcome),
        }
    }
}

/// The config that a fresh project gets.
pub open spec fn default_config() -> ProjectConfigModel {
    ProjectConfigModel {
        artifacts_dir: DEFAULT_ARTIFACTS_DIRECTORY@,
        smart_contract_sources: seq![DEFAULT_CONTRACT_SOURCES@],
    }
}

/// The directories of a project's skeleton, given its artifacts directory.
pub open spec fn skeleton(artifacts_dir: Seq<char>) -> Seq<Seq<char>> {
    seq![VIBRANIUM_PROJECT_DIRECTORY@, DEFAULT_CONTRACTS_DIRECTORY@, artifacts_dir]
}

/// What generating a project does, given whether its path exists and what is
/// found at its config file's path.
pub open spec fn generation(project_exists: bool, config: ConfigFileState) -> Result<GenerationPlanModel, GenerationIssue> {
    if !project_exists {
        Err(GenerationIssue::ProjectPathNotFound)
    } else {
        match config {
            ConfigFileState::Missing => Ok(GenerationPlanModel {
                config_text: Some(config_text(default_config())),
                directories: skeleton(DEFAULT_ARTIFACTS_DIRECTORY@),
            }),
            ConfigFileState::Unreadable(e) => Err(GenerationIssue::Io(e)),
            ConfigFileState::Contents(text) => match config_from_text(text) {
                Ok(c) => Ok(GenerationPlanModel { config_text: None, directories: skeleton(c.artifacts_dir) }),
                Err(issue) => Err(GenerationIssue::ConfigDeserialization(issue)),
            },
        }
    }
}

/// Whether the directory path `d` is `name` or lies below it.
pub open spec fn within(d: Seq<char>, name: Seq<char>) -> bool {
    d == name || (d.len() > name.len() && d.take(name.len() as int) == name && is_separator(
        d[name.len() as int],
    ))
}

/// Whether reset may remove the config's artifacts directory: it must stay
/// below the project root, and spare the contracts directory, everything
/// below it, and the config file.
pub open spec fn removable_artifacts_dir(d: Seq<char>) -> bool {
    is_relative_dir(d) && !within(d, DEFAULT_CONTRACTS_DIRECTORY@) && d != VIBRANIUM_CONFIG_FILE@
}

/// What resetting a project does, given whether its tool-state directory
/// exists and what is found at its config file's path.
pub open spec fn reset(state_dir_exists: bool, config: ConfigFileState) -> ResetPlanModel {
    let always = seq![VIBRANIUM_PROJECT_DIRECTORY@, DEFAULT_ARTIFACTS_DIRECTORY@];
    if !state_dir_exists {
        ResetPlanModel { removals: seq![], outcome: Err(GenerationIssue::VibraniumDirectoryNotFound) }
    } else {
        match config {
            ConfigFileState::Missing => ResetPlanModel { removals: always, outcome: Ok(()) },
            ConfigFileState::Unreadable(e) => ResetPlanModel { removals: always, outcome: Err(GenerationIssue::Io(e)) },
            ConfigFileState::Contents(text) => match config_from_text(text) {
                Ok(c) => ResetPlanModel {
                    removals: if removable_artifacts_dir(c.artifacts_dir) {
                        always.push(c.artifacts_dir)
                    } else {
                        always
                    },
                    outcome: Ok(()),
                },
                Err(issue) => ResetPlanModel {
                    removals: always,
                    outcome: Err(GenerationIssue::ConfigDeserialization(issue)),
                },
            },
        }
    }
}

/// The planned directories whose entry in `present` is false, in order.
pub open spec fn missing(planned: Seq<Seq<char>>, present: Seq<bool>) -> Seq<Seq<char>>
    decreases planned.len(),
{
    if planned.len() == 0 {
        seq![]
    } else {
        let rest = missing(planned.drop_last(), present.drop_last());
        if present.last() {
            rest
        } else {
            rest.push(planned.last())
        }
    }
}

/// Whether the directory path `d` is `name` or lies below it.
pub fn is_within(d: &str, name: &str) -> (r: bool)
    ensures
        r == within(d@, name@),
{
    let n = d.unicode_len();
    let m = name.unicode_len();
    if n < m {
        return false;
    }
    let head = d.substring_char(0, m).to_owned();
    let wanted = name.to_owned();
    assert(head@ =~= d@.take(m as int));
    if n == m {
        assert(d@.take(m as int) =~= d@);
    }
    if !(head == wanted) {
        return false;
    }
    if n == m {
        assert(d@ =~= head@);
        return true;
    }
    is_separator_char(d.get_char(m))
}

/// The skeleton directories, owned.
fn skeleton_directories(artifacts_dir: String) -> (r: Vec<String>)
    ensures
        r@.map_values(|d: String| d@) == skeleton(artifacts_dir@),
{
    let mut r: Vec<String> = Vec::new();
    r.push(VIBRANIUM_PROJECT_DIRECTORY.to_owned());
    r.push(DEFAULT_CONTRACTS_DIRECTORY.to_owned());
    r.push(artifacts_dir);
    assert(r@.map_values(|d: String| d@) =~= skeleton(artifacts_dir@));
    r
}

impl GenerationPlan {
    /// The planned directories that are not present yet, given for each
    /// planned directory whether it is present.
    pub fn missing_directories(&self, present: &Vec<bool>) -> (r: Vec<String>)
        requires
            present@.len() == self.directories@.len(),
        ensures
            r@.map_values(|d: String| d@) == missing(self@.directories, present@),
    {
        let ghost planned = self@.directories;
        let mut r: Vec<String> = Vec::new();
        let mut i: usize = 0;
        while i < present.len()
            invariant
                0 <= i <= present@.len(),
                present@.len() == self.directories@.len(),
                planned == self@.directories,
                r@.map_values(|d: String| d@) == missing(planned.take(i as int), present@.take(i as int)),
            decreases present@.len() - i,
        {
            let ghost prev = r@;
            assert(planned.take(i + 1).drop_last() =~= planned.take(i as int));
            assert(present@.take(i + 1).drop_last() =~= present@.take(i as int));
            if !present[i] {
                r.push(self.directories[i].clone());
                assert(r@.map_values(|d: String| d@) =~= prev.map_values(|d: String| d@).push(planned[i as int]));
            }
            i = i + 1;
        }
        assert(planned.take(i as int) =~= planned);
        assert(present@.take(i as int) =~= present@);
        r
    }
}

/// Creates and removes the on-disk skeleton of a project.
pub struct ProjectGenerator;

impl ProjectGenerator {
    pub fn new() -> (r: ProjectGenerator) {
        ProjectGenerator
    }

    /// The config that a fresh project gets.
    pub fn default_config(&self) -> (r: ProjectConfig)
        ensures
            r@ == default_config(),
    {
        let mut sources: Vec<String> = Vec::new();
        sources.push(DEFAULT_CONTRACT_SOURCES.to_owned());
        let r = ProjectConfig { artifacts_dir: DEFAULT_ARTIFACTS_DIRECTORY.to_owned(), smart_contract_sources: sources };
        assert(r@.smart_contract_sources =~= default_config().smart_contract_sources);
        r
    }

    /// Plans the generation of a project, given whether its path exists and
    /// what was found at its config file's path.
    pub fn generate_project(&self, project_exists: bool, config: ConfigFile) -> (r: Result<GenerationPlan, ProjectGenerationError>)
        ensures
            match r {
                Ok(plan) => generation(project_exists, config@) == Ok::<_, GenerationIssue>(plan@),
                Err(e) => generation(project_exists, config@) == Err::<GenerationPlanModel, _>(e@),
            },
    {
        if !project_exists {
            return Err(ProjectGenerationError::ProjectPathNotFound);
        }
        match config {
            ConfigFile::Missing => {
                let config = self.default_config();
                match config.to_toml() {
                    Ok(text) => {
                        let directories = skeleton_directories(DEFAULT_ARTIFACTS_DIRECTORY.to_owned());
                        Ok(GenerationPlan { config_text: Some(text), directories })
                    },
                    Err(e) => Err(ProjectGenerationError::ConfigSerialization(e)),
                }
            },
            ConfigFile::Unreadable(e) => Err(ProjectGenerationError::Io(e)),
            ConfigFile::Contents(text) => match ProjectConfig::from_toml(text.as_str()) {
                Ok(existing) => {
                    let directories = skeleton_directories(existing.artifacts_dir);
                    Ok(GenerationPlan { config_text: None, directories })
                },
                Err(e) => Err(ProjectGenerationError::ConfigDeserialization(e)),
            },
        }
    }

    /// Fails with `VibraniumDirectoryNotFound` exactly when the tool-state
    /// directory does not exist.
    pub fn check_vibranium_dir_exists(&self, state_dir_exists: bool) -> (r: Result<(), ProjectGenerationError>)
        ensures
            state_dir_exists ==> r is Ok,
            !state_dir_exists ==> r matches Err(ProjectGenerationError::VibraniumDirectoryNotFound),
    {
        if state_dir_exists {
            Ok(())
        } else {
            Err(ProjectGenerationError::VibraniumDirectoryNotFound)
        }
    }

    /// Plans the reset of a project, given whether its tool-state directory
    /// exists and what was found at its config file's path.
    pub fn reset_project(&self, state_dir_exists: bool, config: ConfigFile) -> (r: ResetPlan)
        ensures
            r@ == reset(state_dir_exists, config@),
            forall|i: int|
                0 <= i < r@.removals.len() ==> removable_artifacts_dir(#[trigger] r@.removals[i]),
    {
        let mut removals: Vec<String> = Vec::new();
        if let Err(e) = self.check_vibranium_dir_exists(state_dir_exists) {
            assert(removals@.map_values(|d: String| d@) =~= seq![]);
            return ResetPlan { removals, outcome: Err(e) };
        }
        removals.push(VIBRANIUM_PROJECT_DIRECTORY.to_owned());
        removals.push(DEFAULT_ARTIFACTS_DIRECTORY.to_owned());
        let ghost always = removals@;
        let outcome = match config {
            ConfigFile::Missing => Ok(()),
            ConfigFile::Unreadable(e) => Err(ProjectGenerationError::Io(e)),
            ConfigFile::Contents(text) => match ProjectConfig::from_toml(text.as_str()) {
                Ok(existing) => {
                    if is_relative_dir_name(existing.artifacts_dir.as_str())
                        && !is_within(existing.artifacts_dir.as_str(), DEFAULT_CONTRACTS_DIRECTORY)
                        && !(existing.artifacts_dir == VIBRANIUM_CONFIG_FILE.to_owned()) {
                        removals.push(existing.artifacts_dir);
                    }
                    Ok(())
                },
                Err(e) => Err(ProjectGenerationError::ConfigDeserialization(e)),
            },
        };
        proof {
            lemma_fixed_removals_spare_project();
            let expected = reset(state_dir_exists, config@);
            assert(always.map_values(|d: String| d@) =~= seq![VIBRANIUM_PROJECT_DIRECTORY@, DEFAULT_ARTIFACTS_DIRECTORY@]);
            if removals@.len() == 3 {
                assert(removals@ =~= always.push(removals@[2]));
                assert(removals@.map_values(|d: String| d@) =~= always.map_values(|d: String| d@).push(removals@[2]@));
            } else {
                assert(removals@ == always);
            }
        }
        ResetPlan { removals, outcome }
    }
}

/// The skeleton directories are three distinct names, and only the third can
/// be the default artifacts directory.
proof fn lemma_skeleton_names(artifacts_dir: Seq<char>)
    ensures
        skeleton(artifacts_dir).len() == 3,
        VIBRANIUM_PROJECT_DIRECTORY@ != DEFAULT_ARTIFACTS_DIRECTORY@,
        DEFAULT_CONTRACTS_DIRECTORY@ != DEFAULT_ARTIFACTS_DIRECTORY@,
        VIBRANIUM_PROJECT_DIRECTORY@ != VIBRANIUM_CONFIG_FILE@,
        DEFAULT_ARTIFACTS_DIRECTORY@ != VIBRANIUM_CONFIG_FILE@,
        VIBRANIUM_PROJECT_DIRECTORY@ != DEFAULT_CONTRACTS_DIRECTORY@,
{
    reveal_strlit(".vibranium");
    reveal_strlit("contracts");
    reveal_strlit("artifacts");
    reveal_strlit("vibranium.toml");
    assert(VIBRANIUM_PROJECT_DIRECTORY@[0] != DEFAULT_ARTIFACTS_DIRECTORY@[0]);
    assert(DEFAULT_CONTRACTS_DIRECTORY@[0] != DEFAULT_ARTIFACTS_DIRECTORY@[0]);
    assert(VIBRANIUM_PROJECT_DIRECTORY@[0] != VIBRANIUM_CONFIG_FILE@[0]);
    assert(DEFAULT_ARTIFACTS_DIRECTORY@[0] != VIBRANIUM_CONFIG_FILE@[0]);
    assert(VIBRANIUM_PROJECT_DIRECTORY@[0] != DEFAULT_CONTRACTS_DIRECTORY@[0]);
}

/// A name of plain letters, digits and a leading dot stays below the root.
proof fn lemma_plain_name_is_relative(d: Seq<char>)
    requires
        d.len() > 1,
        d[0] != '/' && d[0] != '\\' && d[0] != ':',
        d[1] != '.' && d[1] != '/' && d[1] != '\\',
        forall|i: int| 1 <= i < d.len() ==> #[trigger] d[i] != '.' && d[i] != '/' && d[i] != '\\' && d[i] != ':',
    ensures
        is_relative_dir(d),
{
    assert forall|i: int| 0 <= i < d.len() implies #[trigger] d[i] != ':' && !crate::project_config::dot_component_at(d, i) by {
        if i > 0 {
            assert(d[i] != '.');
        }
    }
}

/// The directories that every reset removes stay below the root and spare
/// the contracts directory and the config file.
proof fn lemma_fixed_removals_spare_project()
    ensures
        removable_artifacts_dir(VIBRANIUM_PROJECT_DIRECTORY@),
        removable_artifacts_dir(DEFAULT_ARTIFACTS_DIRECTORY@),
{
    reveal_strlit(".vibranium");
    reveal_strlit("contracts");
    reveal_strlit("artifacts");
    reveal_strlit("vibranium.toml");
    lemma_plain_name_is_relative(VIBRANIUM_PROJECT_DIRECTORY@);
    lemma_plain_name_is_relative(DEFAULT_ARTIFACTS_DIRECTORY@);
    assert(VIBRANIUM_PROJECT_DIRECTORY@.take(9)[0] != DEFAULT_CONTRACTS_DIRECTORY@[0]);
    assert(VIBRANIUM_PROJECT_DIRECTORY@[0] != VIBRANIUM_CONFIG_FILE@[0]);
    assert(DEFAULT_ARTIFACTS_DIRECTORY@[0] != DEFAULT_CONTRACTS_DIRECTORY@[0]);
    assert(DEFAULT_ARTIFACTS_DIRECTORY@[0] != VIBRANIUM_CONFIG_FILE@[0]);
}

/// Where every planned directory is present, none is left to create.
pub proof fn lemma_nothing_missing(planned: Seq<Seq<char>>, present: Seq<bool>)
    requires
        present.len() == planned.len(),
        forall|i: int| 0 <= i < present.len() ==> #[trigger] present[i],
    ensures
        missing(planned, present) == Seq::<Seq<char>>::empty(),
    decreases planned.len(),
{
    if planned.len() > 0 {
        lemma_nothing_missing(planned.drop_last(), present.drop_last());
        assert(present.last() == present[present.len() - 1]);
    }
}

/// Generating a project whose path does not exist fails with
/// `ProjectPathNotFound`, and nothing is written or created.
pub proof fn lemma_missing_project_path(config: ConfigFileState)
    ensures
        generation(false, config) == Err::<GenerationPlanModel, _>(GenerationIssue::ProjectPathNotFound),
{
}

/// Generating a project over an existing config that reads as `c` writes no
/// config and plans the tool-state, contracts and `c`'s artifacts
/// directories; once they are all present, nothing is left to create.
pub proof fn lemma_regenerate_is_noop(text: Seq<char>, c: ProjectConfigModel)
    requires
        config_from_text(text) == Ok::<_, crate::project_config::ConfigIssue>(c),
    ensures
        generation(true, ConfigFileState::Contents(text)) == Ok::<_, GenerationIssue>(
            GenerationPlanModel { config_text: None, directories: skeleton(c.artifacts_dir) },
        ),
        missing(skeleton(c.artifacts_dir), seq![true, true, true]) == Seq::<Seq<char>>::empty(),
{
    lemma_skeleton_names(c.artifacts_dir);
    lemma_nothing_missing(skeleton(c.artifacts_dir), seq![true, true, true]);
}

/// A fresh project gets the default config (the default artifacts directory
/// and the contracts glob as its only source), written as its rendered text,
/// and the tool-state, contracts and default artifacts directories. When the
/// toml crate reads that text back as the table it rendered (and the text has
/// no more nesting marks than the parser is given), generating again
/// writes nothing, plans the same directories, and, these being present,
/// creates nothing.
pub proof fn lemma_fresh_project()
    ensures
        generation(true, ConfigFileState::Missing) == Ok::<_, GenerationIssue>(
            GenerationPlanModel {
                config_text: Some(config_text(default_config())),
                directories: skeleton(DEFAULT_ARTIFACTS_DIRECTORY@),
            },
        ),
        default_config().artifacts_dir == DEFAULT_ARTIFACTS_DIRECTORY@,
        default_config().smart_contract_sources == seq![DEFAULT_CONTRACT_SOURCES@],
        ({
            let text = config_text(default_config());
            nesting_marks(text) <= MAX_NESTING_MARKS && toml_table_of(text) == Some(
                config_table(default_config()).map_values(|e: (Seq<char>, TomlValueModel)| (e.0, as_read(e.1))),
            )
        }) ==> {
            &&& generation(true, ConfigFileState::Contents(config_text(default_config()))) == Ok::<_, GenerationIssue>(
                GenerationPlanModel { config_text: None, directories: skeleton(DEFAULT_ARTIFACTS_DIRECTORY@) },
            )
            &&& missing(skeleton(DEFAULT_ARTIFACTS_DIRECTORY@), seq![true, true, true])
                == Seq::<Seq<char>>::empty()
        },
{
    let text = config_text(default_config());
    lemma_config_table_round_trip(default_config());
    if nesting_marks(text) <= MAX_NESTING_MARKS && toml_table_of(text) == Some(
        config_table(default_config()).map_values(|e: (Seq<char>, TomlValueModel)| (e.0, as_read(e.1))),
    ) {
        lemma_regenerate_is_noop(text, default_config());
    }
}

/// Where the config names a custom artifacts directory, generating the
/// project plans that directory and not the default one.
pub proof fn lemma_custom_artifacts_dir(text: Seq<char>, c: ProjectConfigModel)
    requires
        config_from_text(text) == Ok::<_, crate::project_config::ConfigIssue>(c),
        c.artifacts_dir != DEFAULT_ARTIFACTS_DIRECTORY@,
    ensures
        generation(true, ConfigFileState::Contents(text)) == Ok::<_, GenerationIssue>(
            GenerationPlanModel { config_text: None, directories: skeleton(c.artifacts_dir) },
        ),
        skeleton(c.artifacts_dir).contains(c.artifacts_dir),
        !skeleton(c.artifacts_dir).contains(DEFAULT_ARTIFACTS_DIRECTORY@),
{
    lemma_skeleton_names(c.artifacts_dir);
    assert(skeleton(c.artifacts_dir)[2] == c.artifacts_dir);
}

/// Resetting a project without a tool-state directory fails with
/// `VibraniumDirectoryNotFound` and removes nothing.
pub proof fn lemma_reset_without_state_dir(config: ConfigFileState)
    ensures
        reset(false, config).removals == Seq::<Seq<char>>::empty(),
        reset(false, config).outcome == Err::<(), _>(GenerationIssue::VibraniumDirectoryNotFound),
{
}

/// Resetting an initialized project whose config reads as `c` removes the
/// tool-state and default artifacts directories, and `c`'s artifacts
/// directory unless that is the config file, the contracts directory or lies
/// below it; it never removes the config file nor anything of the contracts
/// directory. Generating the project afterwards succeeds without rewriting
/// the config, and plans the whole skeleton again.
pub proof fn lemma_reset_then_generate(text: Seq<char>, c: ProjectConfigModel)
    requires
        config_from_text(text) == Ok::<_, crate::project_config::ConfigIssue>(c),
    ensures
        reset(true, ConfigFileState::Contents(text)) == (ResetPlanModel {
            removals: if removable_artifacts_dir(c.artifacts_dir) {
                seq![VIBRANIUM_PROJECT_DIRECTORY@, DEFAULT_ARTIFACTS_DIRECTORY@, c.artifacts_dir]
            } else {
                seq![VIBRANIUM_PROJECT_DIRECTORY@, DEFAULT_ARTIFACTS_DIRECTORY@]
            },
            outcome: Ok(()),
        }),
        forall|i: int|
            0 <= i < reset(true, ConfigFileState::Contents(text)).removals.len() ==> removable_artifacts_dir(
                #[trigger] reset(true, ConfigFileState::Contents(text)).removals[i],
            ),
        generation(true, ConfigFileState::Contents(text)) == Ok::<_, GenerationIssue>(
            GenerationPlanModel { config_text: None, directories: skeleton(c.artifacts_dir) },
        ),
{
    lemma_fixed_removals_spare_project();
    let removals = reset(true, ConfigFileState::Contents(text)).removals;
    if removable_artifacts_dir(c.artifacts_dir) {
        assert(removals =~= seq![VIBRANIUM_PROJECT_DIRECTORY@, DEFAULT_ARTIFACTS_DIRECTORY@, c.artifacts_dir]);
    } else {
        assert(removals =~= seq![VIBRANIUM_PROJECT_DIRECTORY@, DEFAULT_ARTIFACTS_DIRECTORY@]);
    }
}

} // verus!
