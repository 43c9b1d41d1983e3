use vstd::prelude::*;

use crate::toml_format::{
    as_read, count_nesting_marks, entries_view, nesting_marks, option_text_view, parse_table,
    MAX_NESTING_MARKS, render_table, toml_table_of, toml_text_of, TomlItem,
    TomlItemModel, TomlValue, TomlValueModel,
};

verus! {

/// Key under which the artifacts directory is persisted.
pub const ARTIFACTS_DIR_KEY: &'static str = "artifacts_dir";

/// Key under which the contract source globs are persisted.
pub const SMART_CONTRACT_SOURCES_KEY: &'static str = "smart_contract_sources";

/// The persisted settings of a project.
#[derive(Debug, Clone, PartialEq, Eq)]
pub struct ProjectConfig {
    pub artifacts_dir: String,
    pub smart_contract_sources: Vec<String>,
}

pub struct ProjectConfigModel {
    pub artifacts_dir: Seq<char>,
    pub smart_contract_sources: Seq<Seq<char>>,
}

impl View for ProjectConfig {
    type V = ProjectConfigModel;

    open spec fn view(&self) -> ProjectConfigModel {
        ProjectConfigModel {
            artifacts_dir: self.artifacts_dir@,
            smart_contract_sources: self.smart_contract_sources@.map_values(|s: String| s@),
        }
    }
}

/// Why a persisted config could not be read as a `ProjectConfig`.
#[derive(Debug)]
pub enum ConfigFormatError {
    /// The text is not a TOML document.
    Syntax(toml::de::Error),
    /// The text holds more nesting marks than the parser is given.
    TooManyNestingMarks,
    /// A required key is absent; holds the key.
    MissingField(String),
    /// A required key holds a value of the wrong shape; holds the key.
    InvalidField(String),
}

pub enum ConfigIssue {
    Syntax,
    TooManyNestingMarks,
    MissingField(Seq<char>),
    InvalidField(Seq<char>),
}

impl View for ConfigFormatError {
    type V = ConfigIssue;

    open spec fn view(&self) -> ConfigIssue {
        match self {
            ConfigFormatError::Syntax(_) => ConfigIssue::Syntax,
            ConfigFormatError::TooManyNestingMarks => ConfigIssue::TooManyNestingMarks,
            ConfigFormatError::MissingField(k) => ConfigIssue::MissingField(k@),
            ConfigFormatError::InvalidField(k) => ConfigIssue::InvalidField(k@),
        }
    }
}

/// The table that persists a config: its artifacts directory, then its sources.
pub open spec fn config_table(c: ProjectConfigModel) -> Seq<(Seq<char>, TomlValueModel)> {
    seq![
        (ARTIFACTS_DIR_KEY@, TomlValueModel::Text(c.artifacts_dir)),
        (SMART_CONTRACT_SOURCES_KEY@, TomlValueModel::TextList(c.smart_contract_sources)),
    ]
}

/// The value under the first entry of `table` whose key is `key`.
pub open spec fn lookup(table: Seq<(Seq<char>, TomlItemModel)>, key: Seq<char>) -> Option<TomlItemModel>
    decreases table.len(),
{
    if table.len() == 0 {
        None
    } else if table[0].0 == key {
        Some(table[0].1)
    } else {
        lookup(table.drop_first(), key)
    }
}

pub open spec fn is_separator(c: char) -> bool {
    c == '/' || c == '\\'
}

/// Whether a path component that is `.` or `..` starts at position `i` of `d`.
pub open spec fn dot_component_at(d: Seq<char>, i: int) -> bool {
    &&& 0 <= i < d.len()
    &&& i == 0 || is_separator(d[i - 1])
    &&& d[i] == '.'
    &&& i + 1 == d.len() || is_separator(d[i + 1]) || (d[i + 1] == '.' && (i + 2 == d.len()
        || is_separator(d[i + 2])))
}

/// A directory path that stays below the project root: not empty, not
/// starting with a separator, without a drive colon and without a `.` or `..`
/// component.
pub open spec fn is_relative_dir(d: Seq<char>) -> bool {
    &&& d.len() > 0
    &&& !is_separator(d[0])
    &&& forall|i: int| 0 <= i < d.len() ==> #[trigger] d[i] != ':' && !dot_component_at(d, i)
}

pub(crate) fn is_separator_char(c: char) -> (r: bool)
    ensures
        r == is_separator(c),
{
    c == '/' || c == '\\'
}

/// Whether a directory path stays below the project root.
pub fn is_relative_dir_name(d: &str) -> (r: bool)
    ensures
        r == is_relative_dir(d@),
{
    let n = d.unicode_len();
    if n == 0 {
        return false;
    }
    if is_separator_char(d.get_char(0)) {
        return false;
    }
    let mut i: usize = 0;
    while i < n
        invariant
            n == d@.len(),
            n > 0,
            !is_separator(d@[0]),
            0 <= i <= n,
            forall|j: int| 0 <= j < i ==> #[trigger] d@[j] != ':' && !dot_component_at(d@, j),
        decreases n - i,
    {
        let c = d.get_char(i);
        if c == ':' {
            return false;
        }
        if c == '.' && (i == 0 || is_separator_char(d.get_char(i - 1))) {
            if i + 1 == n || is_separator_char(d.get_char(i + 1)) {
                assert(dot_component_at(d@, i as int));
                return false;
            }
            if d.get_char(i + 1) == '.' && (i + 2 == n || is_separator_char(d.get_char(i + 2))) {
                assert(dot_component_at(d@, i as int));
                return false;
            }
        }
        assert(!dot_component_at(d@, i as int));
        i = i + 1;
    }
    true
}

/// An array all of whose elements are strings.
pub open spec fn all_text(l: Seq<Option<Seq<char>>>) -> bool {
    forall|i: int| 0 <= i < l.len() ==> (#[trigger] l[i]) is Some
}

/// The config that a table of top-level entries describes. Keys other than the
/// two that a config has are ignored.
pub open spec fn config_from_table(table: Seq<(Seq<char>, TomlItemModel)>) -> Result<ProjectConfigModel, ConfigIssue> {
    match lookup(table, ARTIFACTS_DIR_KEY@) {
        None => Err(ConfigIssue::MissingField(ARTIFACTS_DIR_KEY@)),
        Some(TomlItemModel::Text(dir)) => match lookup(table, SMART_CONTRACT_SOURCES_KEY@) {
            None => Err(ConfigIssue::MissingField(SMART_CONTRACT_SOURCES_KEY@)),
            Some(TomlItemModel::List(l)) => if all_text(l) {
                Ok(ProjectConfigModel {
                    artifacts_dir: dir,
                    smart_contract_sources: l.map_values(|o: Option<Seq<char>>| o->Some_0),
                })
            } else {
                Err(ConfigIssue::InvalidField(SMART_CONTRACT_SOURCES_KEY@))
            },
            Some(_) => Err(ConfigIssue::InvalidField(SMART_CONTRACT_SOURCES_KEY@)),
        },
        Some(_) => Err(ConfigIssue::InvalidField(ARTIFACTS_DIR_KEY@)),
    }
}

/// The config that a persisted text describes. A text with more opening
/// marks than the parser is given is refused before parsing.
pub open spec fn config_from_text(text: Seq<char>) -> Result<ProjectConfigModel, ConfigIssue> {
    if nesting_marks(text) > MAX_NESTING_MARKS {
        Err(ConfigIssue::TooManyNestingMarks)
    } else {
        match toml_table_of(text) {
            None => Err(ConfigIssue::Syntax),
            Some(table) => config_from_table(table),
        }
    }
}

/// The persisted text of a config.
pub open spec fn config_text(c: ProjectConfigModel) -> Seq<char> {
    toml_text_of(config_table(c))
}

proof fn lemma_lookup_skip(table: Seq<(Seq<char>, TomlItemModel)>, key: Seq<char>, i: int)
    requires
        0 <= i < table.len(),
        table[i].0 != key,
    ensures
        lookup(table.skip(i), key) == lookup(table.skip(i + 1), key),
{
    assert(table.skip(i).drop_first() =~= table.skip(i + 1));
}

/// Finds the value stored under `key`, the first such entry where there are several.
pub fn find_entry<'a>(entries: &'a Vec<(String, TomlItem)>, key: &str) -> (r: Option<&'a TomlItem>)
    ensures
        match r {
            Some(v) => lookup(entries_view(entries@), key@) == Some(v@),
            None => lookup(entries_view(entries@), key@) is None,
        },
{
    let ghost table = entries_view(entries@);
    let wanted = key.to_owned();
    let mut i: usize = 0;
    assert(table.skip(0) =~= table);
    while i < entries.len()
        invariant
            0 <= i <= entries.len(),
            table == entries_view(entries@),
            wanted@ == key@,
            lookup(table, key@) == lookup(table.skip(i as int), key@),
        decreases entries.len() - i,
    {
        let entry = &entries[i];
        if entry.0 == wanted {
            assert(table.skip(i as int)[0] == table[i as int]);
            return Some(&entry.1);
        }
        proof {
            lemma_lookup_skip(table, key@, i as int);
        }
        i = i + 1;
    }
    assert(table.skip(i as int).len() == 0);
    None
}

impl ProjectConfig {
    /// The table that persists this config.
    pub fn to_toml_entries(&self) -> (r: Vec<(String, TomlValue)>)
        ensures
            entries_view(r@) == config_table(self@),
    {
        let mut r: Vec<(String, TomlValue)> = Vec::new();
        r.push((ARTIFACTS_DIR_KEY.to_string(), TomlValue::Text(self.artifacts_dir.clone())));
        r.push((SMART_CONTRACT_SOURCES_KEY.to_string(), TomlValue::TextList(self.smart_contract_sources.clone())));
        assert(entries_view(r@) =~= config_table(self@));
        r
    }
}

/// The strings of an array, or `None` where one of its elements is not a string.
pub fn text_elements(list: &Vec<Option<String>>) -> (r: Option<Vec<String>>)
    ensures
        match r {
            Some(v) => all_text(list@.map_values(|o: Option<String>| option_text_view(o)))
                && v@.map_values(|s: String| s@)
                    == list@.map_values(|o: Option<String>| option_text_view(o)).map_values(|o: Option<Seq<char>>| o->Some_0),
            None => !all_text(list@.map_values(|o: Option<String>| option_text_view(o))),
        },
{
    let ghost model = list@.map_values(|o: Option<String>| option_text_view(o));
    let mut out: Vec<String> = Vec::new();
    let mut i: usize = 0;
    while i < list.len()
        invariant
            0 <= i <= list.len(),
            model == list@.map_values(|o: Option<String>| option_text_view(o)),
            forall|j: int| 0 <= j < i ==> (#[trigger] model[j]) is Some,
            out@.map_values(|s: String| s@) =~= model.take(i as int).map_values(|o: Option<Seq<char>>| o->Some_0),
        decreases list.len() - i,
    {
        match &list[i] {
            Some(s) => {
                let ghost prev = out@;
                out.push(s.clone());
                assert(out@ =~= prev.push(*s));
                assert(model[i as int] == Some(s@));
                assert(model.take(i + 1) =~= model.take(i as int).push(model[i as int]));
                assert(out@.map_values(|s: String| s@) =~= prev.map_values(|s: String| s@).push(s@));
            },
            None => {
                assert(model[i as int] is None);
                return None;
            },
        }
        i = i + 1;
    }
    assert(model.take(i as int) =~= model);
    Some(out)
}

impl ProjectConfig {
    /// The config that a table of top-level entries describes; other keys are
    /// ignored.
    pub fn from_toml_entries(entries: &Vec<(String, TomlItem)>) -> (r: Result<ProjectConfig, ConfigFormatError>)
        ensures
            match r {
                Ok(c) => config_from_table(entries_view(entries@)) == Ok::<_, ConfigIssue>(c@),
                Err(e) => config_from_table(entries_view(entries@)) == Err::<ProjectConfigModel, _>(e@),
            },
    {
        let artifacts_dir = match find_entry(entries, ARTIFACTS_DIR_KEY) {
            None => return Err(ConfigFormatError::MissingField(ARTIFACTS_DIR_KEY.to_owned())),
            Some(TomlItem::Text(dir)) => dir.clone(),
            Some(_) => return Err(ConfigFormatError::InvalidField(ARTIFACTS_DIR_KEY.to_owned())),
        };
        let smart_contract_sources = match find_entry(entries, SMART_CONTRACT_SOURCES_KEY) {
            None => return Err(ConfigFormatError::MissingField(SMART_CONTRACT_SOURCES_KEY.to_owned())),
            Some(TomlItem::List(list)) => match text_elements(list) {
                Some(v) => v,
                None => return Err(ConfigFormatError::InvalidField(SMART_CONTRACT_SOURCES_KEY.to_owned())),
            },
            Some(_) => return Err(ConfigFormatError::InvalidField(SMART_CONTRACT_SOURCES_KEY.to_owned())),
        };
        Ok(ProjectConfig { artifacts_dir, smart_contract_sources })
    }

    /// Reads a config from its persisted text.
    pub fn from_toml(text: &str) -> (r: Result<ProjectConfig, ConfigFormatError>)
        ensures
            match r {
                Ok(c) => config_from_text(text@) == Ok::<_, ConfigIssue>(c@),
                Err(e) => config_from_text(text@) == Err::<ProjectConfigModel, _>(e@),
            },
    {
        if count_nesting_marks(text) > MAX_NESTING_MARKS {
            return Err(ConfigFormatError::TooManyNestingMarks);
        }
        match parse_table(text) {
            Ok(entries) => ProjectConfig::from_toml_entries(&entries),
            Err(e) => Err(ConfigFormatError::Syntax(e)),
        }
    }

    /// The persisted text of this config.
    pub fn to_toml(&self) -> (r: Result<String, toml::ser::Error>)
        ensures
            r is Ok,
            r is Ok ==> r->Ok_0@ == config_text(self@),
    {
        let entries = self.to_toml_entries();
        render_table(&entries)
    }
}

/// Decoding the table that persists a config gives that config back, whenever
/// the table reads back as it was written.
pub proof fn lemma_config_table_round_trip(c: ProjectConfigModel)
    ensures
        config_from_table(config_table(c).map_values(|e: (Seq<char>, TomlValueModel)| (e.0, as_read(e.1))))
            == Ok::<_, ConfigIssue>(c),
{
    let table = config_table(c).map_values(|e: (Seq<char>, TomlValueModel)| (e.0, as_read(e.1)));
    reveal_strlit("artifacts_dir");
    reveal_strlit("smart_contract_sources");
    assert(table[0].0 == ARTIFACTS_DIR_KEY@);
    assert(table[0].0 != SMART_CONTRACT_SOURCES_KEY@);
    assert(table.drop_first()[0].0 == SMART_CONTRACT_SOURCES_KEY@);
    assert(lookup(table, ARTIFACTS_DIR_KEY@) == Some(TomlItemModel::Text(c.artifacts_dir)));
    let l = c.smart_contract_sources.map_values(|s: Seq<char>| Some(s));
    assert(table[1].1 == TomlItemModel::List(l));
    assert(lookup(table.drop_first(), SMART_CONTRACT_SOURCES_KEY@) == Some(TomlItemModel::List(l)));
    assert(lookup(table, SMART_CONTRACT_SOURCES_KEY@) == Some(TomlItemModel::List(l)));
    assert(all_text(l));
    assert(l.map_values(|o: Option<Seq<char>>| o->Some_0) =~= c.smart_contract_sources);
}

} // verus!
