//! The build target that a project is configured for.

use vstd::prelude::*;
use vstd::string::*;

verus! {

/// The `build` table of the configuration.
#[derive(Clone, Debug)]
pub struct CargoConfigBuild {
    pub target: Option<String>,
}

/// The build configuration of a project.
#[derive(Clone, Debug)]
pub struct CargoConfig {
    pub build: Option<CargoConfigBuild>,
}

/// What came of reading the configuration file of a project.
#[derive(Clone, Debug)]
pub enum ConfigRead {
    /// There is no such file.
    Absent,
    /// The parser rejected the file, with these words.
    Malformed { detail: String },
    /// The parser read the file.
    Parsed { config: CargoConfig },
}

/// Why a command failed.
#[derive(Clone, Debug)]
pub enum PrintError {
    /// There is no configuration file under the project root.
    ConfigNotFound { root: String },
    /// The configuration file is not well-formed.
    ConfigParseError { detail: String },
    /// The configuration names no build target.
    MissingTargetField,
}

/// The kinds of failure.
#[derive(Clone, Copy, Debug, PartialEq, Eq, Structural)]
pub enum ErrorKind {
    ConfigNotFound,
    ConfigParseError,
    MissingTargetField,
}

/// The path of the configuration file below the project root.
pub open spec fn spec_config_path() -> Seq<char> {
    ".cargo/config"@
}

/// The path of the configuration file below the project root.
pub fn config_path() -> (path: &'static str)
    ensures
        path@ == spec_config_path(),
{
    ".cargo/config"
}

impl View for CargoConfig {
    /// Outside: whether there is a `build` table; inside: its target.
    type V = Option<Option<Seq<char>>>;

    open spec fn view(&self) -> Option<Option<Seq<char>>> {
        match self.build {
            None => None,
            Some(build) => Some(
                match build.target {
                    None => None,
                    Some(target) => Some(target@),
                },
            ),
        }
    }
}

/// What came of reading the configuration file, as contracts speak of it.
pub enum ConfigReadView {
    Absent,
    Malformed { detail: Seq<char> },
    Parsed { config: Option<Option<Seq<char>>> },
}

impl View for ConfigRead {
    type V = ConfigReadView;

    open spec fn view(&self) -> ConfigReadView {
        match self {
            ConfigRead::Absent => ConfigReadView::Absent,
            ConfigRead::Malformed { detail } => ConfigReadView::Malformed { detail: detail@ },
            ConfigRead::Parsed { config } => ConfigReadView::Parsed { config: config@ },
        }
    }
}

/// A failure as contracts speak of it.
pub enum PrintErrorView {
    ConfigNotFound { root: Seq<char> },
    ConfigParseError { detail: Seq<char> },
    MissingTargetField,
}

impl View for PrintError {
    type V = PrintErrorView;

    open spec fn view(&self) -> PrintErrorView {
        match self {
            PrintError::ConfigNotFound { root } => PrintErrorView::ConfigNotFound { root: root@ },
            PrintError::ConfigParseError { detail } => PrintErrorView::ConfigParseError {
                detail: detail@,
            },
            PrintError::MissingTargetField => PrintErrorView::MissingTargetField,
        }
    }
}

impl PrintError {
    /// The kind of the failure.
    pub open spec fn spec_kind(&self) -> ErrorKind {
        match self {
            PrintError::ConfigNotFound { .. } => ErrorKind::ConfigNotFound,
            PrintError::ConfigParseError { .. } => ErrorKind::ConfigParseError,
            PrintError::MissingTargetField => ErrorKind::MissingTargetField,
        }
    }

    /// The kind of the failure.
    pub fn kind(&self) -> (kind: ErrorKind)
        ensures
            kind == self.spec_kind(),
    {
        match self {
            PrintError::ConfigNotFound { .. } => ErrorKind::ConfigNotFound,
            PrintError::ConfigParseError { .. } => ErrorKind::ConfigParseError,
            PrintError::MissingTargetField => ErrorKind::MissingTargetField,
        }
    }

    /// What the user is told: for a missing file the path that was tried and
    /// the project root, for a malformed file the parser's words, for a
    /// missing target the field that was expected.
    pub open spec fn spec_message(&self) -> Seq<char> {
        match self {
            PrintError::ConfigNotFound { root } => "`"@ + spec_config_path() + "` not exists in `"@
                + root@,
            PrintError::ConfigParseError { detail } => detail@,
            PrintError::MissingTargetField => "No [build.target] configuration in "@
                + spec_config_path(),
        }
    }

    /// What the user is told.
    pub fn message(&self) -> (text: String)
        ensures
            text@ == self.spec_message(),
    {
        match self {
            PrintError::ConfigNotFound { root } => {
                let mut text = String::from_str("`");
                text.append(config_path());
                text.append("` not exists in `");
                text.append(root.as_str());
                text
            },
            PrintError::ConfigParseError { detail } => detail.clone(),
            PrintError::MissingTargetField => {
                let mut text = String::from_str("No [build.target] configuration in ");
                text.append(config_path());
                text
            },
        }
    }
}

/// The target that a configuration names, if it names one.
pub open spec fn spec_target(config: Option<Option<Seq<char>>>) -> Option<Seq<char>> {
    match config {
        Some(Some(target)) => Some(target),
        _ => None,
    }
}

/// What the target command gives for a project root and what came of
/// reading its configuration file: the target where the file was read and
/// names one, else the failure, which holds the root where there is no file
/// and the parser's words where the parser rejected it.
pub open spec fn spec_target_of(root: Seq<char>, read: ConfigReadView) -> Result<
    Seq<char>,
    PrintErrorView,
> {
    match read {
        ConfigReadView::Absent => Err(PrintErrorView::ConfigNotFound { root }),
        ConfigReadView::Malformed { detail } => Err(PrintErrorView::ConfigParseError { detail }),
        ConfigReadView::Parsed { config } => match spec_target(config) {
            None => Err(PrintErrorView::MissingTargetField),
            Some(target) => Ok(target),
        },
    }
}

/// The build target of a configuration, unchanged: whatever string stands
/// under `build.target`. Fails with `MissingTargetField` exactly where there
/// is no `build` table or no `target` in it.
pub fn resolve_target(config: &CargoConfig) -> (resolved: Result<String, PrintError>)
    ensures
        match spec_target(config@) {
            Some(target) => resolved matches Ok(triple) && triple@ == target,
            None => resolved == Err::<String, PrintError>(PrintError::MissingTargetField),
        },
{
    match &config.build {
        Some(build) => match &build.target {
            Some(target) => Ok(target.clone()),
            None => Err(PrintError::MissingTargetField),
        },
        None => Err(PrintError::MissingTargetField),
    }
}

/// The configured build target of a project, given its root and what came
/// of reading its configuration file. Succeeds exactly where the file was
/// read and holds a string under `build.target`, and gives that string
/// unchanged. Fails with `ConfigNotFound`, which carries the project root,
/// exactly where there is no file; with `ConfigParseError`, which carries
/// the parser's words unchanged, exactly where the parser rejected the file;
/// with `MissingTargetField` exactly where the file names no target.
pub fn target(root: &str, read: ConfigRead) -> (resolved: Result<String, PrintError>)
    ensures
        match spec_target_of(root@, read@) {
            Ok(target) => resolved matches Ok(triple) && triple@ == target,
            Err(expected) => resolved matches Err(error) && error@ == expected,
        },
{
    match read {
        ConfigRead::Absent => Err(PrintError::ConfigNotFound { root: String::from_str(root) }),
        ConfigRead::Malformed { detail } => Err(PrintError::ConfigParseError { detail }),
        ConfigRead::Parsed { config } => resolve_target(&config),
    }
}

/// The target command succeeds exactly where the file was read and names a
/// target, and then gives that target; every other field of the file has no
/// bearing on the outcome.
pub proof fn lemma_target_success(root: Seq<char>, read: ConfigReadView)
    ensures
        spec_target_of(root, read) is Ok <==> (read matches ConfigReadView::Parsed { config }
            && config matches Some(Some(_))),
        read matches ConfigReadView::Parsed { config: Some(Some(triple)) } ==> spec_target_of(
            root,
            read,
        ) == Ok::<Seq<char>, PrintErrorView>(triple),
{
}

} // verus!
