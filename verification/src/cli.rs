//! The decisions the command line makes: which subcommand a name selects,
//! and where the configuration comes from.
use vstd::prelude::*;

verus! {

/// The subcommands of the tool.
#[derive(Clone, Copy, Debug, PartialEq, Eq, Structural)]
pub enum Cmd {
    ListDevices,
    Version,
}

/// The name a subcommand is invoked by.
pub open spec fn cmd_name(c: Cmd) -> Seq<char> {
    match c {
        Cmd::ListDevices => "list-devices"@,
        Cmd::Version => "version"@,
    }
}

/// The subcommand invoked by `name`, if any.
pub open spec fn cmd_named(name: Seq<char>) -> Option<Cmd> {
    if name == "list-devices"@ {
        Some(Cmd::ListDevices)
    } else if name == "version"@ {
        Some(Cmd::Version)
    } else {
        None
    }
}

/// Whether two strings hold the same characters.
fn same_text(a: &str, b: &str) -> (same: bool)
    ensures
        same == (a@ == b@),
{
    a.to_owned() == b.to_owned()
}

impl Cmd {
    /// The name this subcommand is invoked by.
    pub fn as_str(&self) -> (name: &'static str)
        ensures
            name@ == cmd_name(*self),
    {
        match self {
            Cmd::ListDevices => "list-devices",
            Cmd::Version => "version",
        }
    }

    /// The subcommand invoked by `name`, or `None` when no subcommand has that name.
    pub fn from_name(name: &str) -> (c: Option<Cmd>)
        ensures
            c == cmd_named(name@),
    {
        if same_text(name, "list-devices") {
            Some(Cmd::ListDevices)
        } else if same_text(name, "version") {
            Some(Cmd::Version)
        } else {
            None
        }
    }
}

/// Each subcommand is found again by its own name.
pub proof fn lemma_cmd_name_round_trip(c: Cmd)
    ensures
        cmd_named(cmd_name(c)) == Some(c),
{
    reveal_strlit("list-devices");
    reveal_strlit("version");
    assert("list-devices"@.len() != "version"@.len());
}

/// A name selects a subcommand only if it is that subcommand's name.
pub proof fn lemma_cmd_named_is_name(name: Seq<char>, c: Cmd)
    requires
        cmd_named(name) == Some(c),
    ensures
        cmd_name(c) == name,
{
    reveal_strlit("list-devices");
    reveal_strlit("version");
    assert("list-devices"@.len() != "version"@.len());
}

/// Where the configuration-file setting got its value.
#[derive(Clone, Copy, Debug, PartialEq, Eq, Structural)]
pub enum ValueSourceKind {
    /// The setting's default value was used.
    DefaultValue,
    /// The value came from an environment variable.
    EnvVariable,
    /// The value was given on the command line.
    CommandLine,
    /// Any other source.
    Other,
}

/// What the configuration-file setting holds.
#[derive(Clone, Copy, Debug, PartialEq, Eq, Structural)]
pub enum ConfigPath {
    /// No path at all.
    Missing,
    /// A path with no components (the empty path).
    Empty,
    /// A path with at least one component.
    Given,
}

/// Why the configuration could not be located.
#[derive(Clone, Copy, Debug, PartialEq, Eq, Structural)]
pub enum ConfigLoadError {
    /// The setting came from its default, yet held no path.
    InternalErrorMissingDefault,
    /// The setting came from a source this tool does not know.
    InternalErrorUnknownValueSource,
    /// The setting had no source.
    InternalErrorNoValueSource,
    /// The setting came from the environment, which is not supported.
    InternalErrorEnvUnsupported,
}

/// The next step in loading the configuration.
#[derive(Clone, Copy, Debug, PartialEq, Eq, Structural)]
pub enum ConfigStep {
    /// Use the default configuration.
    UseDefault,
    /// Open the file at the configured path.
    OpenFile,
}

/// Decides how to load the configuration from where the configuration-file
/// setting came from and what it holds.
///
/// A path given on the command line is opened, even an empty one; without a
/// path the default configuration is used. A default path is opened when it
/// has components, and the default configuration is used when it is empty.
/// An environment source, an unknown source or no source is an error, and so
/// is a default source without a path.
pub fn plan_config_load(source: Option<ValueSourceKind>, path: ConfigPath) -> (r: Result<
    ConfigStep,
    ConfigLoadError,
>)
    ensures
        source is None ==> r == Err::<ConfigStep, ConfigLoadError>(
            ConfigLoadError::InternalErrorNoValueSource,
        ),
        source == Some(ValueSourceKind::EnvVariable) ==> r == Err::<ConfigStep, ConfigLoadError>(
            ConfigLoadError::InternalErrorEnvUnsupported,
        ),
        source == Some(ValueSourceKind::Other) ==> r == Err::<ConfigStep, ConfigLoadError>(
            ConfigLoadError::InternalErrorUnknownValueSource,
        ),
        source == Some(ValueSourceKind::CommandLine) ==> r == Ok::<ConfigStep, ConfigLoadError>(
            if path == ConfigPath::Missing {
                ConfigStep::UseDefault
            } else {
                ConfigStep::OpenFile
            },
        ),
        source == Some(ValueSourceKind::DefaultValue) ==> r == match path {
            ConfigPath::Missing => Err::<ConfigStep, ConfigLoadError>(
                ConfigLoadError::InternalErrorMissingDefault,
            ),
            ConfigPath::Empty => Ok(ConfigStep::UseDefault),
            ConfigPath::Given => Ok(ConfigStep::OpenFile),
        },
{
    match source {
        Some(ValueSourceKind::CommandLine) => match path {
            ConfigPath::Missing => Ok(ConfigStep::UseDefault),
            _ => Ok(ConfigStep::OpenFile),
        },
        Some(ValueSourceKind::DefaultValue) => match path {
            ConfigPath::Missing => Err(ConfigLoadError::InternalErrorMissingDefault),
            ConfigPath::Empty => Ok(ConfigStep::UseDefault),
            ConfigPath::Given => Ok(ConfigStep::OpenFile),
        },
        Some(ValueSourceKind::EnvVariable) => Err(ConfigLoadError::InternalErrorEnvUnsupported),
        Some(ValueSourceKind::Other) => Err(ConfigLoadError::InternalErrorUnknownValueSource),
        None => Err(ConfigLoadError::InternalErrorNoValueSource),
    }
}

/// How opening the configuration file went.
#[derive(Clone, Copy, Debug, PartialEq, Eq, Structural)]
pub enum OpenOutcome {
    /// The file was opened.
    Opened,
    /// There is no file at the path.
    NotFound,
    /// The file exists but could not be opened (permissions, locking, ...).
    Failed,
}

/// What to do once the configuration file has been tried.
#[derive(Clone, Copy, Debug, PartialEq, Eq, Structural)]
pub enum ConfigResolution {
    /// Read the configuration from the opened file.
    ReadOpenedFile,
    /// Use the default configuration.
    UseDefault,
    /// Report the error that opening the file gave.
    ReportOpenError,
}

/// Decides what follows an attempt to open the configuration file: an opened
/// file is read, a missing file means the default configuration, and any
/// other failure is reported.
pub fn resolve_open(outcome: OpenOutcome) -> (r: ConfigResolution)
    ensures
        outcome == OpenOutcome::Opened <==> r == ConfigResolution::ReadOpenedFile,
        outcome == OpenOutcome::NotFound <==> r == ConfigResolution::UseDefault,
        outcome == OpenOutcome::Failed <==> r == ConfigResolution::ReportOpenError,
{
    match outcome {
        OpenOutcome::Opened => ConfigResolution::ReadOpenedFile,
        OpenOutcome::NotFound => ConfigResolution::UseDefault,
        OpenOutcome::Failed => ConfigResolution::ReportOpenError,
    }
}

} // verus!
