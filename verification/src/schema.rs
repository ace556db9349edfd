//! The closed set of value types that make up a job description, and the
//! mathematical model of each.

use vstd::prelude::*;
use indexmap::IndexMap;
use vstd::string::StringExecFns;
use crate::source_map::source_entries;

verus! {

/// The transformation runtime a job delegates to.
#[derive(Debug, Clone, Copy, PartialEq, Eq, Structural)]
pub enum Engine {
    Datafusion,
}

/// File encodings that a filesystem connector reads or writes.
#[derive(Debug, Clone, Copy, PartialEq, Eq, Structural)]
pub enum FileFormat {
    Parquet,
    Csv,
    Json,
}

/// How new rows meet the rows already present at a destination.
#[derive(Debug, Clone, Copy, PartialEq, Eq, Structural)]
pub enum WriteMode {
    InsertAppend,
    InsertOverwrite,
    Merge,
}

#[derive(Debug)]
pub struct FilesystemSource {
    pub format: FileFormat,
    pub path: String,
}

#[derive(Debug)]
pub enum SourceConnector {
    Filesystem(FilesystemSource),
}

#[derive(Debug)]
pub struct FilesystemDestination {
    pub name: String,
    pub base_dir: String,
    pub format: FileFormat,
}

#[derive(Debug)]
pub struct PostgresDestination {
    pub name: String,
    pub dsn: String,
    pub write_mode: Option<WriteMode>,
    pub schema: Option<String>,
}

#[derive(Debug)]
pub enum DestinationConnector {
    Filesystem(FilesystemDestination),
    Postgres(PostgresDestination),
}

/// Where data is read from: logical source names, in document order.
#[derive(Debug)]
pub struct Extract {
    pub sources: IndexMap<String, SourceConnector>,
}

#[derive(Debug)]
pub struct Transform {
    pub engine: Engine,
    pub sql_paths: Vec<String>,
}

#[derive(Debug)]
pub struct Load {
    pub destinations: Vec<DestinationConnector>,
}

#[derive(Debug)]
pub struct DetConfig {
    pub name: String,
    pub profile: String,
    pub extract: Extract,
    pub transform: Transform,
    pub load: Load,
}

/// Why a document was turned down.
#[derive(Debug)]
pub enum ConfigError {
    /// The text is not YAML, or does not have the shape of a job; the
    /// payload is a diagnostic for a human reader.
    Yaml(String),
    EngineUnsupported,
    NoDestinations,
    NoSources,
}

/// A source connector as a mathematical value.
pub enum SourceModel {
    Filesystem { format: FileFormat, path: Seq<char> },
}

/// A destination connector as a mathematical value.
pub enum DestinationModel {
    Filesystem { name: Seq<char>, base_dir: Seq<char>, format: FileFormat },
    Postgres {
        name: Seq<char>,
        dsn: Seq<char>,
        write_mode: Option<WriteMode>,
        schema: Option<Seq<char>>,
    },
}

/// A whole job as a mathematical value. `sources` keeps document order.
pub struct ConfigModel {
    pub name: Seq<char>,
    pub profile: Seq<char>,
    pub sources: Seq<(Seq<char>, SourceModel)>,
    pub engine: Engine,
    pub sql_paths: Seq<Seq<char>>,
    pub destinations: Seq<DestinationModel>,
}

/// The classification of a failure, without its diagnostic text.
pub enum Failure {
    Malformed,
    UnsupportedEngine,
    NoSources,
    NoDestinations,
}

pub open spec fn text_opt(s: Option<String>) -> Option<Seq<char>> {
    match s {
        Some(t) => Some(t@),
        None => None,
    }
}

pub open spec fn texts(v: Seq<String>) -> Seq<Seq<char>> {
    Seq::new(v.len(), |i: int| v[i]@)
}

pub open spec fn destination_models(v: Seq<DestinationConnector>) -> Seq<DestinationModel> {
    Seq::new(v.len(), |i: int| v[i]@)
}

impl View for SourceConnector {
    type V = SourceModel;

    open spec fn view(&self) -> SourceModel {
        match self {
            SourceConnector::Filesystem(f) => SourceModel::Filesystem {
                format: f.format,
                path: f.path@,
            },
        }
    }
}

impl View for DestinationConnector {
    type V = DestinationModel;

    open spec fn view(&self) -> DestinationModel {
        match self {
            DestinationConnector::Filesystem(f) => DestinationModel::Filesystem {
                name: f.name@,
                base_dir: f.base_dir@,
                format: f.format,
            },
            DestinationConnector::Postgres(p) => DestinationModel::Postgres {
                name: p.name@,
                dsn: p.dsn@,
                write_mode: p.write_mode,
                schema: text_opt(p.schema),
            },
        }
    }
}

impl View for DetConfig {
    type V = ConfigModel;

    open spec fn view(&self) -> ConfigModel {
        ConfigModel {
            name: self.name@,
            profile: self.profile@,
            sources: source_entries(self.extract.sources),
            engine: self.transform.engine,
            sql_paths: texts(self.transform.sql_paths@),
            destinations: destination_models(self.load.destinations@),
        }
    }
}

/// What an error says to a human reader.
pub open spec fn message_of(e: ConfigError) -> Seq<char> {
    match e {
        ConfigError::Yaml(d) => "yaml parse error: "@ + d@,
        ConfigError::EngineUnsupported => "invalid engine: only `datafusion` is supported"@,
        ConfigError::NoDestinations => "no destinations configured"@,
        ConfigError::NoSources => "no sources configured"@,
    }
}

impl ConfigError {
    /// The error in words.
    pub fn message(&self) -> (r: String)
        ensures
            r@ == message_of(*self),
    {
        match self {
            ConfigError::Yaml(d) => String::from_str("yaml parse error: ").concat(d.as_str()),
            ConfigError::EngineUnsupported => String::from_str(
                "invalid engine: only `datafusion` is supported",
            ),
            ConfigError::NoDestinations => String::from_str("no destinations configured"),
            ConfigError::NoSources => String::from_str("no sources configured"),
        }
    }

    /// The classification of this error.
    pub open spec fn kind(self) -> Failure {
        match self {
            ConfigError::Yaml(_) => Failure::Malformed,
            ConfigError::EngineUnsupported => Failure::UnsupportedEngine,
            ConfigError::NoSources => Failure::NoSources,
            ConfigError::NoDestinations => Failure::NoDestinations,
        }
    }
}

} // verus!
