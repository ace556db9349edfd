//! Typed schema of an extract-transform-load job description, with the
//! decoder that turns a YAML document into it and the semantic rules that a
//! decoded job has to meet.

pub mod schema;
pub mod document;
pub mod source_map;
pub mod fields;
pub mod decode;
pub mod job;
pub mod laws;

pub use document::YamlNode;
pub use job::{config_from_tree, parse_det_config, validate};
pub use schema::{
    ConfigError, DestinationConnector, DetConfig, Engine, Extract, FileFormat,
    FilesystemDestination, FilesystemSource, Load, PostgresDestination, SourceConnector,
    Transform, WriteMode,
};
