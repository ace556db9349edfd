//! The sections of a job description and the job as a whole: their shape,
//! the rules that a decoded job has to meet, and the entry point that reads
//! a job from YAML text.

use vstd::prelude::*;
use vstd::string::StringExecFns;
use crate::decode::{
    decode_destinations, decode_engine, decode_paths, decode_sources, destinations_of, engine_of,
    paths_of, sources_of,
};
use crate::document::{
    diagnostic, lemma_mapping_view, node_of, read_value, yaml_tree, NodeModel, YamlNode,
};
use crate::fields::{field, get_field, get_text, is_strict, names_model, strict, text_field};
use crate::schema::{
    destination_models, texts, ConfigError, ConfigModel, DestinationModel, DetConfig, Engine,
    Extract, Failure, Load, SourceModel, Transform,
};
use crate::source_map::{source_entries, sources_is_empty};

verus! {

/* ------------------------------ sections ------------------------------ */

pub open spec fn extract_fields() -> Seq<Seq<char>> {
    seq!["sources"@]
}

pub open spec fn transform_fields() -> Seq<Seq<char>> {
    seq!["engine"@, "sql_paths"@]
}

pub open spec fn load_fields() -> Seq<Seq<char>> {
    seq!["destinations"@]
}

pub open spec fn job_fields() -> Seq<Seq<char>> {
    seq!["name"@, "profile"@, "extract"@, "transform"@, "load"@]
}

/// The extract section: a mapping with the one field `sources`.
pub open spec fn extract_of(n: NodeModel) -> Option<Seq<(Seq<char>, SourceModel)>> {
    match n.entries() {
        Some(m) => if strict(m, extract_fields()) {
            match field(m, "sources"@) {
                Some(s) => sources_of(s),
                None => None,
            }
        } else {
            None
        },
        None => None,
    }
}

/// The transform section: a mapping with the fields `engine` and
/// `sql_paths`.
pub open spec fn transform_of(n: NodeModel) -> Option<(Engine, Seq<Seq<char>>)> {
    match n.entries() {
        Some(m) => if strict(m, transform_fields()) {
            match (field(m, "engine"@), field(m, "sql_paths"@)) {
                (Some(e), Some(p)) => match (engine_of(e), paths_of(p)) {
                    (Some(engine), Some(paths)) => Some((engine, paths)),
                    _ => None,
                },
                _ => None,
            }
        } else {
            None
        },
        None => None,
    }
}

/// The load section: a mapping with the one field `destinations`.
pub open spec fn load_of(n: NodeModel) -> Option<Seq<DestinationModel>> {
    match n.entries() {
        Some(m) => if strict(m, load_fields()) {
            match field(m, "destinations"@) {
                Some(d) => destinations_of(d),
                None => None,
            }
        } else {
            None
        },
        None => None,
    }
}

/// The job that a document describes: a mapping with exactly the five
/// fields of a job, each of its own shape. `None` where the document has
/// another shape.
pub open spec fn config_of(n: NodeModel) -> Option<ConfigModel> {
    match n.entries() {
        Some(m) => if strict(m, job_fields()) {
            match (
                text_field(m, "name"@),
                text_field(m, "profile"@),
                field(m, "extract"@),
                field(m, "transform"@),
                field(m, "load"@),
            ) {
                (Some(name), Some(profile), Some(e), Some(t), Some(l)) => match (
                    extract_of(e),
                    transform_of(t),
                    load_of(l),
                ) {
                    (Some(sources), Some(transform), Some(destinations)) => Some(
                        ConfigModel {
                            name,
                            profile,
                            sources,
                            engine: transform.0,
                            sql_paths: transform.1,
                            destinations,
                        },
                    ),
                    _ => None,
                },
                _ => None,
            }
        } else {
            None
        },
        None => None,
    }
}

pub fn decode_extract(node: &YamlNode) -> (r: Option<Extract>)
    ensures
        match r {
            Some(e) => extract_of(node@) == Some(source_entries(e.sources)),
            None => extract_of(node@) is None,
        },
{
    match node {
        YamlNode::Mapping(entries) => {
            proof {
                lemma_mapping_view(*entries);
            }
            let names = vec!["sources"];
            proof {
                assert(names_model(names@) =~= extract_fields());
            }
            if !is_strict(entries, &names) {
                return None;
            }
            match get_field(entries, "sources") {
                Some(s) => match decode_sources(s) {
                    Some(sources) => Some(Extract { sources }),
                    None => None,
                },
                None => None,
            }
        },
        _ => None,
    }
}

pub fn decode_transform(node: &YamlNode) -> (r: Option<Transform>)
    ensures
        match r {
            Some(t) => transform_of(node@) == Some((t.engine, texts(t.sql_paths@))),
            None => transform_of(node@) is None,
        },
{
    match node {
        YamlNode::Mapping(entries) => {
            proof {
                lemma_mapping_view(*entries);
            }
            let names = vec!["engine", "sql_paths"];
            proof {
                assert(names_model(names@) =~= transform_fields());
            }
            if !is_strict(entries, &names) {
                return None;
            }
            let e = match get_field(entries, "engine") {
                Some(e) => e,
                None => { return None; },
            };
            let p = match get_field(entries, "sql_paths") {
                Some(p) => p,
                None => { return None; },
            };
            let engine = match decode_engine(e) {
                Some(engine) => engine,
                None => { return None; },
            };
            match decode_paths(p) {
                Some(sql_paths) => Some(Transform { engine, sql_paths }),
                None => None,
            }
        },
        _ => None,
    }
}

pub fn decode_load(node: &YamlNode) -> (r: Option<Load>)
    ensures
        match r {
            Some(l) => load_of(node@) == Some(destination_models(l.destinations@)),
            None => load_of(node@) is None,
        },
{
    match node {
        YamlNode::Mapping(entries) => {
            proof {
                lemma_mapping_view(*entries);
            }
            let names = vec!["destinations"];
            proof {
                assert(names_model(names@) =~= load_fields());
            }
            if !is_strict(entries, &names) {
                return None;
            }
            match get_field(entries, "destinations") {
                Some(d) => match decode_destinations(d) {
                    Some(destinations) => Some(Load { destinations }),
                    None => None,
                },
                None => None,
            }
        },
        _ => None,
    }
}

/// Decodes a whole document against the shape of a job, without judging
/// what the job says.
pub fn decode_config(node: &YamlNode) -> (r: Option<DetConfig>)
    ensures
        match r {
            Some(c) => config_of(node@) == Some(c@),
            None => config_of(node@) is None,
        },
{
    match node {
        YamlNode::Mapping(entries) => {
            proof {
                lemma_mapping_view(*entries);
            }
            let names = vec!["name", "profile", "extract", "transform", "load"];
            proof {
                assert(names_model(names@) =~= job_fields());
            }
            if !is_strict(entries, &names) {
                return None;
            }
            let name = match get_text(entries, "name") {
                Some(t) => t,
                None => { return None; },
            };
            let profile = match get_text(entries, "profile") {
                Some(t) => t,
                None => { return None; },
            };
            let e = match get_field(entries, "extract") {
                Some(e) => e,
                None => { return None; },
            };
            let t = match get_field(entries, "transform") {
                Some(t) => t,
                None => { return None; },
            };
            let l = match get_field(entries, "load") {
                Some(l) => l,
                None => { return None; },
            };
            let extract = match decode_extract(e) {
                Some(x) => x,
                None => { return None; },
            };
            let transform = match decode_transform(t) {
                Some(x) => x,
                None => { return None; },
            };
            let load = match decode_load(l) {
                Some(x) => x,
                None => { return None; },
            };
            Some(DetConfig { name, profile, extract, transform, load })
        },
        _ => None,
    }
}

/* ------------------------------- rules -------------------------------- */

/// The first rule that a job breaks, in the fixed order engine, sources,
/// destinations; `None` for a job that keeps them all.
pub open spec fn broken_rule(c: ConfigModel) -> Option<Failure> {
    if c.engine != Engine::Datafusion {
        Some(Failure::UnsupportedEngine)
    } else if c.sources.len() == 0 {
        Some(Failure::NoSources)
    } else if c.destinations.len() == 0 {
        Some(Failure::NoDestinations)
    } else {
        None
    }
}

/// What becomes of a document, given the tree that the YAML reader made of
/// it (`None` where the reader turned the text down).
pub open spec fn outcome_of(tree: Option<NodeModel>) -> Result<ConfigModel, Failure> {
    match tree {
        None => Err(Failure::Malformed),
        Some(n) => match config_of(n) {
            None => Err(Failure::Malformed),
            Some(c) => match broken_rule(c) {
                Some(failure) => Err(failure),
                None => Ok(c),
            },
        },
    }
}

/// A result of parsing as a mathematical value: the job's model, or the
/// classification of the error.
pub open spec fn outcome_model(r: Result<DetConfig, ConfigError>) -> Result<ConfigModel, Failure> {
    match r {
        Ok(c) => Ok(c@),
        Err(e) => Err(e.kind()),
    }
}

/// Holds a decoded job to the rules; the first broken rule is the error.
pub fn validate(cfg: &DetConfig) -> (r: Result<(), ConfigError>)
    ensures
        match r {
            Ok(_) => broken_rule(cfg@) is None,
            Err(e) => broken_rule(cfg@) == Some(e.kind()),
        },
{
    if cfg.transform.engine != Engine::Datafusion {
        return Err(ConfigError::EngineUnsupported);
    }
    if sources_is_empty(&cfg.extract.sources) {
        return Err(ConfigError::NoSources);
    }
    if cfg.load.destinations.is_empty() {
        return Err(ConfigError::NoDestinations);
    }
    Ok(())
}

/// What is said of a document that is YAML but has not the shape of a job.
pub open spec fn shape_diagnostic() -> Seq<char> {
    "document does not match the job schema"@
}

/// Decodes and validates a document that the YAML reader has already turned
/// into a tree.
pub fn config_from_tree(node: &YamlNode) -> (r: Result<DetConfig, ConfigError>)
    ensures
        outcome_model(r) == outcome_of(Some(node@)),
        r matches Err(ConfigError::Yaml(d)) ==> d@ == shape_diagnostic(),
{
    match decode_config(node) {
        None => Err(ConfigError::Yaml(String::from_str("document does not match the job schema"))),
        Some(cfg) => match validate(&cfg) {
            Ok(_) => Ok(cfg),
            Err(e) => Err(e),
        },
    }
}

/// Reads a job description from YAML text: the validated job, or the one
/// error that stopped it.
pub fn parse_det_config(yaml: &str) -> (r: Result<DetConfig, ConfigError>)
    ensures
        outcome_model(r) == outcome_of(yaml_tree(yaml@)),
{
    match read_value(yaml) {
        Err(e) => Err(ConfigError::Yaml(diagnostic(&e))),
        Ok(value) => {
            let node = node_of(&value);
            config_from_tree(&node)
        },
    }
}

} // verus!
