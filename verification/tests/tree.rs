use det::decode::{
    decode_destination, decode_destinations, decode_engine, decode_format, decode_paths,
    decode_source, decode_sources, decode_write_mode,
};
use det::fields::{get_field, get_text, is_strict, same_text};
use det::{
    config_from_tree, validate, ConfigError, DestinationConnector, DetConfig, Engine, Extract,
    FileFormat, FilesystemDestination, FilesystemSource, Load, SourceConnector, Transform,
    WriteMode, YamlNode,
};
use indexmap::IndexMap;

fn text(s: &str) -> YamlNode {
    YamlNode::Text(s.to_string())
}

fn mapping(entries: Vec<(&str, YamlNode)>) -> YamlNode {
    YamlNode::Mapping(entries.into_iter().map(|(k, v)| (text(k), v)).collect())
}

fn source(path: &str) -> YamlNode {
    mapping(vec![("type", text("filesystem")), ("format", text("csv")), ("path", text(path))])
}

fn destination() -> YamlNode {
    mapping(vec![
        ("type", text("filesystem")),
        ("name", text("d")),
        ("base_dir", text("/o")),
        ("format", text("json")),
    ])
}

fn job(sources: YamlNode, destinations: YamlNode) -> YamlNode {
    mapping(vec![
        ("name", text("n")),
        ("profile", text("p")),
        ("extract", mapping(vec![("sources", sources)])),
        (
            "transform",
            mapping(vec![("engine", text("datafusion")), ("sql_paths", YamlNode::Sequence(vec![text("a.sql")]))]),
        ),
        ("load", mapping(vec![("destinations", destinations)])),
    ])
}

fn config(sources: Vec<&str>, destinations: usize) -> DetConfig {
    let mut map = IndexMap::new();
    for s in sources {
        map.insert(
            s.to_string(),
            SourceConnector::Filesystem(FilesystemSource { format: FileFormat::Csv, path: "/p".to_string() }),
        );
    }
    let mut out = Vec::new();
    for _ in 0..destinations {
        out.push(DestinationConnector::Filesystem(FilesystemDestination {
            name: "d".to_string(),
            base_dir: "/o".to_string(),
            format: FileFormat::Json,
        }));
    }
    DetConfig {
        name: "n".to_string(),
        profile: "p".to_string(),
        extract: Extract { sources: map },
        transform: Transform { engine: Engine::Datafusion, sql_paths: vec![] },
        load: Load { destinations: out },
    }
}

#[test]
fn validate_accepts_a_full_job() {
    assert!(validate(&config(vec!["a"], 1)).is_ok());
}

#[test]
fn validate_reports_sources_first() {
    assert!(matches!(validate(&config(vec![], 0)), Err(ConfigError::NoSources)));
    assert!(matches!(validate(&config(vec![], 2)), Err(ConfigError::NoSources)));
}

#[test]
fn validate_reports_destinations() {
    assert!(matches!(validate(&config(vec!["a", "b"], 0)), Err(ConfigError::NoDestinations)));
}

#[test]
fn tree_of_a_job_decodes() {
    let tree = job(
        mapping(vec![("z", source("/z")), ("y", source("/y"))]),
        YamlNode::Sequence(vec![destination()]),
    );
    let cfg = config_from_tree(&tree).unwrap();
    assert_eq!(cfg.name, "n");
    assert_eq!(cfg.profile, "p");
    let keys: Vec<&String> = cfg.extract.sources.keys().collect();
    assert_eq!(keys, vec!["z", "y"]);
    assert_eq!(cfg.transform.sql_paths, vec!["a.sql".to_string()]);
    assert_eq!(cfg.load.destinations.len(), 1);
}

#[test]
fn tree_rules_follow_the_shape() {
    let tree = job(mapping(vec![]), YamlNode::Sequence(vec![]));
    assert!(matches!(config_from_tree(&tree), Err(ConfigError::NoSources)));
    let tree = job(mapping(vec![("a", source("/a"))]), YamlNode::Sequence(vec![]));
    assert!(matches!(config_from_tree(&tree), Err(ConfigError::NoDestinations)));
    let tree = job(YamlNode::Null, YamlNode::Sequence(vec![destination()]));
    assert!(matches!(config_from_tree(&tree), Err(ConfigError::Yaml(_))));
}

#[test]
fn a_field_given_twice_is_refused() {
    let twice = mapping(vec![
        ("type", text("filesystem")),
        ("format", text("csv")),
        ("path", text("/a")),
        ("path", text("/b")),
    ]);
    assert!(decode_source(&twice).is_none());
    assert!(decode_source(&source("/a")).is_some());
}

#[test]
fn a_source_given_twice_is_refused() {
    let twice = mapping(vec![("a", source("/1")), ("b", source("/2")), ("a", source("/3"))]);
    assert!(decode_sources(&twice).is_none());
    let once = mapping(vec![("a", source("/1")), ("b", source("/2"))]);
    assert_eq!(decode_sources(&once).unwrap().len(), 2);
}

#[test]
fn source_keys_have_to_be_text() {
    let node = YamlNode::Mapping(vec![(YamlNode::Number, source("/1"))]);
    assert!(decode_sources(&node).is_none());
    let node = YamlNode::Mapping(vec![(YamlNode::Bool(true), source("/1"))]);
    assert!(decode_sources(&node).is_none());
}

#[test]
fn text_fields_take_text_only() {
    let node = mapping(vec![("type", text("filesystem")), ("format", text("csv")), ("path", YamlNode::Number)]);
    assert!(decode_source(&node).is_none());
    let node = mapping(vec![("type", text("filesystem")), ("format", text("csv")), ("path", YamlNode::Null)]);
    assert!(decode_source(&node).is_none());
    assert!(decode_paths(&YamlNode::Sequence(vec![text("a"), YamlNode::Bool(false)])).is_none());
    assert_eq!(
        decode_paths(&YamlNode::Sequence(vec![text("a"), text("b")])),
        Some(vec!["a".to_string(), "b".to_string()])
    );
    assert!(decode_paths(&text("a.sql")).is_none());
}

#[test]
fn enumerations_by_name() {
    assert_eq!(decode_format(&text("parquet")), Some(FileFormat::Parquet));
    assert_eq!(decode_format(&text("csv")), Some(FileFormat::Csv));
    assert_eq!(decode_format(&text("json")), Some(FileFormat::Json));
    assert_eq!(decode_format(&text("JSON")), None);
    assert_eq!(decode_format(&YamlNode::Tagged), None);
    assert_eq!(decode_write_mode(&text("insert_append")), Some(WriteMode::InsertAppend));
    assert_eq!(decode_write_mode(&text("insert_overwrite")), Some(WriteMode::InsertOverwrite));
    assert_eq!(decode_write_mode(&text("merge")), Some(WriteMode::Merge));
    assert_eq!(decode_write_mode(&text("InsertAppend")), None);
    assert_eq!(decode_engine(&text("datafusion")), Some(Engine::Datafusion));
    assert_eq!(decode_engine(&text("duckdb")), None);
    assert_eq!(decode_engine(&YamlNode::Null), None);
}

#[test]
fn destinations_from_trees() {
    let pg = mapping(vec![
        ("name", text("wh")),
        ("type", text("postgres")),
        ("dsn", text("d")),
        ("write_mode", text("merge")),
    ]);
    match decode_destination(&pg) {
        Some(DestinationConnector::Postgres(p)) => {
            assert_eq!(p.name, "wh");
            assert_eq!(p.dsn, "d");
            assert_eq!(p.write_mode, Some(WriteMode::Merge));
            assert_eq!(p.schema, None);
        }
        other => panic!("expected a postgres destination, got {:?}", other),
    }
    let wrong = mapping(vec![("type", text("postgres")), ("name", text("wh")), ("dsn", text("d")), ("schema", YamlNode::Number)]);
    assert!(decode_destination(&wrong).is_none());
    assert!(decode_destination(&YamlNode::Sequence(vec![])).is_none());
    assert!(decode_destinations(&YamlNode::Sequence(vec![destination(), YamlNode::Null])).is_none());
    assert_eq!(decode_destinations(&YamlNode::Sequence(vec![destination(), pg])).unwrap().len(), 2);
    assert!(decode_destinations(&destination()).is_none());
}

#[test]
fn record_helpers() {
    let entries = vec![(text("a"), text("1")), (YamlNode::Number, text("2")), (text("b"), YamlNode::Null)];
    assert!(matches!(get_field(&entries, "a"), Some(YamlNode::Text(s)) if s == "1"));
    assert!(matches!(get_field(&entries, "b"), Some(YamlNode::Null)));
    assert!(get_field(&entries, "c").is_none());
    assert_eq!(get_text(&entries, "a"), Some("1".to_string()));
    assert_eq!(get_text(&entries, "b"), None);
    assert!(!is_strict(&entries, &vec!["a", "b"]));
    let entries = vec![(text("a"), text("1")), (text("b"), YamlNode::Null)];
    assert!(is_strict(&entries, &vec!["b", "a", "c"]));
    assert!(!is_strict(&entries, &vec!["a"]));
    assert!(same_text("x", "x"));
    assert!(!same_text("x", "y"));
}
