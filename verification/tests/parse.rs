use det::{
    parse_det_config, ConfigError, DestinationConnector, DetConfig, Engine, FileFormat,
    SourceConnector, WriteMode,
};

const MINIMAL: &str = "\
name: orders
profile: dev
extract:
  sources:
    raw_orders:
      type: filesystem
      format: parquet
      path: /data/in/orders
transform:
  engine: datafusion
  sql_paths:
    - sql/clean.sql
load:
  destinations:
    - type: filesystem
      name: out
      base_dir: /data/out
      format: csv
";

fn parsed(text: &str) -> DetConfig {
    match parse_det_config(text) {
        Ok(cfg) => cfg,
        Err(e) => panic!("expected a job, got: {}", e.message()),
    }
}

fn is_structural(text: &str) -> bool {
    matches!(parse_det_config(text), Err(ConfigError::Yaml(_)))
}

fn with_destination(destination: &str) -> String {
    format!(
        "name: n\nprofile: p\nextract:\n  sources:\n    s:\n      type: filesystem\n      format: json\n      path: /in\ntransform:\n  engine: datafusion\n  sql_paths: []\nload:\n  destinations:\n{}",
        destination
    )
}

#[test]
fn minimal_document_round_trips() {
    let cfg = parsed(MINIMAL);
    assert_eq!(cfg.name, "orders");
    assert_eq!(cfg.profile, "dev");
    assert_eq!(cfg.transform.engine, Engine::Datafusion);
    assert_eq!(cfg.transform.sql_paths, vec!["sql/clean.sql".to_string()]);
    assert_eq!(cfg.extract.sources.len(), 1);
    let (key, source) = cfg.extract.sources.get_index(0).unwrap();
    assert_eq!(key, "raw_orders");
    match source {
        SourceConnector::Filesystem(f) => {
            assert_eq!(f.format, FileFormat::Parquet);
            assert_eq!(f.path, "/data/in/orders");
        }
    }
    assert_eq!(cfg.load.destinations.len(), 1);
    match &cfg.load.destinations[0] {
        DestinationConnector::Filesystem(f) => {
            assert_eq!(f.name, "out");
            assert_eq!(f.base_dir, "/data/out");
            assert_eq!(f.format, FileFormat::Csv);
        }
        DestinationConnector::Postgres(_) => panic!("expected a filesystem destination"),
    }
}

#[test]
fn each_mandatory_field_is_required() {
    for field in ["name", "profile", "extract", "transform", "load"] {
        let mut kept = String::new();
        let mut skipping = false;
        for line in MINIMAL.lines() {
            if !line.starts_with(' ') {
                skipping = line.starts_with(&format!("{}:", field));
            }
            if !skipping {
                kept.push_str(line);
                kept.push('\n');
            }
        }
        assert!(!kept.contains(&format!("\n{}:", field)) && !kept.starts_with(&format!("{}:", field)));
        assert!(is_structural(&kept), "without `{}`", field);
    }
}

#[test]
fn unknown_top_level_field_is_refused() {
    let text = format!("{}owner: me\n", MINIMAL);
    assert!(is_structural(&text));
}

#[test]
fn unknown_field_in_extract_is_refused() {
    let text = MINIMAL.replace("extract:\n", "extract:\n  limit: 3\n");
    assert!(is_structural(&text));
}

#[test]
fn unknown_field_in_transform_is_refused() {
    let text = MINIMAL.replace("  engine: datafusion\n", "  engine: datafusion\n  threads: 4\n");
    assert!(is_structural(&text));
}

#[test]
fn unknown_field_in_load_is_refused() {
    let text = MINIMAL.replace("load:\n", "load:\n  retries: 2\n");
    assert!(is_structural(&text));
}

#[test]
fn unknown_field_in_source_connector_is_refused() {
    let text = MINIMAL.replace("      format: parquet\n", "      format: parquet\n      glob: true\n");
    assert!(is_structural(&text));
}

#[test]
fn unknown_field_in_destination_connector_is_refused() {
    let text = MINIMAL.replace("      format: csv\n", "      format: csv\n      compress: gzip\n");
    assert!(is_structural(&text));
}

#[test]
fn field_of_another_variant_is_refused() {
    let text = with_destination("    - type: filesystem\n      name: d\n      base_dir: /o\n      format: csv\n      dsn: x\n");
    assert!(is_structural(&text));
}

#[test]
fn unknown_engine_name_is_structural() {
    let text = MINIMAL.replace("engine: datafusion", "engine: spark");
    assert!(is_structural(&text));
    let text = MINIMAL.replace("engine: datafusion", "engine: Datafusion");
    assert!(is_structural(&text));
}

#[test]
fn empty_sources_come_before_empty_destinations() {
    let text = "name: n\nprofile: p\nextract:\n  sources: {}\ntransform:\n  engine: datafusion\n  sql_paths: []\nload:\n  destinations: []\n";
    assert!(matches!(parse_det_config(text), Err(ConfigError::NoSources)));
}

#[test]
fn empty_sources_alone() {
    let text = MINIMAL.replace(
        "  sources:\n    raw_orders:\n      type: filesystem\n      format: parquet\n      path: /data/in/orders\n",
        "  sources: {}\n",
    );
    assert!(matches!(parse_det_config(&text), Err(ConfigError::NoSources)));
}

#[test]
fn empty_destinations() {
    let text = with_destination("    []\n");
    assert!(matches!(parse_det_config(&text), Err(ConfigError::NoDestinations)));
}

#[test]
fn structural_error_comes_before_the_rules() {
    let text = "name: n\nprofile: p\nextract:\n  sources: {}\ntransform:\n  engine: spark\n  sql_paths: []\nload:\n  destinations: []\n";
    assert!(is_structural(text));
}

#[test]
fn postgres_optional_fields_default_to_absent() {
    let cfg = parsed(&with_destination("    - type: postgres\n      name: wh\n      dsn: postgres://h/db\n"));
    match &cfg.load.destinations[0] {
        DestinationConnector::Postgres(p) => {
            assert_eq!(p.name, "wh");
            assert_eq!(p.dsn, "postgres://h/db");
            assert_eq!(p.write_mode, None);
            assert_eq!(p.schema, None);
        }
        DestinationConnector::Filesystem(_) => panic!("expected a postgres destination"),
    }
}

#[test]
fn postgres_null_fields_are_absent() {
    let cfg = parsed(&with_destination("    - type: postgres\n      name: wh\n      dsn: d\n      write_mode: ~\n      schema: null\n"));
    match &cfg.load.destinations[0] {
        DestinationConnector::Postgres(p) => {
            assert_eq!(p.write_mode, None);
            assert_eq!(p.schema, None);
        }
        DestinationConnector::Filesystem(_) => panic!("expected a postgres destination"),
    }
}

#[test]
fn postgres_write_modes() {
    for (word, mode) in [
        ("merge", WriteMode::Merge),
        ("insert_append", WriteMode::InsertAppend),
        ("insert_overwrite", WriteMode::InsertOverwrite),
    ] {
        let cfg = parsed(&with_destination(&format!(
            "    - type: postgres\n      name: wh\n      dsn: d\n      write_mode: {}\n      schema: public\n",
            word
        )));
        match &cfg.load.destinations[0] {
            DestinationConnector::Postgres(p) => {
                assert_eq!(p.write_mode, Some(mode));
                assert_eq!(p.schema, Some("public".to_string()));
            }
            DestinationConnector::Filesystem(_) => panic!("expected a postgres destination"),
        }
    }
}

#[test]
fn postgres_bogus_write_mode_is_structural() {
    let text = with_destination("    - type: postgres\n      name: wh\n      dsn: d\n      write_mode: bogus\n");
    assert!(is_structural(&text));
}

#[test]
fn sources_keep_document_order() {
    let text = "name: n\nprofile: p\nextract:\n  sources:\n    b: {type: filesystem, format: csv, path: /b}\n    a: {type: filesystem, format: json, path: /a}\n    c: {type: filesystem, format: parquet, path: /c}\ntransform:\n  engine: datafusion\n  sql_paths: [one.sql, two.sql]\nload:\n  destinations:\n    - {type: filesystem, name: d, base_dir: /o, format: json}\n";
    let cfg = parsed(text);
    let keys: Vec<&str> = cfg.extract.sources.keys().map(|k| k.as_str()).collect();
    assert_eq!(keys, vec!["b", "a", "c"]);
    let paths: Vec<&str> = cfg
        .extract
        .sources
        .values()
        .map(|s| match s {
            SourceConnector::Filesystem(f) => f.path.as_str(),
        })
        .collect();
    assert_eq!(paths, vec!["/b", "/a", "/c"]);
    assert_eq!(cfg.transform.sql_paths, vec!["one.sql".to_string(), "two.sql".to_string()]);
}

#[test]
fn destinations_keep_document_order() {
    let cfg = parsed(&with_destination(
        "    - {type: postgres, name: first, dsn: d}\n    - {type: filesystem, name: second, base_dir: /o, format: parquet}\n",
    ));
    assert_eq!(cfg.load.destinations.len(), 2);
    assert!(matches!(&cfg.load.destinations[0], DestinationConnector::Postgres(p) if p.name == "first"));
    assert!(matches!(&cfg.load.destinations[1], DestinationConnector::Filesystem(f) if f.name == "second" && f.format == FileFormat::Parquet));
}

#[test]
fn unknown_connector_tags_are_structural() {
    let text = MINIMAL.replace("      type: filesystem\n      format: parquet", "      type: s3\n      format: parquet");
    assert!(is_structural(&text));
    assert!(is_structural(&with_destination("    - type: clickhouse\n      name: d\n")));
    assert!(is_structural(&with_destination("    - name: d\n      base_dir: /o\n      format: csv\n")));
}

#[test]
fn unknown_file_format_is_structural() {
    let text = MINIMAL.replace("format: parquet", "format: orc");
    assert!(is_structural(&text));
    let text = MINIMAL.replace("format: parquet", "format: Parquet");
    assert!(is_structural(&text));
}

#[test]
fn malformed_yaml_carries_a_diagnostic() {
    let text = "name: [unclosed\nprofile: p\n";
    match parse_det_config(text) {
        Err(ConfigError::Yaml(d)) => {
            assert!(!d.is_empty());
            assert_ne!(d, text);
        }
        other => panic!("expected a structural error, got {:?}", other),
    }
}

#[test]
fn a_document_that_is_no_mapping_is_structural() {
    assert!(is_structural("- a\n- b\n"));
    assert!(is_structural("just text"));
    assert!(is_structural(""));
}

#[test]
fn error_messages() {
    assert_eq!(ConfigError::NoSources.message(), "no sources configured");
    assert_eq!(ConfigError::NoDestinations.message(), "no destinations configured");
    assert_eq!(
        ConfigError::EngineUnsupported.message(),
        "invalid engine: only `datafusion` is supported"
    );
    assert_eq!(ConfigError::Yaml("bad".to_string()).message(), "yaml parse error: bad");
}
