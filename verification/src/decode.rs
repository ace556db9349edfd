//! The shape of a job description: what each node of a document has to look
//! like, stated over the document's model, and the decoder that follows it.

use vstd::prelude::*;
use indexmap::IndexMap;
use crate::document::{lemma_mapping_view, lemma_sequence_view, nodes, pairs, NodeModel, YamlNode};
use crate::fields::{
    field, get_field, get_text, is_strict, key_is_new, names_model, no_earlier, same_text,
    strict, text_field,
};
use crate::schema::{
    destination_models, text_opt, texts, DestinationConnector, DestinationModel, Engine,
    FileFormat, FilesystemDestination, FilesystemSource, PostgresDestination, SourceConnector,
    SourceModel, WriteMode,
};
use crate::source_map::{empty_sources, has_key, insert_source, source_entries};

verus! {

/* ---------------------------- enumerations ---------------------------- */

pub open spec fn format_of(n: NodeModel) -> Option<FileFormat> {
    match n {
        NodeModel::Text(s) => if s == "parquet"@ {
            Some(FileFormat::Parquet)
        } else if s == "csv"@ {
            Some(FileFormat::Csv)
        } else if s == "json"@ {
            Some(FileFormat::Json)
        } else {
            None
        },
        _ => None,
    }
}

pub open spec fn write_mode_of(n: NodeModel) -> Option<WriteMode> {
    match n {
        NodeModel::Text(s) => if s == "insert_append"@ {
            Some(WriteMode::InsertAppend)
        } else if s == "insert_overwrite"@ {
            Some(WriteMode::InsertOverwrite)
        } else if s == "merge"@ {
            Some(WriteMode::Merge)
        } else {
            None
        },
        _ => None,
    }
}

pub open spec fn engine_of(n: NodeModel) -> Option<Engine> {
    match n {
        NodeModel::Text(s) => if s == "datafusion"@ {
            Some(Engine::Datafusion)
        } else {
            None
        },
        _ => None,
    }
}

pub fn decode_format(node: &YamlNode) -> (r: Option<FileFormat>)
    ensures
        r == format_of(node@),
{
    match node {
        YamlNode::Text(s) => {
            if same_text(s.as_str(), "parquet") {
                Some(FileFormat::Parquet)
            } else if same_text(s.as_str(), "csv") {
                Some(FileFormat::Csv)
            } else if same_text(s.as_str(), "json") {
                Some(FileFormat::Json)
            } else {
                None
            }
        },
        _ => None,
    }
}

pub fn decode_write_mode(node: &YamlNode) -> (r: Option<WriteMode>)
    ensures
        r == write_mode_of(node@),
{
    match node {
        YamlNode::Text(s) => {
            if same_text(s.as_str(), "insert_append") {
                Some(WriteMode::InsertAppend)
            } else if same_text(s.as_str(), "insert_overwrite") {
                Some(WriteMode::InsertOverwrite)
            } else if same_text(s.as_str(), "merge") {
                Some(WriteMode::Merge)
            } else {
                None
            }
        },
        _ => None,
    }
}

pub fn decode_engine(node: &YamlNode) -> (r: Option<Engine>)
    ensures
        r == engine_of(node@),
{
    match node {
        YamlNode::Text(s) => {
            if same_text(s.as_str(), "datafusion") {
                Some(Engine::Datafusion)
            } else {
                None
            }
        },
        _ => None,
    }
}

/* ------------------------------- fields ------------------------------- */

/// The file format held by the field `key`: `None` where the field is
/// missing or names no format.
pub open spec fn format_field(m: Seq<(NodeModel, NodeModel)>, key: Seq<char>) -> Option<FileFormat> {
    match field(m, key) {
        Some(n) => format_of(n),
        None => None,
    }
}

/// The write mode of an optional field: a missing or null field is an
/// absent mode, anything but a mode's name is a failure.
pub open spec fn optional_mode(m: Seq<(NodeModel, NodeModel)>, key: Seq<char>) -> Option<Option<WriteMode>> {
    match field(m, key) {
        None => Some(None),
        Some(NodeModel::Null) => Some(None),
        Some(n) => match write_mode_of(n) {
            Some(w) => Some(Some(w)),
            None => None,
        },
    }
}

/// The text of an optional field: a missing or null field is absent text,
/// anything but text is a failure.
pub open spec fn optional_text(m: Seq<(NodeModel, NodeModel)>, key: Seq<char>) -> Option<Option<Seq<char>>> {
    match field(m, key) {
        None => Some(None),
        Some(NodeModel::Null) => Some(None),
        Some(NodeModel::Text(s)) => Some(Some(s)),
        Some(_) => None,
    }
}

fn get_format(entries: &Vec<(YamlNode, YamlNode)>, key: &str) -> (r: Option<FileFormat>)
    ensures
        r == format_field(pairs(entries@), key@),
{
    match get_field(entries, key) {
        Some(n) => decode_format(n),
        None => None,
    }
}

fn get_optional_mode(entries: &Vec<(YamlNode, YamlNode)>, key: &str) -> (r: Option<Option<WriteMode>>)
    ensures
        r == optional_mode(pairs(entries@), key@),
{
    match get_field(entries, key) {
        None => Some(None),
        Some(YamlNode::Null) => Some(None),
        Some(n) => match decode_write_mode(n) {
            Some(w) => Some(Some(w)),
            None => None,
        },
    }
}

fn get_optional_text(entries: &Vec<(YamlNode, YamlNode)>, key: &str) -> (r: Option<Option<String>>)
    ensures
        match r {
            Some(t) => optional_text(pairs(entries@), key@) == Some(text_opt(t)),
            None => optional_text(pairs(entries@), key@) is None,
        },
{
    match get_field(entries, key) {
        None => Some(None),
        Some(YamlNode::Null) => Some(None),
        Some(YamlNode::Text(s)) => Some(Some(s.clone())),
        Some(_) => None,
    }
}

/* ------------------------------ sources ------------------------------- */

pub open spec fn source_fields() -> Seq<Seq<char>> {
    seq!["type"@, "format"@, "path"@]
}

/// A source connector: a mapping tagged `filesystem` with a format and a
/// path, and nothing else.
pub open spec fn source_of(n: NodeModel) -> Option<SourceModel> {
    match n.entries() {
        Some(m) => if text_field(m, "type"@) == Some("filesystem"@) && strict(m, source_fields()) {
            match (format_field(m, "format"@), text_field(m, "path"@)) {
                (Some(format), Some(path)) => Some(SourceModel::Filesystem { format, path }),
                _ => None,
            }
        } else {
            None
        },
        None => None,
    }
}

pub fn decode_source(node: &YamlNode) -> (r: Option<SourceConnector>)
    ensures
        match r {
            Some(c) => source_of(node@) == Some(c@),
            None => source_of(node@) is None,
        },
{
    match node {
        YamlNode::Mapping(entries) => {
            proof {
                lemma_mapping_view(*entries);
            }
            let tag = match get_text(entries, "type") {
                Some(t) => t,
                None => { return None; },
            };
            if !same_text(tag.as_str(), "filesystem") {
                return None;
            }
            let names = vec!["type", "format", "path"];
            proof {
                assert(names_model(names@) =~= source_fields());
            }
            if !is_strict(entries, &names) {
                return None;
            }
            let format = match get_format(entries, "format") {
                Some(f) => f,
                None => { return None; },
            };
            let path = match get_text(entries, "path") {
                Some(p) => p,
                None => { return None; },
            };
            Some(SourceConnector::Filesystem(FilesystemSource { format, path }))
        },
        _ => None,
    }
}

/// The `i`-th entry of a mapping of sources is in order: its key is text
/// that names no earlier source, and its value is a source connector.
pub open spec fn source_entry_ok(m: Seq<(NodeModel, NodeModel)>, i: int) -> bool {
    m[i].0 is Text && no_earlier(m, i) && source_of(m[i].1) is Some
}

/// The sources of a job: every entry of the mapping, in the order of the
/// document.
pub open spec fn sources_of(n: NodeModel) -> Option<Seq<(Seq<char>, SourceModel)>> {
    match n.entries() {
        Some(m) => if forall|i: int| 0 <= i < m.len() ==> #[trigger] source_entry_ok(m, i) {
            Some(Seq::new(m.len(), |i: int| (m[i].0->Text_0, source_of(m[i].1)->0)))
        } else {
            None
        },
        None => None,
    }
}

pub fn decode_sources(node: &YamlNode) -> (r: Option<IndexMap<String, SourceConnector>>)
    ensures
        match r {
            Some(map) => sources_of(node@) == Some(source_entries(map)),
            None => sources_of(node@) is None,
        },
{
    match node {
        YamlNode::Mapping(entries) => {
            proof {
                lemma_mapping_view(*entries);
            }
            let ghost m = pairs(entries@);
            let mut out = empty_sources();
            let mut i: usize = 0;
            while i < entries.len()
                invariant
                    i <= entries.len(),
                    m == pairs(entries@),
                    node@.entries() == Some(m),
                    forall|k: int| 0 <= k < i ==> #[trigger] source_entry_ok(m, k),
                    source_entries(out).len() == i,
                    forall|k: int|
                        0 <= k < i ==> #[trigger] source_entries(out)[k] == (
                            m[k].0->Text_0,
                            source_of(m[k].1)->0,
                        ),
                decreases entries.len() - i,
            {
                let key = match &entries[i].0 {
                    YamlNode::Text(s) => s,
                    _ => {
                        assert(!source_entry_ok(m, i as int));
                        return None;
                    },
                };
                if !key_is_new(entries, i, key.as_str()) {
                    assert(!source_entry_ok(m, i as int));
                    return None;
                }
                let connector = match decode_source(&entries[i].1) {
                    Some(c) => c,
                    None => {
                        assert(!source_entry_ok(m, i as int));
                        return None;
                    },
                };
                let ghost before = source_entries(out);
                assert(!has_key(before, key@)) by {
                    if has_key(before, key@) {
                        let j = choose|j: int| 0 <= j < before.len() && (#[trigger] before[j]).0 == key@;
                        assert(source_entry_ok(m, j));
                        assert(m[j].0 == m[i as int].0);
                    }
                }
                let _former = insert_source(&mut out, key.clone(), connector);
                assert(source_entry_ok(m, i as int));
                i += 1;
            }
            assert(source_entries(out) =~= sources_of(node@)->0);
            Some(out)
        },
        _ => None,
    }
}

/* ---------------------------- destinations ---------------------------- */

pub open spec fn filesystem_destination_fields() -> Seq<Seq<char>> {
    seq!["type"@, "name"@, "base_dir"@, "format"@]
}

pub open spec fn postgres_destination_fields() -> Seq<Seq<char>> {
    seq!["type"@, "name"@, "dsn"@, "write_mode"@, "schema"@]
}

pub open spec fn filesystem_destination_of(m: Seq<(NodeModel, NodeModel)>) -> Option<DestinationModel> {
    if strict(m, filesystem_destination_fields()) {
        match (text_field(m, "name"@), text_field(m, "base_dir"@), format_field(m, "format"@)) {
            (Some(name), Some(base_dir), Some(format)) => Some(
                DestinationModel::Filesystem { name, base_dir, format },
            ),
            _ => None,
        }
    } else {
        None
    }
}

pub open spec fn postgres_destination_of(m: Seq<(NodeModel, NodeModel)>) -> Option<DestinationModel> {
    if strict(m, postgres_destination_fields()) {
        match (
            text_field(m, "name"@),
            text_field(m, "dsn"@),
            optional_mode(m, "write_mode"@),
            optional_text(m, "schema"@),
        ) {
            (Some(name), Some(dsn), Some(write_mode), Some(schema)) => Some(
                DestinationModel::Postgres { name, dsn, write_mode, schema },
            ),
            _ => None,
        }
    } else {
        None
    }
}

/// A destination connector: a mapping whose `type` picks the variant, with
/// that variant's fields and nothing else.
pub open spec fn destination_of(n: NodeModel) -> Option<DestinationModel> {
    match n.entries() {
        Some(m) => match text_field(m, "type"@) {
            Some(tag) => if tag == "filesystem"@ {
                filesystem_destination_of(m)
            } else if tag == "postgres"@ {
                postgres_destination_of(m)
            } else {
                None
            },
            None => None,
        },
        None => None,
    }
}

fn decode_filesystem_destination(entries: &Vec<(YamlNode, YamlNode)>) -> (r: Option<
    DestinationConnector,
>)
    ensures
        match r {
            Some(d) => filesystem_destination_of(pairs(entries@)) == Some(d@),
            None => filesystem_destination_of(pairs(entries@)) is None,
        },
{
    let names = vec!["type", "name", "base_dir", "format"];
    proof {
        assert(names_model(names@) =~= filesystem_destination_fields());
    }
    if !is_strict(entries, &names) {
        return None;
    }
    let name = match get_text(entries, "name") {
        Some(t) => t,
        None => { return None; },
    };
    let base_dir = match get_text(entries, "base_dir") {
        Some(t) => t,
        None => { return None; },
    };
    let format = match get_format(entries, "format") {
        Some(f) => f,
        None => { return None; },
    };
    Some(DestinationConnector::Filesystem(FilesystemDestination { name, base_dir, format }))
}

fn decode_postgres_destination(entries: &Vec<(YamlNode, YamlNode)>) -> (r: Option<
    DestinationConnector,
>)
    ensures
        match r {
            Some(d) => postgres_destination_of(pairs(entries@)) == Some(d@),
            None => postgres_destination_of(pairs(entries@)) is None,
        },
{
    let names = vec!["type", "name", "dsn", "write_mode", "schema"];
    proof {
        assert(names_model(names@) =~= postgres_destination_fields());
    }
    if !is_strict(entries, &names) {
        return None;
    }
    let name = match get_text(entries, "name") {
        Some(t) => t,
        None => { return None; },
    };
    let dsn = match get_text(entries, "dsn") {
        Some(t) => t,
        None => { return None; },
    };
    let write_mode = match get_optional_mode(entries, "write_mode") {
        Some(w) => w,
        None => { return None; },
    };
    let schema = match get_optional_text(entries, "schema") {
        Some(s) => s,
        None => { return None; },
    };
    Some(DestinationConnector::Postgres(PostgresDestination { name, dsn, write_mode, schema }))
}

pub fn decode_destination(node: &YamlNode) -> (r: Option<DestinationConnector>)
    ensures
        match r {
            Some(d) => destination_of(node@) == Some(d@),
            None => destination_of(node@) is None,
        },
{
    match node {
        YamlNode::Mapping(entries) => {
            proof {
                lemma_mapping_view(*entries);
            }
            let tag = match get_text(entries, "type") {
                Some(t) => t,
                None => { return None; },
            };
            if same_text(tag.as_str(), "filesystem") {
                decode_filesystem_destination(entries)
            } else if same_text(tag.as_str(), "postgres") {
                decode_postgres_destination(entries)
            } else {
                None
            }
        },
        _ => None,
    }
}

/// The destinations of a job: a sequence of destination connectors, in the
/// order of the document.
pub open spec fn destinations_of(n: NodeModel) -> Option<Seq<DestinationModel>> {
    match n {
        NodeModel::Sequence(s) => if forall|i: int|
            0 <= i < s.len() ==> destination_of(#[trigger] s[i]) is Some {
            Some(Seq::new(s.len(), |i: int| destination_of(s[i])->0))
        } else {
            None
        },
        _ => None,
    }
}

pub fn decode_destinations(node: &YamlNode) -> (r: Option<Vec<DestinationConnector>>)
    ensures
        match r {
            Some(v) => destinations_of(node@) == Some(destination_models(v@)),
            None => destinations_of(node@) is None,
        },
{
    match node {
        YamlNode::Sequence(items) => {
            proof {
                lemma_sequence_view(*items);
            }
            let ghost s = nodes(items@);
            let mut out: Vec<DestinationConnector> = Vec::new();
            let mut i: usize = 0;
            while i < items.len()
                invariant
                    i <= items.len(),
                    s == nodes(items@),
                    node@ == NodeModel::Sequence(s),
                    out.len() == i,
                    forall|k: int| 0 <= k < i ==> destination_of(#[trigger] s[k]) == Some(out[k]@),
                decreases items.len() - i,
            {
                match decode_destination(&items[i]) {
                    Some(d) => {
                        out.push(d);
                    },
                    None => {
                        assert(destination_of(s[i as int]) is None);
                        return None;
                    },
                }
                i += 1;
            }
            assert(destination_models(out@) =~= destinations_of(node@)->0);
            Some(out)
        },
        _ => None,
    }
}

/* -------------------------------- paths ------------------------------- */

/// The script paths of a job: a sequence of texts, in the order of the
/// document.
pub open spec fn paths_of(n: NodeModel) -> Option<Seq<Seq<char>>> {
    match n {
        NodeModel::Sequence(s) => if forall|i: int| 0 <= i < s.len() ==> (#[trigger] s[i]) is Text {
            Some(Seq::new(s.len(), |i: int| s[i]->Text_0))
        } else {
            None
        },
        _ => None,
    }
}

pub fn decode_paths(node: &YamlNode) -> (r: Option<Vec<String>>)
    ensures
        match r {
            Some(v) => paths_of(node@) == Some(texts(v@)),
            None => paths_of(node@) is None,
        },
{
    match node {
        YamlNode::Sequence(items) => {
            proof {
                lemma_sequence_view(*items);
            }
            let ghost s = nodes(items@);
            let mut out: Vec<String> = Vec::new();
            let mut i: usize = 0;
            while i < items.len()
                invariant
                    i <= items.len(),
                    s == nodes(items@),
                    node@ == NodeModel::Sequence(s),
                    out.len() == i,
                    forall|k: int| 0 <= k < i ==> (#[trigger] s[k]) == NodeModel::Text(out[k]@),
                decreases items.len() - i,
            {
                match &items[i] {
                    YamlNode::Text(t) => {
                        out.push(t.clone());
                    },
                    _ => {
                        assert(!(s[i as int] is Text));
                        return None;
                    },
                }
                i += 1;
            }
            assert(texts(out@) =~= paths_of(node@)->0);
            Some(out)
        },
        _ => None,
    }
}

} // verus!
