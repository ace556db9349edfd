//! What holds of every document and every job, proved from the models that
//! the decoder's contracts are stated over.

use vstd::prelude::*;
use crate::decode::{
    destination_of, destinations_of, filesystem_destination_fields, optional_mode,
    optional_text, postgres_destination_fields, source_entry_ok, source_fields, source_of,
    sources_of,
};
use crate::document::NodeModel;
use crate::fields::{admitted, field, first_index, strict, text_field};
use crate::job::{
    broken_rule, config_of, extract_fields, extract_of, job_fields, load_fields, load_of,
    outcome_of, transform_fields, transform_of,
};
use crate::schema::{ConfigModel, Engine, Failure, WriteMode};

verus! {

/// The key of the `i`-th entry is none of `names`.
pub open spec fn unknown_key(m: Seq<(NodeModel, NodeModel)>, names: Seq<Seq<char>>, i: int) -> bool {
    0 <= i < m.len() && !(m[i].0 is Text && names.contains(m[i].0->Text_0))
}

/// No entry has the text `key` as its key.
pub open spec fn lacks(m: Seq<(NodeModel, NodeModel)>, key: Seq<char>) -> bool {
    forall|i: int| 0 <= i < m.len() ==> (#[trigger] m[i]).0 != NodeModel::Text(key)
}

/// A mapping that lacks a key has no field of that name.
pub proof fn lemma_lacking_field(m: Seq<(NodeModel, NodeModel)>, key: Seq<char>, from: int)
    requires
        lacks(m, key),
        0 <= from,
    ensures
        first_index(m, key, from) == m.len(),
    decreases m.len() - from,
{
    if from < m.len() {
        assert(m[from].0 != NodeModel::Text(key));
        lemma_lacking_field(m, key, from + 1);
    }
}

/// A record with an entry whose key is none of its field names is not
/// strict.
pub proof fn lemma_unknown_key(m: Seq<(NodeModel, NodeModel)>, names: Seq<Seq<char>>, i: int)
    requires
        unknown_key(m, names, i),
    ensures
        !strict(m, names),
{
    assert(!admitted(m, names, i));
}

/// A document that lacks one of the five fields of a job is malformed,
/// whatever else it holds.
pub proof fn law_missing_field(n: NodeModel, key: Seq<char>)
    requires
        n.entries() is Some,
        job_fields().contains(key),
        lacks(n.entries()->0, key),
    ensures
        outcome_of(Some(n)) == Err::<ConfigModel, Failure>(Failure::Malformed),
{
    let m = n.entries()->0;
    lemma_lacking_field(m, key, 0);
    assert(field(m, key) is None);
    assert(text_field(m, key) is None);
    let j = choose|j: int| 0 <= j < job_fields().len() && job_fields()[j] == key;
    assert(j == 0 || j == 1 || j == 2 || j == 3 || j == 4);
    assert(config_of(n) is None);
}

/// A document with a top-level key that is no field of a job is malformed.
pub proof fn law_unknown_job_field(n: NodeModel, i: int)
    requires
        n.entries() is Some,
        unknown_key(n.entries()->0, job_fields(), i),
    ensures
        outcome_of(Some(n)) == Err::<ConfigModel, Failure>(Failure::Malformed),
{
    lemma_unknown_key(n.entries()->0, job_fields(), i);
}

/// A section with a key that is no field of that section does not decode.
pub proof fn law_unknown_section_field(n: NodeModel, i: int)
    requires
        n.entries() is Some,
    ensures
        unknown_key(n.entries()->0, extract_fields(), i) ==> extract_of(n) is None,
        unknown_key(n.entries()->0, transform_fields(), i) ==> transform_of(n) is None,
        unknown_key(n.entries()->0, load_fields(), i) ==> load_of(n) is None,
{
    let m = n.entries()->0;
    if unknown_key(m, extract_fields(), i) {
        lemma_unknown_key(m, extract_fields(), i);
    }
    if unknown_key(m, transform_fields(), i) {
        lemma_unknown_key(m, transform_fields(), i);
    }
    if unknown_key(m, load_fields(), i) {
        lemma_unknown_key(m, load_fields(), i);
    }
}

/// A connector with a key that is no field of its variant does not decode.
pub proof fn law_unknown_connector_field(n: NodeModel, i: int)
    requires
        n.entries() is Some,
    ensures
        unknown_key(n.entries()->0, source_fields(), i) ==> source_of(n) is None,
        unknown_key(n.entries()->0, filesystem_destination_fields(), i) && text_field(
            n.entries()->0,
            "type"@,
        ) == Some("filesystem"@) ==> destination_of(n) is None,
        unknown_key(n.entries()->0, postgres_destination_fields(), i) && text_field(
            n.entries()->0,
            "type"@,
        ) == Some("postgres"@) ==> destination_of(n) is None,
{
    let m = n.entries()->0;
    if unknown_key(m, source_fields(), i) {
        lemma_unknown_key(m, source_fields(), i);
    }
    if unknown_key(m, filesystem_destination_fields(), i) {
        lemma_unknown_key(m, filesystem_destination_fields(), i);
    }
    if unknown_key(m, postgres_destination_fields(), i) {
        lemma_unknown_key(m, postgres_destination_fields(), i);
        if text_field(m, "type"@) == Some("postgres"@) {
            reveal_strlit("postgres");
            reveal_strlit("filesystem");
            assert("postgres"@.len() != "filesystem"@.len());
        }
    }
}

/// An optional field that a connector leaves out is absent, and leaving it
/// out is no failure.
pub proof fn law_optional_field(m: Seq<(NodeModel, NodeModel)>, key: Seq<char>)
    requires
        lacks(m, key),
    ensures
        optional_mode(m, key) == Some(None::<WriteMode>),
        optional_text(m, key) == Some(None::<Seq<char>>),
{
    lemma_lacking_field(m, key, 0);
}

/// A connector whose `type` names no variant does not decode.
pub proof fn law_unknown_tag(n: NodeModel)
    requires
        n.entries() is Some,
        text_field(n.entries()->0, "type"@) != Some("filesystem"@),
    ensures
        source_of(n) is None,
        text_field(n.entries()->0, "type"@) != Some("postgres"@) ==> destination_of(n) is None,
{
}

/// Failure is handed upwards: a list with one connector that does not
/// decode does not decode.
pub proof fn law_connector_failure(n: NodeModel, i: int)
    ensures
        n.entries() is Some && 0 <= i < n.entries()->0.len() && source_of(n.entries()->0[i].1)
            is None ==> sources_of(n) is None,
        n is Sequence && 0 <= i < n->Sequence_0.len() && destination_of(n->Sequence_0[i])
            is None ==> destinations_of(n) is None,
{
    if n.entries() is Some && 0 <= i < n.entries()->0.len() && source_of(n.entries()->0[i].1)
        is None {
        assert(!source_entry_ok(n.entries()->0, i));
    }
}

/// Failure is handed upwards: a section whose list does not decode does not
/// decode, and a document with such a section is malformed.
pub proof fn law_section_failure(n: NodeModel)
    requires
        n.entries() is Some,
    ensures
        field(n.entries()->0, "sources"@) is Some && sources_of(field(n.entries()->0, "sources"@)->0)
            is None ==> extract_of(n) is None,
        field(n.entries()->0, "destinations"@) is Some && destinations_of(
            field(n.entries()->0, "destinations"@)->0,
        ) is None ==> load_of(n) is None,
        field(n.entries()->0, "extract"@) is Some && extract_of(field(n.entries()->0, "extract"@)->0)
            is None ==> outcome_of(Some(n)) == Err::<ConfigModel, Failure>(Failure::Malformed),
        field(n.entries()->0, "transform"@) is Some && transform_of(
            field(n.entries()->0, "transform"@)->0,
        ) is None ==> outcome_of(Some(n)) == Err::<ConfigModel, Failure>(Failure::Malformed),
        field(n.entries()->0, "load"@) is Some && load_of(field(n.entries()->0, "load"@)->0)
            is None ==> outcome_of(Some(n)) == Err::<ConfigModel, Failure>(Failure::Malformed),
{
}

/// An engine that is not the supported one is the first rule broken,
/// whatever the sources and destinations are.
pub proof fn law_unsupported_engine(c: ConfigModel)
    ensures
        c.engine != Engine::Datafusion ==> broken_rule(c) == Some(Failure::UnsupportedEngine),
        broken_rule(c) == Some(Failure::UnsupportedEngine) ==> c.engine != Engine::Datafusion,
{
}

/// A transform section whose engine is not the name of an engine does not
/// decode, so a document with such a section is malformed and no rule is
/// looked at.
pub proof fn law_engine_name(n: NodeModel, t: NodeModel)
    requires
        n.entries() is Some,
        t.entries() is Some,
        field(n.entries()->0, "transform"@) == Some(t),
        field(t.entries()->0, "engine"@) != Some(NodeModel::Text("datafusion"@)),
    ensures
        transform_of(t) is None,
        outcome_of(Some(n)) == Err::<ConfigModel, Failure>(Failure::Malformed),
{
}

/// A job without sources breaks the rule on sources, also where it has no
/// destinations either; only the engine is looked at before.
pub proof fn law_no_sources(c: ConfigModel)
    requires
        c.sources.len() == 0,
    ensures
        c.engine == Engine::Datafusion ==> broken_rule(c) == Some(Failure::NoSources),
        broken_rule(c) == Some(Failure::NoSources) || broken_rule(c) == Some(
            Failure::UnsupportedEngine,
        ),
{
}

/// A well-shaped document without sources fails with the error on sources.
pub proof fn law_document_without_sources(n: NodeModel)
    requires
        config_of(n) is Some,
        config_of(n)->0.sources.len() == 0,
    ensures
        outcome_of(Some(n)) == Err::<ConfigModel, Failure>(Failure::NoSources),
{
}

/// The rule on destinations is broken only where the other two are kept.
pub proof fn law_no_destinations(c: ConfigModel)
    ensures
        broken_rule(c) == Some(Failure::NoDestinations) <==> c.engine == Engine::Datafusion
            && c.sources.len() > 0 && c.destinations.len() == 0,
{
}

/// A job that comes out of parsing has the supported engine, at least one
/// source and at least one destination.
pub proof fn law_accepted_job(tree: Option<NodeModel>)
    requires
        outcome_of(tree) is Ok,
    ensures
        tree is Some,
        config_of(tree->0) == Some(outcome_of(tree)->Ok_0),
        outcome_of(tree)->Ok_0.engine == Engine::Datafusion,
        outcome_of(tree)->Ok_0.sources.len() > 0,
        outcome_of(tree)->Ok_0.destinations.len() > 0,
{
}

/// The sources of a job stand in the order of the document, under the keys
/// of the document, and no key stands twice.
pub proof fn law_source_order(n: NodeModel)
    requires
        sources_of(n) is Some,
    ensures
        n.entries() is Some,
        sources_of(n)->0.len() == n.entries()->0.len(),
        forall|i: int|
            0 <= i < sources_of(n)->0.len() ==> n.entries()->0[i].0 == NodeModel::Text(
                (#[trigger] sources_of(n)->0[i]).0,
            ) && source_of(n.entries()->0[i].1) == Some(sources_of(n)->0[i].1),
        forall|i: int, j: int|
            0 <= i < j < sources_of(n)->0.len() ==> (#[trigger] sources_of(n)->0[i]).0 != (
            #[trigger] sources_of(n)->0[j]).0,
{
    let m = n.entries()->0;
    let s = sources_of(n)->0;
    assert forall|i: int| 0 <= i < s.len() implies m[i].0 == NodeModel::Text((#[trigger] s[i]).0)
        && source_of(m[i].1) == Some(s[i].1) by {
        assert(source_entry_ok(m, i));
    }
    assert forall|i: int, j: int| 0 <= i < j < s.len() implies (#[trigger] s[i]).0 != (
    #[trigger] s[j]).0 by {
        assert(source_entry_ok(m, i));
        assert(source_entry_ok(m, j));
        assert(m[i].0 != m[j].0);
    }
}

} // verus!
