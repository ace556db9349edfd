//! Reading a mapping node as a record: finding a field by name, and holding
//! the mapping to a closed list of field names.

use vstd::prelude::*;
use crate::document::{pairs, NodeModel, YamlNode};

verus! {

/// The index of the first entry at or after `from` whose key is the text
/// `key`; the number of entries if there is none.
pub open spec fn first_index(entries: Seq<(NodeModel, NodeModel)>, key: Seq<char>, from: int) -> int
    decreases entries.len() - from,
{
    if from < 0 || from >= entries.len() {
        entries.len() as int
    } else if entries[from].0 == NodeModel::Text(key) {
        from
    } else {
        first_index(entries, key, from + 1)
    }
}

/// The value of the first entry whose key is the text `key`.
pub open spec fn field(entries: Seq<(NodeModel, NodeModel)>, key: Seq<char>) -> Option<NodeModel> {
    let i = first_index(entries, key, 0);
    if i < entries.len() {
        Some(entries[i].1)
    } else {
        None
    }
}

/// The text held by the field `key`, if the field is there and is text.
pub open spec fn text_field(entries: Seq<(NodeModel, NodeModel)>, key: Seq<char>) -> Option<Seq<char>> {
    match field(entries, key) {
        Some(NodeModel::Text(s)) => Some(s),
        _ => None,
    }
}

/// No entry before the `i`-th has the same key as the `i`-th.
pub open spec fn no_earlier(entries: Seq<(NodeModel, NodeModel)>, i: int) -> bool {
    forall|j: int| 0 <= j < i ==> (#[trigger] entries[j]).0 != entries[i].0
}

/// The `i`-th entry is admitted by a record with the field names `names`:
/// its key is text, is one of the names, and has not occurred before.
pub open spec fn admitted(entries: Seq<(NodeModel, NodeModel)>, names: Seq<Seq<char>>, i: int) -> bool {
    match entries[i].0 {
        NodeModel::Text(s) => names.contains(s) && no_earlier(entries, i),
        _ => false,
    }
}

/// Every entry is admitted: no unknown key, no key twice.
pub open spec fn strict(entries: Seq<(NodeModel, NodeModel)>, names: Seq<Seq<char>>) -> bool {
    forall|i: int| 0 <= i < entries.len() ==> #[trigger] admitted(entries, names, i)
}

/// The field names of a record, as mathematical values.
pub open spec fn names_model(names: Seq<&'static str>) -> Seq<Seq<char>> {
    Seq::new(names.len(), |j: int| names[j]@)
}

/// Whether two strings hold the same text.
pub fn same_text(a: &str, b: &str) -> (r: bool)
    ensures
        r == (a@ == b@),
{
    let x = a.to_owned();
    let y = b.to_owned();
    x == y
}

/// Whether a node is the text `text`.
pub fn node_is_text(node: &YamlNode, text: &str) -> (r: bool)
    ensures
        r == (node@ == NodeModel::Text(text@)),
{
    match node {
        YamlNode::Text(s) => same_text(s.as_str(), text),
        _ => false,
    }
}

/// Looks a field up by name.
pub fn get_field<'a>(entries: &'a Vec<(YamlNode, YamlNode)>, key: &str) -> (r: Option<&'a YamlNode>)
    ensures
        match r {
            Some(node) => field(pairs(entries@), key@) == Some(node@),
            None => field(pairs(entries@), key@) is None,
        },
{
    let mut i: usize = 0;
    while i < entries.len()
        invariant
            i <= entries.len(),
            first_index(pairs(entries@), key@, 0) == first_index(pairs(entries@), key@, i as int),
        decreases entries.len() - i,
    {
        if node_is_text(&entries[i].0, key) {
            return Some(&entries[i].1);
        }
        i += 1;
    }
    None
}

/// Looks up a field that has to hold text, and copies the text.
pub fn get_text(entries: &Vec<(YamlNode, YamlNode)>, key: &str) -> (r: Option<String>)
    ensures
        match r {
            Some(s) => text_field(pairs(entries@), key@) == Some(s@),
            None => text_field(pairs(entries@), key@) is None,
        },
{
    match get_field(entries, key) {
        Some(YamlNode::Text(s)) => Some(s.clone()),
        _ => None,
    }
}

fn is_name(key: &str, names: &Vec<&'static str>) -> (r: bool)
    ensures
        r == names_model(names@).contains(key@),
{
    let mut j: usize = 0;
    while j < names.len()
        invariant
            j <= names.len(),
            forall|k: int| 0 <= k < j ==> names_model(names@)[k] != key@,
        decreases names.len() - j,
    {
        if same_text(names[j], key) {
            assert(names_model(names@)[j as int] == key@);
            return true;
        }
        j += 1;
    }
    false
}

pub(crate) fn key_is_new(entries: &Vec<(YamlNode, YamlNode)>, i: usize, key: &str) -> (r: bool)
    requires
        i < entries.len(),
        entries[i as int].0@ == NodeModel::Text(key@),
    ensures
        r == no_earlier(pairs(entries@), i as int),
{
    let mut j: usize = 0;
    while j < i
        invariant
            j <= i,
            i < entries.len(),
            entries[i as int].0@ == NodeModel::Text(key@),
            forall|k: int| 0 <= k < j ==> (#[trigger] pairs(entries@)[k]).0 != NodeModel::Text(key@),
        decreases i - j,
    {
        if node_is_text(&entries[j].0, key) {
            assert(pairs(entries@)[j as int].0 == pairs(entries@)[i as int].0);
            return false;
        }
        j += 1;
    }
    true
}

/// Whether a mapping holds only fields named in `names`, each at most once.
pub fn is_strict(entries: &Vec<(YamlNode, YamlNode)>, names: &Vec<&'static str>) -> (r: bool)
    ensures
        r == strict(pairs(entries@), names_model(names@)),
{
    let mut i: usize = 0;
    while i < entries.len()
        invariant
            i <= entries.len(),
            forall|k: int| 0 <= k < i ==> #[trigger] admitted(pairs(entries@), names_model(names@), k),
        decreases entries.len() - i,
    {
        let ok = match &entries[i].0 {
            YamlNode::Text(s) => is_name(s.as_str(), names) && key_is_new(entries, i, s.as_str()),
            _ => false,
        };
        assert(ok == admitted(pairs(entries@), names_model(names@), i as int));
        if !ok {
            return false;
        }
        i += 1;
    }
    true
}

} // verus!
