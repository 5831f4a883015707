//! YAML values: the shapes that a document is made of, as values of the
//! `serde_yaml` crate, and their serialisation by that crate.

use vstd::prelude::*;
use vstd::string::*;

verus! {

/// Mathematical model of a YAML value, as far as documents need it.
pub ghost enum YamlTree {
    /// A boolean.
    Flag(bool),
    /// A string.
    Text(Seq<char>),
    /// A sequence.
    List(Seq<YamlTree>),
    /// A mapping with string keys, in the order of its entries.
    Table(Seq<(Seq<char>, YamlTree)>),
    /// Any other value: null, a number, a tagged value, a mapping with a
    /// key that is no string. The number tells such values apart. No
    /// document holds one.
    Other(nat),
}

/// `serde_yaml::Value`, of which nothing but the name is taken.
#[verifier::external_type_specification]
#[verifier::external_body]
pub struct ExYamlValue(serde_yaml::Value);

/// What a `serde_yaml::Value` holds.
pub uninterp spec fn value_tree(value: serde_yaml::Value) -> YamlTree;

/// The YAML text that `serde_yaml` writes for a value that holds `tree`,
/// or nothing where it writes none and fails.
pub uninterp spec fn yaml_text(tree: YamlTree) -> Option<Seq<char>>;

/// What the values hold, in order.
pub open spec fn value_trees(values: Seq<serde_yaml::Value>) -> Seq<YamlTree> {
    Seq::new(values.len(), |i: int| value_tree(values[i]))
}

/// The entries with what their values hold, in order.
pub open spec fn entry_trees(entries: Seq<(String, serde_yaml::Value)>) -> Seq<
    (Seq<char>, YamlTree),
> {
    Seq::new(entries.len(), |i: int| (entries[i].0@, value_tree(entries[i].1)))
}

/// No key occurs twice.
pub open spec fn distinct_keys(entries: Seq<(String, serde_yaml::Value)>) -> bool {
    forall|i: int, j: int| 0 <= i < j < entries.len() ==> entries[i].0@ != entries[j].0@
}

/// The strings as text trees, in order.
pub open spec fn text_trees(texts: Seq<Seq<char>>) -> Seq<YamlTree> {
    Seq::new(texts.len(), |i: int| YamlTree::Text(texts[i]))
}

/// A string value.
///
/// Trusted: the body is the variant `serde_yaml::Value::String` around a
/// copy of the text.
#[verifier::external_body]
pub(crate) fn text_value(text: &str) -> (r: serde_yaml::Value)
    ensures
        value_tree(r) == YamlTree::Text(text@),
{
    serde_yaml::Value::String(text.to_string())
}

/// A boolean value.
///
/// Trusted: the body is the variant `serde_yaml::Value::Bool`.
#[verifier::external_body]
pub(crate) fn flag_value(flag: bool) -> (r: serde_yaml::Value)
    ensures
        value_tree(r) == YamlTree::Flag(flag),
{
    serde_yaml::Value::Bool(flag)
}

/// A sequence value.
///
/// Trusted: the body is the variant `serde_yaml::Value::Sequence` around
/// the items, which are a vector there too.
#[verifier::external_body]
pub(crate) fn list_value(items: Vec<serde_yaml::Value>) -> (r: serde_yaml::Value)
    ensures
        value_tree(r) == YamlTree::List(value_trees(items@)),
{
    serde_yaml::Value::Sequence(items)
}

/// A mapping value.
///
/// Trusted: the body collects the entries, their keys as string values,
/// into a `serde_yaml::Mapping`. That mapping keeps its entries in the
/// order of their first insertion; as no key is given twice, that is the
/// order of the entries.
#[verifier::external_body]
pub(crate) fn table_value(entries: Vec<(String, serde_yaml::Value)>) -> (r: serde_yaml::Value)
    requires
        distinct_keys(entries@),
    ensures
        value_tree(r) == YamlTree::Table(entry_trees(entries@)),
{
    serde_yaml::Value::Mapping(
        entries.into_iter().map(|e| (serde_yaml::Value::String(e.0), e.1)).collect(),
    )
}

/// Writes a value as YAML text, or says why it could not.
///
/// Trusted: the body is `serde_yaml::to_string`, which walks the value and
/// writes into memory. Whether it succeeds, and the text that it writes,
/// depend on what the value holds alone; the contract gives that outcome
/// its name. It does not claim that the call succeeds, and it claims
/// nothing of the message where it fails.
#[verifier::external_body]
pub(crate) fn write_value(value: &serde_yaml::Value) -> (r: Result<String, String>)
    ensures
        match r {
            Ok(text) => yaml_text(value_tree(*value)) == Some(text@),
            Err(_) => yaml_text(value_tree(*value)) is None,
        },
{
    serde_yaml::to_string(value).map_err(|e| e.to_string())
}

/// A sequence of string values.
pub fn texts_value(texts: &Vec<String>) -> (r: serde_yaml::Value)
    ensures
        value_tree(r) == YamlTree::List(text_trees(texts.deep_view())),
{
    let mut items: Vec<serde_yaml::Value> = Vec::new();
    let mut i: usize = 0;
    while i < texts.len()
        invariant
            i <= texts.len(),
            items.len() == i,
            value_trees(items@) == text_trees(texts.deep_view().take(i as int)),
        decreases texts.len() - i,
    {
        let ghost before = items@;
        items.push(text_value(texts[i].as_str()));
        assert forall|k: int| 0 <= k <= i implies value_trees(items@)[k] == text_trees(
            texts.deep_view().take(i + 1),
        )[k] by {
            if k < i {
                assert(value_trees(before)[k] == text_trees(texts.deep_view().take(i as int))[k]);
            }
        }
        assert(value_trees(items@) =~= text_trees(texts.deep_view().take(i + 1)));
        i += 1;
    }
    assert(texts.deep_view().take(texts.len() as int) =~= texts.deep_view());
    list_value(items)
}

/// The entries of a mapping while it is built. No key occurs twice: every
/// key is noted as used, and only keys that are not used yet are added.
pub struct Mapping {
    pub entries: Vec<(String, serde_yaml::Value)>,
    pub used: Ghost<Set<Seq<char>>>,
}

impl Mapping {
    /// The entries so far with what their values hold.
    pub open spec fn trees(&self) -> Seq<(Seq<char>, YamlTree)> {
        entry_trees(self.entries@)
    }

    /// No key occurs twice, and every key is noted as used.
    pub open spec fn wf(&self) -> bool {
        &&& distinct_keys(self.entries@)
        &&& forall|i: int|
            0 <= i < self.entries@.len() ==> self.used@.contains(#[trigger] self.entries@[i].0@)
    }

    /// A mapping without entries.
    pub fn new() -> (r: Self)
        ensures
            r.wf(),
            r.used@ == Set::<Seq<char>>::empty(),
            r.trees() == Seq::<(Seq<char>, YamlTree)>::empty(),
    {
        let r = Mapping { entries: Vec::new(), used: Ghost(Set::empty()) };
        assert(r.trees() =~= Seq::empty());
        r
    }

    /// Adds an entry behind the others.
    pub fn put(&mut self, key: &str, value: serde_yaml::Value)
        requires
            old(self).wf(),
            !old(self).used@.contains(key@),
        ensures
            final(self).wf(),
            final(self).used@ == old(self).used@.insert(key@),
            final(self).trees() == old(self).trees().push((key@, value_tree(value))),
    {
        let ghost before = self.entries@;
        self.entries.push((String::from_str(key), value));
        self.used = Ghost(self.used@.insert(key@));
        proof {
            assert(self.trees() =~= old(self).trees().push((key@, value_tree(value))));
            assert forall|i: int, j: int| 0 <= i < j < self.entries@.len() implies self.entries@[i].0@
                != self.entries@[j].0@ by {
                assert(self.entries@[i] == before[i]);
                if j < before.len() {
                    assert(self.entries@[j] == before[j]);
                }
            }
            assert forall|i: int| 0 <= i < self.entries@.len() implies self.used@.contains(
                #[trigger] self.entries@[i].0@,
            ) by {
                if i < before.len() {
                    assert(self.entries@[i] == before[i]);
                }
            }
        }
    }

    /// Notes a key as used without adding an entry.
    pub fn omit(&mut self, key: &str)
        requires
            old(self).wf(),
        ensures
            final(self).wf(),
            final(self).used@ == old(self).used@.insert(key@),
            final(self).trees() == old(self).trees(),
    {
        self.used = Ghost(self.used@.insert(key@));
    }

    /// The mapping as a value.
    pub fn finish(self) -> (r: serde_yaml::Value)
        requires
            self.wf(),
        ensures
            value_tree(r) == YamlTree::Table(self.trees()),
    {
        table_value(self.entries)
    }
}

} // verus!
