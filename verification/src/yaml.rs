//! A model of loaded YAML documents and the loader that produces it.

use saphyr::{LoadableYamlNode, Scalar, Yaml};
use vstd::prelude::*;

verus! {

/// A loaded YAML node: the data that a `saphyr` node holds, as plain values.
pub enum YamlNode {
    Null,
    Boolean(bool),
    Integer(i64),
    /// A floating-point scalar (its value is not kept).
    Real,
    Str(String),
    Sequence(Vec<YamlNode>),
    Mapping(Vec<YamlEntry>),
    /// A node under a non-core tag: handle, suffix, node.
    Tagged(String, String, Box<YamlNode>),
    Alias(usize),
    /// A scalar that was not resolved to a value.
    Representation(String),
    BadValue,
}

/// One key/value pair of a mapping, in document order.
pub struct YamlEntry {
    pub key: YamlNode,
    pub value: YamlNode,
}

/// The mathematical value of a YAML node.
pub enum YamlValue {
    Null,
    Boolean(bool),
    Integer(int),
    Real,
    Str(Seq<char>),
    Sequence(Seq<YamlValue>),
    Mapping(Seq<(YamlValue, YamlValue)>),
    Tagged(Seq<char>, Seq<char>, Box<YamlValue>),
    Alias(nat),
    Representation(Seq<char>),
    BadValue,
}

impl YamlNode {
    pub open spec fn value(&self) -> YamlValue
        decreases self,
    {
        match self {
            YamlNode::Null => YamlValue::Null,
            YamlNode::Boolean(b) => YamlValue::Boolean(*b),
            YamlNode::Integer(i) => YamlValue::Integer(*i as int),
            YamlNode::Real => YamlValue::Real,
            YamlNode::Str(s) => YamlValue::Str(s@),
            YamlNode::Sequence(items) => YamlValue::Sequence(
                Seq::new(
                    items@.len(),
                    |i: int|
                        if 0 <= i < items@.len() {
                            proof {
                                assert(decreases_to!(items => items@));
                                assert(decreases_to!(items@ => items@[i]));
                            }
                            items@[i].value()
                        } else {
                            YamlValue::BadValue
                        },
                ),
            ),
            YamlNode::Mapping(entries) => YamlValue::Mapping(
                Seq::new(
                    entries@.len(),
                    |i: int|
                        if 0 <= i < entries@.len() {
                            proof {
                                assert(decreases_to!(entries => entries@));
                                assert(decreases_to!(entries@ => entries@[i]));
                            }
                            (entries@[i].key.value(), entries@[i].value.value())
                        } else {
                            (YamlValue::BadValue, YamlValue::BadValue)
                        },
                ),
            ),
            YamlNode::Tagged(h, s, n) => YamlValue::Tagged(h@, s@, Box::new(n.value())),
            YamlNode::Alias(a) => YamlValue::Alias(*a as nat),
            YamlNode::Representation(s) => YamlValue::Representation(s@),
            YamlNode::BadValue => YamlValue::BadValue,
        }
    }
}

/// What `saphyr` loads from `text`: the documents, or `None` when loading fails.
pub uninterp spec fn loaded_documents(text: Seq<char>) -> Option<Seq<YamlValue>>;

/// The values of a sequence of nodes.
pub open spec fn node_values(nodes: Seq<YamlNode>) -> Seq<YamlValue> {
    Seq::new(nodes.len(), |i: int| nodes[i].value())
}

#[verifier::external_type_specification]
#[verifier::external_body]
pub struct ExScanError(saphyr::ScanError);

#[verifier::external_type_specification]
#[verifier::external_body]
pub struct ExYaml<'input>(saphyr::Yaml<'input>);

#[verifier::external_type_specification]
#[verifier::external_body]
pub struct ExScalar<'input>(saphyr::Scalar<'input>);

/// Loads `text` with `saphyr::Yaml::load_from_str` (scalars resolved to values).
/// Claimed: it succeeds exactly when `loaded_documents(text)` is `Some`, and then the
/// documents, converted node for node by `node_from_saphyr`, have those values.
#[verifier::external_body]
pub fn load_documents(text: &str) -> (res: Result<Vec<YamlNode>, saphyr::ScanError>)
    ensures
        res is Ok <==> loaded_documents(text@) is Some,
        res matches Ok(docs) ==> loaded_documents(text@) == Some(node_values(docs@)),
{
    match Yaml::load_from_str(text) {
        Ok(docs) => Ok(docs.iter().map(node_from_saphyr).collect()),
        Err(e) => Err(e),
    }
}

/// Converts a `saphyr` node into a `YamlNode`, variant for variant; used only by
/// `load_documents`, whose contract covers the result.
#[verifier::external_body]
fn node_from_saphyr(y: &Yaml) -> YamlNode {
    match y {
        Yaml::Value(s) => node_from_scalar(s),
        Yaml::Sequence(v) => YamlNode::Sequence(v.iter().map(node_from_saphyr).collect()),
        Yaml::Mapping(m) => YamlNode::Mapping(
            m.iter().map(|(k, v)| YamlEntry { key: node_from_saphyr(k), value: node_from_saphyr(v) }).collect(),
        ),
        Yaml::Tagged(t, n) => YamlNode::Tagged(t.handle.clone(), t.suffix.clone(), Box::new(node_from_saphyr(n))),
        Yaml::Alias(a) => YamlNode::Alias(*a),
        Yaml::Representation(s, _, _) => YamlNode::Representation(s.to_string()),
        Yaml::BadValue => YamlNode::BadValue,
    }
}

/// Converts a resolved `saphyr` scalar into a `YamlNode`, variant for variant
/// (a floating-point value keeps only its kind); used only by `node_from_saphyr`.
#[verifier::external_body]
fn node_from_scalar(s: &Scalar) -> YamlNode {
    match s {
        Scalar::Null => YamlNode::Null,
        Scalar::Boolean(b) => YamlNode::Boolean(*b),
        Scalar::Integer(i) => YamlNode::Integer(*i),
        Scalar::FloatingPoint(_) => YamlNode::Real,
        Scalar::String(t) => YamlNode::Str(t.to_string()),
    }
}

} // verus!
