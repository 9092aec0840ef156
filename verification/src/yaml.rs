//! Reading and writing documents as YAML text, through the `yaml_rust` crate.
//!
//! What the crate's loader and emitter compute is not proved here. It is
//! given three names, and the contracts of this module say what is done with
//! what they return.

use crate::error::{ConfigError, ErrorView};
use crate::tree::{Node, Tree};
use vstd::prelude::*;
use yaml_rust::{EmitError, ScanError, Yaml, YamlEmitter, YamlLoader};

verus! {

/// `yaml_rust::Yaml`, a YAML value as the loader builds it.
#[verifier::external_type_specification]
#[verifier::external_body]
pub struct ExYaml(yaml_rust::Yaml);

/// `yaml_rust::ScanError`, the loader's report of a text that is no YAML.
#[verifier::external_type_specification]
#[verifier::external_body]
pub struct ExScanError(yaml_rust::ScanError);

/// `yaml_rust::EmitError`, the emitter's report of a failed write.
#[verifier::external_type_specification]
#[verifier::external_body]
pub struct ExEmitError(yaml_rust::EmitError);

/// What a `yaml_rust::Yaml` value holds: its variant and, below it, its
/// scalars, its elements in order and its entries in order of insertion.
pub uninterp spec fn yaml_tree(value: Yaml) -> Tree;

/// The documents that `YamlLoader::load_from_str` reads from a text, in
/// order; `None` for a text that it rejects.
pub uninterp spec fn yaml_documents(text: Seq<char>) -> Option<Seq<Tree>>;

/// The text that `YamlEmitter::dump` writes for a document; `None` when it
/// reports an error.
pub uninterp spec fn yaml_text(document: Tree) -> Option<Seq<char>>;

/// What each of the loaded values holds, in order.
pub open spec fn loaded(documents: Seq<Yaml>) -> Seq<Tree> {
    Seq::new(documents.len(), |i: int| yaml_tree(documents[i]))
}

/// Calls `yaml_rust::YamlLoader::load_from_str`. The contract claims only
/// that what comes back is a function of the text: the documents that
/// `yaml_documents` names, or an error where it names none.
#[verifier::external_body]
fn load(text: &str) -> (r: Result<Vec<Yaml>, ScanError>)
    ensures
        r matches Ok(documents) ==> yaml_documents(text@) == Some(loaded(documents@)),
        r is Err ==> yaml_documents(text@) is None,
{
    YamlLoader::load_from_str(text)
}

/// Copies a `yaml_rust::Yaml` value into a `Node`, variant for variant: the
/// strings and numbers as they are, the elements of an array in order, the
/// entries of a hash in the order in which `LinkedHashMap::iter` hands them
/// out. The contract claims that the node's model is what the value holds.
#[verifier::external_body]
fn node_of(value: &Yaml) -> (node: Node)
    ensures
        node@ == yaml_tree(*value),
{
    match value {
        Yaml::Real(s) => Node::Real(s.clone()),
        Yaml::Integer(i) => Node::Integer(*i),
        Yaml::String(s) => Node::Str(s.clone()),
        Yaml::Boolean(b) => Node::Boolean(*b),
        Yaml::Array(items) => Node::Array(items.iter().map(node_of).collect()),
        Yaml::Hash(entries) => Node::Hash(
            entries.iter().map(|(k, v)| (node_of(k), node_of(v))).collect(),
        ),
        Yaml::Alias(id) => Node::Alias(*id),
        Yaml::Null => Node::Null,
        Yaml::BadValue => Node::BadValue,
    }
}

/// Calls `yaml_rust::YamlEmitter::dump` on a new emitter that writes into a
/// string. The contract claims only that what comes back is a function of
/// what the value holds: the text that `yaml_text` names, or an error where
/// it names none.
#[verifier::external_body]
fn dump(document: &Yaml) -> (r: Result<String, EmitError>)
    ensures
        r matches Ok(text) ==> yaml_text(yaml_tree(*document)) == Some(text@),
        r is Err ==> yaml_text(yaml_tree(*document)) is None,
{
    let mut text = String::new();
    let written = YamlEmitter::new(&mut text).dump(document);
    written.map(|_| text)
}

/// The first document of a text; `None` where the text is no YAML or holds
/// no document.
pub open spec fn first_document(text: Seq<char>) -> Option<Tree> {
    match yaml_documents(text) {
        Some(documents) => if documents.len() > 0 {
            Some(documents[0])
        } else {
            None
        },
        None => None,
    }
}

/// What making a text canonical returns: the first document of the text,
/// written out again.
pub open spec fn canonical(text: Seq<char>) -> Result<Seq<char>, ErrorView> {
    match first_document(text) {
        None => Err(ErrorView::MalformedDocument),
        Some(document) => match yaml_text(document) {
            Some(written) => Ok(written),
            None => Err(ErrorView::OutputWriteFailed),
        },
    }
}

/// Reads the first document of a YAML text. Further documents of the text
/// are ignored; a text that is no YAML, or holds no document, is malformed.
pub fn parse_document(text: &str) -> (r: Result<Node, ConfigError>)
    ensures
        match r {
            Ok(node) => first_document(text@) == Some(node@),
            Err(e) => first_document(text@) is None && e@ == ErrorView::MalformedDocument,
        },
{
    match load(text) {
        Ok(documents) => {
            if documents.len() > 0 {
                Ok(node_of(&documents[0]))
            } else {
                Err(ConfigError::MalformedDocument)
            }
        },
        Err(_) => Err(ConfigError::MalformedDocument),
    }
}

/// Reads the first document of a YAML text and writes it out again, which
/// gives the text its canonical layout.
pub fn canonical_text(text: &str) -> (r: Result<String, ConfigError>)
    ensures
        match r {
            Ok(written) => canonical(text@) == Ok::<Seq<char>, ErrorView>(written@),
            Err(e) => canonical(text@) == Err::<Seq<char>, ErrorView>(e@),
        },
{
    match load(text) {
        Ok(documents) => {
            if documents.len() > 0 {
                match dump(&documents[0]) {
                    Ok(written) => Ok(written),
                    Err(_) => Err(ConfigError::OutputWriteFailed),
                }
            } else {
                Err(ConfigError::MalformedDocument)
            }
        },
        Err(_) => Err(ConfigError::MalformedDocument),
    }
}

} // verus!
