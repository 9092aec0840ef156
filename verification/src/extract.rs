//! From the text of a configuration to the text of the reduced document, and
//! to the list of the contexts that a configuration holds.

use crate::error::{ConfigError, ErrorView};
use crate::locate::{
    context_names, find_cluster, find_context, find_user, list_contexts, lookup_cluster,
    lookup_context, lookup_user, texts, verdict,
};
use crate::project::{projection, projection_text};
use crate::records::{Selection, SelectionView};
use crate::tree::{Node, Tree};
use crate::yaml::{canonical, canonical_text, first_document, parse_document};
use vstd::prelude::*;

verus! {

/// The context named `name` with the cluster and the user that it names, or
/// the error of the first of the three searches that fails.
pub open spec fn resolution(doc: Tree, name: Seq<char>) -> Result<SelectionView, ErrorView> {
    match lookup_context(doc, name) {
        Err(e) => Err(e),
        Ok(context) => match lookup_cluster(doc, context.cluster) {
            Err(e) => Err(e),
            Ok(cluster) => match lookup_user(doc, context.user) {
                Err(e) => Err(e),
                Ok(user) => Ok(SelectionView { context, cluster, user }),
            },
        },
    }
}

/// The text of the reduced document for the context `name` of the
/// configuration `source`, in canonical layout.
pub open spec fn extraction(source: Seq<char>, name: Seq<char>) -> Result<Seq<char>, ErrorView> {
    match first_document(source) {
        None => Err(ErrorView::MalformedDocument),
        Some(doc) => match resolution(doc, name) {
            Err(e) => Err(e),
            Ok(selection) => canonical(projection(selection)),
        },
    }
}

/// The names in `names`, each followed by a line break.
pub open spec fn lines(names: Seq<Seq<char>>) -> Seq<char>
    decreases names.len(),
{
    if names.len() == 0 {
        Seq::empty()
    } else {
        lines(names.drop_last()) + names.last() + "\n"@
    }
}

/// The list of the contexts of the configuration `source`: one line for
/// each, in document order.
pub open spec fn listing_of(source: Seq<char>) -> Result<Seq<char>, ErrorView> {
    match first_document(source) {
        None => Err(ErrorView::MalformedDocument),
        Some(doc) => match context_names(doc) {
            Err(e) => Err(e),
            Ok(names) => Ok(lines(names)),
        },
    }
}

/// Finds the context named `name`, then the cluster and the user that it
/// names.
pub fn resolve(name: &str, kubeconfig: &Node) -> (r: Result<Selection, ConfigError>)
    ensures
        verdict(r) == resolution(kubeconfig@, name@),
{
    let context = find_context(name, kubeconfig)?;
    let cluster = find_cluster(context.cluster.as_str(), kubeconfig)?;
    let user = find_user(context.user.as_str(), kubeconfig)?;
    Ok(Selection { context, cluster, user })
}

/// Writes the reduced document for `selection` and gives it its canonical
/// layout.
pub fn render(selection: &Selection) -> (r: Result<String, ConfigError>)
    ensures
        match r {
            Ok(text) => canonical(projection(selection@)) == Ok::<Seq<char>, ErrorView>(text@),
            Err(e) => canonical(projection(selection@)) == Err::<Seq<char>, ErrorView>(e@),
        },
{
    let text = projection_text(selection);
    canonical_text(text.as_str())
}

/// Reads the configuration `source` and returns the text of the reduced
/// document for its context `name`.
pub fn extract(source: &str, name: &str) -> (r: Result<String, ConfigError>)
    ensures
        match r {
            Ok(text) => extraction(source@, name@) == Ok::<Seq<char>, ErrorView>(text@),
            Err(e) => extraction(source@, name@) == Err::<Seq<char>, ErrorView>(e@),
        },
{
    let doc = parse_document(source)?;
    let selection = resolve(name, &doc)?;
    render(&selection)
}

/// The names in `names`, each followed by a line break.
pub fn listing_text(names: &Vec<String>) -> (r: String)
    ensures
        r@ == lines(texts(names@)),
{
    let mut out = String::new();
    let mut i: usize = 0;
    while i < names.len()
        invariant
            0 <= i <= names.len(),
            out@ == lines(texts(names@).take(i as int)),
        decreases names.len() - i,
    {
        proof {
            let upto = texts(names@).take(i + 1);
            assert(upto.drop_last() =~= texts(names@).take(i as int));
        }
        out.append(names[i].as_str());
        out.append("\n");
        i += 1;
    }
    assert(texts(names@).take(i as int) =~= texts(names@));
    out
}

/// Reads the configuration `source` and returns the list of its contexts,
/// one line for each.
pub fn listing(source: &str) -> (r: Result<String, ConfigError>)
    ensures
        match r {
            Ok(text) => listing_of(source@) == Ok::<Seq<char>, ErrorView>(text@),
            Err(e) => listing_of(source@) == Err::<Seq<char>, ErrorView>(e@),
        },
{
    let doc = parse_document(source)?;
    match list_contexts(&doc) {
        Ok(names) => Ok(listing_text(&names)),
        Err(e) => Err(e),
    }
}

} // verus!
