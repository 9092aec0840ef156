//! What holds of the searches, of the listing and of an invocation as a
//! whole, stated over the models that the contracts of the functions use.

use crate::command::{outcome_of, OutcomeView};
use crate::error::{ErrorView, RecordKind};
use crate::extract::{extraction, lines};
use crate::paths::{decimal, digit, output_location};
use crate::locate::{
    context_entry, context_names, context_outcomes, credentials_of, entries_of, has_provider,
    lemma_settle_first_error, lemma_settle_last, lemma_settle_nothing, lookup_context, name_of,
    provider_of,
};
use crate::project::{certificate_lines, credentials_lines, provider_lines};
use crate::records::ContextView;
use crate::tree::{text_in, Tree};
use crate::yaml::first_document;
use vstd::prelude::*;

verus! {

/// Whether an entry of the contexts can be read whatever name is searched:
/// it bears a name, and its record holds a cluster, a namespace and a user.
pub open spec fn sound_context(entry: Tree) -> bool {
    name_of(entry) is Some && context_entry(entry, name_of(entry)->0) is Ok
}

/// The entries of the contexts of `doc`; none where `doc` holds no sequence
/// of contexts.
pub open spec fn contexts(doc: Tree) -> Seq<Tree> {
    match entries_of(doc, RecordKind::Context) {
        Some(entries) => entries,
        None => Seq::empty(),
    }
}

/// Whether `doc` holds a sequence of contexts each of which bears a name.
pub open spec fn names_its_contexts(doc: Tree) -> bool {
    &&& entries_of(doc, RecordKind::Context) is Some
    &&& forall|i: int|
        0 <= i < contexts(doc).len() ==> name_of(#[trigger] contexts(doc)[i]) is Some
}

/// Whether `doc` holds a sequence of contexts each of which can be read.
pub open spec fn sound_contexts(doc: Tree) -> bool {
    &&& entries_of(doc, RecordKind::Context) is Some
    &&& forall|i: int|
        0 <= i < contexts(doc).len() ==> sound_context(#[trigger] contexts(doc)[i])
}

/// Whether the entry at the position `at` of the contexts of `doc` bears the
/// name `name`.
pub open spec fn context_named_at(doc: Tree, name: Seq<char>, at: int) -> bool {
    0 <= at < contexts(doc).len() && name_of(contexts(doc)[at]) == Some(name)
}

/// Whether the entry `entry` holds the context `context`: it bears its name,
/// and the strings of its record are the context's cluster, namespace and
/// user, character for character.
pub open spec fn holds_context(entry: Tree, context: ContextView) -> bool {
    let record = entry.field("context"@);
    &&& name_of(entry) == Some(context.name)
    &&& text_in(record, "cluster"@) == Some(context.cluster)
    &&& text_in(record, "namespace"@) == Some(context.namespace)
    &&& text_in(record, "user"@) == Some(context.user)
}

/// In a document all of whose contexts can be read, a search for a name that
/// the entry at `last` bears, and no later entry, returns the context that
/// this entry holds.
proof fn lemma_last_named_context(doc: Tree, name: Seq<char>, last: int)
    requires
        sound_contexts(doc),
        context_named_at(doc, name, last),
        forall|i: int| last < i ==> !context_named_at(doc, name, i),
    ensures
        lookup_context(doc, name) is Ok,
        holds_context(contexts(doc)[last], lookup_context(doc, name)->Ok_0),
{
    let entries = contexts(doc);
    let outcomes = context_outcomes(entries, name);
    assert forall|i: int| 0 <= i < outcomes.len() implies outcomes[i] is Ok by {}
    assert forall|i: int| last < i < outcomes.len() implies outcomes[i] == Ok::<
        Option<ContextView>,
        ErrorView,
    >(None) by {
        assert(!context_named_at(doc, name, i));
    }
    lemma_settle_last(outcomes, last);
}

/// Among the contexts of `doc`, from the position `from` on, the position of
/// the last one that bears the name `name`.
proof fn lemma_last_position(doc: Tree, name: Seq<char>, from: int) -> (last: int)
    requires
        context_named_at(doc, name, from),
    ensures
        from <= last,
        context_named_at(doc, name, last),
        forall|i: int| last < i ==> !context_named_at(doc, name, i),
    decreases contexts(doc).len() - from,
{
    if exists|i: int| from < i && context_named_at(doc, name, i) {
        let next = choose|i: int| from < i && context_named_at(doc, name, i);
        lemma_last_position(doc, name, next)
    } else {
        from
    }
}

/// In a document all of whose contexts can be read, a search for a name that
/// some entry bears succeeds, and returns a context that an entry of that
/// name holds: its cluster, its namespace and its user are the strings of
/// that entry, with nothing trimmed or changed.
pub proof fn law_context_fields_are_verbatim(doc: Tree, name: Seq<char>, at: int)
    requires
        sound_contexts(doc),
        context_named_at(doc, name, at),
    ensures
        lookup_context(doc, name) is Ok,
        lookup_context(doc, name)->Ok_0.name == name,
        exists|i: int|
            0 <= i < contexts(doc).len() && holds_context(
                #[trigger] contexts(doc)[i],
                lookup_context(doc, name)->Ok_0,
            ),
{
    let last = lemma_last_position(doc, name, at);
    lemma_last_named_context(doc, name, last);
}

/// Where two entries of the contexts bear the same name, a search for it
/// returns the context that the later one holds, if no entry after that
/// bears the name.
pub proof fn law_last_context_wins(doc: Tree, name: Seq<char>, earlier: int, last: int)
    requires
        sound_contexts(doc),
        earlier < last,
        context_named_at(doc, name, earlier),
        context_named_at(doc, name, last),
        forall|i: int| last < i ==> !context_named_at(doc, name, i),
    ensures
        lookup_context(doc, name) is Ok,
        holds_context(contexts(doc)[last], lookup_context(doc, name)->Ok_0),
{
    lemma_last_named_context(doc, name, last);
}

/// A search that meets, before any other entry that cannot be read, a
/// context of the searched name that lacks a required string, or an entry
/// without a name, fails with the error of that entry.
pub proof fn law_first_unreadable_context_is_reported(doc: Tree, name: Seq<char>, at: int)
    requires
        entries_of(doc, RecordKind::Context) is Some,
        0 <= at < contexts(doc).len(),
        context_entry(contexts(doc)[at], name) is Err,
        forall|i: int| 0 <= i < at ==> context_entry(#[trigger] contexts(doc)[i], name) is Ok,
    ensures
        lookup_context(doc, name) == Err::<ContextView, ErrorView>(
            context_entry(contexts(doc)[at], name)->Err_0,
        ),
{
    let outcomes = context_outcomes(contexts(doc), name);
    assert forall|i: int| 0 <= i < at implies outcomes[i] is Ok by {}
    lemma_settle_first_error(outcomes, at);
}

/// In a document each of whose contexts bears a name, a search for a name
/// that none of them bears fails, and says that no such context was found.
pub proof fn law_absent_context_is_not_found(doc: Tree, name: Seq<char>)
    requires
        names_its_contexts(doc),
        forall|i: int| !context_named_at(doc, name, i),
    ensures
        lookup_context(doc, name) == Err::<ContextView, ErrorView>(
            ErrorView::RecordNotFound { kind: RecordKind::Context, name },
        ),
{
    let entries = contexts(doc);
    let outcomes = context_outcomes(entries, name);
    assert forall|i: int| 0 <= i < outcomes.len() implies outcomes[i] == Ok::<
        Option<ContextView>,
        ErrorView,
    >(None) by {
        assert(!context_named_at(doc, name, i));
    }
    lemma_settle_nothing(outcomes);
}

/// A document each of whose contexts bears a name lists one name for each
/// entry: the name of that entry, in document order.
pub proof fn law_one_name_per_context(doc: Tree)
    requires
        names_its_contexts(doc),
    ensures
        context_names(doc) is Ok,
        context_names(doc)->Ok_0.len() == contexts(doc).len(),
        forall|i: int|
            0 <= i < contexts(doc).len() ==> Some(#[trigger] context_names(doc)->Ok_0[i])
                == name_of(contexts(doc)[i]),
{
}

/// An invocation without a context to extract, on a configuration whose
/// first document holds contexts that all bear a name, prints the list of
/// these names and nothing else: one line for each entry, in document order.
pub proof fn law_listing_prints_every_name(
    arguments: Seq<Seq<char>>,
    source: Seq<char>,
    millis: nat,
)
    requires
        arguments.len() < 2,
        first_document(source) is Some,
        names_its_contexts(first_document(source)->0),
    ensures
        context_names(first_document(source)->0) is Ok,
        outcome_of(arguments, source, millis) == (OutcomeView::Listed {
            text: lines(context_names(first_document(source)->0)->Ok_0),
        }),
{
    law_one_name_per_context(first_document(source)->0);
}

/// The credentials read from a user record are those of a provider exactly
/// when the record holds provider settings, and a certificate with its key
/// exactly when it holds none.
pub proof fn law_credentials_follow_record(record: Option<Tree>, name: Seq<char>)
    requires
        credentials_of(record, name) is Ok,
    ensures
        credentials_of(record, name)->Ok_0 is Provider <==> has_provider(record),
        credentials_of(record, name)->Ok_0 is Certificate <==> !has_provider(record),
{
}

/// A configuration whose first document holds contexts that all bear a
/// name, none of them the name `name`, yields no reduced document: the
/// extraction fails, and says that no such context was found.
pub proof fn law_absent_context_yields_nothing(source: Seq<char>, name: Seq<char>)
    requires
        first_document(source) is Some,
        names_its_contexts(first_document(source)->0),
        forall|i: int| !context_named_at(first_document(source)->0, name, i),
    ensures
        extraction(source, name) == Err::<Seq<char>, ErrorView>(
            ErrorView::RecordNotFound { kind: RecordKind::Context, name },
        ),
{
    law_absent_context_is_not_found(first_document(source)->0, name);
}

/// The reduced document shows the credentials of a user in the one form
/// that the user record calls for: the provider settings where the record
/// holds them, the certificate and its key where it holds none.
pub proof fn law_record_decides_credentials(record: Option<Tree>, name: Seq<char>)
    requires
        credentials_of(record, name) is Ok,
    ensures
        has_provider(record) ==> provider_of(record, name) is Ok && credentials_lines(
            credentials_of(record, name)->Ok_0,
        ) == provider_lines(provider_of(record, name)->Ok_0),
        !has_provider(record) ==> credentials_lines(credentials_of(record, name)->Ok_0)
            == certificate_lines(
            text_in(record, "client-certificate"@)->0,
            text_in(record, "client-key"@)->0,
        ),
{
}

/// An invocation that asks for a context which the configuration does not
/// hold, each of its contexts bearing another name, fails, says that no such
/// context was found, and leaves no file to write.
pub proof fn law_absent_context_writes_nothing(
    arguments: Seq<Seq<char>>,
    source: Seq<char>,
    millis: nat,
)
    requires
        arguments.len() >= 2,
        first_document(source) is Some,
        names_its_contexts(first_document(source)->0),
        forall|i: int| !context_named_at(first_document(source)->0, arguments[1], i),
    ensures
        outcome_of(arguments, source, millis) == (OutcomeView::Failed {
            error: ErrorView::RecordNotFound { kind: RecordKind::Context, name: arguments[1] },
        }),
{
    law_absent_context_yields_nothing(source, arguments[1]);
}

/// A numeral has one digit exactly when the number is below ten.
proof fn lemma_decimal_length(n: nat)
    ensures
        decimal(n).len() >= 1,
        decimal(n).len() == 1 <==> n < 10,
    decreases n,
{
    if n >= 10 {
        lemma_decimal_length(n / 10);
    }
}

/// Two numbers with the same numeral are the same number.
proof fn lemma_decimal_is_injective(a: nat, b: nat)
    requires
        decimal(a) == decimal(b),
    ensures
        a == b,
    decreases a,
{
    lemma_decimal_length(a);
    lemma_decimal_length(b);
    if a < 10 {
        assert(decimal(a)[0] == digit(a));
        assert(decimal(b)[0] == digit(b));
    } else {
        assert(decimal(a).drop_last() =~= decimal(a / 10));
        assert(decimal(b).drop_last() =~= decimal(b / 10));
        assert(decimal(a).last() == digit(a % 10));
        assert(decimal(b).last() == digit(b % 10));
        lemma_decimal_is_injective(a / 10, b / 10);
    }
}

/// Reduced documents written at different times go to different paths.
pub proof fn law_paths_differ_with_time(earlier: nat, later: nat)
    requires
        earlier != later,
    ensures
        output_location(earlier) != output_location(later),
{
    if output_location(earlier) == output_location(later) {
        let stem = "/tmp/kubeconfig."@;
        assert(output_location(earlier).subrange(
            stem.len() as int,
            output_location(earlier).len() as int,
        ) =~= decimal(earlier));
        assert(output_location(later).subrange(
            stem.len() as int,
            output_location(later).len() as int,
        ) =~= decimal(later));
        lemma_decimal_is_injective(earlier, later);
    }
}

} // verus!
