//! Finding records by name in the collections of a configuration document.
//!
//! A collection is scanned from its first entry to its last. An entry that
//! cannot be read ends the scan with an error; among the entries that bear the
//! searched name, the last one is the record that is returned.

use crate::error::{ConfigError, ErrorView, Field, RecordKind};
use crate::records::{
    AuthProvider, AuthProviderView, Cluster, ClusterView, Context, ContextView, Credentials,
    CredentialsView, User, UserView,
};
use crate::text::text_eq;
use crate::tree::{
    field_in, field_of, model, present_in, present_of, text_in, text_of, trees, Node, Tree,
};
use vstd::prelude::*;

verus! {

/// The model of a record that may be absent.
pub open spec fn seen<T: View>(found: Option<T>) -> Option<T::V> {
    match found {
        Some(record) => Some(record@),
        None => None,
    }
}

/// The model of what reading one entry gave.
pub open spec fn reading<T: View>(read: Result<Option<T>, ConfigError>) -> Result<
    Option<T::V>,
    ErrorView,
> {
    match read {
        Ok(found) => Ok(seen(found)),
        Err(e) => Err(e@),
    }
}

/// The model of what a search gave.
pub open spec fn verdict<T: View>(result: Result<T, ConfigError>) -> Result<T::V, ErrorView> {
    match result {
        Ok(record) => Ok(record@),
        Err(e) => Err(e@),
    }
}

/// The error for a record named `name` that lacks `field`.
pub open spec fn missing(kind: RecordKind, name: Seq<char>, field: Field) -> ErrorView {
    ErrorView::MissingField { kind, record: name, field }
}

/// The entries of the collection of `kind`; `None` when the document has no
/// such collection or holds something else than a sequence under its key.
pub open spec fn entries_of(doc: Tree, kind: RecordKind) -> Option<Seq<Tree>> {
    match doc.field(kind.collection_text()) {
        Some(collection) => collection.items(),
        None => None,
    }
}

/// What a scan comes to, given what each entry means to it in document
/// order: `Ok(None)` for an entry that bears another name, `Ok(Some(..))` for
/// one that bears the searched name, `Err(..)` for one that cannot be read.
/// The first error ends the scan; otherwise the last record found stands.
pub open spec fn settle<T>(outcomes: Seq<Result<Option<T>, ErrorView>>) -> Result<
    Option<T>,
    ErrorView,
>
    decreases outcomes.len(),
{
    if outcomes.len() == 0 {
        Ok(None)
    } else {
        match settle(outcomes.drop_last()) {
            Err(e) => Err(e),
            Ok(before) => match outcomes.last() {
                Err(e) => Err(e),
                Ok(Some(record)) => Ok(Some(record)),
                Ok(None) => Ok(before),
            },
        }
    }
}

/// What a search for a record of `kind` named `name` returns, given what the
/// scan of the collection came to.
pub open spec fn conclude<T>(
    kind: RecordKind,
    name: Seq<char>,
    settled: Result<Option<T>, ErrorView>,
) -> Result<T, ErrorView> {
    match settled {
        Err(e) => Err(e),
        Ok(None) => Err(ErrorView::RecordNotFound { kind, name }),
        Ok(Some(record)) => Ok(record),
    }
}

/// The name that an entry bears; `None` when it has no string under `name`.
pub open spec fn name_of(entry: Tree) -> Option<Seq<char>> {
    entry.string_field("name"@)
}

/// What the entry `entry` of the contexts means to a search for `name`.
pub open spec fn context_entry(entry: Tree, name: Seq<char>) -> Result<
    Option<ContextView>,
    ErrorView,
> {
    let record = entry.field("context"@);
    let cluster = text_in(record, Field::Cluster.key_text());
    let namespace = text_in(record, Field::Namespace.key_text());
    let user = text_in(record, Field::User.key_text());
    match name_of(entry) {
        None => Err(ErrorView::MalformedDocument),
        Some(found) => if found != name {
            Ok(None)
        } else if cluster is None {
            Err(missing(RecordKind::Context, name, Field::Cluster))
        } else if namespace is None {
            Err(missing(RecordKind::Context, name, Field::Namespace))
        } else if user is None {
            Err(missing(RecordKind::Context, name, Field::User))
        } else {
            Ok(
                Some(
                    ContextView {
                        name,
                        cluster: cluster->0,
                        namespace: namespace->0,
                        user: user->0,
                    },
                ),
            )
        },
    }
}

/// What the entry `entry` of the clusters means to a search for `name`.
pub open spec fn cluster_entry(entry: Tree, name: Seq<char>) -> Result<
    Option<ClusterView>,
    ErrorView,
> {
    let record = entry.field("cluster"@);
    let server = text_in(record, Field::Server.key_text());
    let authority = text_in(record, Field::CertificateAuthority.key_text());
    match name_of(entry) {
        None => Err(ErrorView::MalformedDocument),
        Some(found) => if found != name {
            Ok(None)
        } else if server is None {
            Err(missing(RecordKind::Cluster, name, Field::Server))
        } else if authority is None {
            Err(missing(RecordKind::Cluster, name, Field::CertificateAuthority))
        } else {
            Ok(Some(ClusterView { name, server: server->0, certificate_authority: authority->0 }))
        },
    }
}

/// Whether a user record holds the settings of a credential provider: a
/// value other than null under `auth-provider`.
pub open spec fn has_provider(record: Option<Tree>) -> bool {
    present_in(record, "auth-provider"@)
}

/// The provider settings of the user record `record` of the user `name`.
pub open spec fn provider_of(record: Option<Tree>, name: Seq<char>) -> Result<
    AuthProviderView,
    ErrorView,
> {
    let provider = field_in(record, "auth-provider"@);
    let config = field_in(provider, "config"@);
    let provider_name = text_in(provider, Field::ProviderName.key_text());
    let client_id = text_in(config, Field::ClientId.key_text());
    let client_secret = text_in(config, Field::ClientSecret.key_text());
    let id_token = text_in(config, Field::IdToken.key_text());
    let idp_issuer_url = text_in(config, Field::IdpIssuerUrl.key_text());
    let refresh_token = text_in(config, Field::RefreshToken.key_text());
    if provider_name is None {
        Err(missing(RecordKind::User, name, Field::ProviderName))
    } else if client_id is None {
        Err(missing(RecordKind::User, name, Field::ClientId))
    } else if client_secret is None {
        Err(missing(RecordKind::User, name, Field::ClientSecret))
    } else if id_token is None {
        Err(missing(RecordKind::User, name, Field::IdToken))
    } else if idp_issuer_url is None {
        Err(missing(RecordKind::User, name, Field::IdpIssuerUrl))
    } else if refresh_token is None {
        Err(missing(RecordKind::User, name, Field::RefreshToken))
    } else {
        Ok(
            AuthProviderView {
                name: provider_name->0,
                client_id: client_id->0,
                client_secret: client_secret->0,
                id_token: id_token->0,
                idp_issuer_url: idp_issuer_url->0,
                refresh_token: refresh_token->0,
            },
        )
    }
}

/// The credentials in the user record `record` of the user `name`: those of
/// the provider where the record has one, a certificate and its key where it
/// has none.
pub open spec fn credentials_of(record: Option<Tree>, name: Seq<char>) -> Result<
    CredentialsView,
    ErrorView,
> {
    let certificate = text_in(record, Field::ClientCertificate.key_text());
    let key = text_in(record, Field::ClientKey.key_text());
    if has_provider(record) {
        match provider_of(record, name) {
            Ok(provider) => Ok(CredentialsView::Provider(provider)),
            Err(e) => Err(e),
        }
    } else if certificate is None {
        Err(missing(RecordKind::User, name, Field::ClientCertificate))
    } else if key is None {
        Err(missing(RecordKind::User, name, Field::ClientKey))
    } else {
        Ok(CredentialsView::Certificate { client_certificate: certificate->0, client_key: key->0 })
    }
}

/// What the entry `entry` of the users means to a search for `name`.
pub open spec fn user_entry(entry: Tree, name: Seq<char>) -> Result<Option<UserView>, ErrorView> {
    match name_of(entry) {
        None => Err(ErrorView::MalformedDocument),
        Some(found) => if found != name {
            Ok(None)
        } else {
            match credentials_of(entry.field("user"@), name) {
                Ok(credentials) => Ok(Some(UserView { name, credentials })),
                Err(e) => Err(e),
            }
        },
    }
}

/// What each entry of the contexts means to a search for `name`.
pub open spec fn context_outcomes(entries: Seq<Tree>, name: Seq<char>) -> Seq<
    Result<Option<ContextView>, ErrorView>,
> {
    Seq::new(entries.len(), |i: int| context_entry(entries[i], name))
}

/// What each entry of the clusters means to a search for `name`.
pub open spec fn cluster_outcomes(entries: Seq<Tree>, name: Seq<char>) -> Seq<
    Result<Option<ClusterView>, ErrorView>,
> {
    Seq::new(entries.len(), |i: int| cluster_entry(entries[i], name))
}

/// What each entry of the users means to a search for `name`.
pub open spec fn user_outcomes(entries: Seq<Tree>, name: Seq<char>) -> Seq<
    Result<Option<UserView>, ErrorView>,
> {
    Seq::new(entries.len(), |i: int| user_entry(entries[i], name))
}

/// What a search for the context `name` in the document `doc` returns.
pub open spec fn lookup_context(doc: Tree, name: Seq<char>) -> Result<ContextView, ErrorView> {
    match entries_of(doc, RecordKind::Context) {
        None => Err(ErrorView::MalformedDocument),
        Some(entries) => conclude(
            RecordKind::Context,
            name,
            settle(context_outcomes(entries, name)),
        ),
    }
}

/// What a search for the cluster `name` in the document `doc` returns.
pub open spec fn lookup_cluster(doc: Tree, name: Seq<char>) -> Result<ClusterView, ErrorView> {
    match entries_of(doc, RecordKind::Cluster) {
        None => Err(ErrorView::MalformedDocument),
        Some(entries) => conclude(
            RecordKind::Cluster,
            name,
            settle(cluster_outcomes(entries, name)),
        ),
    }
}

/// What a search for the user `name` in the document `doc` returns.
pub open spec fn lookup_user(doc: Tree, name: Seq<char>) -> Result<UserView, ErrorView> {
    match entries_of(doc, RecordKind::User) {
        None => Err(ErrorView::MalformedDocument),
        Some(entries) => conclude(RecordKind::User, name, settle(user_outcomes(entries, name))),
    }
}

/// The names of the contexts of `doc` in document order; an error when the
/// document has no sequence of contexts or an entry bears no name.
pub open spec fn context_names(doc: Tree) -> Result<Seq<Seq<char>>, ErrorView> {
    match entries_of(doc, RecordKind::Context) {
        None => Err(ErrorView::MalformedDocument),
        Some(entries) => if forall|i: int|
            0 <= i < entries.len() ==> name_of(#[trigger] entries[i]) is Some {
            Ok(Seq::new(entries.len(), |i: int| name_of(entries[i])->0))
        } else {
            Err(ErrorView::MalformedDocument)
        },
    }
}

/// Scanning one entry more: the outcome of the entry at `upto` joins what the
/// entries before it came to.
pub proof fn lemma_settle_step<T>(outcomes: Seq<Result<Option<T>, ErrorView>>, upto: int)
    requires
        0 <= upto < outcomes.len(),
    ensures
        settle(outcomes.take(upto + 1)) == (match settle(outcomes.take(upto)) {
            Err(e) => Err(e),
            Ok(before) => match outcomes[upto] {
                Err(e) => Err(e),
                Ok(Some(record)) => Ok(Some(record)),
                Ok(None) => Ok(before),
            },
        }),
{
    let longer = outcomes.take(upto + 1);
    assert(longer.drop_last() =~= outcomes.take(upto));
}

/// An error, once met, is what the whole scan comes to.
pub proof fn lemma_settle_error_stays<T>(outcomes: Seq<Result<Option<T>, ErrorView>>, upto: int)
    requires
        0 <= upto <= outcomes.len(),
        settle(outcomes.take(upto)) is Err,
    ensures
        settle(outcomes) == settle(outcomes.take(upto)),
    decreases outcomes.len() - upto,
{
    if upto == outcomes.len() {
        assert(outcomes.take(upto) =~= outcomes);
    } else {
        lemma_settle_step(outcomes, upto);
        lemma_settle_error_stays(outcomes, upto + 1);
    }
}

/// Reads a required string field of the record of `kind` named `name`.
fn required(record: Option<&Node>, kind: RecordKind, name: &str, field: Field) -> (r: Result<
    String,
    ConfigError,
>)
    ensures
        match r {
            Ok(s) => text_in(model(record), field.key_text()) == Some(s@),
            Err(e) => text_in(model(record), field.key_text()) is None && e@ == missing(
                kind,
                name@,
                field,
            ),
        },
{
    match text_of(record, field.key()) {
        Some(s) => Ok(s.to_owned()),
        None => Err(ConfigError::MissingField { kind, record: name.to_owned(), field }),
    }
}

/// Whether the entry bears the name `name`; an error when it bears none.
fn bears(entry: &Node, name: &str) -> (r: Result<bool, ConfigError>)
    ensures
        match r {
            Ok(same) => name_of(entry@) is Some && same == (name_of(entry@)->0 == name@),
            Err(e) => name_of(entry@) is None && e@ == ErrorView::MalformedDocument,
        },
{
    match entry.string_field("name") {
        Some(found) => Ok(text_eq(found, name)),
        None => Err(ConfigError::MalformedDocument),
    }
}

/// Reads one entry of the contexts in a search for `name`.
pub fn read_context(entry: &Node, name: &str) -> (r: Result<Option<Context>, ConfigError>)
    ensures
        reading(r) == context_entry(entry@, name@),
{
    match bears(entry, name) {
        Err(e) => Err(e),
        Ok(false) => Ok(None),
        Ok(true) => {
            let record = entry.field("context");
            let cluster = required(record, RecordKind::Context, name, Field::Cluster)?;
            let namespace = required(record, RecordKind::Context, name, Field::Namespace)?;
            let user = required(record, RecordKind::Context, name, Field::User)?;
            Ok(Some(Context { name: name.to_owned(), cluster, namespace, user }))
        },
    }
}

/// Reads one entry of the clusters in a search for `name`.
pub fn read_cluster(entry: &Node, name: &str) -> (r: Result<Option<Cluster>, ConfigError>)
    ensures
        reading(r) == cluster_entry(entry@, name@),
{
    match bears(entry, name) {
        Err(e) => Err(e),
        Ok(false) => Ok(None),
        Ok(true) => {
            let record = entry.field("cluster");
            let server = required(record, RecordKind::Cluster, name, Field::Server)?;
            let certificate_authority = required(
                record,
                RecordKind::Cluster,
                name,
                Field::CertificateAuthority,
            )?;
            Ok(Some(Cluster { name: name.to_owned(), server, certificate_authority }))
        },
    }
}

/// Reads the provider settings of the user record of the user `name`.
fn read_provider(record: Option<&Node>, name: &str) -> (r: Result<AuthProvider, ConfigError>)
    ensures
        verdict(r) == provider_of(model(record), name@),
{
    let provider = field_of(record, "auth-provider");
    let config = field_of(provider, "config");
    let provider_name = required(provider, RecordKind::User, name, Field::ProviderName)?;
    let client_id = required(config, RecordKind::User, name, Field::ClientId)?;
    let client_secret = required(config, RecordKind::User, name, Field::ClientSecret)?;
    let id_token = required(config, RecordKind::User, name, Field::IdToken)?;
    let idp_issuer_url = required(config, RecordKind::User, name, Field::IdpIssuerUrl)?;
    let refresh_token = required(config, RecordKind::User, name, Field::RefreshToken)?;
    Ok(
        AuthProvider {
            name: provider_name,
            client_id,
            client_secret,
            id_token,
            idp_issuer_url,
            refresh_token,
        },
    )
}

/// Reads the credentials in the user record of the user `name`.
fn read_credentials(record: Option<&Node>, name: &str) -> (r: Result<Credentials, ConfigError>)
    ensures
        verdict(r) == credentials_of(model(record), name@),
{
    if present_of(record, "auth-provider") {
        match read_provider(record, name) {
            Ok(provider) => Ok(Credentials::Provider(provider)),
            Err(e) => Err(e),
        }
    } else {
        let client_certificate = required(
            record,
            RecordKind::User,
            name,
            Field::ClientCertificate,
        )?;
        let client_key = required(record, RecordKind::User, name, Field::ClientKey)?;
        Ok(Credentials::Certificate { client_certificate, client_key })
    }
}

/// Reads one entry of the users in a search for `name`.
pub fn read_user(entry: &Node, name: &str) -> (r: Result<Option<User>, ConfigError>)
    ensures
        reading(r) == user_entry(entry@, name@),
{
    match bears(entry, name) {
        Err(e) => Err(e),
        Ok(false) => Ok(None),
        Ok(true) => match read_credentials(entry.field("user"), name) {
            Ok(credentials) => Ok(Some(User { name: name.to_owned(), credentials })),
            Err(e) => Err(e),
        },
    }
}

/// The entries of the collection of `kind` in `doc`.
fn collection<'a>(doc: &'a Node, kind: RecordKind) -> (r: Option<&'a Vec<Node>>)
    ensures
        match r {
            Some(entries) => entries_of(doc@, kind) == Some(trees(entries@)),
            None => entries_of(doc@, kind) is None,
        },
{
    match doc.field(kind.collection()) {
        Some(node) => node.as_vec(),
        None => None,
    }
}

/// Finds the context named `s`: the last entry of the contexts that bears
/// that name.
pub fn find_context(s: &str, kubeconfig: &Node) -> (r: Result<Context, ConfigError>)
    ensures
        verdict(r) == lookup_context(kubeconfig@, s@),
{
    let entries = match collection(kubeconfig, RecordKind::Context) {
        Some(entries) => entries,
        None => { return Err(ConfigError::MalformedDocument); },
    };
    let ghost outcomes = context_outcomes(trees(entries@), s@);
    let mut found: Option<Context> = None;
    let mut i: usize = 0;
    while i < entries.len()
        invariant
            0 <= i <= entries.len(),
            entries_of(kubeconfig@, RecordKind::Context) == Some(trees(entries@)),
            outcomes == context_outcomes(trees(entries@), s@),
            settle(outcomes.take(i as int)) == Ok::<Option<ContextView>, ErrorView>(seen(found)),
        decreases entries.len() - i,
    {
        proof {
            lemma_settle_step(outcomes, i as int);
        }
        match read_context(&entries[i], s) {
            Err(e) => {
                proof {
                    lemma_settle_error_stays(outcomes, i + 1);
                }
                return Err(e);
            },
            Ok(Some(context)) => {
                found = Some(context);
            },
            Ok(None) => {},
        }
        i += 1;
    }
    assert(outcomes.take(i as int) =~= outcomes);
    match found {
        Some(context) => Ok(context),
        None => Err(ConfigError::RecordNotFound { kind: RecordKind::Context, name: s.to_owned() }),
    }
}

/// Finds the cluster named `s`: the last entry of the clusters that bears
/// that name.
pub fn find_cluster(s: &str, kubeconfig: &Node) -> (r: Result<Cluster, ConfigError>)
    ensures
        verdict(r) == lookup_cluster(kubeconfig@, s@),
{
    let entries = match collection(kubeconfig, RecordKind::Cluster) {
        Some(entries) => entries,
        None => { return Err(ConfigError::MalformedDocument); },
    };
    let ghost outcomes = cluster_outcomes(trees(entries@), s@);
    let mut found: Option<Cluster> = None;
    let mut i: usize = 0;
    while i < entries.len()
        invariant
            0 <= i <= entries.len(),
            entries_of(kubeconfig@, RecordKind::Cluster) == Some(trees(entries@)),
            outcomes == cluster_outcomes(trees(entries@), s@),
            settle(outcomes.take(i as int)) == Ok::<Option<ClusterView>, ErrorView>(seen(found)),
        decreases entries.len() - i,
    {
        proof {
            lemma_settle_step(outcomes, i as int);
        }
        match read_cluster(&entries[i], s) {
            Err(e) => {
                proof {
                    lemma_settle_error_stays(outcomes, i + 1);
                }
                return Err(e);
            },
            Ok(Some(cluster)) => {
                found = Some(cluster);
            },
            Ok(None) => {},
        }
        i += 1;
    }
    assert(outcomes.take(i as int) =~= outcomes);
    match found {
        Some(cluster) => Ok(cluster),
        None => Err(ConfigError::RecordNotFound { kind: RecordKind::Cluster, name: s.to_owned() }),
    }
}

/// Finds the user named `s`: the last entry of the users that bears that
/// name.
pub fn find_user(s: &str, kubeconfig: &Node) -> (r: Result<User, ConfigError>)
    ensures
        verdict(r) == lookup_user(kubeconfig@, s@),
{
    let entries = match collection(kubeconfig, RecordKind::User) {
        Some(entries) => entries,
        None => { return Err(ConfigError::MalformedDocument); },
    };
    let ghost outcomes = user_outcomes(trees(entries@), s@);
    let mut found: Option<User> = None;
    let mut i: usize = 0;
    while i < entries.len()
        invariant
            0 <= i <= entries.len(),
            entries_of(kubeconfig@, RecordKind::User) == Some(trees(entries@)),
            outcomes == user_outcomes(trees(entries@), s@),
            settle(outcomes.take(i as int)) == Ok::<Option<UserView>, ErrorView>(seen(found)),
        decreases entries.len() - i,
    {
        proof {
            lemma_settle_step(outcomes, i as int);
        }
        match read_user(&entries[i], s) {
            Err(e) => {
                proof {
                    lemma_settle_error_stays(outcomes, i + 1);
                }
                return Err(e);
            },
            Ok(Some(user)) => {
                found = Some(user);
            },
            Ok(None) => {},
        }
        i += 1;
    }
    assert(outcomes.take(i as int) =~= outcomes);
    match found {
        Some(user) => Ok(user),
        None => Err(ConfigError::RecordNotFound { kind: RecordKind::User, name: s.to_owned() }),
    }
}

/// The characters of each string of a sequence, in order.
pub open spec fn texts(strings: Seq<String>) -> Seq<Seq<char>> {
    Seq::new(strings.len(), |i: int| strings[i]@)
}

/// The names of the contexts, in document order.
pub fn list_contexts(kubeconfig: &Node) -> (r: Result<Vec<String>, ConfigError>)
    ensures
        match r {
            Ok(names) => context_names(kubeconfig@) == Ok::<Seq<Seq<char>>, ErrorView>(
                texts(names@),
            ),
            Err(e) => context_names(kubeconfig@) is Err && e@ == context_names(
                kubeconfig@,
            )->Err_0,
        },
{
    let entries = match collection(kubeconfig, RecordKind::Context) {
        Some(entries) => entries,
        None => { return Err(ConfigError::MalformedDocument); },
    };
    let ghost models = trees(entries@);
    let mut names: Vec<String> = Vec::new();
    let mut i: usize = 0;
    while i < entries.len()
        invariant
            0 <= i <= entries.len(),
            models == trees(entries@),
            entries_of(kubeconfig@, RecordKind::Context) == Some(models),
            names.len() == i,
            forall|j: int| 0 <= j < i ==> name_of(#[trigger] models[j]) == Some(names[j]@),
        decreases entries.len() - i,
    {
        match entries[i].string_field("name") {
            Some(name) => {
                names.push(name.to_owned());
            },
            None => {
                assert(name_of(models[i as int]) is None);
                return Err(ConfigError::MalformedDocument);
            },
        }
        i += 1;
    }
    assert(context_names(kubeconfig@)->Ok_0 =~= texts(names@));
    Ok(names)
}

/// A scan of outcomes none of which is an error comes to no error.
pub proof fn lemma_settle_readable<T>(outcomes: Seq<Result<Option<T>, ErrorView>>)
    requires
        forall|i: int| 0 <= i < outcomes.len() ==> outcomes[i] is Ok,
    ensures
        settle(outcomes) is Ok,
    decreases outcomes.len(),
{
    if outcomes.len() > 0 {
        lemma_settle_readable(outcomes.drop_last());
    }
}

/// A scan that meets no error and no record with the searched name finds
/// nothing.
pub proof fn lemma_settle_nothing<T>(outcomes: Seq<Result<Option<T>, ErrorView>>)
    requires
        forall|i: int| 0 <= i < outcomes.len() ==> outcomes[i] == Ok::<Option<T>, ErrorView>(None),
    ensures
        settle(outcomes) == Ok::<Option<T>, ErrorView>(None),
    decreases outcomes.len(),
{
    if outcomes.len() > 0 {
        lemma_settle_nothing(outcomes.drop_last());
    }
}

/// A scan that meets no error comes to the last record with the searched
/// name.
pub proof fn lemma_settle_last<T>(outcomes: Seq<Result<Option<T>, ErrorView>>, last: int)
    requires
        0 <= last < outcomes.len(),
        forall|i: int| 0 <= i < outcomes.len() ==> outcomes[i] is Ok,
        outcomes[last] matches Ok(found) && found is Some,
        forall|i: int| last < i < outcomes.len() ==> outcomes[i] == Ok::<Option<T>, ErrorView>(None),
    ensures
        settle(outcomes) == outcomes[last],
    decreases outcomes.len(),
{
    let before = outcomes.drop_last();
    lemma_settle_readable(before);
    if last < outcomes.len() - 1 {
        lemma_settle_last(before, last);
    }
}

/// The first entry that cannot be read decides what the scan comes to.
pub proof fn lemma_settle_first_error<T>(outcomes: Seq<Result<Option<T>, ErrorView>>, first: int)
    requires
        0 <= first < outcomes.len(),
        outcomes[first] is Err,
        forall|i: int| 0 <= i < first ==> outcomes[i] is Ok,
    ensures
        settle(outcomes) == outcomes[first],
{
    let before = outcomes.take(first);
    lemma_settle_readable(before);
    lemma_settle_step(outcomes, first);
    lemma_settle_error_stays(outcomes, first + 1);
}

} // verus!
