//! The reduced document that holds one context with its cluster and user.

use crate::records::{
    AuthProvider, AuthProviderView, Cluster, ClusterView, Context, ContextView, Credentials,
    CredentialsView, Selection, SelectionView, User, UserView,
};
use vstd::prelude::*;

verus! {

/// One line of the document: a key with its indentation, then a value.
pub open spec fn entry(key: Seq<char>, value: Seq<char>) -> Seq<char> {
    key + value + "\n"@
}

/// The collection of clusters, with `cluster` as its one element.
pub open spec fn cluster_section(cluster: ClusterView) -> Seq<char> {
    "clusters:\n- cluster:\n"@ + entry(
        "    certificate-authority: "@,
        cluster.certificate_authority,
    ) + entry("    server: "@, cluster.server) + entry("  name: "@, cluster.name)
}

/// The collection of contexts, with `context` as its one element. The
/// cluster and the user stand in it by name.
pub open spec fn context_section(context: ContextView) -> Seq<char> {
    "contexts:\n- context:\n"@ + entry("    cluster: "@, context.cluster) + entry(
        "    namespace: "@,
        context.namespace,
    ) + entry("    user: "@, context.user) + entry("  name: "@, context.name)
}

/// The lines of a client certificate and its key.
pub open spec fn certificate_lines(client_certificate: Seq<char>, client_key: Seq<char>) -> Seq<
    char,
> {
    entry("    client-certificate: "@, client_certificate) + entry(
        "    client-key: "@,
        client_key,
    )
}

/// The lines of the settings of a credential provider.
pub open spec fn provider_lines(provider: AuthProviderView) -> Seq<char> {
    "    auth-provider:\n      config:\n"@ + entry("        client-id: "@, provider.client_id)
        + entry("        client-secret: "@, provider.client_secret) + entry(
        "        id-token: "@,
        provider.id_token,
    ) + entry("        idp-issuer-url: "@, provider.idp_issuer_url) + entry(
        "        refresh-token: "@,
        provider.refresh_token,
    ) + entry("      name: "@, provider.name)
}

/// The lines of a user's credentials: those of the one kind that the user
/// has.
pub open spec fn credentials_lines(credentials: CredentialsView) -> Seq<char> {
    match credentials {
        CredentialsView::Certificate { client_certificate, client_key } => certificate_lines(
            client_certificate,
            client_key,
        ),
        CredentialsView::Provider(provider) => provider_lines(provider),
    }
}

/// The collection of users, with `user` as its one element.
pub open spec fn user_section(user: UserView) -> Seq<char> {
    "users:\n- user:\n"@ + credentials_lines(user.credentials) + entry("  name: "@, user.name)
}

/// The text of the reduced document: its heading, one cluster, one context,
/// one user, and the context's name as the current context.
pub open spec fn projection(selection: SelectionView) -> Seq<char> {
    "apiVersion: v1\nkind: Config\n"@ + cluster_section(selection.cluster) + context_section(
        selection.context,
    ) + user_section(selection.user) + entry("current-context: "@, selection.context.name)
}

/// Appends one line: a key with its indentation, then a value.
fn put(out: &mut String, key: &str, value: &str)
    ensures
        final(out)@ == old(out)@ + entry(key@, value@),
{
    out.append(key);
    out.append(value);
    out.append("\n");
}

/// Appends the collection of clusters.
fn put_cluster(out: &mut String, cluster: &Cluster)
    ensures
        final(out)@ == old(out)@ + cluster_section(cluster@),
{
    out.append("clusters:\n- cluster:\n");
    put(out, "    certificate-authority: ", cluster.certificate_authority.as_str());
    put(out, "    server: ", cluster.server.as_str());
    put(out, "  name: ", cluster.name.as_str());
}

/// Appends the collection of contexts.
fn put_context(out: &mut String, context: &Context)
    ensures
        final(out)@ == old(out)@ + context_section(context@),
{
    out.append("contexts:\n- context:\n");
    put(out, "    cluster: ", context.cluster.as_str());
    put(out, "    namespace: ", context.namespace.as_str());
    put(out, "    user: ", context.user.as_str());
    put(out, "  name: ", context.name.as_str());
}

/// Appends the lines of the settings of a credential provider.
fn put_provider(out: &mut String, provider: &AuthProvider)
    ensures
        final(out)@ == old(out)@ + provider_lines(provider@),
{
    out.append("    auth-provider:\n      config:\n");
    put(out, "        client-id: ", provider.client_id.as_str());
    put(out, "        client-secret: ", provider.client_secret.as_str());
    put(out, "        id-token: ", provider.id_token.as_str());
    put(out, "        idp-issuer-url: ", provider.idp_issuer_url.as_str());
    put(out, "        refresh-token: ", provider.refresh_token.as_str());
    put(out, "      name: ", provider.name.as_str());
}

/// Appends the collection of users.
fn put_user(out: &mut String, user: &User)
    ensures
        final(out)@ == old(out)@ + user_section(user@),
{
    out.append("users:\n- user:\n");
    match &user.credentials {
        Credentials::Certificate { client_certificate, client_key } => {
            put(out, "    client-certificate: ", client_certificate.as_str());
            put(out, "    client-key: ", client_key.as_str());
        },
        Credentials::Provider(provider) => {
            put_provider(out, provider);
        },
    }
    put(out, "  name: ", user.name.as_str());
}

/// The text of the reduced document for `selection`.
pub fn projection_text(selection: &Selection) -> (r: String)
    ensures
        r@ == projection(selection@),
{
    let mut out = "apiVersion: v1\nkind: Config\n".to_owned();
    put_cluster(&mut out, &selection.cluster);
    put_context(&mut out, &selection.context);
    put_user(&mut out, &selection.user);
    put(&mut out, "current-context: ", selection.context.name.as_str());
    out
}

} // verus!
