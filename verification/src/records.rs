//! The records that a configuration document holds, once resolved.

use vstd::prelude::*;

verus! {

/// A named pointer to a cluster, a namespace and a user.
#[derive(Debug, Clone, PartialEq, Eq)]
pub struct Context {
    pub name: String,
    /// The name of the cluster, as the document gives it.
    pub cluster: String,
    pub namespace: String,
    /// The name of the user, as the document gives it.
    pub user: String,
}

/// Mathematical model of a `Context`.
pub ghost struct ContextView {
    pub name: Seq<char>,
    pub cluster: Seq<char>,
    pub namespace: Seq<char>,
    pub user: Seq<char>,
}

impl View for Context {
    type V = ContextView;

    open spec fn view(&self) -> ContextView {
        ContextView {
            name: self.name@,
            cluster: self.cluster@,
            namespace: self.namespace@,
            user: self.user@,
        }
    }
}

/// A named cluster endpoint.
#[derive(Debug, Clone, PartialEq, Eq)]
pub struct Cluster {
    pub name: String,
    pub server: String,
    pub certificate_authority: String,
}

/// Mathematical model of a `Cluster`.
pub ghost struct ClusterView {
    pub name: Seq<char>,
    pub server: Seq<char>,
    pub certificate_authority: Seq<char>,
}

impl View for Cluster {
    type V = ClusterView;

    open spec fn view(&self) -> ClusterView {
        ClusterView {
            name: self.name@,
            server: self.server@,
            certificate_authority: self.certificate_authority@,
        }
    }
}

/// The settings of a credential provider.
#[derive(Debug, Clone, PartialEq, Eq)]
pub struct AuthProvider {
    pub name: String,
    pub client_id: String,
    pub client_secret: String,
    pub id_token: String,
    pub idp_issuer_url: String,
    pub refresh_token: String,
}

/// Mathematical model of an `AuthProvider`.
pub ghost struct AuthProviderView {
    pub name: Seq<char>,
    pub client_id: Seq<char>,
    pub client_secret: Seq<char>,
    pub id_token: Seq<char>,
    pub idp_issuer_url: Seq<char>,
    pub refresh_token: Seq<char>,
}

impl View for AuthProvider {
    type V = AuthProviderView;

    open spec fn view(&self) -> AuthProviderView {
        AuthProviderView {
            name: self.name@,
            client_id: self.client_id@,
            client_secret: self.client_secret@,
            id_token: self.id_token@,
            idp_issuer_url: self.idp_issuer_url@,
            refresh_token: self.refresh_token@,
        }
    }
}

/// What a user presents to a cluster: a client certificate with its key, or
/// the settings of a credential provider.
#[derive(Debug, Clone, PartialEq, Eq)]
pub enum Credentials {
    Certificate { client_certificate: String, client_key: String },
    Provider(AuthProvider),
}

/// Mathematical model of `Credentials`.
pub ghost enum CredentialsView {
    Certificate { client_certificate: Seq<char>, client_key: Seq<char> },
    Provider(AuthProviderView),
}

impl View for Credentials {
    type V = CredentialsView;

    open spec fn view(&self) -> CredentialsView {
        match self {
            Credentials::Certificate { client_certificate, client_key } => {
                CredentialsView::Certificate {
                    client_certificate: client_certificate@,
                    client_key: client_key@,
                }
            },
            Credentials::Provider(provider) => CredentialsView::Provider(provider@),
        }
    }
}

/// A named set of credentials.
#[derive(Debug, Clone, PartialEq, Eq)]
pub struct User {
    pub name: String,
    pub credentials: Credentials,
}

/// Mathematical model of a `User`.
pub ghost struct UserView {
    pub name: Seq<char>,
    pub credentials: CredentialsView,
}

impl View for User {
    type V = UserView;

    open spec fn view(&self) -> UserView {
        UserView { name: self.name@, credentials: self.credentials@ }
    }
}

/// A context together with the cluster and the user that it names.
#[derive(Debug, Clone, PartialEq, Eq)]
pub struct Selection {
    pub context: Context,
    pub cluster: Cluster,
    pub user: User,
}

/// Mathematical model of a `Selection`.
pub ghost struct SelectionView {
    pub context: ContextView,
    pub cluster: ClusterView,
    pub user: UserView,
}

impl View for Selection {
    type V = SelectionView;

    open spec fn view(&self) -> SelectionView {
        SelectionView { context: self.context@, cluster: self.cluster@, user: self.user@ }
    }
}

} // verus!
