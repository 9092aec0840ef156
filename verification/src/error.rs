//! The ways in which reading, resolving or writing a configuration fails.

use vstd::prelude::*;

verus! {

/// The three kinds of record that a configuration document holds.
#[derive(Debug, Clone, Copy, PartialEq, Eq)]
pub enum RecordKind {
    Context,
    Cluster,
    User,
}

impl RecordKind {
    /// The key of the collection that holds the records of this kind.
    pub open spec fn collection_text(self) -> Seq<char> {
        match self {
            RecordKind::Context => "contexts"@,
            RecordKind::Cluster => "clusters"@,
            RecordKind::User => "users"@,
        }
    }

    /// The key under which an entry of the collection holds its record.
    pub open spec fn noun_text(self) -> Seq<char> {
        match self {
            RecordKind::Context => "context"@,
            RecordKind::Cluster => "cluster"@,
            RecordKind::User => "user"@,
        }
    }

    /// The key of the collection that holds the records of this kind.
    pub fn collection(&self) -> (r: &'static str)
        ensures
            r@ == self.collection_text(),
    {
        match self {
            RecordKind::Context => "contexts",
            RecordKind::Cluster => "clusters",
            RecordKind::User => "users",
        }
    }

    /// The key under which an entry of the collection holds its record.
    pub fn noun(&self) -> (r: &'static str)
        ensures
            r@ == self.noun_text(),
    {
        match self {
            RecordKind::Context => "context",
            RecordKind::Cluster => "cluster",
            RecordKind::User => "user",
        }
    }
}

/// The string fields that a record must hold.
#[derive(Debug, Clone, Copy, PartialEq, Eq)]
pub enum Field {
    Cluster,
    Namespace,
    User,
    Server,
    CertificateAuthority,
    ClientCertificate,
    ClientKey,
    ProviderName,
    ClientId,
    ClientSecret,
    IdToken,
    IdpIssuerUrl,
    RefreshToken,
}

impl Field {
    /// The key of the field in the document.
    pub open spec fn key_text(self) -> Seq<char> {
        match self {
            Field::Cluster => "cluster"@,
            Field::Namespace => "namespace"@,
            Field::User => "user"@,
            Field::Server => "server"@,
            Field::CertificateAuthority => "certificate-authority"@,
            Field::ClientCertificate => "client-certificate"@,
            Field::ClientKey => "client-key"@,
            Field::ProviderName => "name"@,
            Field::ClientId => "client-id"@,
            Field::ClientSecret => "client-secret"@,
            Field::IdToken => "id-token"@,
            Field::IdpIssuerUrl => "idp-issuer-url"@,
            Field::RefreshToken => "refresh-token"@,
        }
    }

    /// The key of the field in the document.
    pub fn key(&self) -> (r: &'static str)
        ensures
            r@ == self.key_text(),
    {
        match self {
            Field::Cluster => "cluster",
            Field::Namespace => "namespace",
            Field::User => "user",
            Field::Server => "server",
            Field::CertificateAuthority => "certificate-authority",
            Field::ClientCertificate => "client-certificate",
            Field::ClientKey => "client-key",
            Field::ProviderName => "name",
            Field::ClientId => "client-id",
            Field::ClientSecret => "client-secret",
            Field::IdToken => "id-token",
            Field::IdpIssuerUrl => "idp-issuer-url",
            Field::RefreshToken => "refresh-token",
        }
    }
}

/// Why a run ended without a result.
#[derive(Debug, Clone, PartialEq, Eq)]
pub enum ConfigError {
    /// The home directory of the invoking user cannot be determined.
    HomeDirectoryUnavailable,
    /// The configuration file is missing, unreadable or not text.
    SourceFileUnreadable,
    /// A text is no structured document, or a document lacks the
    /// collections and named entries that a configuration is made of.
    MalformedDocument,
    /// No record of the given kind bears the name that was searched.
    RecordNotFound { kind: RecordKind, name: String },
    /// The record of the given kind and name lacks a required string field.
    MissingField { kind: RecordKind, record: String, field: Field },
    /// The generated document could not be written.
    OutputWriteFailed,
}

/// Mathematical model of a `ConfigError`.
pub ghost enum ErrorView {
    HomeDirectoryUnavailable,
    SourceFileUnreadable,
    MalformedDocument,
    RecordNotFound { kind: RecordKind, name: Seq<char> },
    MissingField { kind: RecordKind, record: Seq<char>, field: Field },
    OutputWriteFailed,
}

impl View for ConfigError {
    type V = ErrorView;

    open spec fn view(&self) -> ErrorView {
        match self {
            ConfigError::HomeDirectoryUnavailable => ErrorView::HomeDirectoryUnavailable,
            ConfigError::SourceFileUnreadable => ErrorView::SourceFileUnreadable,
            ConfigError::MalformedDocument => ErrorView::MalformedDocument,
            ConfigError::RecordNotFound { kind, name } => ErrorView::RecordNotFound {
                kind: *kind,
                name: name@,
            },
            ConfigError::MissingField { kind, record, field } => ErrorView::MissingField {
                kind: *kind,
                record: record@,
                field: *field,
            },
            ConfigError::OutputWriteFailed => ErrorView::OutputWriteFailed,
        }
    }
}

impl ErrorView {
    /// The line that tells a person what went wrong.
    pub open spec fn message(self) -> Seq<char> {
        match self {
            ErrorView::HomeDirectoryUnavailable =>
                "could not determine the home directory of the current user"@,
            ErrorView::SourceFileUnreadable => "could not read the configuration file"@,
            ErrorView::MalformedDocument => "the document is not a well-formed configuration"@,
            ErrorView::RecordNotFound { kind, name } => "no "@ + kind.noun_text() + " named "@
                + name,
            ErrorView::MissingField { kind, record, field } => kind.noun_text() + " "@ + record
                + " has no "@ + field.key_text(),
            ErrorView::OutputWriteFailed => "could not write the generated configuration"@,
        }
    }
}

impl ConfigError {
    /// The line that tells a person what went wrong.
    pub fn message(&self) -> (r: String)
        ensures
            r@ == self@.message(),
    {
        match self {
            ConfigError::HomeDirectoryUnavailable => {
                "could not determine the home directory of the current user".to_owned()
            },
            ConfigError::SourceFileUnreadable => "could not read the configuration file".to_owned(),
            ConfigError::MalformedDocument => {
                "the document is not a well-formed configuration".to_owned()
            },
            ConfigError::RecordNotFound { kind, name } => {
                let mut line = "no ".to_owned();
                line.append(kind.noun());
                line.append(" named ");
                line.append(name.as_str());
                line
            },
            ConfigError::MissingField { kind, record, field } => {
                let mut line = kind.noun().to_owned();
                line.append(" ");
                line.append(record.as_str());
                line.append(" has no ");
                line.append(field.key());
                line
            },
            ConfigError::OutputWriteFailed => {
                "could not write the generated configuration".to_owned()
            },
        }
    }
}

} // verus!
