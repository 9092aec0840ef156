use kubeconfig_extract::{
    canonical_text, config_path, export_line, extract, listing, listing_text, output_path,
    parse_document, projection_text, render, resolve, run, AuthProvider, Cluster, ConfigError,
    Context, Credentials, Field, Node, Outcome, RecordKind, Selection, User,
};

fn source() -> &'static str {
    "contexts:
- name: dev
  context:
    cluster: c1
    user: u1
    namespace: ns1
- name: staging
  context:
    cluster: c1
    user: u2
    namespace: ns2
clusters:
- name: c1
  cluster:
    server: https://x
    certificate-authority: CA
users:
- name: u1
  user:
    client-certificate: CERT
    client-key: KEY
- name: u2
  user:
    auth-provider:
      name: oidc
      config:
        client-id: id
        client-secret: secret
        id-token: tok
        idp-issuer-url: https://issuer
        refresh-token: fresh
"
}

fn certificate_selection() -> Selection {
    Selection {
        context: Context {
            name: "dev".to_string(),
            cluster: "c1".to_string(),
            namespace: "ns1".to_string(),
            user: "u1".to_string(),
        },
        cluster: Cluster {
            name: "c1".to_string(),
            server: "https://x".to_string(),
            certificate_authority: "CA".to_string(),
        },
        user: User {
            name: "u1".to_string(),
            credentials: Credentials::Certificate {
                client_certificate: "CERT".to_string(),
                client_key: "KEY".to_string(),
            },
        },
    }
}

fn provider_selection() -> Selection {
    Selection {
        context: Context {
            name: "staging".to_string(),
            cluster: "c1".to_string(),
            namespace: "ns2".to_string(),
            user: "u2".to_string(),
        },
        cluster: Cluster {
            name: "c1".to_string(),
            server: "https://x".to_string(),
            certificate_authority: "CA".to_string(),
        },
        user: User {
            name: "u2".to_string(),
            credentials: Credentials::Provider(AuthProvider {
                name: "oidc".to_string(),
                client_id: "id".to_string(),
                client_secret: "secret".to_string(),
                id_token: "tok".to_string(),
                idp_issuer_url: "https://issuer".to_string(),
                refresh_token: "fresh".to_string(),
            }),
        },
    }
}

fn certificate_document() -> &'static str {
    "---
apiVersion: v1
kind: Config
clusters:
  - cluster:
      certificate-authority: CA
      server: \"https://x\"
    name: c1
contexts:
  - context:
      cluster: c1
      namespace: ns1
      user: u1
    name: dev
users:
  - user:
      client-certificate: CERT
      client-key: KEY
    name: u1
current-context: dev"
}

fn provider_document() -> &'static str {
    "---
apiVersion: v1
kind: Config
clusters:
  - cluster:
      certificate-authority: CA
      server: \"https://x\"
    name: c1
contexts:
  - context:
      cluster: c1
      namespace: ns2
      user: u2
    name: staging
users:
  - user:
      auth-provider:
        config:
          client-id: id
          client-secret: secret
          id-token: tok
          idp-issuer-url: \"https://issuer\"
          refresh-token: fresh
        name: oidc
    name: u2
current-context: staging"
}

fn at<'a>(node: &'a Node, index: usize) -> &'a Node {
    &node.as_vec().unwrap()[index]
}

fn under<'a>(node: &'a Node, key: &str) -> &'a Node {
    node.field(key).unwrap()
}

#[test]
fn extraction_of_a_certificate_user() {
    let written = extract(source(), "dev").unwrap();
    let doc = parse_document(&written).unwrap();
    let cluster = at(under(&doc, "clusters"), 0);
    assert_eq!(under(cluster, "cluster").string_field("server"), Some("https://x"));
    assert_eq!(under(cluster, "cluster").string_field("certificate-authority"), Some("CA"));
    assert_eq!(cluster.string_field("name"), Some("c1"));
    let user = at(under(&doc, "users"), 0);
    assert_eq!(under(user, "user").string_field("client-certificate"), Some("CERT"));
    assert_eq!(under(user, "user").string_field("client-key"), Some("KEY"));
    assert_eq!(under(user, "user").field("auth-provider"), None);
    assert_eq!(user.string_field("name"), Some("u1"));
    let context = at(under(&doc, "contexts"), 0);
    assert_eq!(under(context, "context").string_field("cluster"), Some("c1"));
    assert_eq!(under(context, "context").string_field("namespace"), Some("ns1"));
    assert_eq!(under(context, "context").string_field("user"), Some("u1"));
    assert_eq!(context.string_field("name"), Some("dev"));
    assert_eq!(doc.string_field("current-context"), Some("dev"));
    assert_eq!(doc.string_field("apiVersion"), Some("v1"));
    assert_eq!(doc.string_field("kind"), Some("Config"));
    assert_eq!(under(&doc, "clusters").as_vec().unwrap().len(), 1);
    assert_eq!(under(&doc, "contexts").as_vec().unwrap().len(), 1);
    assert_eq!(under(&doc, "users").as_vec().unwrap().len(), 1);
}

#[test]
fn extraction_of_a_provider_user() {
    let written = extract(source(), "staging").unwrap();
    let doc = parse_document(&written).unwrap();
    let user = under(at(under(&doc, "users"), 0), "user");
    assert_eq!(user.field("client-certificate"), None);
    assert_eq!(user.field("client-key"), None);
    let provider = under(user, "auth-provider");
    assert_eq!(provider.string_field("name"), Some("oidc"));
    let config = under(provider, "config");
    assert_eq!(config.string_field("client-id"), Some("id"));
    assert_eq!(config.string_field("client-secret"), Some("secret"));
    assert_eq!(config.string_field("id-token"), Some("tok"));
    assert_eq!(config.string_field("idp-issuer-url"), Some("https://issuer"));
    assert_eq!(config.string_field("refresh-token"), Some("fresh"));
    assert_eq!(doc.string_field("current-context"), Some("staging"));
}

#[test]
fn extraction_writes_the_canonical_layout() {
    assert_eq!(extract(source(), "dev").unwrap(), certificate_document());
    assert_eq!(extract(source(), "staging").unwrap(), provider_document());
}

#[test]
fn resolution_follows_the_names_of_the_context() {
    let doc = parse_document(source()).unwrap();
    assert_eq!(resolve("dev", &doc), Ok(certificate_selection()));
    assert_eq!(resolve("staging", &doc), Ok(provider_selection()));
}

#[test]
fn resolution_reports_the_search_that_fails() {
    let text = source().replace("cluster: c1\n    user: u1", "cluster: c9\n    user: u1");
    let doc = parse_document(&text).unwrap();
    assert_eq!(
        resolve("dev", &doc),
        Err(ConfigError::RecordNotFound { kind: RecordKind::Cluster, name: "c9".to_string() })
    );
    let text = source().replace("user: u1", "user: u9");
    let doc = parse_document(&text).unwrap();
    assert_eq!(
        resolve("dev", &doc),
        Err(ConfigError::RecordNotFound { kind: RecordKind::User, name: "u9".to_string() })
    );
    let doc = parse_document(source()).unwrap();
    assert_eq!(
        resolve("prod", &doc),
        Err(ConfigError::RecordNotFound { kind: RecordKind::Context, name: "prod".to_string() })
    );
}

#[test]
fn projection_of_a_certificate_user() {
    assert_eq!(
        projection_text(&certificate_selection()),
        "apiVersion: v1
kind: Config
clusters:
- cluster:
    certificate-authority: CA
    server: https://x
  name: c1
contexts:
- context:
    cluster: c1
    namespace: ns1
    user: u1
  name: dev
users:
- user:
    client-certificate: CERT
    client-key: KEY
  name: u1
current-context: dev
"
    );
}

#[test]
fn projection_of_a_provider_user() {
    assert_eq!(
        projection_text(&provider_selection()),
        "apiVersion: v1
kind: Config
clusters:
- cluster:
    certificate-authority: CA
    server: https://x
  name: c1
contexts:
- context:
    cluster: c1
    namespace: ns2
    user: u2
  name: staging
users:
- user:
    auth-provider:
      config:
        client-id: id
        client-secret: secret
        id-token: tok
        idp-issuer-url: https://issuer
        refresh-token: fresh
      name: oidc
  name: u2
current-context: staging
"
    );
}

#[test]
fn projection_in_canonical_layout() {
    assert_eq!(render(&certificate_selection()).unwrap(), certificate_document());
    assert_eq!(render(&provider_selection()).unwrap(), provider_document());
}

#[test]
fn canonical_layout_is_a_fixed_point() {
    for name in ["dev", "staging"] {
        let once = extract(source(), name).unwrap();
        let twice = canonical_text(&once).unwrap();
        assert_eq!(twice, once);
        assert_eq!(parse_document(&twice), parse_document(&once));
    }
}

#[test]
fn canonical_layout_keeps_what_the_projection_holds() {
    for selection in [certificate_selection(), provider_selection()] {
        let direct = projection_text(&selection);
        let written = render(&selection).unwrap();
        assert_eq!(parse_document(&written), parse_document(&direct));
    }
}

#[test]
fn a_value_that_breaks_the_layout_is_reported() {
    let mut selection = certificate_selection();
    selection.cluster.server = "[".to_string();
    assert_eq!(render(&selection), Err(ConfigError::MalformedDocument));
}

#[test]
fn an_absent_context_yields_no_document() {
    assert_eq!(
        extract(source(), "prod"),
        Err(ConfigError::RecordNotFound { kind: RecordKind::Context, name: "prod".to_string() })
    );
    let arguments = vec!["tool".to_string(), "prod".to_string()];
    let outcome = run(&arguments, source(), 1_700_000_000_000);
    assert_eq!(
        outcome,
        Outcome::Failed {
            error: ConfigError::RecordNotFound {
                kind: RecordKind::Context,
                name: "prod".to_string(),
            },
        }
    );
    assert_eq!(outcome.status(), 1);
}

#[test]
fn a_text_that_is_no_document_is_malformed() {
    assert_eq!(extract("contexts: [1, 2", "dev"), Err(ConfigError::MalformedDocument));
    assert_eq!(extract("", "dev"), Err(ConfigError::MalformedDocument));
    assert_eq!(listing("a: 'b"), Err(ConfigError::MalformedDocument));
    assert_eq!(listing(""), Err(ConfigError::MalformedDocument));
    assert_eq!(parse_document("a: [1, 2"), Err(ConfigError::MalformedDocument));
    assert_eq!(parse_document(""), Err(ConfigError::MalformedDocument));
    assert_eq!(canonical_text("a: [1, 2"), Err(ConfigError::MalformedDocument));
    assert_eq!(canonical_text(""), Err(ConfigError::MalformedDocument));
}

#[test]
fn a_document_without_collections_is_malformed() {
    assert_eq!(extract("kind: Config\n", "dev"), Err(ConfigError::MalformedDocument));
    assert_eq!(extract("---", "dev"), Err(ConfigError::MalformedDocument));
    assert_eq!(listing("kind: Config\n"), Err(ConfigError::MalformedDocument));
}

#[test]
fn a_missing_field_is_reported_by_name() {
    let text = source().replace("    server: https://x\n", "");
    assert_eq!(
        extract(&text, "dev"),
        Err(ConfigError::MissingField {
            kind: RecordKind::Cluster,
            record: "c1".to_string(),
            field: Field::Server,
        })
    );
}

#[test]
fn only_the_first_document_is_read() {
    let text = format!("{}---\ncontexts:\n- name: second\n", source());
    assert_eq!(listing(&text).unwrap(), "dev\nstaging\n");
    assert_eq!(
        extract(&text, "second"),
        Err(ConfigError::RecordNotFound { kind: RecordKind::Context, name: "second".to_string() })
    );
    let doc = parse_document("first: 1\n---\nsecond: 2\n").unwrap();
    assert_eq!(doc, Node::Hash(vec![(Node::Str("first".to_string()), Node::Integer(1))]));
    assert_eq!(canonical_text("first: 1\n---\nsecond: 2\n").unwrap(), "---\nfirst: 1");
}

#[test]
fn a_document_is_read_value_for_value() {
    let doc = parse_document(
        "r: 1.5\ni: -7\nb: true\nn: ~\ns: 'seven'\na: &x [1, two]\nc: *x\n3: three\nm: {k: v}\n",
    )
    .unwrap();
    let key = |name: &str| Node::Str(name.to_string());
    let list = || Node::Array(vec![Node::Integer(1), key("two")]);
    assert_eq!(
        doc,
        Node::Hash(vec![
            (key("r"), Node::Real("1.5".to_string())),
            (key("i"), Node::Integer(-7)),
            (key("b"), Node::Boolean(true)),
            (key("n"), Node::Null),
            (key("s"), key("seven")),
            (key("a"), list()),
            (key("c"), list()),
            (Node::Integer(3), key("three")),
            (key("m"), Node::Hash(vec![(key("k"), key("v"))])),
        ])
    );
    assert_eq!(parse_document("---"), Ok(Node::Null));
    assert_eq!(parse_document("just text"), Ok(key("just text")));
    assert_eq!(parse_document("!!int x"), Ok(Node::BadValue));
}

#[test]
fn a_document_is_written_in_block_layout() {
    assert_eq!(canonical_text("a: [1, x, {b: ~}]").unwrap(), "---\na:\n  - 1\n  - x\n  - b: ~");
    assert_eq!(canonical_text("{a: 'true', b: true}").unwrap(), "---\na: \"true\"\nb: true");
    assert_eq!(canonical_text("text").unwrap(), "---\ntext");
}

#[test]
fn contexts_are_listed_one_per_line() {
    let text = "contexts:\n- name: a\n- name: b\n- name: c\n";
    assert_eq!(listing(text).unwrap(), "a\nb\nc\n");
    let outcome = run(&vec!["tool".to_string()], text, 5);
    assert_eq!(outcome, Outcome::Listed { text: "a\nb\nc\n".to_string() });
    assert_eq!(outcome.status(), 2);
    let outcome = run(&vec![], text, 5);
    assert_eq!(outcome, Outcome::Listed { text: "a\nb\nc\n".to_string() });
}

#[test]
fn a_configuration_without_contexts_lists_nothing() {
    assert_eq!(listing("contexts: []\n").unwrap(), "");
    assert_eq!(listing_text(&vec![]), "");
}

#[test]
fn each_name_ends_its_line() {
    assert_eq!(listing_text(&vec!["one".to_string()]), "one\n");
    assert_eq!(
        listing_text(&vec!["b".to_string(), "".to_string(), "a b".to_string()]),
        "b\n\na b\n"
    );
}

#[test]
fn a_listing_that_fails_ends_with_status_one() {
    let outcome = run(&vec!["tool".to_string()], "contexts:\n- context: {}\n", 5);
    assert_eq!(outcome, Outcome::Failed { error: ConfigError::MalformedDocument });
    assert_eq!(outcome.status(), 1);
}

#[test]
fn an_extraction_names_its_file_after_the_time() {
    let arguments = vec!["tool".to_string(), "dev".to_string(), "ignored".to_string()];
    let outcome = run(&arguments, source(), 1_700_000_000_123);
    assert_eq!(
        outcome,
        Outcome::Extracted {
            path: "/tmp/kubeconfig.1700000000123".to_string(),
            document: certificate_document().to_string(),
            line: "export KUBECONFIG=/tmp/kubeconfig.1700000000123".to_string(),
        }
    );
    assert_eq!(outcome.status(), 0);
}

#[test]
fn output_paths_end_in_the_decimal_time() {
    assert_eq!(output_path(0), "/tmp/kubeconfig.0");
    assert_eq!(output_path(7), "/tmp/kubeconfig.7");
    assert_eq!(output_path(10), "/tmp/kubeconfig.10");
    assert_eq!(output_path(909), "/tmp/kubeconfig.909");
    assert_eq!(output_path(1_234_567_890_123), "/tmp/kubeconfig.1234567890123");
    assert_eq!(
        output_path(u128::MAX),
        "/tmp/kubeconfig.340282366920938463463374607431768211455"
    );
}

#[test]
fn the_configuration_lies_below_the_home_directory() {
    assert_eq!(config_path("/home/ada"), "/home/ada/.kube/config");
    assert_eq!(config_path(""), "/.kube/config");
    assert_eq!(config_path("/home/ada/"), "/home/ada//.kube/config");
}

#[test]
fn the_export_line_names_the_path() {
    assert_eq!(export_line("/tmp/kubeconfig.42"), "export KUBECONFIG=/tmp/kubeconfig.42");
    assert_eq!(export_line(""), "export KUBECONFIG=");
}

#[test]
fn each_error_has_its_message() {
    assert_eq!(
        ConfigError::HomeDirectoryUnavailable.message(),
        "could not determine the home directory of the current user"
    );
    assert_eq!(
        ConfigError::SourceFileUnreadable.message(),
        "could not read the configuration file"
    );
    assert_eq!(
        ConfigError::MalformedDocument.message(),
        "the document is not a well-formed configuration"
    );
    assert_eq!(
        ConfigError::OutputWriteFailed.message(),
        "could not write the generated configuration"
    );
    let found = |kind| ConfigError::RecordNotFound { kind, name: "dev".to_string() };
    assert_eq!(found(RecordKind::Context).message(), "no context named dev");
    assert_eq!(found(RecordKind::Cluster).message(), "no cluster named dev");
    assert_eq!(found(RecordKind::User).message(), "no user named dev");
    let lacks = |kind, field| ConfigError::MissingField { kind, record: "x".to_string(), field };
    assert_eq!(lacks(RecordKind::Context, Field::Cluster).message(), "context x has no cluster");
    assert_eq!(
        lacks(RecordKind::Context, Field::Namespace).message(),
        "context x has no namespace"
    );
    assert_eq!(lacks(RecordKind::Context, Field::User).message(), "context x has no user");
    assert_eq!(lacks(RecordKind::Cluster, Field::Server).message(), "cluster x has no server");
    assert_eq!(
        lacks(RecordKind::Cluster, Field::CertificateAuthority).message(),
        "cluster x has no certificate-authority"
    );
    assert_eq!(
        lacks(RecordKind::User, Field::ClientCertificate).message(),
        "user x has no client-certificate"
    );
    assert_eq!(lacks(RecordKind::User, Field::ClientKey).message(), "user x has no client-key");
    assert_eq!(lacks(RecordKind::User, Field::ProviderName).message(), "user x has no name");
    assert_eq!(lacks(RecordKind::User, Field::ClientId).message(), "user x has no client-id");
    assert_eq!(
        lacks(RecordKind::User, Field::ClientSecret).message(),
        "user x has no client-secret"
    );
    assert_eq!(lacks(RecordKind::User, Field::IdToken).message(), "user x has no id-token");
    assert_eq!(
        lacks(RecordKind::User, Field::IdpIssuerUrl).message(),
        "user x has no idp-issuer-url"
    );
    assert_eq!(
        lacks(RecordKind::User, Field::RefreshToken).message(),
        "user x has no refresh-token"
    );
}

#[test]
fn kinds_and_fields_have_their_keys() {
    assert_eq!(RecordKind::Context.collection(), "contexts");
    assert_eq!(RecordKind::Cluster.collection(), "clusters");
    assert_eq!(RecordKind::User.collection(), "users");
    assert_eq!(RecordKind::Context.noun(), "context");
    assert_eq!(RecordKind::Cluster.noun(), "cluster");
    assert_eq!(RecordKind::User.noun(), "user");
    assert_eq!(Field::CertificateAuthority.key(), "certificate-authority");
    assert_eq!(Field::ProviderName.key(), "name");
}

#[test]
fn a_repeated_key_keeps_its_last_value() {
    let doc = parse_document("a: 1\nb: 2\na: 3\n").unwrap();
    let key = |name: &str| Node::Str(name.to_string());
    assert_eq!(
        doc,
        Node::Hash(vec![(key("b"), Node::Integer(2)), (key("a"), Node::Integer(3))])
    );
    let text = "contexts:\n- name: dev\n  name: prod\n";
    assert_eq!(listing(text).unwrap(), "prod\n");
}
