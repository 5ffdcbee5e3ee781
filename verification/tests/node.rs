use eio_daemon::node::{
    load_registries, mint_id, mint_token, template, Ambiguity, Api, BlocksSection, BudgetsSection, Credential,
    ExecutorSection, File, KeyFile, Layout, LimitsSection, NodeError, RegistryEntry, DEFAULT_LISTEN, DEFAULT_MAILBOX,
    DEFAULT_MAX_BATCH, DEFAULT_MAX_PAYLOAD, ID_BYTES, TOKEN_BYTES,
};

const KEY: &str = "-----BEGIN PUBLIC KEY-----
MFkwEwYHKoZIzj0CAQYIKoZIzj0DAQcDQgAEaxfR8uEsQkf4vOblY6RA8ncDfYEt
6zOg9KE5RdiYwpZP40Li/hp/m47n60p8D54WK84zV2sxXs7LtkBoN79R9Q==
-----END PUBLIC KEY-----
";

fn file(id: &str) -> File {
    File {
        id: String::from(id),
        name: None,
        api: Api::default(),
        limits: LimitsSection::default(),
        budgets: BudgetsSection::default(),
        executor: ExecutorSection::default(),
        blocks: BlocksSection::default(),
    }
}

#[test]
fn a_minted_id_is_opaque_and_stable_in_shape() {
    let id = mint_id().expect("randomness");
    assert_eq!(id.len(), ID_BYTES * 2);
    assert!(
        id.chars().all(|c| c.is_ascii_hexdigit() && !c.is_uppercase()),
        "an id is safe in a path and in a URL: {id}"
    );
    assert_ne!(id, mint_id().expect("randomness"), "and it is random");
}

#[test]
fn a_token_is_four_times_an_ids_randomness() {
    let token = mint_token().expect("randomness");
    assert_eq!(token.len(), TOKEN_BYTES * 2);
    assert!(token.chars().all(|c| c.is_ascii_hexdigit() && !c.is_uppercase()));
}

#[test]
fn the_template_holds_the_id_and_the_defaults() {
    let text = template("n1");
    assert!(text.contains("\nid = \"n1\"\n"), "{text}");
    assert!(text.contains(&format!("listen = \"{DEFAULT_LISTEN}\"")));
    assert!(text.contains(&format!("max_payload = {DEFAULT_MAX_PAYLOAD}")));
    assert!(text.contains(&format!("max_batch = {DEFAULT_MAX_BATCH}")));
    assert!(text.contains(&format!("mailbox = {DEFAULT_MAILBOX}")));
}

#[test]
fn the_provisioned_template_parses_to_the_defaults() {
    let parsed: toml::Value = toml::from_str(&template("n1")).expect("the template is TOML");
    assert_eq!(parsed["id"].as_str(), Some("n1"));
    assert!(parsed.get("name").is_none(), "a template chooses no label");
    assert_eq!(parsed["api"]["listen"].as_str(), Some(DEFAULT_LISTEN));
    assert_eq!(parsed["limits"]["max_payload"].as_integer(), Some(i64::from(DEFAULT_MAX_PAYLOAD)));
    assert_eq!(parsed["limits"]["max_batch"].as_integer(), Some(i64::from(DEFAULT_MAX_BATCH)));
    let budgets = BudgetsSection::default();
    assert_eq!(parsed["budgets"]["fuel"].as_integer(), Some(budgets.fuel as i64));
    assert_eq!(parsed["budgets"]["deadline_ms"].as_integer(), Some(budgets.deadline_ms as i64));
    assert_eq!(parsed["budgets"]["expr"]["max_fuel"].as_integer(), Some(i64::from(budgets.expr.max_fuel)));
    assert_eq!(parsed["budgets"]["expr"]["max_depth"].as_integer(), Some(i64::from(budgets.expr.max_depth)));
    assert_eq!(parsed["budgets"]["expr"]["max_range"].as_integer(), Some(i64::from(budgets.expr.max_range)));
    assert_eq!(
        parsed["budgets"]["expr"]["max_value_bytes"].as_integer(),
        Some(i64::from(budgets.expr.max_value_bytes))
    );
    assert_eq!(parsed["executor"]["mailbox"].as_integer(), Some(DEFAULT_MAILBOX as i64));
    assert_eq!(parsed["blocks"]["require_signed"].as_bool(), Some(false));
    assert_eq!(parsed["blocks"]["key"].as_str(), Some(BlocksSection::default().key.as_str()));
}

#[test]
fn an_id_and_nothing_else_is_a_whole_node() {
    let node = file("n1")
        .into_node(String::from("/data"), String::from("t"), Vec::new(), true, KeyFile::Absent)
        .expect("a whole node");
    assert_eq!(node.id, "n1");
    assert_eq!(node.name, None);
    assert_eq!(node.listen, DEFAULT_LISTEN);
    assert_eq!(node.limits.max_payload, DEFAULT_MAX_PAYLOAD);
    assert_eq!(node.limits.max_batch, DEFAULT_MAX_BATCH);
    assert_eq!(node.limits.max_emission_bytes, None);
    assert_eq!(node.mailbox, DEFAULT_MAILBOX);
    assert!(!node.signing.require_signed);
    assert_eq!(node.signing.key, None);
    assert_eq!(node.signing.key_path, "/data/auth/cosign.pub");
    assert_eq!(node.token, "t");
}

#[test]
fn every_way_a_file_is_not_a_node_is_its_own_error() {
    let open = |f: File, listen: bool, key: KeyFile| f.into_node(String::from("/data"), String::new(), Vec::new(), listen, key);
    assert_eq!(open(file(""), true, KeyFile::Absent).unwrap_err(), NodeError::EmptyId);
    let mut no_room = file("n1");
    no_room.executor.mailbox = 0;
    assert_eq!(open(no_room, true, KeyFile::Absent).unwrap_err(), NodeError::NoMailbox);
    assert_eq!(
        open(file("n1"), false, KeyFile::Absent).unwrap_err(),
        NodeError::BadListen(String::from(DEFAULT_LISTEN))
    );
    assert_eq!(
        open(file("n1"), true, KeyFile::Text(String::from("-----BEGIN PUBLIC KEY-----\nnope\n-----END PUBLIC KEY-----\n")))
            .unwrap_err(),
        NodeError::NotAKey(String::from("/data/auth/cosign.pub"))
    );
    assert_eq!(
        open(file("n1"), true, KeyFile::Unreadable(String::from("denied"))).unwrap_err(),
        NodeError::UnreadableKey { path: String::from("/data/auth/cosign.pub"), error: String::from("denied") }
    );
}

#[test]
fn the_signing_policy_is_the_files_and_the_key_is_a_file() {
    let mut signed = file("n1");
    signed.blocks.require_signed = true;
    signed.blocks.key = String::from("/etc/keys/cosign.pub");
    let node = signed
        .into_node(String::from("/data"), String::new(), Vec::new(), true, KeyFile::Text(String::from(KEY)))
        .expect("a key that is a key");
    assert!(node.signing.require_signed);
    assert_eq!(node.signing.key.as_deref(), Some(KEY));
    assert_eq!(node.signing.key_path, "/etc/keys/cosign.pub", "an absolute key path is taken as it is");
}

#[test]
fn registries_toml_is_read_into_credentials_keyed_by_host() {
    let entries = vec![
        (String::from("ghcr.io"), RegistryEntry { token: Some(String::from("t")), username: None, password: None }),
        (
            String::from("registry.local:5000"),
            RegistryEntry { token: None, username: Some(String::from("u")), password: Some(String::from("p")) },
        ),
    ];
    let credentials = load_registries(entries).expect("both name one credential");
    assert_eq!(
        credentials,
        vec![
            (String::from("ghcr.io"), Credential::Bearer(String::from("t"))),
            (
                String::from("registry.local:5000"),
                Credential::Basic { username: String::from("u"), password: String::from("p") }
            ),
        ]
    );
}

#[test]
fn a_registries_toml_entry_naming_neither_a_token_nor_a_login_is_refused_at_load() {
    let entry = |token: Option<&str>, username: Option<&str>, password: Option<&str>| RegistryEntry {
        token: token.map(String::from),
        username: username.map(String::from),
        password: password.map(String::from),
    };
    for (given, ambiguity) in [
        (entry(None, None, None), Ambiguity::Neither),
        (entry(None, Some("u"), None), Ambiguity::NoPassword),
        (entry(None, None, Some("p")), Ambiguity::NoUsername),
        (entry(Some("t"), Some("u"), Some("p")), Ambiguity::Both),
    ] {
        let refused = load_registries(vec![
            (String::from("ok.io"), entry(Some("t"), None, None)),
            (String::from("bad.io"), given),
        ])
        .unwrap_err();
        assert_eq!(refused.host, "bad.io");
        assert_eq!(refused.ambiguity, ambiguity);
    }
}

#[test]
fn the_layout_is_the_data_directory_tree() {
    let layout = Layout::new("/data");
    assert_eq!(layout.root(), "/data");
    assert_eq!(layout.node_toml(), "/data/node.toml");
    assert_eq!(layout.services(), "/data/services");
    assert_eq!(layout.pubsub(), "/data/pubsub.toml");
    assert_eq!(layout.blocks(), "/data/blocks");
    assert_eq!(layout.precompiled(), "/data/precompiled");
    assert_eq!(layout.state(), "/data/state");
    assert_eq!(layout.state_store(), "/data/state/state.redb");
    assert_eq!(layout.auth(), "/data/auth");
    assert_eq!(layout.token(), "/data/auth/token");
    assert_eq!(layout.registries(), "/data/auth/registries.toml");
}
