use spanner_adapter::error::FsError;
use spanner_adapter::interactive::{Answer, ConfigField, FieldKind, FieldValue};
use spanner_adapter::profile::{
    setup_spanner_profile, starting_config, Field, SpannerDbConfig, StringOrInteger,
};

fn text(s: &str) -> FieldValue {
    FieldValue::String(s.to_string())
}

fn answer(name: &str, value: FieldValue) -> Answer {
    Answer { field_name: name.to_string(), value }
}

fn is_text(value: Option<FieldValue>, expected: &str) -> bool {
    matches!(value, Some(FieldValue::String(s)) if s == expected)
}

fn is_index(value: Option<FieldValue>, expected: i64) -> bool {
    matches!(value, Some(FieldValue::Integer(i)) if i == expected)
}

#[test]
fn text_fields_read_back() {
    for name in ["project", "instance", "database", "schema", "keyfile"] {
        let mut config = SpannerDbConfig::default();
        assert!(!config.is_field_set(name));
        assert!(config.get_field(name).is_none());
        config.set_field(name, text("a")).unwrap();
        config.set_field(name, text("b")).unwrap();
        assert!(config.is_field_set(name));
        assert!(is_text(config.get_field(name), "b"));
        config.set_field(name, FieldValue::Integer(1)).unwrap();
        assert!(is_text(config.get_field(name), "b"));
    }
}

#[test]
fn a_blank_schema_changes_nothing() {
    let mut config = SpannerDbConfig::default();
    config.set_field("schema", text("")).unwrap();
    assert_eq!(config.schema, None);
    config.set_field("schema", text("s")).unwrap();
    config.set_field("schema", text("")).unwrap();
    assert_eq!(config.schema.as_deref(), Some("s"));
    config.set_field("project", text("")).unwrap();
    assert_eq!(config.project.as_deref(), Some(""));
}

#[test]
fn auth_method_follows_key_file_and_method() {
    let mut config = SpannerDbConfig::default();
    assert!(config.get_field("auth_method").is_none());
    config.set_field("auth_method", FieldValue::Integer(0)).unwrap();
    config.set_field("auth_method", FieldValue::Integer(2)).unwrap();
    config.set_field("auth_method", text("oauth")).unwrap();
    assert_eq!(config.method, None);
    config.set_field("auth_method", FieldValue::Integer(1)).unwrap();
    assert_eq!(config.method.as_deref(), Some("oauth"));
    assert!(is_index(config.get_field("auth_method"), 1));
    config.set_field("keyfile", text("/k.json")).unwrap();
    assert_eq!(config.method.as_deref(), Some("service-account"));
    assert!(is_index(config.get_field("auth_method"), 0));
    config.set_field("auth_method", FieldValue::Integer(1)).unwrap();
    assert_eq!(config.method.as_deref(), Some("oauth"));
    assert!(is_index(config.get_field("auth_method"), 0));
    assert!(!config.is_field_set("auth_method"));

    config.keyfile = None;
    config.method = Some("token".to_string());
    assert!(config.get_field("auth_method").is_none());
}

#[test]
fn unknown_fields_are_ignored() {
    let mut config = SpannerDbConfig::default();
    config.set_field("threads", FieldValue::Integer(1)).unwrap();
    config.set_field("", text("x")).unwrap();
    assert!(config.threads.is_none());
    assert!(config.get_field("threads").is_none());
    assert!(!config.is_field_set("threads"));
    assert_eq!(Field::named("threads"), None);
    assert_eq!(Field::named("schema"), Some(Field::Schema));
}

#[test]
fn the_questions_in_order() {
    let fields = SpannerDbConfig::get_fields();
    let names: Vec<&str> = fields.iter().map(|f| f.name).collect();
    let prompts: Vec<&str> = fields.iter().map(|f| f.prompt).collect();
    assert_eq!(
        names,
        vec!["project", "instance", "database", "schema", "auth_method", "keyfile"]
    );
    assert_eq!(
        prompts,
        vec![
            "Project ID",
            "Instance ID",
            "Database",
            "Named schema (leave blank for the default/unnamed schema)",
            "Which authentication method would you like to use?",
            "Path to service account JSON file",
        ]
    );
    assert!(matches!(fields[0].kind, FieldKind::Input));
    assert!(matches!(fields[3].kind, FieldKind::OptionalInput { default: None }));
    match &fields[4].kind {
        FieldKind::Select { options, default_index } => {
            assert_eq!(*options, vec!["Service Account (JSON file)", "gcloud oauth"]);
            assert_eq!(*default_index, 0);
        }
        _ => panic!("a choice"),
    }
    for field in &fields[..5] {
        assert!(field.condition.is_none());
        assert!(field.is_asked(&Vec::new()));
    }
}

#[test]
fn the_key_file_is_asked_for_with_a_service_account() {
    let fields = SpannerDbConfig::get_fields();
    let keyfile = &fields[5];
    assert!(!keyfile.is_asked(&Vec::new()));
    let mut answers = vec![
        answer("auth_method", FieldValue::Integer(0)),
        answer("schema", FieldValue::Integer(1)),
    ];
    assert!(keyfile.is_asked(&answers));
    answers.push(answer("auth_method", FieldValue::Integer(1)));
    assert!(!keyfile.is_asked(&answers));
    answers.push(answer("auth_method", text("0")));
    assert!(!keyfile.is_asked(&answers));
}

#[test]
fn conditions_on_text() {
    let field = ConfigField::optional_input("a", "A", Some("x")).when_field_equals("b", text("y"));
    assert!(matches!(field.kind, FieldKind::OptionalInput { default: Some("x") }));
    assert!(field.is_asked(&vec![answer("b", text("y"))]));
    assert!(!field.is_asked(&vec![answer("b", text("z"))]));
    assert!(text("y").clone().same_as(&text("y")));
    assert!(!FieldValue::Integer(0).clone().same_as(&text("y")));
}

#[test]
fn a_service_account_from_scratch() {
    let config = setup_spanner_profile(
        None,
        Ok(vec![
            answer("project", text("p")),
            answer("instance", text("i")),
            answer("database", text("d")),
            answer("schema", text("")),
            answer("auth_method", FieldValue::Integer(0)),
            answer("keyfile", text("/k.json")),
        ]),
    )
    .unwrap();
    assert_eq!(config.project.as_deref(), Some("p"));
    assert_eq!(config.instance.as_deref(), Some("i"));
    assert_eq!(config.database.as_deref(), Some("d"));
    assert_eq!(config.schema, None);
    assert_eq!(config.method.as_deref(), Some("service-account"));
    assert_eq!(config.keyfile.as_deref(), Some("/k.json"));
    assert!(matches!(config.threads, Some(StringOrInteger::Integer(16))));
    assert_eq!(config.scopes, None);
    assert_eq!(config.api_endpoint, None);
}

#[test]
fn an_existing_target_is_kept_where_nothing_is_answered() {
    let existing = SpannerDbConfig {
        threads: Some(StringOrInteger::String("4".to_string())),
        project: Some("old".to_string()),
        scopes: Some(vec!["a".to_string(), "b".to_string()]),
        token: Some("t".to_string()),
        emulator: Some(true),
        retries: Some(3),
        keyfile_json: Some("{}".to_string()),
        ..SpannerDbConfig::default()
    };
    let config = setup_spanner_profile(
        Some(&existing),
        Ok(vec![
            answer("instance", text("i")),
            answer("auth_method", FieldValue::Integer(1)),
        ]),
    )
    .unwrap();
    assert!(matches!(&config.threads, Some(StringOrInteger::String(s)) if s == "4"));
    assert_eq!(config.project.as_deref(), Some("old"));
    assert_eq!(config.instance.as_deref(), Some("i"));
    assert_eq!(config.method.as_deref(), Some("oauth"));
    assert_eq!(config.scopes, existing.scopes);
    assert_eq!(config.token, existing.token);
    assert_eq!(config.emulator, Some(true));
    assert_eq!(config.retries, Some(3));
    assert_eq!(config.keyfile_json.as_deref(), Some("{}"));

    let again = setup_spanner_profile(Some(&config), Ok(Vec::new())).unwrap();
    assert_eq!(format!("{again:?}"), format!("{config:?}"));
    assert_eq!(
        format!("{:?}", starting_config(Some(&existing))),
        format!("{existing:?}")
    );
    assert_eq!(
        format!("{:?}", starting_config(None)),
        format!("{:?}", SpannerDbConfig::default())
    );
}

#[test]
fn an_interaction_that_fails_ends_the_setup() {
    let err = setup_spanner_profile(None, Err(FsError { message: "no terminal".to_string() }))
        .unwrap_err();
    assert_eq!(err.message, "no terminal");
}

#[test]
fn the_order_of_key_file_and_method_matters() {
    let keyfile = || answer("keyfile", text("k"));
    let oauth = || answer("auth_method", FieldValue::Integer(1));
    let a = setup_spanner_profile(None, Ok(vec![keyfile(), oauth()])).unwrap();
    let b = setup_spanner_profile(None, Ok(vec![oauth(), keyfile()])).unwrap();
    assert_eq!(a.method.as_deref(), Some("oauth"));
    assert_eq!(b.method.as_deref(), Some("service-account"));
}
