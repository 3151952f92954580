use dbt_yaml::{Mapping, Value};
use spanner_adapter::adapter_config::AdapterConfig;
use spanner_adapter::auth::{
    apply_connection_args, converted_keyfile_json, parse_auth, read_keyfile_json, resolve,
    SpannerAuth, SpannerConnection, SpannerSettings,
};
use spanner_adapter::builder::{Backend, DatabaseBuilder};
use spanner_adapter::error::AuthError;
use spanner_adapter::spanner;

fn try_configure(config: Mapping) -> Result<DatabaseBuilder, AuthError> {
    SpannerAuth {}
        .configure(&AdapterConfig::new(config))
        .map(|r| r.builder)
}

fn base_config() -> Mapping {
    Mapping::from_iter([
        ("project".into(), "my-project".into()),
        ("instance".into(), "my-instance".into()),
        ("database".into(), "my-db".into()),
    ])
}

fn with(key: &str, value: Value) -> Mapping {
    let mut config = base_config();
    config.insert(key.into(), value);
    config
}

fn yaml(text: &str) -> Value {
    dbt_yaml::from_str(text).unwrap()
}

fn other_option_value(builder: &DatabaseBuilder, key: &str) -> Option<String> {
    builder.named_option(key).map(|value| value.to_string())
}

fn msg(err: &AuthError) -> String {
    match err {
        AuthError::Config(message) => message.clone(),
        AuthError::Yaml(e) => e.to_string(),
    }
}

#[test]
fn test_builds_database_path() {
    let builder = try_configure(base_config()).unwrap();
    assert_eq!(
        other_option_value(&builder, spanner::DATABASE).unwrap(),
        "projects/my-project/instances/my-instance/databases/my-db"
    );
}

#[test]
fn test_missing_instance_errors() {
    let mut config = base_config();
    config.remove("instance");
    let err = try_configure(config).unwrap_err();
    assert!(msg(&err).contains("instance"));
}

#[test]
fn test_endpoint_and_emulator() {
    let mut config = base_config();
    config.insert("api_endpoint".into(), "http://localhost:9010".into());
    config.insert("emulator".into(), true.into());
    let builder = try_configure(config).unwrap();
    assert_eq!(
        other_option_value(&builder, spanner::ENDPOINT).unwrap(),
        "http://localhost:9010"
    );
    assert_eq!(
        other_option_value(&builder, spanner::EMULATOR).unwrap(),
        "true"
    );
}

#[test]
fn option_keys_are_those_of_the_driver() {
    assert_eq!(spanner::DATABASE, "adbc.spanner.database");
    assert_eq!(spanner::ENDPOINT, "adbc.spanner.endpoint");
    assert_eq!(spanner::EMULATOR, "adbc.spanner.emulator");
    assert_eq!(spanner::KEYFILE, "adbc.spanner.keyfile");
    assert_eq!(spanner::KEYFILE_JSON, "adbc.spanner.keyfile_json");
}

#[test]
fn required_fields_alone_give_the_path_alone() {
    let builder = try_configure(base_config()).unwrap();
    assert_eq!(builder.backend, Backend::Spanner);
    assert_eq!(
        builder.options,
        vec![(
            "adbc.spanner.database".to_string(),
            "projects/my-project/instances/my-instance/databases/my-db".to_string()
        )]
    );
    assert_eq!(SpannerAuth.backend(), Backend::Spanner);
}

#[test]
fn the_first_missing_field_is_reported() {
    let err = try_configure(Mapping::new()).unwrap_err();
    assert_eq!(msg(&err), "Missing required field 'project' in Spanner config");

    let mut config = base_config();
    config.remove("database");
    config.insert("keyfile_json".into(), 3.into());
    let err = try_configure(config).unwrap_err();
    assert_eq!(msg(&err), "Missing required field 'database' in Spanner config");

    let err = try_configure(with("instance", 7.into())).unwrap_err();
    assert_eq!(msg(&err), "Missing required field 'instance' in Spanner config");
}

#[test]
fn all_options_in_order() {
    let config = yaml(
        "{project: p, instance: i, database: d, api_endpoint: a, endpoint: e, \
         emulator: false, keyfile: /k.json, keyfile_json: '{}', method: oauth, retries: 3}",
    );
    let builder = try_configure(config.as_mapping().unwrap().clone()).unwrap();
    let names: Vec<&str> = builder.options.iter().map(|o| o.0.as_str()).collect();
    let values: Vec<&str> = builder.options.iter().map(|o| o.1.as_str()).collect();
    assert_eq!(
        names,
        vec![
            spanner::DATABASE,
            spanner::ENDPOINT,
            spanner::EMULATOR,
            spanner::KEYFILE,
            spanner::KEYFILE_JSON
        ]
    );
    assert_eq!(
        values,
        vec!["projects/p/instances/i/databases/d", "a", "false", "/k.json", "{}"]
    );
    assert_eq!(builder.named_option("adbc.spanner.other"), None);
}

#[test]
fn endpoint_stands_in_for_a_missing_api_endpoint() {
    let builder = try_configure(with("endpoint", "host:1".into())).unwrap();
    assert_eq!(builder.named_option(spanner::ENDPOINT), Some("host:1"));

    // An `api_endpoint` that is no string counts as missing.
    let mut config = with("endpoint", "host:1".into());
    config.insert("api_endpoint".into(), 9010.into());
    let builder = try_configure(config).unwrap();
    assert_eq!(builder.named_option(spanner::ENDPOINT), Some("host:1"));
}

#[test]
fn emulator_settings() {
    let cases = [
        ("true", Some("true")),
        ("'True'", Some("true")),
        ("'1'", Some("true")),
        ("1", Some("true")),
        ("false", Some("false")),
        ("'TRUE'", Some("false")),
        ("1.0", Some("false")),
        ("0", Some("false")),
        ("''", Some("false")),
        ("null", None),
        ("[true]", None),
        ("{a: true}", None),
        ("!x true", None),
    ];
    for (setting, expected) in cases {
        let builder = try_configure(with("emulator", yaml(setting))).unwrap();
        assert_eq!(builder.named_option(spanner::EMULATOR), expected, "{setting}");
    }
}

#[test]
fn tagged_strings_are_read_through_the_tag() {
    let config = AdapterConfig::new(with("keyfile", yaml("!path /k.json")));
    assert_eq!(config.get_str("keyfile"), Some("/k.json"));
    assert_eq!(config.get_str("missing"), None);
    assert_eq!(config.get_string("keyfile"), None);
    assert!(config.get("keyfile").is_some());
    assert!(config.get("key").is_none());
}

#[test]
fn only_string_keys_are_fields() {
    let config = AdapterConfig::new(yaml("{1: a, !x k: b}").as_mapping().unwrap().clone());
    assert_eq!(config.get_str("1"), None);
    assert_eq!(config.get_str("k"), None);
}

#[test]
fn scalars_as_text() {
    let config = AdapterConfig::new(
        yaml("{s: text, t: true, f: false, n: 12, m: -3, d: 1.5, z: null}")
            .as_mapping()
            .unwrap()
            .clone(),
    );
    assert_eq!(config.get_string("s").as_deref(), Some("text"));
    assert_eq!(config.get_string("t").as_deref(), Some("true"));
    assert_eq!(config.get_string("f").as_deref(), Some("false"));
    assert_eq!(config.get_string("n").as_deref(), Some("12"));
    assert_eq!(config.get_string("m").as_deref(), Some("-3"));
    assert_eq!(config.get_string("d").as_deref(), Some("1.5"));
    assert_eq!(config.get_string("z"), None);
    assert_eq!(config.get_string("y"), None);
}

#[test]
fn keyfile_json_as_a_string_is_passed_on() {
    let builder = try_configure(with("keyfile_json", "{ \"a\" :1}".into())).unwrap();
    assert_eq!(builder.named_option(spanner::KEYFILE_JSON), Some("{ \"a\" :1}"));
}

#[test]
fn keyfile_json_as_a_mapping_becomes_json() {
    let value = yaml("{type: service_account, n: 1, ok: true, list: [a, null], x: {!t k: -2.5}}");
    let builder = try_configure(with("keyfile_json", value)).unwrap();
    let json: serde_json::Value =
        serde_json::from_str(builder.named_option(spanner::KEYFILE_JSON).unwrap()).unwrap();
    assert_eq!(json["type"], "service_account");
    assert_eq!(json["n"], 1);
    assert_eq!(json["ok"], true);
    assert_eq!(json["list"][0], "a");
    assert!(json["list"][1].is_null());
    assert_eq!(json["x"]["k"], -2.5);

    let builder = try_configure(with("keyfile_json", yaml("{type: service_account}"))).unwrap();
    assert_eq!(
        builder.named_option(spanner::KEYFILE_JSON),
        Some("{\"type\":\"service_account\"}")
    );
}

#[test]
fn keyfile_json_without_a_json_counterpart() {
    for text in ["{1: a}", "{a: !t b}", "{a: [{[b]: c}]}", "{null: a}", "{{a: b}: c}"] {
        let err = try_configure(with("keyfile_json", yaml(text))).unwrap_err();
        assert!(matches!(err, AuthError::Yaml(_)), "{text}");
        assert!(!msg(&err).is_empty());
    }
}

#[test]
fn keyfile_json_of_another_kind() {
    for text in ["1", "true", "null", "[a]", "!t {a: b}", "!t text"] {
        let config = AdapterConfig::new(with("keyfile_json", yaml(text)));
        let err = read_keyfile_json(&config).unwrap_err();
        assert_eq!(msg(&err), "'keyfile_json' must be a JSON string or a YAML mapping");
        let err = parse_auth(&config).unwrap_err();
        assert!(matches!(err, AuthError::Config(_)), "{text}");
    }
    let none = read_keyfile_json(&AdapterConfig::new(base_config())).unwrap();
    assert_eq!(none, None);
}

fn settings() -> SpannerSettings {
    SpannerSettings {
        project: Some("p".to_string()),
        instance: Some("i".to_string()),
        database: Some("d".to_string()),
        api_endpoint: None,
        endpoint: None,
        emulator: None,
        keyfile: None,
    }
}

#[test]
fn settings_are_read_as_they_stand() {
    let mut config = with("emulator", true.into());
    config.insert("keyfile".into(), "k".into());
    let read = SpannerSettings::read(&AdapterConfig::new(config));
    assert_eq!(read.project.as_deref(), Some("my-project"));
    assert_eq!(read.instance.as_deref(), Some("my-instance"));
    assert_eq!(read.database.as_deref(), Some("my-db"));
    assert_eq!(read.api_endpoint, None);
    assert_eq!(read.endpoint, None);
    assert_eq!(read.emulator.as_deref(), Some("true"));
    assert_eq!(read.keyfile.as_deref(), Some("k"));
}

#[test]
fn resolving_passes_the_keyfile_json_outcome_on() {
    let connection = resolve(settings(), Ok(Some("{}".to_string()))).unwrap();
    assert_eq!(connection.database_path, "projects/p/instances/i/databases/d");
    assert_eq!(connection.endpoint, None);
    assert_eq!(connection.emulator, None);
    assert_eq!(connection.keyfile, None);
    assert_eq!(connection.keyfile_json.as_deref(), Some("{}"));

    let err = resolve(settings(), Err(AuthError::config("bad"))).unwrap_err();
    assert_eq!(msg(&err), "bad");

    let incomplete = SpannerSettings { project: None, ..settings() };
    let err = resolve(incomplete, Err(AuthError::config("bad"))).unwrap_err();
    assert_eq!(msg(&err), "Missing required field 'project' in Spanner config");
}

#[test]
fn options_are_added_after_those_that_are_there() {
    let mut builder = DatabaseBuilder::new(Backend::Spanner);
    builder.with_named_option("x", "y".to_string()).unwrap();
    let connection = SpannerConnection {
        database_path: "path".to_string(),
        endpoint: None,
        emulator: Some(true),
        keyfile: None,
        keyfile_json: None,
    };
    let builder = connection.apply(builder).unwrap();
    let builder =
        apply_connection_args(&AdapterConfig::new(Mapping::new()), builder).unwrap();
    assert_eq!(
        builder.options,
        vec![
            ("x".to_string(), "y".to_string()),
            (spanner::DATABASE.to_string(), "path".to_string()),
            (spanner::EMULATOR.to_string(), "true".to_string()),
        ]
    );
}

#[test]
fn a_path_with_slashes_in_a_name_is_ambiguous() {
    let a = SpannerSettings { project: Some("p/instances/x".to_string()), ..settings() };
    let b = SpannerSettings { instance: Some("x/instances/i".to_string()), ..settings() };
    let a = resolve(a, Ok(None)).unwrap();
    let b = resolve(b, Ok(None)).unwrap();
    assert_eq!(a.database_path, b.database_path);
}

#[test]
fn the_outcome_of_a_conversion_is_handed_on() {
    let json = converted_keyfile_json(Ok("{}".to_string())).unwrap();
    assert_eq!(json.as_deref(), Some("{}"));

    let error = dbt_yaml::from_str::<Value>("@").unwrap_err();
    let text = error.to_string();
    let err = converted_keyfile_json(Err(error)).unwrap_err();
    assert!(matches!(&err, AuthError::Yaml(_)));
    assert_eq!(msg(&err), text);
    let err = resolve(settings(), Err(err)).unwrap_err();
    assert_eq!(msg(&err), text);
    let config = AdapterConfig::new(base_config());
    let err = SpannerAuth.configure_parsed(&config, Err(err)).unwrap_err();
    assert!(matches!(&err, AuthError::Yaml(_)));
    assert_eq!(msg(&err), text);
}

#[test]
fn a_parsed_connection_is_configured() {
    let config = AdapterConfig::new(with("keyfile", "/k.json".into()));
    let outcome = SpannerAuth.configure_parsed(&config, parse_auth(&config)).unwrap();
    assert_eq!(outcome.builder.backend, Backend::Spanner);
    assert_eq!(
        outcome.builder.options,
        SpannerAuth.configure(&config).unwrap().builder.options
    );
    assert_eq!(outcome.builder.named_option(spanner::KEYFILE), Some("/k.json"));
}

#[test]
fn settings_without_a_say_change_nothing() {
    let plain = yaml("{project: p, instance: i, database: d, keyfile_json: {1: a}}");
    let more = yaml("{project: p, instance: i, database: d, keyfile_json: {1: a}, schema: s, retries: 2}");
    let a = try_configure(plain.as_mapping().unwrap().clone()).unwrap_err();
    let b = try_configure(more.as_mapping().unwrap().clone()).unwrap_err();
    assert_eq!(msg(&a), msg(&b));
}

#[test]
fn a_conversion_fails_inside_of_a_running_deserialization() {
    let mut seen = Vec::new();
    let _: Value = yaml("a")
        .into_typed(
            |_, _, _| {},
            |_| {
                seen.push(try_configure(with("keyfile_json", yaml_mapping())).map(|_| ()));
                seen.push(try_configure(base_config()).map(|_| ()));
                Ok(None)
            },
        )
        .unwrap();
    assert!(matches!(seen[0], Err(AuthError::Yaml(_))));
    assert!(seen[1].is_ok());
    assert!(try_configure(with("keyfile_json", yaml_mapping())).is_ok());
}

fn yaml_mapping() -> Value {
    Mapping::from_iter([(Value::from("type"), Value::from("service_account"))]).into()
}

#[test]
fn an_applied_connection_reads_back() {
    let connection = || SpannerConnection {
        database_path: "path".to_string(),
        endpoint: Some("e".to_string()),
        emulator: Some(false),
        keyfile: None,
        keyfile_json: Some("{}".to_string()),
    };
    let mut builder = DatabaseBuilder::new(Backend::Spanner);
    builder.with_named_option("x", "y".to_string()).unwrap();
    let builder = connection().apply(builder).unwrap();
    assert_eq!(builder.named_option("x"), Some("y"));
    assert_eq!(builder.named_option(spanner::DATABASE), Some("path"));
    assert_eq!(builder.named_option(spanner::ENDPOINT), Some("e"));
    assert_eq!(builder.named_option(spanner::EMULATOR), Some("false"));
    assert_eq!(builder.named_option(spanner::KEYFILE), None);
    assert_eq!(builder.named_option(spanner::KEYFILE_JSON), Some("{}"));

    let mut builder = DatabaseBuilder::new(Backend::Spanner);
    builder.with_named_option(spanner::ENDPOINT, "old".to_string()).unwrap();
    let builder = connection().apply(builder).unwrap();
    assert_eq!(builder.named_option(spanner::ENDPOINT), Some("old"));
    assert_eq!(builder.options.len(), 5);
}

#[test]
fn a_missing_field_comes_before_a_failing_conversion() {
    let mut config = with("keyfile_json", yaml("{1: a}"));
    config.remove("project");
    let err = try_configure(config).unwrap_err();
    assert_eq!(msg(&err), "Missing required field 'project' in Spanner config");
}
