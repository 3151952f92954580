//! Google Cloud Spanner authentication (GoogleSQL dialect).
//!
//! Targets the `adbc-spanner` driver (<https://github.com/fornwall/adbc-spanner>).
//! The driver resolves credentials itself: a service-account key file
//! (`keyfile`) or inline JSON (`keyfile_json`), else Application Default
//! Credentials against production Spanner, or anonymous credentials in emulator
//! mode. So this layer assembles the database path plus the optional
//! endpoint/emulator/keyfile options and hands them to the driver.

use crate::adapter_config::{scalar_at, text_at, AdapterConfig};
use crate::builder::{Backend, DatabaseBuilder};
use crate::error::{AuthError, AuthFailure};
use crate::spanner;
use crate::text::{opt_text, same_text};
use crate::yaml::{bool_text, json_text, lookup, value_kind, value_to_json, ValueKind, Yaml};
use vstd::prelude::*;
use vstd::string::StringExecFns;

verus! {

/// The settings that a connection is resolved from, each as text.
pub struct SpannerSettings {
    pub project: Option<String>,
    pub instance: Option<String>,
    pub database: Option<String>,
    pub api_endpoint: Option<String>,
    pub endpoint: Option<String>,
    pub emulator: Option<String>,
    pub keyfile: Option<String>,
}

/// [`SpannerSettings`] as contracts speak of it.
pub struct SettingsView {
    pub project: Option<Seq<char>>,
    pub instance: Option<Seq<char>>,
    pub database: Option<Seq<char>>,
    pub api_endpoint: Option<Seq<char>>,
    pub endpoint: Option<Seq<char>>,
    pub emulator: Option<Seq<char>>,
    pub keyfile: Option<Seq<char>>,
}

impl View for SpannerSettings {
    type V = SettingsView;

    open spec fn view(&self) -> SettingsView {
        SettingsView {
            project: opt_text(self.project),
            instance: opt_text(self.instance),
            database: opt_text(self.database),
            api_endpoint: opt_text(self.api_endpoint),
            endpoint: opt_text(self.endpoint),
            emulator: opt_text(self.emulator),
            keyfile: opt_text(self.keyfile),
        }
    }
}

/// Resolved Spanner connection target.
#[derive(Debug)]
pub struct SpannerConnection {
    /// `projects/<p>/instances/<i>/databases/<d>`
    pub database_path: String,
    pub endpoint: Option<String>,
    pub emulator: Option<bool>,
    pub keyfile: Option<String>,
    pub keyfile_json: Option<String>,
}

/// [`SpannerConnection`] as contracts speak of it.
pub struct ConnectionView {
    pub database_path: Seq<char>,
    pub endpoint: Option<Seq<char>>,
    pub emulator: Option<bool>,
    pub keyfile: Option<Seq<char>>,
    pub keyfile_json: Option<Seq<char>>,
}

impl View for SpannerConnection {
    type V = ConnectionView;

    open spec fn view(&self) -> ConnectionView {
        ConnectionView {
            database_path: self.database_path@,
            endpoint: opt_text(self.endpoint),
            emulator: self.emulator,
            keyfile: opt_text(self.keyfile),
            keyfile_json: opt_text(self.keyfile_json),
        }
    }
}

/// The resource path of a database.
pub open spec fn database_path(
    project: Seq<char>,
    instance: Seq<char>,
    database: Seq<char>,
) -> Seq<char> {
    "projects/"@ + project + "/instances/"@ + instance + "/databases/"@ + database
}

/// Whether a setting switches the emulator on.
pub open spec fn is_switched_on(setting: Seq<char>) -> bool {
    setting == "true"@ || setting == "1"@ || setting == "True"@
}

/// The settings that the entries of a profile target hold.
pub open spec fn settings_at(entries: Seq<(Yaml, Yaml)>) -> SettingsView {
    SettingsView {
        project: text_at(entries, "project"@),
        instance: text_at(entries, "instance"@),
        database: text_at(entries, "database"@),
        api_endpoint: text_at(entries, "api_endpoint"@),
        endpoint: text_at(entries, "endpoint"@),
        emulator: scalar_at(entries, "emulator"@),
        keyfile: text_at(entries, "keyfile"@),
    }
}

/// Whether converting the `keyfile_json` of a profile target to JSON can give
/// this. Only a mapping is converted; success gives its JSON text, and is
/// possible only where it has one.
pub open spec fn conversion_at(
    entries: Seq<(Yaml, Yaml)>,
    converted: Result<Seq<char>, dbt_yaml::Error>,
) -> bool {
    match lookup(entries, "keyfile_json"@) {
        Some(Yaml::Mapping(fields)) => converted matches Ok(json) ==> Yaml::Mapping(
            fields,
        ).is_json() && json == json_text(Yaml::Mapping(fields)),
        _ => true,
    }
}

/// The JSON text that the entries of a profile target hold as `keyfile_json`:
/// a string as it is, a mapping as what converting it to JSON gave.
pub open spec fn keyfile_json_at(
    entries: Seq<(Yaml, Yaml)>,
    converted: Result<Seq<char>, dbt_yaml::Error>,
) -> Result<Option<Seq<char>>, AuthFailure> {
    match lookup(entries, "keyfile_json"@) {
        None => Ok(None),
        Some(Yaml::Text(s)) => Ok(Some(s)),
        Some(Yaml::Mapping(_)) => match converted {
            Ok(json) => Ok(Some(json)),
            Err(e) => Err(AuthFailure::Yaml(e)),
        },
        Some(_) => Err(
            AuthFailure::Config("'keyfile_json' must be a JSON string or a YAML mapping"@),
        ),
    }
}

/// The connection that settings resolve to, or the first thing wrong with them.
pub open spec fn resolved(
    settings: SettingsView,
    keyfile_json: Result<Option<Seq<char>>, AuthFailure>,
) -> Result<ConnectionView, AuthFailure> {
    if settings.project is None {
        Err(AuthFailure::Config("Missing required field 'project' in Spanner config"@))
    } else if settings.instance is None {
        Err(AuthFailure::Config("Missing required field 'instance' in Spanner config"@))
    } else if settings.database is None {
        Err(AuthFailure::Config("Missing required field 'database' in Spanner config"@))
    } else {
        match keyfile_json {
            Err(failure) => Err(failure),
            Ok(json) => Ok(
                ConnectionView {
                    database_path: database_path(
                        settings.project->0,
                        settings.instance->0,
                        settings.database->0,
                    ),
                    endpoint: if settings.api_endpoint is Some {
                        settings.api_endpoint
                    } else {
                        settings.endpoint
                    },
                    emulator: match settings.emulator {
                        Some(setting) => Some(is_switched_on(setting)),
                        None => None,
                    },
                    keyfile: settings.keyfile,
                    keyfile_json: json,
                },
            ),
        }
    }
}

/// The connection that the entries of a profile target describe, where
/// converting a `keyfile_json` mapping to JSON gave `converted`.
pub open spec fn connection_at(
    entries: Seq<(Yaml, Yaml)>,
    converted: Result<Seq<char>, dbt_yaml::Error>,
) -> Result<ConnectionView, AuthFailure> {
    resolved(settings_at(entries), keyfile_json_at(entries, converted))
}

/// The backend and the options that a connection is opened with.
pub open spec fn configured(connection: Result<ConnectionView, AuthFailure>) -> Result<
    (Backend, Seq<(Seq<char>, Seq<char>)>),
    AuthFailure,
> {
    match connection {
        Ok(c) => Ok((Backend::Spanner, c.options())),
        Err(failure) => Err(failure),
    }
}

/// One option, if it has a value.
pub open spec fn named(name: Seq<char>, value: Option<Seq<char>>) -> Seq<(Seq<char>, Seq<char>)> {
    match value {
        Some(v) => seq![(name, v)],
        None => Seq::empty(),
    }
}

impl ConnectionView {
    /// The driver options of a connection, in the order in which they are given.
    pub open spec fn options(self) -> Seq<(Seq<char>, Seq<char>)> {
        seq![(spanner::DATABASE@, self.database_path)] + named(spanner::ENDPOINT@, self.endpoint)
            + named(
            spanner::EMULATOR@,
            match self.emulator {
                Some(on) => Some(bool_text(on)),
                None => None,
            },
        ) + named(spanner::KEYFILE@, self.keyfile) + named(spanner::KEYFILE_JSON@, self.keyfile_json)
    }
}

/// What an attempt to resolve a connection gave.
pub open spec fn connection_result(r: Result<SpannerConnection, AuthError>) -> Result<
    ConnectionView,
    AuthFailure,
> {
    match r {
        Ok(connection) => Ok(connection@),
        Err(e) => Err(e@),
    }
}

/// What a conversion to JSON gave.
pub open spec fn json_result(converted: Result<String, dbt_yaml::Error>) -> Result<
    Seq<char>,
    dbt_yaml::Error,
> {
    match converted {
        Ok(json) => Ok(json@),
        Err(e) => Err(e),
    }
}

/// What an attempt to read a piece of text gave.
pub open spec fn text_result(r: Result<Option<String>, AuthError>) -> Result<
    Option<Seq<char>>,
    AuthFailure,
> {
    match r {
        Ok(text) => Ok(opt_text(text)),
        Err(e) => Err(e@),
    }
}

/// What an attempt to configure a connection gave.
pub open spec fn outcome_result(r: Result<AuthOutcome, AuthError>) -> Result<
    (Backend, Seq<(Seq<char>, Seq<char>)>),
    AuthFailure,
> {
    match r {
        Ok(outcome) => Ok((outcome.builder.backend, outcome.builder@)),
        Err(e) => Err(e@),
    }
}

impl SpannerConnection {
    /// Hands the connection's options to a builder.
    pub fn apply(self, builder: DatabaseBuilder) -> (r: Result<DatabaseBuilder, AuthError>)
        ensures
            r matches Ok(b) && b.backend == builder.backend && b@ == builder@ + self@.options(),
    {
        let ghost connection = self@;
        let mut builder = builder;
        let ghost start = builder@;
        builder.with_named_option(spanner::DATABASE, self.database_path)?;
        if let Some(endpoint) = self.endpoint {
            builder.with_named_option(spanner::ENDPOINT, endpoint)?;
        }
        if let Some(emulator) = self.emulator {
            let text = if emulator {
                "true".to_owned()
            } else {
                "false".to_owned()
            };
            builder.with_named_option(spanner::EMULATOR, text)?;
        }
        if let Some(keyfile) = self.keyfile {
            builder.with_named_option(spanner::KEYFILE, keyfile)?;
        }
        if let Some(keyfile_json) = self.keyfile_json {
            builder.with_named_option(spanner::KEYFILE_JSON, keyfile_json)?;
        }
        assert(builder@ =~= start + connection.options());
        Ok(builder)
    }
}

/// An owned copy of borrowed text.
fn owned(text: Option<&str>) -> (copy: Option<String>)
    ensures
        text matches Some(s) ==> (copy matches Some(c) && c@ == s@),
        text is None ==> copy is None,
{
    match text {
        Some(s) => Some(s.to_owned()),
        None => None,
    }
}

impl SpannerSettings {
    /// Reads the settings of a profile target.
    pub fn read(config: &AdapterConfig) -> (settings: Self)
        ensures
            settings@ == settings_at(config@),
    {
        SpannerSettings {
            project: owned(config.get_str("project")),
            instance: owned(config.get_str("instance")),
            database: owned(config.get_str("database")),
            api_endpoint: owned(config.get_str("api_endpoint")),
            endpoint: owned(config.get_str("endpoint")),
            emulator: config.get_string("emulator"),
            keyfile: owned(config.get_str("keyfile")),
        }
    }
}

/// What a `keyfile_json` mapping comes to, given what converting it to JSON gave.
pub fn converted_keyfile_json(converted: Result<String, dbt_yaml::Error>) -> (r: Result<
    Option<String>,
    AuthError,
>)
    ensures
        converted matches Ok(json) ==> r == Ok::<Option<String>, AuthError>(Some(json)),
        converted matches Err(e) ==> r == Err::<Option<String>, AuthError>(AuthError::Yaml(e)),
{
    match converted {
        Ok(json) => Ok(Some(json)),
        Err(e) => Err(AuthError::Yaml(e)),
    }
}

/// Reads `keyfile_json`, which may be given as an inline JSON string or as a
/// YAML mapping; the driver wants a JSON string either way.
pub fn read_keyfile_json(config: &AdapterConfig) -> (r: Result<Option<String>, AuthError>)
    ensures
        exists|converted: Result<Seq<char>, dbt_yaml::Error>| #[trigger]
            conversion_at(config@, converted) && text_result(r) == keyfile_json_at(
                config@,
                converted,
            ),
{
    // Stands for the conversion where nothing is converted.
    let ghost unused = Ok::<Seq<char>, dbt_yaml::Error>(Seq::empty());
    assert(!(lookup(config@, "keyfile_json"@) matches Some(Yaml::Mapping(_))) ==> conversion_at(
        config@,
        unused,
    ));
    match config.get("keyfile_json") {
        Some(value) => match value_kind(value) {
            ValueKind::String(s) => Ok(Some(s)),
            ValueKind::Mapping => {
                let converted = value_to_json(value);
                assert(conversion_at(config@, json_result(converted)));
                converted_keyfile_json(converted)
            },
            _ => Err(
                AuthError::config("'keyfile_json' must be a JSON string or a YAML mapping"),
            ),
        },
        None => Ok(None),
    }
}

/// Resolves settings to a connection, given what reading `keyfile_json` gave.
pub fn resolve(
    settings: SpannerSettings,
    keyfile_json: Result<Option<String>, AuthError>,
) -> (r: Result<SpannerConnection, AuthError>)
    ensures
        connection_result(r) == resolved(settings@, text_result(keyfile_json)),
        settings.project is Some && settings.instance is Some && settings.database is Some ==> (
        keyfile_json matches Err(e) ==> r == Err::<SpannerConnection, AuthError>(e)),
{
    let project = match settings.project {
        Some(project) => project,
        None => return Err(
            AuthError::config("Missing required field 'project' in Spanner config"),
        ),
    };
    let instance = match settings.instance {
        Some(instance) => instance,
        None => return Err(
            AuthError::config("Missing required field 'instance' in Spanner config"),
        ),
    };
    let database = match settings.database {
        Some(database) => database,
        None => return Err(
            AuthError::config("Missing required field 'database' in Spanner config"),
        ),
    };
    let keyfile_json = match keyfile_json {
        Ok(keyfile_json) => keyfile_json,
        Err(e) => return Err(e),
    };

    let mut path = "projects/".to_owned();
    path.append(project.as_str());
    path.append("/instances/");
    path.append(instance.as_str());
    path.append("/databases/");
    path.append(database.as_str());

    // `api_endpoint` maps to the driver's endpoint option (e.g. a Spanner emulator).
    let endpoint = match settings.api_endpoint {
        Some(endpoint) => Some(endpoint),
        None => settings.endpoint,
    };

    let emulator = match settings.emulator {
        Some(s) => Some(
            same_text(s.as_str(), "true") || same_text(s.as_str(), "1") || same_text(
                s.as_str(),
                "True",
            ),
        ),
        None => None,
    };

    Ok(
        SpannerConnection {
            database_path: path,
            endpoint,
            emulator,
            keyfile: settings.keyfile,
            keyfile_json,
        },
    )
}

/// Reads the connection that a profile target describes.
pub fn parse_auth(config: &AdapterConfig) -> (r: Result<SpannerConnection, AuthError>)
    ensures
        exists|converted: Result<Seq<char>, dbt_yaml::Error>| #[trigger]
            conversion_at(config@, converted) && connection_result(r) == connection_at(
                config@,
                converted,
            ),
{
    let settings = SpannerSettings::read(config);
    if settings.project.is_none() || settings.instance.is_none() || settings.database.is_none() {
        // Nothing is converted: the missing field is the error, whatever
        // `keyfile_json` holds.
        let ghost unused = Err::<Seq<char>, dbt_yaml::Error>(arbitrary());
        assert(conversion_at(config@, unused));
        return resolve(settings, Ok(None));
    }
    resolve(settings, read_keyfile_json(config))
}

/// Hands the settings that concern no authentication to a builder: Spanner has
/// none.
pub fn apply_connection_args(_config: &AdapterConfig, builder: DatabaseBuilder) -> (r: Result<
    DatabaseBuilder,
    AuthError,
>)
    ensures
        r == Ok::<DatabaseBuilder, AuthError>(builder),
{
    Ok(builder)
}

/// What configuring authentication gives.
#[derive(Debug)]
pub struct AuthOutcome {
    pub builder: DatabaseBuilder,
}

/// Authentication against Google Cloud Spanner.
#[derive(Debug)]
pub struct SpannerAuth;

impl SpannerAuth {
    pub fn backend(&self) -> (backend: Backend)
        ensures
            backend == Backend::Spanner,
    {
        Backend::Spanner
    }

    /// Turns what reading a profile target gave into the options that the driver
    /// is opened with.
    pub fn configure_parsed(
        &self,
        config: &AdapterConfig,
        parsed: Result<SpannerConnection, AuthError>,
    ) -> (r: Result<AuthOutcome, AuthError>)
        ensures
            outcome_result(r) == configured(connection_result(parsed)),
            parsed matches Err(e) ==> r == Err::<AuthOutcome, AuthError>(e),
    {
        let connection = match parsed {
            Ok(connection) => connection,
            Err(e) => return Err(e),
        };
        let builder = connection.apply(DatabaseBuilder::new(self.backend()))?;
        let builder = apply_connection_args(config, builder)?;
        assert(builder@ =~= connection@.options());
        Ok(AuthOutcome { builder })
    }

    /// Turns a profile target into the options that the driver is opened with.
    pub fn configure(&self, config: &AdapterConfig) -> (r: Result<AuthOutcome, AuthError>)
        ensures
            exists|converted: Result<Seq<char>, dbt_yaml::Error>| #[trigger]
                conversion_at(config@, converted) && outcome_result(r) == configured(
                    connection_at(config@, converted),
                ),
    {
        self.configure_parsed(config, parse_auth(config))
    }
}

} // verus!
