//! The Spanner target of a profile and its interactive setup.

use crate::error::{FsError, FsResult};
use crate::interactive::{
    answers_view, Answer, ConfigField, FieldAnswer, FieldValue, FieldView, KindView,
};
use crate::text::{copy_text, opt_text, same_text};
use vstd::prelude::*;

verus! {

/// A setting that may be written as a number or as text.
#[derive(Debug)]
pub enum StringOrInteger {
    Integer(i64),
    String(String),
}

impl Clone for StringOrInteger {
    fn clone(&self) -> (copy: Self)
        ensures
            copy == *self,
    {
        match self {
            StringOrInteger::Integer(i) => StringOrInteger::Integer(*i),
            StringOrInteger::String(s) => StringOrInteger::String(s.clone()),
        }
    }
}

/// A Spanner target of a profile: the settings asked for in the setup, and
/// those that the setup passes on as they are.
#[derive(Debug)]
pub struct SpannerDbConfig {
    pub threads: Option<StringOrInteger>,
    pub project: Option<String>,
    pub instance: Option<String>,
    pub database: Option<String>,
    pub schema: Option<String>,
    pub method: Option<String>,
    pub keyfile: Option<String>,
    pub keyfile_json: Option<String>,
    pub refresh_token: Option<String>,
    pub client_id: Option<String>,
    pub client_secret: Option<String>,
    pub token_uri: Option<String>,
    pub token: Option<String>,
    pub impersonate_service_account: Option<String>,
    pub scopes: Option<Vec<String>>,
    pub quota_project: Option<String>,
    pub api_endpoint: Option<String>,
    pub emulator: Option<bool>,
    pub retries: Option<i64>,
    pub target_name: Option<String>,
}

/// A [`StringOrInteger`] as contracts speak of it.
pub enum SettingView {
    Integer(int),
    Text(Seq<char>),
}

impl View for StringOrInteger {
    type V = SettingView;

    open spec fn view(&self) -> SettingView {
        match self {
            StringOrInteger::Integer(i) => SettingView::Integer(*i as int),
            StringOrInteger::String(s) => SettingView::Text(s@),
        }
    }
}

/// The settings that the setup does not ask for.
pub struct PassedOn {
    pub keyfile_json: Option<Seq<char>>,
    pub refresh_token: Option<Seq<char>>,
    pub client_id: Option<Seq<char>>,
    pub client_secret: Option<Seq<char>>,
    pub token_uri: Option<Seq<char>>,
    pub token: Option<Seq<char>>,
    pub impersonate_service_account: Option<Seq<char>>,
    pub scopes: Option<Seq<Seq<char>>>,
    pub quota_project: Option<Seq<char>>,
    pub api_endpoint: Option<Seq<char>>,
    pub emulator: Option<bool>,
    pub retries: Option<i64>,
    pub target_name: Option<Seq<char>>,
}

/// A [`SpannerDbConfig`] as contracts speak of it.
pub struct DbConfigView {
    pub threads: Option<SettingView>,
    pub project: Option<Seq<char>>,
    pub instance: Option<Seq<char>>,
    pub database: Option<Seq<char>>,
    pub schema: Option<Seq<char>>,
    pub method: Option<Seq<char>>,
    pub keyfile: Option<Seq<char>>,
    pub passed_on: PassedOn,
}

impl View for SpannerDbConfig {
    type V = DbConfigView;

    open spec fn view(&self) -> DbConfigView {
        DbConfigView {
            threads: match self.threads {
                Some(threads) => Some(threads@),
                None => None,
            },
            project: opt_text(self.project),
            instance: opt_text(self.instance),
            database: opt_text(self.database),
            schema: opt_text(self.schema),
            method: opt_text(self.method),
            keyfile: opt_text(self.keyfile),
            passed_on: PassedOn {
                keyfile_json: opt_text(self.keyfile_json),
                refresh_token: opt_text(self.refresh_token),
                client_id: opt_text(self.client_id),
                client_secret: opt_text(self.client_secret),
                token_uri: opt_text(self.token_uri),
                token: opt_text(self.token),
                impersonate_service_account: opt_text(self.impersonate_service_account),
                scopes: match self.scopes {
                    Some(scopes) => Some(scopes@.map_values(|scope: String| scope@)),
                    None => None,
                },
                quota_project: opt_text(self.quota_project),
                api_endpoint: opt_text(self.api_endpoint),
                emulator: self.emulator,
                retries: self.retries,
                target_name: opt_text(self.target_name),
            },
        }
    }
}

/// A target with no setting at all.
pub open spec fn blank_config() -> DbConfigView {
    DbConfigView {
        threads: None,
        project: None,
        instance: None,
        database: None,
        schema: None,
        method: None,
        keyfile: None,
        passed_on: PassedOn {
            keyfile_json: None,
            refresh_token: None,
            client_id: None,
            client_secret: None,
            token_uri: None,
            token: None,
            impersonate_service_account: None,
            scopes: None,
            quota_project: None,
            api_endpoint: None,
            emulator: None,
            retries: None,
            target_name: None,
        },
    }
}

/// The fields of a target that the setup asks for.
#[derive(Debug, Clone, Copy, PartialEq, Eq, Structural)]
pub enum Field {
    Project,
    Instance,
    Database,
    Schema,
    Keyfile,
    AuthMethod,
}

/// The field of a name.
pub open spec fn field_named(name: Seq<char>) -> Option<Field> {
    if name == "project"@ {
        Some(Field::Project)
    } else if name == "instance"@ {
        Some(Field::Instance)
    } else if name == "database"@ {
        Some(Field::Database)
    } else if name == "schema"@ {
        Some(Field::Schema)
    } else if name == "keyfile"@ {
        Some(Field::Keyfile)
    } else if name == "auth_method"@ {
        Some(Field::AuthMethod)
    } else {
        None
    }
}

impl Field {
    /// The field of a name.
    pub fn named(name: &str) -> (field: Option<Field>)
        ensures
            field == field_named(name@),
    {
        if same_text(name, "project") {
            Some(Field::Project)
        } else if same_text(name, "instance") {
            Some(Field::Instance)
        } else if same_text(name, "database") {
            Some(Field::Database)
        } else if same_text(name, "schema") {
            Some(Field::Schema)
        } else if same_text(name, "keyfile") {
            Some(Field::Keyfile)
        } else if same_text(name, "auth_method") {
            Some(Field::AuthMethod)
        } else {
            None
        }
    }
}

impl DbConfigView {
    /// The target after an answer.
    ///
    /// Text goes into the field of that name; a key file also makes the method
    /// `service-account`, and a blank schema changes nothing. The second option
    /// of `auth_method` makes the method `oauth`. Any other answer changes
    /// nothing.
    pub open spec fn with_field(self, name: Seq<char>, value: FieldAnswer) -> DbConfigView {
        match (field_named(name), value) {
            (Some(Field::Project), FieldAnswer::Text(s)) => DbConfigView {
                project: Some(s),
                ..self
            },
            (Some(Field::Instance), FieldAnswer::Text(s)) => DbConfigView {
                instance: Some(s),
                ..self
            },
            (Some(Field::Database), FieldAnswer::Text(s)) => DbConfigView {
                database: Some(s),
                ..self
            },
            (Some(Field::Schema), FieldAnswer::Text(s)) => if s.len() == 0 {
                self
            } else {
                DbConfigView { schema: Some(s), ..self }
            },
            (Some(Field::Keyfile), FieldAnswer::Text(s)) => DbConfigView {
                keyfile: Some(s),
                method: Some("service-account"@),
                ..self
            },
            (Some(Field::AuthMethod), FieldAnswer::Index(i)) => if i == 1 {
                DbConfigView { method: Some("oauth"@), ..self }
            } else {
                self
            },
            _ => self,
        }
    }

    /// The text of a field that holds text.
    pub open spec fn text_field(self, name: Seq<char>) -> Option<Seq<char>> {
        match field_named(name) {
            Some(Field::Project) => self.project,
            Some(Field::Instance) => self.instance,
            Some(Field::Database) => self.database,
            Some(Field::Schema) => self.schema,
            Some(Field::Keyfile) => self.keyfile,
            _ => None,
        }
    }

    /// What a field holds, as an answer. `auth_method` is the first option with
    /// a key file, else the second one with the method `oauth`.
    pub open spec fn field(self, name: Seq<char>) -> Option<FieldAnswer> {
        if field_named(name) == Some(Field::AuthMethod) {
            if self.keyfile is Some {
                Some(FieldAnswer::Index(0))
            } else if self.method == Some("oauth"@) {
                Some(FieldAnswer::Index(1))
            } else {
                None
            }
        } else {
            match self.text_field(name) {
                Some(s) => Some(FieldAnswer::Text(s)),
                None => None,
            }
        }
    }

    /// The target after answers, given one after the other.
    pub open spec fn with_answers(self, answers: Seq<(Seq<char>, FieldAnswer)>) -> DbConfigView
        decreases answers.len(),
    {
        if answers.len() == 0 {
            self
        } else {
            self.with_answers(answers.drop_last()).with_field(answers.last().0, answers.last().1)
        }
    }

    /// The target with the number of threads filled in.
    pub open spec fn with_threads(self) -> DbConfigView {
        if self.threads is Some {
            self
        } else {
            DbConfigView { threads: Some(SettingView::Integer(16)), ..self }
        }
    }
}

/// The questions of the setup, in the order in which they are put.
pub open spec fn spanner_fields() -> Seq<FieldView> {
    seq![
        FieldView {
            name: "project"@,
            prompt: "Project ID"@,
            kind: KindView::Input,
            condition: None,
        },
        FieldView {
            name: "instance"@,
            prompt: "Instance ID"@,
            kind: KindView::Input,
            condition: None,
        },
        FieldView {
            name: "database"@,
            prompt: "Database"@,
            kind: KindView::Input,
            condition: None,
        },
        FieldView {
            name: "schema"@,
            prompt: "Named schema (leave blank for the default/unnamed schema)"@,
            kind: KindView::OptionalInput { default: None },
            condition: None,
        },
        FieldView {
            name: "auth_method"@,
            prompt: "Which authentication method would you like to use?"@,
            kind: KindView::Select {
                options: seq!["Service Account (JSON file)"@, "gcloud oauth"@],
                default_index: 0,
            },
            condition: None,
        },
        FieldView {
            name: "keyfile"@,
            prompt: "Path to service account JSON file"@,
            kind: KindView::Input,
            condition: Some(("auth_method"@, FieldAnswer::Index(0))),
        },
    ]
}

/// The answer that a stored text stands for.
fn text_answer(text: &Option<String>) -> (answer: Option<FieldValue>)
    ensures
        text matches Some(s) ==> (answer matches Some(a) && a@ == FieldAnswer::Text(s@)),
        text is None ==> answer is None,
{
    match text {
        Some(s) => Some(FieldValue::String(s.clone())),
        None => None,
    }
}

/// What reading a field gave.
pub open spec fn answer_view(answer: Option<FieldValue>) -> Option<FieldAnswer> {
    match answer {
        Some(value) => Some(value@),
        None => None,
    }
}

impl Default for SpannerDbConfig {
    fn default() -> (config: Self)
        ensures
            config@ == blank_config(),
    {
        SpannerDbConfig {
            threads: None,
            project: None,
            instance: None,
            database: None,
            schema: None,
            method: None,
            keyfile: None,
            keyfile_json: None,
            refresh_token: None,
            client_id: None,
            client_secret: None,
            token_uri: None,
            token: None,
            impersonate_service_account: None,
            scopes: None,
            quota_project: None,
            api_endpoint: None,
            emulator: None,
            retries: None,
            target_name: None,
        }
    }
}

impl Clone for SpannerDbConfig {
    fn clone(&self) -> (copy: Self)
        ensures
            copy@ == self@,
    {
        let threads = match &self.threads {
            Some(threads) => Some(threads.clone()),
            None => None,
        };
        let scopes = match &self.scopes {
            Some(scopes) => Some(copy_scopes(scopes)),
            None => None,
        };
        SpannerDbConfig {
            threads,
            project: copy_text(&self.project),
            instance: copy_text(&self.instance),
            database: copy_text(&self.database),
            schema: copy_text(&self.schema),
            method: copy_text(&self.method),
            keyfile: copy_text(&self.keyfile),
            keyfile_json: copy_text(&self.keyfile_json),
            refresh_token: copy_text(&self.refresh_token),
            client_id: copy_text(&self.client_id),
            client_secret: copy_text(&self.client_secret),
            token_uri: copy_text(&self.token_uri),
            token: copy_text(&self.token),
            impersonate_service_account: copy_text(&self.impersonate_service_account),
            scopes,
            quota_project: copy_text(&self.quota_project),
            api_endpoint: copy_text(&self.api_endpoint),
            emulator: self.emulator,
            retries: self.retries,
            target_name: copy_text(&self.target_name),
        }
    }
}

/// A copy of a list of scopes.
fn copy_scopes(scopes: &Vec<String>) -> (copy: Vec<String>)
    ensures
        copy@ == scopes@,
{
    let mut copy: Vec<String> = Vec::new();
    let mut i: usize = 0;
    while i < scopes.len()
        invariant
            i <= scopes.len(),
            copy@ == scopes@.take(i as int),
        decreases scopes.len() - i,
    {
        copy.push(scopes[i].clone());
        i = i + 1;
        assert(copy@ =~= scopes@.take(i as int));
    }
    assert(scopes@.take(i as int) =~= scopes@);
    copy
}

impl SpannerDbConfig {
    /// The questions of the setup, in the order in which they are put.
    pub fn get_fields() -> (fields: Vec<ConfigField>)
        ensures
            fields@.map_values(|field: ConfigField| field@) == spanner_fields(),
    {
        let options = vec!["Service Account (JSON file)", "gcloud oauth"];
        assert(options@.map_values(|option: &'static str| option@) =~= seq![
            "Service Account (JSON file)"@,
            "gcloud oauth"@,
        ]);
        let fields = vec![
            // Core connection settings: project -> instance -> database.
            ConfigField::input("project", "Project ID"),
            ConfigField::input("instance", "Instance ID"),
            ConfigField::input("database", "Database"),
            ConfigField::optional_input(
                "schema",
                "Named schema (leave blank for the default/unnamed schema)",
                None,
            ),
            // Authentication
            ConfigField::select(
                "auth_method",
                "Which authentication method would you like to use?",
                options,
                0,
            ),
            ConfigField::input("keyfile", "Path to service account JSON file").when_field_equals(
                "auth_method",
                FieldValue::Integer(0),
            ),
        ];
        assert(fields@.map_values(|field: ConfigField| field@) =~= spanner_fields());
        fields
    }

    /// Takes an answer over into the target.
    pub fn set_field(&mut self, field_name: &str, value: FieldValue) -> (r: FsResult<()>)
        ensures
            r is Ok,
            final(self)@ == old(self)@.with_field(field_name@, value@),
    {
        match Field::named(field_name) {
            Some(Field::Project) => {
                if let FieldValue::String(s) = value {
                    self.project = Some(s);
                }
            },
            Some(Field::Instance) => {
                if let FieldValue::String(s) = value {
                    self.instance = Some(s);
                }
            },
            Some(Field::Database) => {
                if let FieldValue::String(s) = value {
                    self.database = Some(s);
                }
            },
            Some(Field::Schema) => {
                if let FieldValue::String(s) = value {
                    if !s.as_str().is_empty() {
                        self.schema = Some(s);
                    }
                }
            },
            Some(Field::Keyfile) => {
                if let FieldValue::String(s) = value {
                    self.keyfile = Some(s);
                    self.method = Some("service-account".to_owned());
                }
            },
            Some(Field::AuthMethod) => {
                if let FieldValue::Integer(auth_method) = value {
                    // For a service account the method is set with the key file.
                    if auth_method == 1 {
                        self.method = Some("oauth".to_owned());
                    }
                }
            },
            None => {},
        }
        Ok(())
    }

    /// What a field of the target holds, as an answer.
    pub fn get_field(&self, field_name: &str) -> (value: Option<FieldValue>)
        ensures
            answer_view(value) == self@.field(field_name@),
    {
        match Field::named(field_name) {
            Some(Field::Project) => text_answer(&self.project),
            Some(Field::Instance) => text_answer(&self.instance),
            Some(Field::Database) => text_answer(&self.database),
            Some(Field::Schema) => text_answer(&self.schema),
            Some(Field::Keyfile) => text_answer(&self.keyfile),
            Some(Field::AuthMethod) => {
                if self.keyfile.is_some() {
                    Some(FieldValue::Integer(0))
                } else {
                    match &self.method {
                        Some(method) => if same_text(method.as_str(), "oauth") {
                            Some(FieldValue::Integer(1))
                        } else {
                            None
                        },
                        None => None,
                    }
                }
            },
            None => None,
        }
    }

    /// Whether a field of the target holds text.
    pub fn is_field_set(&self, field_name: &str) -> (set: bool)
        ensures
            set == self@.text_field(field_name@) is Some,
    {
        match Field::named(field_name) {
            Some(Field::Project) => self.project.is_some(),
            Some(Field::Instance) => self.instance.is_some(),
            Some(Field::Database) => self.database.is_some(),
            Some(Field::Schema) => self.schema.is_some(),
            Some(Field::Keyfile) => self.keyfile.is_some(),
            _ => false,
        }
    }
}

/// The target that a setup starts from: the existing one, else a blank one.
pub open spec fn starting_point(existing: Option<&SpannerDbConfig>) -> DbConfigView {
    match existing {
        Some(config) => config@,
        None => blank_config(),
    }
}

/// The target that a setup starts from.
pub fn starting_config(existing_config: Option<&SpannerDbConfig>) -> (config: SpannerDbConfig)
    ensures
        config@ == starting_point(existing_config),
{
    match existing_config {
        Some(config) => config.clone(),
        None => SpannerDbConfig::default(),
    }
}

/// Sets up a Spanner target from an existing one, if there is one, and what the
/// interaction gave: the answers, or the error that ended it.
pub fn setup_spanner_profile(
    existing_config: Option<&SpannerDbConfig>,
    interaction: FsResult<Vec<Answer>>,
) -> (r: FsResult<Box<SpannerDbConfig>>)
    ensures
        match interaction {
            Ok(answers) => r matches Ok(config) && config@ == starting_point(
                existing_config,
            ).with_answers(answers_view(answers@)).with_threads(),
            Err(e) => r == Err::<Box<SpannerDbConfig>, FsError>(e),
        },
{
    let answers = match interaction {
        Ok(answers) => answers,
        Err(e) => return Err(e),
    };
    let ghost given = answers_view(answers@);
    let ghost start = starting_point(existing_config);
    let mut config = starting_config(existing_config);
    let mut i: usize = 0;
    while i < answers.len()
        invariant
            i <= answers.len(),
            given == answers_view(answers@),
            config@ == start.with_answers(given.take(i as int)),
        decreases answers.len() - i,
    {
        config.set_field(answers[i].field_name.as_str(), answers[i].value.clone())?;
        i = i + 1;
        proof {
            assert(given.take(i as int).drop_last() =~= given.take(i - 1));
            assert(given.take(i as int).last() == answers@[i - 1]@);
        }
    }
    assert(given.take(i as int) =~= given);

    if config.threads.is_none() {
        config.threads = Some(StringOrInteger::Integer(16));
    }
    Ok(Box::new(config))
}

} // verus!
