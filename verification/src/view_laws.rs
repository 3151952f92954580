//! What the views of the library's types show: each field as it is, under its own
//! name.

use crate::auth::{
    connection_result, json_result, outcome_result, text_result, AuthOutcome, SpannerConnection,
    SpannerSettings,
};
use crate::builder::{options_view, DatabaseBuilder};
use crate::error::{AuthError, AuthFailure};
use crate::interactive::{
    answers_view, Answer, ConfigField, FieldAnswer, FieldKind, FieldValue, KindView,
};
use crate::profile::{answer_view, SettingView, SpannerDbConfig, StringOrInteger};
use crate::text::opt_text;
use vstd::prelude::*;

verus! {

/// Optional text shows as its characters.
pub proof fn law_view_of_optional_text(s: String)
    ensures
        opt_text(Some(s)) == Some(s@),
        opt_text(None) is None,
{
}

/// Settings show as they are.
pub proof fn law_view_of_settings(settings: SpannerSettings)
    ensures
        settings@.project == opt_text(settings.project),
        settings@.instance == opt_text(settings.instance),
        settings@.database == opt_text(settings.database),
        settings@.api_endpoint == opt_text(settings.api_endpoint),
        settings@.endpoint == opt_text(settings.endpoint),
        settings@.emulator == opt_text(settings.emulator),
        settings@.keyfile == opt_text(settings.keyfile),
{
}

/// A connection shows as it is.
pub proof fn law_view_of_a_connection(connection: SpannerConnection)
    ensures
        connection@.database_path == connection.database_path@,
        connection@.endpoint == opt_text(connection.endpoint),
        connection@.emulator == connection.emulator,
        connection@.keyfile == opt_text(connection.keyfile),
        connection@.keyfile_json == opt_text(connection.keyfile_json),
{
}

/// An error shows as its message, or as the YAML error that it is.
pub proof fn law_view_of_an_error(message: String, e: dbt_yaml::Error)
    ensures
        AuthError::Config(message)@ == AuthFailure::Config(message@),
        AuthError::Yaml(e)@ == AuthFailure::Yaml(e),
{
}

/// A success shows as a success, and an error as that error.
pub proof fn law_view_of_results(
    connection: SpannerConnection,
    text: Option<String>,
    json: String,
    outcome: AuthOutcome,
    e: AuthError,
    yaml_error: dbt_yaml::Error,
)
    ensures
        connection_result(Ok(connection)) matches Ok(c) && c == connection@,
        connection_result(Err(e)) matches Err(failure) && failure == e@,
        text_result(Ok(text)) matches Ok(t) && t == opt_text(text),
        text_result(Err(e)) matches Err(failure) && failure == e@,
        json_result(Ok(json)) matches Ok(j) && j == json@,
        json_result(Err(yaml_error)) matches Err(failure) && failure == yaml_error,
        outcome_result(Ok(outcome)) matches Ok((backend, options)) && backend
            == outcome.builder.backend && options == outcome.builder@,
        outcome_result(Err(e)) matches Err(failure) && failure == e@,
{
}

/// A builder shows as its options, each name with its value, in their order.
pub proof fn law_view_of_options(builder: DatabaseBuilder)
    ensures
        builder@ == options_view(builder.options@),
        builder@.len() == builder.options@.len(),
        forall|i: int|
            0 <= i < builder@.len() ==> (#[trigger] builder@[i]).0 == builder.options@[i].0@
                && builder@[i].1 == builder.options@[i].1@,
{
}

/// An answer shows as its text or as the index chosen.
pub proof fn law_view_of_a_value(s: String, i: i64)
    ensures
        FieldValue::String(s)@ == FieldAnswer::Text(s@),
        FieldValue::Integer(i)@ == FieldAnswer::Index(i as int),
        answer_view(Some(FieldValue::String(s))) == Some(FieldAnswer::Text(s@)),
        answer_view(Some(FieldValue::Integer(i))) == Some(FieldAnswer::Index(i as int)),
        answer_view(None) is None,
{
}

/// Answers show as their names and values, in their order.
pub proof fn law_view_of_answers(answers: Seq<Answer>)
    ensures
        answers_view(answers).len() == answers.len(),
        forall|i: int|
            0 <= i < answers.len() ==> (#[trigger] answers_view(answers)[i]).0
                == answers[i].field_name@ && answers_view(answers)[i].1 == answers[i].value@,
{
}

/// A kind of question shows as that kind, with its default and its options.
pub proof fn law_view_of_a_kind(kind: FieldKind)
    ensures
        kind is Input <==> kind@ is Input,
        kind matches FieldKind::OptionalInput { default } ==> (kind@ matches KindView::OptionalInput {
            default: shown,
        } && (default matches Some(s) ==> shown == Some(s@)) && (default is None ==> shown is None)),
        kind matches FieldKind::Select { options, default_index } ==> (kind@ matches KindView::Select {
            options: shown,
            default_index: index,
        } && index == default_index && shown.len() == options@.len() && (forall|i: int|
            0 <= i < shown.len() ==> #[trigger] shown[i] == options@[i]@)),
{
}

/// A question shows as it is.
pub proof fn law_view_of_a_question(field: ConfigField)
    ensures
        field@.name == field.name@,
        field@.prompt == field.prompt@,
        field@.kind == field.kind@,
        field.condition is None ==> field@.condition is None,
        field.condition matches Some(condition) ==> (field@.condition matches Some((name, value))
            && name == condition.field_name@ && value == condition.value@),
{
}

/// A setting shows as its number or as its text.
pub proof fn law_view_of_a_setting(s: String, i: i64)
    ensures
        StringOrInteger::Integer(i)@ == SettingView::Integer(i as int),
        StringOrInteger::String(s)@ == SettingView::Text(s@),
{
}

/// A target shows as it is, the settings that the setup does not ask for among
/// what is passed on.
pub proof fn law_view_of_a_target(config: SpannerDbConfig)
    ensures
        config.threads is None ==> config@.threads is None,
        config.threads matches Some(threads) ==> config@.threads == Some(threads@),
        config@.project == opt_text(config.project),
        config@.instance == opt_text(config.instance),
        config@.database == opt_text(config.database),
        config@.schema == opt_text(config.schema),
        config@.method == opt_text(config.method),
        config@.keyfile == opt_text(config.keyfile),
        config@.passed_on.keyfile_json == opt_text(config.keyfile_json),
        config@.passed_on.refresh_token == opt_text(config.refresh_token),
        config@.passed_on.client_id == opt_text(config.client_id),
        config@.passed_on.client_secret == opt_text(config.client_secret),
        config@.passed_on.token_uri == opt_text(config.token_uri),
        config@.passed_on.token == opt_text(config.token),
        config@.passed_on.impersonate_service_account == opt_text(config.impersonate_service_account),
        config@.passed_on.quota_project == opt_text(config.quota_project),
        config@.passed_on.api_endpoint == opt_text(config.api_endpoint),
        config@.passed_on.target_name == opt_text(config.target_name),
        config@.passed_on.emulator == config.emulator,
        config@.passed_on.retries == config.retries,
        config.scopes is None ==> config@.passed_on.scopes is None,
        config.scopes matches Some(scopes) ==> (config@.passed_on.scopes matches Some(shown)
            && shown.len() == scopes@.len() && (forall|i: int|
            0 <= i < shown.len() ==> #[trigger] shown[i] == scopes@[i]@)),
{
}

} // verus!
