//! What holds of the interactive setup as a whole.

use crate::interactive::{latest_answer, FieldAnswer, FieldView, KindView};
use crate::profile::{
    blank_config, field_named, spanner_fields, starting_point, DbConfigView, Field,
    SettingView, SpannerDbConfig,
};
use vstd::prelude::*;

verus! {

/// The six names stand for six different fields.
pub proof fn law_field_names()
    ensures
        field_named("project"@) == Some(Field::Project),
        field_named("instance"@) == Some(Field::Instance),
        field_named("database"@) == Some(Field::Database),
        field_named("schema"@) == Some(Field::Schema),
        field_named("keyfile"@) == Some(Field::Keyfile),
        field_named("auth_method"@) == Some(Field::AuthMethod),
{
    reveal_strlit("project");
    reveal_strlit("instance");
    reveal_strlit("database");
    reveal_strlit("schema");
    reveal_strlit("keyfile");
    reveal_strlit("auth_method");
    assert("project"@[0] == 'p');
    assert("instance"@[0] == 'i');
    assert("database"@[0] == 'd');
    assert("schema"@[0] == 's');
    assert("keyfile"@[0] == 'k');
    assert("auth_method"@[0] == 'a');
}

/// Text that is given for a field is read back from it. (A blank schema is not
/// taken over.)
pub proof fn law_text_reads_back(config: DbConfigView, name: Seq<char>, text: Seq<char>)
    requires
        field_named(name) is Some,
        field_named(name) != Some(Field::AuthMethod),
        field_named(name) == Some(Field::Schema) ==> text.len() > 0,
    ensures
        config.with_field(name, FieldAnswer::Text(text)).field(name) == Some(
            FieldAnswer::Text(text),
        ),
        config.with_field(name, FieldAnswer::Text(text)).text_field(name) is Some,
{
}

/// Choosing gcloud oauth is read back, unless there is a key file: that one
/// stands for the service account.
pub proof fn law_oauth_reads_back(config: DbConfigView, name: Seq<char>)
    requires
        field_named(name) == Some(Field::AuthMethod),
    ensures
        config.with_field(name, FieldAnswer::Index(1)).method == Some("oauth"@),
        config.with_field(name, FieldAnswer::Index(1)).field(name) == Some(
            FieldAnswer::Index(
                if config.keyfile is Some {
                    0
                } else {
                    1
                },
            ),
        ),
{
}

/// An answer is read back from no other field than its own; only a key file
/// also settles `auth_method`.
pub proof fn law_other_fields_stay(
    config: DbConfigView,
    name: Seq<char>,
    value: FieldAnswer,
    other: Seq<char>,
)
    requires
        name != other,
    ensures
        config.with_field(name, value).text_field(other) == config.text_field(other),
        !(field_named(name) == Some(Field::Keyfile) && field_named(other) == Some(
            Field::AuthMethod,
        )) ==> config.with_field(name, value).field(other) == config.field(other),
{
}

/// Answers to unknown questions, a choice where text is due, text where a choice
/// is due, a blank schema and the choice of a service account change nothing.
pub proof fn law_answers_that_change_nothing(
    config: DbConfigView,
    name: Seq<char>,
    text: Seq<char>,
    index: int,
)
    ensures
        field_named(name) is None ==> config.with_field(name, FieldAnswer::Text(text)) == config
            && config.with_field(name, FieldAnswer::Index(index)) == config,
        field_named(name) != Some(Field::AuthMethod) ==> config.with_field(
            name,
            FieldAnswer::Index(index),
        ) == config,
        field_named(name) == Some(Field::AuthMethod) ==> config.with_field(
            name,
            FieldAnswer::Text(text),
        ) == config,
        field_named(name) == Some(Field::Schema) && text.len() == 0 ==> config.with_field(
            name,
            FieldAnswer::Text(text),
        ) == config,
        index != 1 ==> config.with_field(name, FieldAnswer::Index(index)) == config,
{
}

/// A field counts as set exactly if it can be read, but for `auth_method`, which
/// never counts as set.
pub proof fn law_set_fields_can_be_read(config: DbConfigView, name: Seq<char>)
    ensures
        field_named(name) != Some(Field::AuthMethod) ==> (config.text_field(name) is Some
            <==> config.field(name) is Some),
        field_named(name) == Some(Field::AuthMethod) ==> config.text_field(name) is None,
{
}

/// Of two texts given for one field, the later one counts. (A blank schema does
/// not count as given.)
pub proof fn law_later_text_counts(
    config: DbConfigView,
    name: Seq<char>,
    first: Seq<char>,
    second: Seq<char>,
)
    requires
        field_named(name) == Some(Field::Schema) ==> second.len() > 0,
    ensures
        config.with_field(name, FieldAnswer::Text(first)).with_field(
            name,
            FieldAnswer::Text(second),
        ) == config.with_field(name, FieldAnswer::Text(second)),
{
}

/// Answering a question the same way again changes nothing.
pub proof fn law_same_answer_again(config: DbConfigView, name: Seq<char>, value: FieldAnswer)
    ensures
        config.with_field(name, value).with_field(name, value) == config.with_field(name, value),
{
}

/// The order of answers to different questions does not matter, but for
/// `keyfile` and `auth_method`: both set the method.
pub proof fn law_answers_commute(
    config: DbConfigView,
    name: Seq<char>,
    value: FieldAnswer,
    other: Seq<char>,
    other_value: FieldAnswer,
)
    requires
        name != other,
        !(field_named(name) == Some(Field::Keyfile) && field_named(other) == Some(
            Field::AuthMethod,
        )),
        !(field_named(name) == Some(Field::AuthMethod) && field_named(other) == Some(
            Field::Keyfile,
        )),
    ensures
        config.with_field(name, value).with_field(other, other_value) == config.with_field(
            other,
            other_value,
        ).with_field(name, value),
{
}

/// No answers unset a field, and none touch the settings that the setup does not
/// ask for.
pub proof fn law_nothing_gets_lost(
    config: DbConfigView,
    answers: Seq<(Seq<char>, FieldAnswer)>,
    name: Seq<char>,
)
    ensures
        config.text_field(name) is Some ==> config.with_answers(answers).text_field(name) is Some,
        config.method is Some ==> config.with_answers(answers).method is Some,
        config.with_answers(answers).threads == config.threads,
        config.with_answers(answers).passed_on == config.passed_on,
    decreases answers.len(),
{
    if answers.len() > 0 {
        law_nothing_gets_lost(config, answers.drop_last(), name);
    }
}

/// A field whose question was not answered stays as it was.
pub proof fn law_unanswered_fields_stay(
    config: DbConfigView,
    answers: Seq<(Seq<char>, FieldAnswer)>,
    name: Seq<char>,
)
    requires
        latest_answer(answers, name) is None,
    ensures
        config.with_answers(answers).text_field(name) == config.text_field(name),
    decreases answers.len(),
{
    if answers.len() > 0 {
        law_unanswered_fields_stay(config, answers.drop_last(), name);
        law_other_fields_stay(
            config.with_answers(answers.drop_last()),
            answers.last().0,
            answers.last().1,
            name,
        );
    }
}

/// Once a key file was given, the target reads as one of a service account,
/// whatever is answered later.
pub proof fn law_keyfile_means_service_account(
    config: DbConfigView,
    path: Seq<char>,
    later: Seq<(Seq<char>, FieldAnswer)>,
)
    ensures
        config.with_field("keyfile"@, FieldAnswer::Text(path)).method == Some("service-account"@),
        config.with_field("keyfile"@, FieldAnswer::Text(path)).with_answers(later).field(
            "auth_method"@,
        ) == Some(FieldAnswer::Index(0)),
{
    law_field_names();
    law_nothing_gets_lost(
        config.with_field("keyfile"@, FieldAnswer::Text(path)),
        later,
        "keyfile"@,
    );
}

/// A finished setup has a number of threads: the one that there was, else 16.
pub proof fn law_threads_are_filled_in(
    start: DbConfigView,
    answers: Seq<(Seq<char>, FieldAnswer)>,
)
    ensures
        start.with_answers(answers).with_threads().threads == Some(
            match start.threads {
                Some(threads) => threads,
                None => SettingView::Integer(16),
            },
        ),
{
    law_nothing_gets_lost(start, answers, "project"@);
}

/// A setup that starts from the target of a finished one and gets no answers
/// gives that target again.
pub proof fn law_setup_without_answers(
    start: DbConfigView,
    answers: Seq<(Seq<char>, FieldAnswer)>,
)
    ensures
        ({
            let finished = start.with_answers(answers).with_threads();
            finished.with_answers(Seq::empty()).with_threads() == finished
        }),
{
}

/// Every question is about a field that answers are taken over into, no two are
/// about the same one, and a question that depends on another comes after it.
pub proof fn law_questions_fit_the_target()
    ensures
        forall|i: int|
            0 <= i < spanner_fields().len() ==> field_named(
                (#[trigger] spanner_fields()[i]).name,
            ) is Some,
        forall|i: int, j: int|
            0 <= i < j < spanner_fields().len() ==> (#[trigger] spanner_fields()[i]).name != (
            #[trigger] spanner_fields()[j]).name,
        forall|j: int|
            0 <= j < spanner_fields().len() && (#[trigger] spanner_fields()[j]).condition is Some
                ==> exists|i: int|
                0 <= i < j && (#[trigger] spanner_fields()[i]).name
                    == (spanner_fields()[j].condition->0).0 && spanner_fields()[i].kind is Select,
{
    law_field_names();
    let fields = spanner_fields();
    assert forall|j: int|
        0 <= j < fields.len() && (#[trigger] fields[j]).condition is Some implies exists|i: int|
        0 <= i < j && (#[trigger] fields[i]).name == (fields[j].condition->0).0
            && fields[i].kind is Select by {
        assert(j == 5);
        assert(fields[4].kind is Select);
    }
}

/// The key file is asked for exactly if the answer on the authentication method
/// was the service account; all other questions are always put.
pub proof fn law_when_questions_are_put(answers: Seq<(Seq<char>, FieldAnswer)>, i: int)
    requires
        0 <= i < spanner_fields().len(),
    ensures
        spanner_fields()[i].is_asked(answers) <==> (spanner_fields()[i].name == "keyfile"@
            ==> latest_answer(answers, "auth_method"@) == Some(FieldAnswer::Index(0))),
{
    law_questions_fit_the_target();
    assert(spanner_fields()[5].name == "keyfile"@);
    assert(i < 5 ==> spanner_fields()[i].name != spanner_fields()[5].name);
}

/// The answers of a complete setup with a service account.
pub proof fn law_service_account_setup(
    start: DbConfigView,
    project: Seq<char>,
    instance: Seq<char>,
    database: Seq<char>,
    schema: Seq<char>,
    keyfile: Seq<char>,
)
    ensures
        start.with_answers(
            seq![
                ("project"@, FieldAnswer::Text(project)),
                ("instance"@, FieldAnswer::Text(instance)),
                ("database"@, FieldAnswer::Text(database)),
                ("schema"@, FieldAnswer::Text(schema)),
                ("auth_method"@, FieldAnswer::Index(0)),
                ("keyfile"@, FieldAnswer::Text(keyfile)),
            ],
        ) == (DbConfigView {
            project: Some(project),
            instance: Some(instance),
            database: Some(database),
            schema: if schema.len() > 0 {
                Some(schema)
            } else {
                start.schema
            },
            method: Some("service-account"@),
            keyfile: Some(keyfile),
            ..start
        }),
{
    law_field_names();
    let given = seq![
        ("project"@, FieldAnswer::Text(project)),
        ("instance"@, FieldAnswer::Text(instance)),
        ("database"@, FieldAnswer::Text(database)),
        ("schema"@, FieldAnswer::Text(schema)),
        ("auth_method"@, FieldAnswer::Index(0)),
        ("keyfile"@, FieldAnswer::Text(keyfile)),
    ];
    reveal_with_fuel(DbConfigView::with_answers, 7);
    assert(given.last() == ("keyfile"@, FieldAnswer::Text(keyfile)));
}

/// The answers of a complete setup with gcloud oauth; a key file that there was
/// stays.
pub proof fn law_oauth_setup(
    start: DbConfigView,
    project: Seq<char>,
    instance: Seq<char>,
    database: Seq<char>,
    schema: Seq<char>,
)
    ensures
        start.with_answers(
            seq![
                ("project"@, FieldAnswer::Text(project)),
                ("instance"@, FieldAnswer::Text(instance)),
                ("database"@, FieldAnswer::Text(database)),
                ("schema"@, FieldAnswer::Text(schema)),
                ("auth_method"@, FieldAnswer::Index(1)),
            ],
        ) == (DbConfigView {
            project: Some(project),
            instance: Some(instance),
            database: Some(database),
            schema: if schema.len() > 0 {
                Some(schema)
            } else {
                start.schema
            },
            method: Some("oauth"@),
            ..start
        }),
{
    law_field_names();
    reveal_with_fuel(DbConfigView::with_answers, 6);
}

/// Other names than the six stand for no field: they can be neither answered nor
/// read.
pub proof fn law_other_names(config: DbConfigView, name: Seq<char>, value: FieldAnswer)
    requires
        name != "project"@,
        name != "instance"@,
        name != "database"@,
        name != "schema"@,
        name != "keyfile"@,
        name != "auth_method"@,
    ensures
        field_named(name) is None,
        config.with_field(name, value) == config,
        config.field(name) is None,
        config.text_field(name) is None,
{
}

/// What each text changes, and that it changes nothing else: a key file also
/// settles the method, and a blank schema is not taken over.
pub proof fn law_what_a_text_changes(config: DbConfigView, text: Seq<char>)
    ensures
        config.with_field("project"@, FieldAnswer::Text(text)) == (DbConfigView {
            project: Some(text),
            ..config
        }),
        config.with_field("instance"@, FieldAnswer::Text(text)) == (DbConfigView {
            instance: Some(text),
            ..config
        }),
        config.with_field("database"@, FieldAnswer::Text(text)) == (DbConfigView {
            database: Some(text),
            ..config
        }),
        text.len() > 0 ==> config.with_field("schema"@, FieldAnswer::Text(text)) == (DbConfigView {
            schema: Some(text),
            ..config
        }),
        text.len() == 0 ==> config.with_field("schema"@, FieldAnswer::Text(text)) == config,
        config.with_field("keyfile"@, FieldAnswer::Text(text)) == (DbConfigView {
            keyfile: Some(text),
            method: Some("service-account"@),
            ..config
        }),
        config.with_field("auth_method"@, FieldAnswer::Text(text)) == config,
{
    law_field_names();
}

/// What each choice changes: only the second option of `auth_method` changes
/// anything, and that only the method.
pub proof fn law_what_a_choice_changes(config: DbConfigView, name: Seq<char>, index: int)
    ensures
        config.with_field("auth_method"@, FieldAnswer::Index(1)) == (DbConfigView {
            method: Some("oauth"@),
            ..config
        }),
        name != "auth_method"@ || index != 1 ==> config.with_field(name, FieldAnswer::Index(index))
            == config,
{
    law_field_names();
}

/// What a text field of any target reads as: the text that it holds, and nothing
/// if it holds none.
pub proof fn law_reading_text_fields(config: DbConfigView)
    ensures
        config.text_field("project"@) == config.project,
        config.text_field("instance"@) == config.instance,
        config.text_field("database"@) == config.database,
        config.text_field("schema"@) == config.schema,
        config.text_field("keyfile"@) == config.keyfile,
        config.text_field("auth_method"@) is None,
        config.project matches Some(s) ==> config.field("project"@) == Some(FieldAnswer::Text(s)),
        config.project is None ==> config.field("project"@) is None,
        config.instance matches Some(s) ==> config.field("instance"@) == Some(FieldAnswer::Text(s)),
        config.instance is None ==> config.field("instance"@) is None,
        config.database matches Some(s) ==> config.field("database"@) == Some(FieldAnswer::Text(s)),
        config.database is None ==> config.field("database"@) is None,
        config.schema matches Some(s) ==> config.field("schema"@) == Some(FieldAnswer::Text(s)),
        config.schema is None ==> config.field("schema"@) is None,
        config.keyfile matches Some(s) ==> config.field("keyfile"@) == Some(FieldAnswer::Text(s)),
        config.keyfile is None ==> config.field("keyfile"@) is None,
{
    law_field_names();
}

/// What `auth_method` of any target reads as: the first option with a key file,
/// whatever the method; without one the second option with the method `oauth`;
/// and else nothing.
pub proof fn law_reading_auth_method(config: DbConfigView)
    ensures
        config.keyfile is Some ==> config.field("auth_method"@) == Some(FieldAnswer::Index(0)),
        config.keyfile is None && config.method == Some("oauth"@) ==> config.field("auth_method"@)
            == Some(FieldAnswer::Index(1)),
        config.keyfile is None && config.method != Some("oauth"@) ==> config.field(
            "auth_method"@,
        ) is None,
{
    law_field_names();
}

/// Filling in the number of threads changes no other setting, and none that there
/// is; the number filled in is 16.
pub proof fn law_threads_change_nothing_else(config: DbConfigView)
    ensures
        config.with_threads() == (DbConfigView { threads: config.with_threads().threads, ..config }),
        config.threads is Some ==> config.with_threads().threads == config.threads,
        config.threads is None ==> config.with_threads().threads == Some(SettingView::Integer(16)),
{
}

/// Answers are taken over one after the other: to give them in two portions comes
/// to the same.
pub proof fn law_answers_in_portions(
    config: DbConfigView,
    first: Seq<(Seq<char>, FieldAnswer)>,
    later: Seq<(Seq<char>, FieldAnswer)>,
)
    ensures
        config.with_answers(first + later) == config.with_answers(first).with_answers(later),
    decreases later.len(),
{
    if later.len() == 0 {
        assert(first + later =~= first);
    } else {
        assert((first + later).drop_last() =~= first + later.drop_last());
        law_answers_in_portions(config, first, later.drop_last());
    }
}

/// No answers change nothing, and one answer changes what it says.
pub proof fn law_no_answer_and_one(config: DbConfigView, name: Seq<char>, value: FieldAnswer)
    ensures
        config.with_answers(Seq::empty()) == config,
        config.with_answers(seq![(name, value)]) == config.with_field(name, value),
{
    let one = seq![(name, value)];
    assert(one.drop_last() =~= Seq::empty());
    assert(one.last() == (name, value));
    assert(config.with_answers(one) == config.with_answers(one.drop_last()).with_field(
        name,
        value,
    ));
}

/// The latest answer to a question is the last one under its name.
pub proof fn law_latest_answer_is_the_last(
    answers: Seq<(Seq<char>, FieldAnswer)>,
    name: Seq<char>,
)
    ensures
        match latest_answer(answers, name) {
            Some(value) => exists|i: int|
                0 <= i < answers.len() && #[trigger] answers[i] == (name, value) && (forall|j: int|
                    i < j < answers.len() ==> (#[trigger] answers[j]).0 != name),
            None => forall|i: int| 0 <= i < answers.len() ==> (#[trigger] answers[i]).0 != name,
        },
    decreases answers.len(),
{
    if answers.len() > 0 {
        let last = answers.len() - 1;
        if answers[last].0 == name {
            assert(answers[last] == (name, answers[last].1));
        } else {
            let rest = answers.drop_last();
            law_latest_answer_is_the_last(rest, name);
            assert forall|j: int| 0 <= j < last implies #[trigger] answers[j] == rest[j] by {}
            if latest_answer(rest, name) is Some {
                let value = latest_answer(rest, name)->0;
                let k = choose|i: int|
                    0 <= i < rest.len() && #[trigger] rest[i] == (name, value) && (forall|j: int|
                        i < j < rest.len() ==> (#[trigger] rest[j]).0 != name);
                assert(answers[k] == (name, value));
                assert forall|j: int| k < j < answers.len() implies (#[trigger] answers[j]).0
                    != name by {
                    if j < last {
                        assert(rest[j].0 != name);
                    }
                }
            } else {
                assert forall|j: int| 0 <= j < answers.len() implies (#[trigger] answers[j]).0
                    != name by {
                    if j < last {
                        assert(rest[j].0 != name);
                    }
                }
            }
        }
    }
}

/// A question without a condition is always put, one with a condition exactly if
/// the latest answer to the question that it names is the one that it names.
pub proof fn law_conditions(field: FieldView, answers: Seq<(Seq<char>, FieldAnswer)>)
    ensures
        field.condition is None ==> field.is_asked(answers),
        field.condition matches Some((name, value)) ==> (field.is_asked(answers)
            <==> latest_answer(answers, name) == Some(value)),
{
}

/// After any answers a field holds the text that was answered last. (A blank
/// schema does not count.)
pub proof fn law_last_text_is_kept(
    config: DbConfigView,
    answers: Seq<(Seq<char>, FieldAnswer)>,
    name: Seq<char>,
    text: Seq<char>,
)
    requires
        name == "project"@ || name == "instance"@ || name == "database"@ || name == "keyfile"@ || (
        name == "schema"@ && text.len() > 0),
        latest_answer(answers, name) == Some(FieldAnswer::Text(text)),
    ensures
        config.with_answers(answers).text_field(name) == Some(text),
        config.with_answers(answers).with_threads().text_field(name) == Some(text),
    decreases answers.len(),
{
    law_field_names();
    if answers.last().0 != name {
        law_last_text_is_kept(config, answers.drop_last(), name, text);
        law_other_fields_stay(
            config.with_answers(answers.drop_last()),
            answers.last().0,
            answers.last().1,
            name,
        );
    }
}

/// Only answers on the authentication method and on the key file change the
/// method.
pub proof fn law_method_stays(config: DbConfigView, answers: Seq<(Seq<char>, FieldAnswer)>)
    requires
        latest_answer(answers, "auth_method"@) is None,
        latest_answer(answers, "keyfile"@) is None,
    ensures
        config.with_answers(answers).method == config.method,
    decreases answers.len(),
{
    law_field_names();
    if answers.len() > 0 {
        law_method_stays(config, answers.drop_last());
    }
}

/// A key file makes the method `service-account` and the choice of gcloud oauth
/// makes it `oauth`, whatever was answered before and whatever else is answered
/// after.
pub proof fn law_last_method_is_kept(
    config: DbConfigView,
    before: Seq<(Seq<char>, FieldAnswer)>,
    path: Seq<char>,
    after: Seq<(Seq<char>, FieldAnswer)>,
)
    requires
        latest_answer(after, "auth_method"@) is None,
        latest_answer(after, "keyfile"@) is None,
    ensures
        config.with_answers(before.push(("keyfile"@, FieldAnswer::Text(path))) + after).method
            == Some("service-account"@),
        config.with_answers(before.push(("auth_method"@, FieldAnswer::Index(1))) + after).method
            == Some("oauth"@),
{
    law_field_names();
    let keyfile = before.push(("keyfile"@, FieldAnswer::Text(path)));
    let oauth = before.push(("auth_method"@, FieldAnswer::Index(1)));
    assert(keyfile.drop_last() =~= before);
    assert(oauth.drop_last() =~= before);
    law_answers_in_portions(config, keyfile, after);
    law_answers_in_portions(config, oauth, after);
    law_method_stays(config.with_answers(keyfile), after);
    law_method_stays(config.with_answers(oauth), after);
}

/// A blank target holds nothing.
pub proof fn law_blank_target()
    ensures
        blank_config().threads is None,
        blank_config().project is None,
        blank_config().instance is None,
        blank_config().database is None,
        blank_config().schema is None,
        blank_config().method is None,
        blank_config().keyfile is None,
        blank_config().passed_on.keyfile_json is None,
        blank_config().passed_on.refresh_token is None,
        blank_config().passed_on.client_id is None,
        blank_config().passed_on.client_secret is None,
        blank_config().passed_on.token_uri is None,
        blank_config().passed_on.token is None,
        blank_config().passed_on.impersonate_service_account is None,
        blank_config().passed_on.scopes is None,
        blank_config().passed_on.quota_project is None,
        blank_config().passed_on.api_endpoint is None,
        blank_config().passed_on.emulator is None,
        blank_config().passed_on.retries is None,
        blank_config().passed_on.target_name is None,
{
}

/// A setup starts from the existing target as it is, and from a blank one if
/// there is none.
pub proof fn law_where_a_setup_starts(config: SpannerDbConfig)
    ensures
        starting_point(Some(&config)) == config@,
        starting_point(None) == blank_config(),
{
}

/// A finished setup, field by field: what was not answered is as it was at the
/// start, what the setup does not ask for is passed on, and the number of threads
/// is the one that there was, else 16.
pub proof fn law_finished_setup(
    existing: Option<&SpannerDbConfig>,
    answers: Seq<(Seq<char>, FieldAnswer)>,
)
    ensures
        ({
            let start = starting_point(existing);
            let finished = start.with_answers(answers).with_threads();
            &&& latest_answer(answers, "project"@) is None ==> finished.project == start.project
            &&& latest_answer(answers, "instance"@) is None ==> finished.instance == start.instance
            &&& latest_answer(answers, "database"@) is None ==> finished.database == start.database
            &&& latest_answer(answers, "schema"@) is None ==> finished.schema == start.schema
            &&& latest_answer(answers, "keyfile"@) is None ==> finished.keyfile == start.keyfile
            &&& latest_answer(answers, "keyfile"@) is None && latest_answer(
                answers,
                "auth_method"@,
            ) is None ==> finished.method == start.method
            &&& finished.passed_on == start.passed_on
            &&& start.threads is Some ==> finished.threads == start.threads
            &&& start.threads is None ==> finished.threads == Some(SettingView::Integer(16))
        }),
{
    law_field_names();
    let start = starting_point(existing);
    law_nothing_gets_lost(start, answers, "project"@);
    if latest_answer(answers, "project"@) is None {
        law_unanswered_fields_stay(start, answers, "project"@);
    }
    if latest_answer(answers, "instance"@) is None {
        law_unanswered_fields_stay(start, answers, "instance"@);
    }
    if latest_answer(answers, "database"@) is None {
        law_unanswered_fields_stay(start, answers, "database"@);
    }
    if latest_answer(answers, "schema"@) is None {
        law_unanswered_fields_stay(start, answers, "schema"@);
    }
    if latest_answer(answers, "keyfile"@) is None {
        law_unanswered_fields_stay(start, answers, "keyfile"@);
        if latest_answer(answers, "auth_method"@) is None {
            law_method_stays(start, answers);
        }
    }
}

/// A finished setup holds in each text field what was answered last. (A blank
/// schema does not count.)
pub proof fn law_finished_setup_holds_the_answers(
    existing: Option<&SpannerDbConfig>,
    answers: Seq<(Seq<char>, FieldAnswer)>,
    text: Seq<char>,
)
    ensures
        ({
            let start = starting_point(existing);
            let finished = start.with_answers(answers).with_threads();
            let answer = FieldAnswer::Text(text);
            &&& latest_answer(answers, "project"@) == Some(answer) ==> finished.project == Some(
                text,
            )
            &&& latest_answer(answers, "instance"@) == Some(answer) ==> finished.instance == Some(
                text,
            )
            &&& latest_answer(answers, "database"@) == Some(answer) ==> finished.database == Some(
                text,
            )
            &&& latest_answer(answers, "schema"@) == Some(answer) && text.len() > 0
                ==> finished.schema == Some(text)
            &&& latest_answer(answers, "keyfile"@) == Some(answer) ==> finished.keyfile == Some(
                text,
            ) && finished.field("auth_method"@) == Some(FieldAnswer::Index(0))
        }),
{
    law_field_names();
    let start = starting_point(existing);
    let answer = FieldAnswer::Text(text);
    if latest_answer(answers, "project"@) == Some(answer) {
        law_last_text_is_kept(start, answers, "project"@, text);
    }
    if latest_answer(answers, "instance"@) == Some(answer) {
        law_last_text_is_kept(start, answers, "instance"@, text);
    }
    if latest_answer(answers, "database"@) == Some(answer) {
        law_last_text_is_kept(start, answers, "database"@, text);
    }
    if latest_answer(answers, "schema"@) == Some(answer) && text.len() > 0 {
        law_last_text_is_kept(start, answers, "schema"@, text);
    }
    if latest_answer(answers, "keyfile"@) == Some(answer) {
        law_last_text_is_kept(start, answers, "keyfile"@, text);
    }
}

/// The target of a complete setup with a service account, after the number of
/// threads was filled in.
pub proof fn law_finished_service_account_setup(
    existing: Option<&SpannerDbConfig>,
    project: Seq<char>,
    instance: Seq<char>,
    database: Seq<char>,
    schema: Seq<char>,
    keyfile: Seq<char>,
)
    ensures
        ({
            let start = starting_point(existing);
            let finished = start.with_answers(
                seq![
                    ("project"@, FieldAnswer::Text(project)),
                    ("instance"@, FieldAnswer::Text(instance)),
                    ("database"@, FieldAnswer::Text(database)),
                    ("schema"@, FieldAnswer::Text(schema)),
                    ("auth_method"@, FieldAnswer::Index(0)),
                    ("keyfile"@, FieldAnswer::Text(keyfile)),
                ],
            ).with_threads();
            &&& finished.project == Some(project)
            &&& finished.instance == Some(instance)
            &&& finished.database == Some(database)
            &&& schema.len() > 0 ==> finished.schema == Some(schema)
            &&& schema.len() == 0 ==> finished.schema == start.schema
            &&& finished.method == Some("service-account"@)
            &&& finished.keyfile == Some(keyfile)
            &&& finished.passed_on == start.passed_on
            &&& start.threads is Some ==> finished.threads == start.threads
            &&& start.threads is None ==> finished.threads == Some(SettingView::Integer(16))
        }),
{
    law_service_account_setup(
        starting_point(existing),
        project,
        instance,
        database,
        schema,
        keyfile,
    );
}

/// The target of a complete setup with gcloud oauth, after the number of threads
/// was filled in.
pub proof fn law_finished_oauth_setup(
    existing: Option<&SpannerDbConfig>,
    project: Seq<char>,
    instance: Seq<char>,
    database: Seq<char>,
    schema: Seq<char>,
)
    ensures
        ({
            let start = starting_point(existing);
            let finished = start.with_answers(
                seq![
                    ("project"@, FieldAnswer::Text(project)),
                    ("instance"@, FieldAnswer::Text(instance)),
                    ("database"@, FieldAnswer::Text(database)),
                    ("schema"@, FieldAnswer::Text(schema)),
                    ("auth_method"@, FieldAnswer::Index(1)),
                ],
            ).with_threads();
            &&& finished.project == Some(project)
            &&& finished.instance == Some(instance)
            &&& finished.database == Some(database)
            &&& schema.len() > 0 ==> finished.schema == Some(schema)
            &&& schema.len() == 0 ==> finished.schema == start.schema
            &&& finished.method == Some("oauth"@)
            &&& finished.keyfile == start.keyfile
            &&& finished.passed_on == start.passed_on
            &&& start.threads is Some ==> finished.threads == start.threads
            &&& start.threads is None ==> finished.threads == Some(SettingView::Integer(16))
        }),
{
    law_oauth_setup(starting_point(existing), project, instance, database, schema);
}

/// Project, instance, database, schema, authentication method and key file are
/// asked for, in this order.
pub proof fn law_order_of_questions()
    ensures
        spanner_fields().len() == 6,
        spanner_fields()[0].name == "project"@,
        spanner_fields()[1].name == "instance"@,
        spanner_fields()[2].name == "database"@,
        spanner_fields()[3].name == "schema"@,
        spanner_fields()[4].name == "auth_method"@,
        spanner_fields()[5].name == "keyfile"@,
{
}

/// How each question is answered: the schema is the only one that may be left
/// blank, without a default, the authentication method the only choice, the
/// service account chosen beforehand, and all others take text that must be given.
pub proof fn law_kinds_of_questions(i: int)
    requires
        0 <= i < spanner_fields().len(),
    ensures
        ({
            let field = spanner_fields()[i];
            &&& field.name == "project"@ || field.name == "instance"@ || field.name == "database"@
                || field.name == "keyfile"@ <==> field.kind == KindView::Input
            &&& field.name == "schema"@ <==> field.kind is OptionalInput
            &&& field.name == "schema"@ ==> field.kind == (KindView::OptionalInput {
                default: None,
            })
            &&& field.name == "auth_method"@ <==> field.kind is Select
            &&& field.kind matches KindView::Select { options, default_index } ==> options.len()
                == 2 && options[0] == "Service Account (JSON file)"@ && options[1]
                == "gcloud oauth"@ && default_index == 0
        }),
{
    law_field_names();
}

/// What each question says.
pub proof fn law_prompts(i: int)
    requires
        0 <= i < spanner_fields().len(),
    ensures
        ({
            let field = spanner_fields()[i];
            &&& field.name == "project"@ ==> field.prompt == "Project ID"@
            &&& field.name == "instance"@ ==> field.prompt == "Instance ID"@
            &&& field.name == "database"@ ==> field.prompt == "Database"@
            &&& field.name == "schema"@ ==> field.prompt
                == "Named schema (leave blank for the default/unnamed schema)"@
            &&& field.name == "auth_method"@ ==> field.prompt
                == "Which authentication method would you like to use?"@
            &&& field.name == "keyfile"@ ==> field.prompt == "Path to service account JSON file"@
        }),
{
    law_field_names();
}

/// The key file is the only question with a condition: that the service account
/// was chosen.
pub proof fn law_condition_of_the_key_file(i: int)
    requires
        0 <= i < spanner_fields().len(),
    ensures
        spanner_fields()[i].condition is Some <==> spanner_fields()[i].name == "keyfile"@,
        spanner_fields()[i].condition matches Some((name, value)) ==> name == "auth_method"@
            && value == FieldAnswer::Index(0),
{
    law_field_names();
}

/// On a target without a key file, choosing gcloud oauth is read back; the key
/// file is asked for after the service account was chosen, and not after gcloud
/// oauth was.
pub proof fn law_choices_do_what_they_say(
    config: DbConfigView,
    answers: Seq<(Seq<char>, FieldAnswer)>,
)
    requires
        config.keyfile is None,
    ensures
        config.with_field("auth_method"@, FieldAnswer::Index(1)).field("auth_method"@) == Some(
            FieldAnswer::Index(1),
        ),
        spanner_fields()[5].is_asked(answers.push(("auth_method"@, FieldAnswer::Index(0)))),
        !spanner_fields()[5].is_asked(answers.push(("auth_method"@, FieldAnswer::Index(1)))),
{
    law_field_names();
    let first = answers.push(("auth_method"@, FieldAnswer::Index(0)));
    let second = answers.push(("auth_method"@, FieldAnswer::Index(1)));
    assert(first.last() == ("auth_method"@, FieldAnswer::Index(0)));
    assert(second.last() == ("auth_method"@, FieldAnswer::Index(1)));
}

} // verus!
