//! What holds of the connection options as a whole.

use crate::adapter_config::{scalar_at, text_at};
use crate::auth::{
    configured, connection_at, conversion_at, database_path, is_switched_on, keyfile_json_at,
    resolved, settings_at, ConnectionView, SettingsView,
};
use crate::builder::{option_in, Backend};
use crate::error::AuthFailure;
use crate::spanner;
use crate::yaml::{bool_text, json_text, lookup, Yaml};
use vstd::prelude::*;

verus! {

/// A target is accepted exactly if it names a project, an instance and a
/// database and its `keyfile_json`, if any, is a string or a mapping whose
/// conversion to JSON succeeded; that one is then handed on as its JSON text.
pub proof fn law_what_is_accepted(
    entries: Seq<(Yaml, Yaml)>,
    converted: Result<Seq<char>, dbt_yaml::Error>,
)
    requires
        conversion_at(entries, converted),
    ensures
        connection_at(entries, converted) is Ok <==> {
            &&& text_at(entries, "project"@) is Some
            &&& text_at(entries, "instance"@) is Some
            &&& text_at(entries, "database"@) is Some
            &&& match lookup(entries, "keyfile_json"@) {
                None => true,
                Some(Yaml::Text(_)) => true,
                Some(Yaml::Mapping(_)) => converted is Ok,
                Some(_) => false,
            }
        },
        connection_at(entries, converted) matches Ok(connection) ==> connection.keyfile_json
            == match lookup(entries, "keyfile_json"@) {
            Some(Yaml::Text(s)) => Some(s),
            Some(mapping) => Some(json_text(mapping)),
            None => None,
        },
        connection_at(entries, converted) is Ok ==> (lookup(entries, "keyfile_json"@) matches Some(
            mapping,
        ) ==> mapping.is_json()),
{
}

/// No other settings than these eight have a say in the connection, in its
/// options or in the error that there is in place of them, where converting
/// `keyfile_json` to JSON, if it is converted, gave the same for both targets.
pub proof fn law_settings_that_matter(
    a: Seq<(Yaml, Yaml)>,
    b: Seq<(Yaml, Yaml)>,
    converted: Result<Seq<char>, dbt_yaml::Error>,
)
    requires
        lookup(a, "project"@) == lookup(b, "project"@),
        lookup(a, "instance"@) == lookup(b, "instance"@),
        lookup(a, "database"@) == lookup(b, "database"@),
        lookup(a, "api_endpoint"@) == lookup(b, "api_endpoint"@),
        lookup(a, "endpoint"@) == lookup(b, "endpoint"@),
        lookup(a, "emulator"@) == lookup(b, "emulator"@),
        lookup(a, "keyfile"@) == lookup(b, "keyfile"@),
        lookup(a, "keyfile_json"@) == lookup(b, "keyfile_json"@),
    ensures
        conversion_at(a, converted) == conversion_at(b, converted),
        connection_at(a, converted) == connection_at(b, converted),
        configured(connection_at(a, converted)) == configured(connection_at(b, converted)),
{
}

/// The same of two targets that are each converted on their own: they come to
/// the same, but for a `keyfile_json` mapping whose conversion to JSON failed for
/// one of them. Where it failed for both, both come to such an error, unless a
/// required field is missing.
pub proof fn law_settings_that_matter_converted_apart(
    a: Seq<(Yaml, Yaml)>,
    converted_a: Result<Seq<char>, dbt_yaml::Error>,
    b: Seq<(Yaml, Yaml)>,
    converted_b: Result<Seq<char>, dbt_yaml::Error>,
)
    requires
        conversion_at(a, converted_a),
        conversion_at(b, converted_b),
        lookup(a, "project"@) == lookup(b, "project"@),
        lookup(a, "instance"@) == lookup(b, "instance"@),
        lookup(a, "database"@) == lookup(b, "database"@),
        lookup(a, "api_endpoint"@) == lookup(b, "api_endpoint"@),
        lookup(a, "endpoint"@) == lookup(b, "endpoint"@),
        lookup(a, "emulator"@) == lookup(b, "emulator"@),
        lookup(a, "keyfile"@) == lookup(b, "keyfile"@),
        lookup(a, "keyfile_json"@) == lookup(b, "keyfile_json"@),
    ensures
        ({
            ||| !(lookup(a, "keyfile_json"@) matches Some(Yaml::Mapping(_)))
            ||| converted_a is Ok && converted_b is Ok
            ||| text_at(a, "project"@) is None
            ||| text_at(a, "instance"@) is None
            ||| text_at(a, "database"@) is None
        }) ==> configured(connection_at(a, converted_a)) == configured(
            connection_at(b, converted_b),
        ) && connection_at(a, converted_a) == connection_at(b, converted_b),
        converted_a is Err && converted_b is Err ==> {
            ||| connection_at(a, converted_a) == connection_at(b, converted_b)
            ||| connection_at(a, converted_a) matches Err(AuthFailure::Yaml(_))
                && connection_at(b, converted_b) matches Err(AuthFailure::Yaml(_))
        },
{
}

/// Where `api_endpoint` is given, `endpoint` has no say.
pub proof fn law_api_endpoint_wins(
    settings: SettingsView,
    keyfile_json: Result<Option<Seq<char>>, AuthFailure>,
    endpoint: Option<Seq<char>>,
)
    requires
        settings.api_endpoint is Some,
    ensures
        resolved(settings, keyfile_json) == resolved(
            SettingsView { endpoint, ..settings },
            keyfile_json,
        ),
        resolved(settings, keyfile_json) matches Ok(connection) ==> connection.endpoint
            == settings.api_endpoint,
{
}

/// A boolean `emulator` setting is taken as it is.
pub proof fn law_boolean_emulator(
    entries: Seq<(Yaml, Yaml)>,
    converted: Result<Seq<char>, dbt_yaml::Error>,
    on: bool,
)
    requires
        lookup(entries, "emulator"@) == Some(Yaml::Bool(on)),
    ensures
        connection_at(entries, converted) matches Ok(connection) ==> connection.emulator == Some(
            on,
        ),
{
    lemma_bool_text_is_switch(on);
}

/// The text of a boolean switches on what the boolean switches on.
proof fn lemma_bool_text_is_switch(on: bool)
    ensures
        is_switched_on(bool_text(on)) == on,
{
    reveal_strlit("true");
    reveal_strlit("false");
    reveal_strlit("1");
    reveal_strlit("True");
    assert("false"@.len() == 5);
    assert("true"@.len() == 4);
    assert("True"@.len() == 4);
    assert("1"@.len() == 1);
}

/// The five option keys are different.
pub proof fn law_option_keys_differ()
    ensures
        spanner::DATABASE@ != spanner::ENDPOINT@,
        spanner::DATABASE@ != spanner::EMULATOR@,
        spanner::DATABASE@ != spanner::KEYFILE@,
        spanner::DATABASE@ != spanner::KEYFILE_JSON@,
        spanner::ENDPOINT@ != spanner::EMULATOR@,
        spanner::ENDPOINT@ != spanner::KEYFILE@,
        spanner::ENDPOINT@ != spanner::KEYFILE_JSON@,
        spanner::EMULATOR@ != spanner::KEYFILE@,
        spanner::EMULATOR@ != spanner::KEYFILE_JSON@,
        spanner::KEYFILE@ != spanner::KEYFILE_JSON@,
{
    reveal_strlit("adbc.spanner.database");
    reveal_strlit("adbc.spanner.endpoint");
    reveal_strlit("adbc.spanner.emulator");
    reveal_strlit("adbc.spanner.keyfile");
    reveal_strlit("adbc.spanner.keyfile_json");
    assert(spanner::DATABASE@[13] == 'd');
    assert(spanner::ENDPOINT@[13] == 'e' && spanner::ENDPOINT@[14] == 'n');
    assert(spanner::EMULATOR@[13] == 'e' && spanner::EMULATOR@[14] == 'm');
    assert(spanner::KEYFILE@[13] == 'k' && spanner::KEYFILE@.len() == 20);
    assert(spanner::KEYFILE_JSON@[13] == 'k' && spanner::KEYFILE_JSON@.len() == 25);
}

/// Each option of a connection is read back under its key, and no option is
/// given under another key.
pub proof fn law_options_read_back(connection: ConnectionView, key: Seq<char>)
    ensures
        option_in(connection.options(), key) == if key == spanner::DATABASE@ {
            Some(connection.database_path)
        } else if key == spanner::ENDPOINT@ {
            connection.endpoint
        } else if key == spanner::EMULATOR@ {
            match connection.emulator {
                Some(on) => Some(bool_text(on)),
                None => None,
            }
        } else if key == spanner::KEYFILE@ {
            connection.keyfile
        } else if key == spanner::KEYFILE_JSON@ {
            connection.keyfile_json
        } else {
            None
        },
{
    law_option_keys_differ();
    reveal_with_fuel(option_in, 6);
}

/// What is read from options that others were added to: the first of a name
/// counts.
proof fn lemma_option_in_sum(
    before: Seq<(Seq<char>, Seq<char>)>,
    added: Seq<(Seq<char>, Seq<char>)>,
    key: Seq<char>,
)
    ensures
        option_in(before + added, key) == if option_in(before, key) is Some {
            option_in(before, key)
        } else {
            option_in(added, key)
        },
    decreases before.len(),
{
    if before.len() == 0 {
        assert(before + added =~= added);
    } else {
        assert((before + added).drop_first() =~= before.drop_first() + added);
        lemma_option_in_sum(before.drop_first(), added, key);
    }
}

/// A connection handed to a builder is read back from it: a key that the builder
/// did not hold gives the connection's option, and one that it held, as well as
/// one that is no key of a connection, reads as before.
pub proof fn law_applied_options_read_back(
    before: Seq<(Seq<char>, Seq<char>)>,
    connection: ConnectionView,
    key: Seq<char>,
)
    ensures
        option_in(before, key) is None ==> option_in(before + connection.options(), key)
            == option_in(connection.options(), key),
        option_in(before, key) is Some ==> option_in(before + connection.options(), key)
            == option_in(before, key),
        key != spanner::DATABASE@ && key != spanner::ENDPOINT@ && key != spanner::EMULATOR@ && key
            != spanner::KEYFILE@ && key != spanner::KEYFILE_JSON@ ==> option_in(
            before + connection.options(),
            key,
        ) == option_in(before, key),
{
    lemma_option_in_sum(before, connection.options(), key);
    law_options_read_back(connection, key);
}

/// A builder that holds none of the five keys gives back each option of the
/// connection that is handed to it.
pub proof fn law_applied_connection_reads_back(
    before: Seq<(Seq<char>, Seq<char>)>,
    connection: ConnectionView,
)
    requires
        option_in(before, spanner::DATABASE@) is None,
        option_in(before, spanner::ENDPOINT@) is None,
        option_in(before, spanner::EMULATOR@) is None,
        option_in(before, spanner::KEYFILE@) is None,
        option_in(before, spanner::KEYFILE_JSON@) is None,
    ensures
        ({
            let after = before + connection.options();
            &&& option_in(after, spanner::DATABASE@) == Some(connection.database_path)
            &&& option_in(after, spanner::ENDPOINT@) == connection.endpoint
            &&& option_in(after, spanner::EMULATOR@) == match connection.emulator {
                Some(on) => Some(bool_text(on)),
                None => None,
            }
            &&& option_in(after, spanner::KEYFILE@) == connection.keyfile
            &&& option_in(after, spanner::KEYFILE_JSON@) == connection.keyfile_json
        }),
{
    law_option_keys_differ();
    law_applied_options_read_back(before, connection, spanner::DATABASE@);
    law_applied_options_read_back(before, connection, spanner::ENDPOINT@);
    law_applied_options_read_back(before, connection, spanner::EMULATOR@);
    law_applied_options_read_back(before, connection, spanner::KEYFILE@);
    law_applied_options_read_back(before, connection, spanner::KEYFILE_JSON@);
    law_options_read_back(connection, spanner::DATABASE@);
    law_options_read_back(connection, spanner::ENDPOINT@);
    law_options_read_back(connection, spanner::EMULATOR@);
    law_options_read_back(connection, spanner::KEYFILE@);
    law_options_read_back(connection, spanner::KEYFILE_JSON@);
}

/// The database path is the first option, and no key is given twice.
pub proof fn law_options_are_distinct(connection: ConnectionView)
    ensures
        connection.options().len() >= 1,
        connection.options()[0] == (spanner::DATABASE@, connection.database_path),
        forall|i: int, j: int|
            0 <= i < j < connection.options().len() ==> (#[trigger] connection.options()[i]).0 != (
            #[trigger] connection.options()[j]).0,
{
    law_option_keys_differ();
}

/// With nothing but project, instance and database, the driver is given the
/// path alone, and so uses Application Default Credentials.
pub proof fn law_default_credentials(
    entries: Seq<(Yaml, Yaml)>,
    converted: Result<Seq<char>, dbt_yaml::Error>,
)
    requires
        lookup(entries, "api_endpoint"@) is None,
        lookup(entries, "endpoint"@) is None,
        lookup(entries, "emulator"@) is None,
        lookup(entries, "keyfile"@) is None,
        lookup(entries, "keyfile_json"@) is None,
    ensures
        connection_at(entries, converted) matches Ok(connection) ==> connection.options() == seq![
            (
                spanner::DATABASE@,
                database_path(
                    text_at(entries, "project"@)->0,
                    text_at(entries, "instance"@)->0,
                    text_at(entries, "database"@)->0,
                ),
            ),
        ],
{
}

/// Text up to a slash is determined by what it is followed by.
proof fn lemma_split_at_slash(a: Seq<char>, rest_a: Seq<char>, b: Seq<char>, rest_b: Seq<char>)
    requires
        !a.contains('/'),
        !b.contains('/'),
        rest_a.len() > 0,
        rest_b.len() > 0,
        rest_a[0] == '/',
        rest_b[0] == '/',
        a + rest_a == b + rest_b,
    ensures
        a == b,
        rest_a == rest_b,
{
    let whole = a + rest_a;
    assert(whole[a.len() as int] == '/');
    assert((b + rest_b)[b.len() as int] == '/');
    if a.len() < b.len() {
        assert(b[a.len() as int] == (b + rest_b)[a.len() as int]);
    }
    if b.len() < a.len() {
        assert(a[b.len() as int] == whole[b.len() as int]);
    }
    assert(a =~= whole.take(a.len() as int));
    assert(b =~= (b + rest_b).take(b.len() as int));
    assert(rest_a =~= whole.skip(a.len() as int));
    assert(rest_b =~= (b + rest_b).skip(b.len() as int));
}

/// Different databases have different paths, as long as no project or instance
/// has a slash in its name.
pub proof fn law_paths_differ(
    project: Seq<char>,
    instance: Seq<char>,
    database: Seq<char>,
    other_project: Seq<char>,
    other_instance: Seq<char>,
    other_database: Seq<char>,
)
    requires
        !project.contains('/'),
        !instance.contains('/'),
        !other_project.contains('/'),
        !other_instance.contains('/'),
        database_path(project, instance, database) == database_path(
            other_project,
            other_instance,
            other_database,
        ),
    ensures
        project == other_project,
        instance == other_instance,
        database == other_database,
{
    let instances = "/instances/"@;
    let databases = "/databases/"@;
    reveal_strlit("/instances/");
    reveal_strlit("/databases/");
    let path = database_path(project, instance, database);
    let other_path = database_path(other_project, other_instance, other_database);
    let prefix = "projects/"@.len() as int;
    let tail = instance + (databases + database);
    let other_tail = other_instance + (databases + other_database);
    assert(path.skip(prefix) =~= project + (instances + tail));
    assert(other_path.skip(prefix) =~= other_project + (instances + other_tail));
    lemma_split_at_slash(project, instances + tail, other_project, instances + other_tail);
    assert((instances + tail).skip(instances.len() as int) =~= tail);
    assert((instances + other_tail).skip(instances.len() as int) =~= other_tail);
    lemma_split_at_slash(
        instance,
        databases + database,
        other_instance,
        databases + other_database,
    );
    assert((databases + database).skip(databases.len() as int) =~= database);
    assert((databases + other_database).skip(databases.len() as int) =~= other_database);
}

/// What a field holds is found under its name: the first entry whose key is that
/// string, and nothing if there is none.
pub proof fn law_lookup_finds_the_entry(entries: Seq<(Yaml, Yaml)>, key: Seq<char>)
    ensures
        match lookup(entries, key) {
            Some(value) => exists|i: int|
                0 <= i < entries.len() && #[trigger] entries[i] == (Yaml::Text(key), value) && (
                forall|j: int| 0 <= j < i ==> (#[trigger] entries[j]).0 != Yaml::Text(key)),
            None => forall|i: int|
                0 <= i < entries.len() ==> (#[trigger] entries[i]).0 != Yaml::Text(key),
        },
    decreases entries.len(),
{
    if entries.len() > 0 && entries[0].0 != Yaml::Text(key) {
        let rest = entries.drop_first();
        law_lookup_finds_the_entry(rest, key);
        assert forall|j: int| 1 <= j < entries.len() implies #[trigger] entries[j] == rest[j
            - 1] by {}
        if lookup(rest, key) is Some {
            let value = lookup(rest, key)->0;
            let k = choose|i: int|
                0 <= i < rest.len() && #[trigger] rest[i] == (Yaml::Text(key), value) && (forall|
                    j: int,
                | 0 <= j < i ==> (#[trigger] rest[j]).0 != Yaml::Text(key));
            assert(entries[k + 1] == (Yaml::Text(key), value));
            assert forall|j: int| 0 <= j < k + 1 implies (#[trigger] entries[j]).0 != Yaml::Text(
                key,
            ) by {
                if j > 0 {
                    assert(rest[j - 1].0 != Yaml::Text(key));
                }
            }
        } else {
            assert forall|j: int| 0 <= j < entries.len() implies (#[trigger] entries[j]).0
                != Yaml::Text(key) by {
                if j > 0 {
                    assert(rest[j - 1].0 != Yaml::Text(key));
                }
            }
        }
    } else if entries.len() > 0 {
        assert(entries[0] == (Yaml::Text(key), entries[0].1));
    }
}

/// The text of a value: a string gives what it holds, a tag is looked through,
/// and nothing else has one.
pub proof fn law_text_of_a_value(s: Seq<char>, tag: Seq<char>, value: Yaml)
    ensures
        Yaml::Text(s).text() == Some(s),
        Yaml::Tagged(tag, Box::new(value)).text() == value.text(),
        value is Null || value is Bool || value is Number || value is Sequence || value is Mapping
            ==> value.text() is None,
{
    reveal_with_fuel(Yaml::untagged, 2);
}

/// The scalar text of a value: a string gives what it holds, a boolean its word,
/// a number its digits, and nothing else has one.
pub proof fn law_scalar_text_of_a_value(s: Seq<char>, value: Yaml)
    ensures
        Yaml::Text(s).scalar_text() == Some(s),
        Yaml::Number(s).scalar_text() == Some(s),
        Yaml::Bool(true).scalar_text() == Some("true"@),
        Yaml::Bool(false).scalar_text() == Some("false"@),
        value is Null || value is Sequence || value is Mapping || value is Tagged
            ==> value.scalar_text() is None,
{
}

/// What is read of a field is what its value gives, whichever field it is and
/// whatever stands beside it.
pub proof fn law_reading_a_field(entries: Seq<(Yaml, Yaml)>, key: Seq<char>)
    ensures
        lookup(entries, key) matches Some(value) ==> text_at(entries, key) == value.text()
            && scalar_at(entries, key) == value.scalar_text(),
        lookup(entries, key) is None ==> text_at(entries, key) is None && scalar_at(
            entries,
            key,
        ) is None,
{
}

/// Each setting is read from the field of its own name.
pub proof fn law_settings_come_from_their_fields(entries: Seq<(Yaml, Yaml)>)
    ensures
        settings_at(entries).project == text_at(entries, "project"@),
        settings_at(entries).instance == text_at(entries, "instance"@),
        settings_at(entries).database == text_at(entries, "database"@),
        settings_at(entries).api_endpoint == text_at(entries, "api_endpoint"@),
        settings_at(entries).endpoint == text_at(entries, "endpoint"@),
        settings_at(entries).emulator == scalar_at(entries, "emulator"@),
        settings_at(entries).keyfile == text_at(entries, "keyfile"@),
{
}

/// What `keyfile_json` comes to, by the kind of its value.
pub proof fn law_reading_keyfile_json(
    entries: Seq<(Yaml, Yaml)>,
    converted: Result<Seq<char>, dbt_yaml::Error>,
)
    ensures
        lookup(entries, "keyfile_json"@) is None ==> keyfile_json_at(entries, converted) == Ok::<
            Option<Seq<char>>,
            AuthFailure,
        >(None),
        lookup(entries, "keyfile_json"@) matches Some(Yaml::Text(s)) ==> keyfile_json_at(
            entries,
            converted,
        ) == Ok::<Option<Seq<char>>, AuthFailure>(Some(s)),
        lookup(entries, "keyfile_json"@) matches Some(Yaml::Mapping(_)) ==> (converted matches Ok(
            json,
        ) ==> keyfile_json_at(entries, converted) == Ok::<Option<Seq<char>>, AuthFailure>(
            Some(json),
        )),
        lookup(entries, "keyfile_json"@) matches Some(Yaml::Mapping(_)) ==> (converted matches Err(
            e,
        ) ==> keyfile_json_at(entries, converted) == Err::<Option<Seq<char>>, AuthFailure>(
            AuthFailure::Yaml(e),
        )),
        lookup(entries, "keyfile_json"@) matches Some(value) ==> (value !is Text
            && value !is Mapping ==> keyfile_json_at(entries, converted) == Err::<
            Option<Seq<char>>,
            AuthFailure,
        >(AuthFailure::Config("'keyfile_json' must be a JSON string or a YAML mapping"@))),
{
}

/// The first required setting that is missing is the error, whatever else there
/// is or is not; then the error of `keyfile_json`; and else there is none.
pub proof fn law_errors_of_settings(
    settings: SettingsView,
    keyfile_json: Result<Option<Seq<char>>, AuthFailure>,
)
    ensures
        settings.project is None ==> resolved(settings, keyfile_json) == Err::<
            ConnectionView,
            AuthFailure,
        >(AuthFailure::Config("Missing required field 'project' in Spanner config"@)),
        settings.project is Some && settings.instance is None ==> resolved(settings, keyfile_json)
            == Err::<ConnectionView, AuthFailure>(
            AuthFailure::Config("Missing required field 'instance' in Spanner config"@),
        ),
        settings.project is Some && settings.instance is Some && settings.database is None
            ==> resolved(settings, keyfile_json) == Err::<ConnectionView, AuthFailure>(
            AuthFailure::Config("Missing required field 'database' in Spanner config"@),
        ),
        settings.project is Some && settings.instance is Some && settings.database is Some ==> (
        keyfile_json matches Err(failure) ==> resolved(settings, keyfile_json) == Err::<
            ConnectionView,
            AuthFailure,
        >(failure)),
        settings.project is Some && settings.instance is Some && settings.database is Some
            && keyfile_json is Ok ==> resolved(settings, keyfile_json) is Ok,
{
}

/// Each part of a resolved connection depends on its own settings alone: the path
/// on project, instance and database, the endpoint on the two endpoint settings,
/// the emulator on `emulator`, and the two key settings on themselves.
pub proof fn law_connection_of_settings(
    settings: SettingsView,
    keyfile_json: Result<Option<Seq<char>>, AuthFailure>,
)
    requires
        resolved(settings, keyfile_json) is Ok,
    ensures
        ({
            let connection = resolved(settings, keyfile_json)->Ok_0;
            &&& connection.database_path == "projects/"@ + settings.project->0 + "/instances/"@
                + settings.instance->0 + "/databases/"@ + settings.database->0
            &&& settings.api_endpoint is Some ==> connection.endpoint == settings.api_endpoint
            &&& settings.api_endpoint is None ==> connection.endpoint == settings.endpoint
            &&& settings.emulator is None ==> connection.emulator is None
            &&& settings.emulator matches Some(s) ==> connection.emulator == Some(
                s == "true"@ || s == "1"@ || s == "True"@,
            )
            &&& connection.keyfile == settings.keyfile
            &&& keyfile_json == Ok::<Option<Seq<char>>, AuthFailure>(connection.keyfile_json)
        }),
{
}

/// The path of every accepted target is made of its project, its instance and its
/// database, in this order, whatever other settings it has.
pub proof fn law_path_of_a_target(
    entries: Seq<(Yaml, Yaml)>,
    converted: Result<Seq<char>, dbt_yaml::Error>,
)
    ensures
        connection_at(entries, converted) matches Ok(connection) ==> {
            &&& text_at(entries, "project"@) is Some
            &&& text_at(entries, "instance"@) is Some
            &&& text_at(entries, "database"@) is Some
            &&& connection.database_path == "projects/"@ + text_at(entries, "project"@)->0
                + "/instances/"@ + text_at(entries, "instance"@)->0 + "/databases/"@ + text_at(
                entries,
                "database"@,
            )->0
        },
{
}

/// The emulator mode of every accepted target depends on its `emulator` setting
/// alone: without one the driver is told nothing, and `true`, `1` and `True`
/// switch it on.
pub proof fn law_emulator_of_a_target(
    entries: Seq<(Yaml, Yaml)>,
    converted: Result<Seq<char>, dbt_yaml::Error>,
)
    ensures
        connection_at(entries, converted) matches Ok(connection) ==> {
            &&& connection.emulator is None <==> scalar_at(entries, "emulator"@) is None
            &&& scalar_at(entries, "emulator"@) matches Some(s) ==> connection.emulator == Some(
                s == "true"@ || s == "1"@ || s == "True"@,
            )
        },
{
}

/// The endpoint of every accepted target is its `api_endpoint`, else its
/// `endpoint`; its key file is its `keyfile`.
pub proof fn law_endpoint_and_keyfile_of_a_target(
    entries: Seq<(Yaml, Yaml)>,
    converted: Result<Seq<char>, dbt_yaml::Error>,
)
    ensures
        connection_at(entries, converted) matches Ok(connection) ==> {
            &&& text_at(entries, "api_endpoint"@) is Some ==> connection.endpoint == text_at(
                entries,
                "api_endpoint"@,
            )
            &&& text_at(entries, "api_endpoint"@) is None ==> connection.endpoint == text_at(
                entries,
                "endpoint"@,
            )
            &&& connection.keyfile == text_at(entries, "keyfile"@)
        },
{
}

/// The errors of a target: the first required field that is missing, whatever
/// else it holds, and then what is wrong with `keyfile_json`.
pub proof fn law_errors_of_a_target(
    entries: Seq<(Yaml, Yaml)>,
    converted: Result<Seq<char>, dbt_yaml::Error>,
)
    ensures
        connection_at(entries, converted) matches Err(failure) ==> failure == if text_at(
            entries,
            "project"@,
        ) is None {
            AuthFailure::Config("Missing required field 'project' in Spanner config"@)
        } else if text_at(entries, "instance"@) is None {
            AuthFailure::Config("Missing required field 'instance' in Spanner config"@)
        } else if text_at(entries, "database"@) is None {
            AuthFailure::Config("Missing required field 'database' in Spanner config"@)
        } else if lookup(entries, "keyfile_json"@) matches Some(Yaml::Mapping(_)) {
            AuthFailure::Yaml(converted->Err_0)
        } else {
            AuthFailure::Config("'keyfile_json' must be a JSON string or a YAML mapping"@)
        },
{
}

/// The option keys, as the driver spells them.
pub proof fn law_option_keys()
    ensures
        spanner::DATABASE@ == "adbc.spanner.database"@,
        spanner::ENDPOINT@ == "adbc.spanner.endpoint"@,
        spanner::EMULATOR@ == "adbc.spanner.emulator"@,
        spanner::KEYFILE@ == "adbc.spanner.keyfile"@,
        spanner::KEYFILE_JSON@ == "adbc.spanner.keyfile_json"@,
{
}

/// There are as many options as the connection has parts, and they come in the
/// order path, endpoint, emulator, key file, inline key.
pub proof fn law_options_in_order(connection: ConnectionView)
    ensures
        ({
            let options = connection.options();
            let endpoint: int = 1;
            let emulator: int = endpoint + if connection.endpoint is Some {
                1int
            } else {
                0int
            };
            let keyfile: int = emulator + if connection.emulator is Some {
                1int
            } else {
                0int
            };
            let keyfile_json: int = keyfile + if connection.keyfile is Some {
                1int
            } else {
                0int
            };
            &&& options.len() == keyfile_json + if connection.keyfile_json is Some {
                1int
            } else {
                0int
            }
            &&& options[0] == ("adbc.spanner.database"@, connection.database_path)
            &&& connection.endpoint matches Some(s) ==> options[endpoint] == (
                "adbc.spanner.endpoint"@,
                s,
            )
            &&& connection.emulator matches Some(on) ==> options[emulator] == (
                "adbc.spanner.emulator"@,
                if on {
                    "true"@
                } else {
                    "false"@
                },
            )
            &&& connection.keyfile matches Some(s) ==> options[keyfile] == (
                "adbc.spanner.keyfile"@,
                s,
            )
            &&& connection.keyfile_json matches Some(s) ==> options[keyfile_json] == (
                "adbc.spanner.keyfile_json"@,
                s,
            )
        }),
{
}

/// The value that is read under a name is that of the first option of the name,
/// and none if there is no such option.
pub proof fn law_option_in_finds_the_option(
    options: Seq<(Seq<char>, Seq<char>)>,
    name: Seq<char>,
)
    ensures
        match option_in(options, name) {
            Some(value) => exists|i: int|
                0 <= i < options.len() && #[trigger] options[i] == (name, value) && (forall|j: int|
                    0 <= j < i ==> (#[trigger] options[j]).0 != name),
            None => forall|i: int| 0 <= i < options.len() ==> (#[trigger] options[i]).0 != name,
        },
    decreases options.len(),
{
    if options.len() > 0 && options[0].0 != name {
        let rest = options.drop_first();
        law_option_in_finds_the_option(rest, name);
        assert forall|j: int| 1 <= j < options.len() implies #[trigger] options[j] == rest[j
            - 1] by {}
        if option_in(rest, name) is Some {
            let value = option_in(rest, name)->0;
            let k = choose|i: int|
                0 <= i < rest.len() && #[trigger] rest[i] == (name, value) && (forall|j: int|
                    0 <= j < i ==> (#[trigger] rest[j]).0 != name);
            assert(options[k + 1] == (name, value));
            assert forall|j: int| 0 <= j < k + 1 implies (#[trigger] options[j]).0 != name by {
                if j > 0 {
                    assert(rest[j - 1].0 != name);
                }
            }
        } else {
            assert forall|j: int| 0 <= j < options.len() implies (#[trigger] options[j]).0
                != name by {
                if j > 0 {
                    assert(rest[j - 1].0 != name);
                }
            }
        }
    } else if options.len() > 0 {
        assert(options[0] == (name, options[0].1));
    }
}

/// What configuring a target gives: for the Spanner backend, under each key of
/// the driver what the target says of it and under no other key anything; or the
/// error of the target, unchanged.
pub proof fn law_configured_target(
    entries: Seq<(Yaml, Yaml)>,
    converted: Result<Seq<char>, dbt_yaml::Error>,
    key: Seq<char>,
)
    requires
        conversion_at(entries, converted),
    ensures
        match configured(connection_at(entries, converted)) {
            Ok((backend, options)) => {
                &&& connection_at(entries, converted) is Ok
                &&& backend == Backend::Spanner
                &&& option_in(options, key) == if key == "adbc.spanner.database"@ {
                    Some(
                        "projects/"@ + text_at(entries, "project"@)->0 + "/instances/"@ + text_at(
                            entries,
                            "instance"@,
                        )->0 + "/databases/"@ + text_at(entries, "database"@)->0,
                    )
                } else if key == "adbc.spanner.endpoint"@ {
                    if text_at(entries, "api_endpoint"@) is Some {
                        text_at(entries, "api_endpoint"@)
                    } else {
                        text_at(entries, "endpoint"@)
                    }
                } else if key == "adbc.spanner.emulator"@ {
                    match scalar_at(entries, "emulator"@) {
                        Some(s) => Some(
                            if s == "true"@ || s == "1"@ || s == "True"@ {
                                "true"@
                            } else {
                                "false"@
                            },
                        ),
                        None => None,
                    }
                } else if key == "adbc.spanner.keyfile"@ {
                    text_at(entries, "keyfile"@)
                } else if key == "adbc.spanner.keyfile_json"@ {
                    match lookup(entries, "keyfile_json"@) {
                        Some(Yaml::Text(s)) => Some(s),
                        Some(mapping) => Some(json_text(mapping)),
                        None => None,
                    }
                } else {
                    None
                }
            },
            Err(failure) => connection_at(entries, converted) == Err::<ConnectionView, AuthFailure>(
                failure,
            ),
        },
{
    if connection_at(entries, converted) is Ok {
        law_options_read_back(connection_at(entries, converted)->Ok_0, key);
    }
}

/// Configuring takes over the options of a connection, in their order, for the
/// Spanner backend; an error stays the error that it is.
pub proof fn law_configuring_changes_nothing(connection: ConnectionView, failure: AuthFailure)
    ensures
        configured(Ok(connection)) matches Ok((backend, options)) && backend == Backend::Spanner
            && options.len() == connection.options().len() && (forall|i: int|
            0 <= i < options.len() ==> #[trigger] options[i] == connection.options()[i]),
        configured(Err(failure)) == Err::<(Backend, Seq<(Seq<char>, Seq<char>)>), AuthFailure>(
            failure,
        ),
{
}

} // verus!
