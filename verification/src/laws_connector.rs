//! What the connector reports and makes, told by what it was given.

use crate::config::{
    fields_view, texts, ConfigView, PulsarConfig, PulsarTable, SubscriptionType, TableView, VarStr,
};
use crate::connection::{
    connection_result, connection_shown_as, connection_with_text, object_debug, opt_schema,
    source_description, Connection, ConnectionType, OperatorConfig,
};
use crate::connector::{Assets, ConnectorMetadata, PulsarConnector};
use crate::error::{ConnectError, Error};
use crate::same::{
    config_shows_all_it_holds, lemma_json_lists, same_config, same_json_list, same_opt_json,
    same_schema, same_table,
};
use crate::schema::{clone_json_list, clone_opt_json, ConnectionSchema, Json};
use crate::source::PulsarSourceFunc;
use crate::trial::{
    choices_view, AutocompleteAction, AutocompleteProgress, TestAction, TestProgress,
};
use vstd::prelude::*;

verus! {

/// The trial has ended well, in these words.
pub open spec fn reports_done(action: TestAction, words: Seq<char>) -> bool {
    &&& action is Report
    &&& action->Report_0 is Done
    &&& action->Report_0->Done_message@ == words
}

/// The trial has ended badly, in these words.
pub open spec fn reports_failure(action: TestAction, words: Seq<char>) -> bool {
    &&& action is Report
    &&& action->Report_0 is Fail
    &&& action->Report_0->Fail_message@ == words
}

/// The trial asks for a client with this configuration.
pub open spec fn tries_to_connect(action: TestAction, config: PulsarConfig) -> bool {
    action is Connect && same_config(action->config, config)
}

/// The trial of a table ends well only when the broker has told where the table's topic is.
/// Whatever the configuration says, a client is asked for first, and once there is one the broker
/// is asked for the table's own topic.
pub proof fn trial_asks_for_the_topic(
    connector: PulsarConnector,
    config: PulsarConfig,
    table: PulsarTable,
    so_far: TestProgress,
    res: TestAction,
)
    requires
        call_ensures(PulsarConnector::test, (&connector, &config, &table, so_far), res),
    ensures
        res is Report && res->Report_0 is Done ==> so_far is LookedUp && so_far->LookedUp_0 is Ok,
        so_far is Started ==> tries_to_connect(res, config),
        so_far is Connected && so_far->Connected_0 is Ok ==> res is LookupTopic && res->topic@
            == table.topic@,
{
    if so_far is Started {
        config_shows_all_it_holds(res->config, config);
    }
}

/// What the trial of a table reports: the topic that was found, or the topic that was not and why,
/// or what was being done when no client could be had and why that failed.
pub proof fn trial_reports_what_happened(
    connector: PulsarConnector,
    config: PulsarConfig,
    table: PulsarTable,
    so_far: TestProgress,
    res: TestAction,
)
    requires
        call_ensures(PulsarConnector::test, (&connector, &config, &table, so_far), res),
    ensures
        so_far is LookedUp && so_far->LookedUp_0 is Ok ==> reports_done(
            res,
            "Successfully connected to Pulsar and resolved topic '"@ + table.topic@ + "'"@,
        ),
        so_far is LookedUp && so_far->LookedUp_0 is Err ==> reports_failure(
            res,
            "Connected to Pulsar but failed to resolve topic '"@ + table.topic@ + "': "@
                + so_far->LookedUp_0->Err_0@,
        ),
        so_far is Connected && so_far->Connected_0 is Err ==> reports_failure(
            res,
            "Failed to connect to Pulsar: "@ + (so_far->Connected_0->Err_0.context@ + ": "@
                + so_far->Connected_0->Err_0.cause@),
        ),
{
}

/// The trial of a profile ends well exactly when a client could be had, and asks for one with the
/// profile's own configuration before that.
pub proof fn profile_is_tried_by_connecting(
    connector: PulsarConnector,
    profile: PulsarConfig,
    so_far: Option<Result<(), ConnectError>>,
    res: TestAction,
)
    requires
        call_ensures(PulsarConnector::test_profile, (&connector, &profile, so_far), res),
    ensures
        so_far is None ==> tries_to_connect(res, profile),
        so_far is Some && so_far->Some_0 is Ok ==> reports_done(
            res,
            "Successfully connected to Pulsar"@,
        ),
        so_far is Some && so_far->Some_0 is Err ==> reports_failure(
            res,
            "Failed to connect to Pulsar: "@ + (so_far->Some_0->Err_0.context@ + ": "@
                + so_far->Some_0->Err_0.cause@),
        ),
{
    if so_far is None {
        config_shows_all_it_holds(res->config, profile);
    }
}

/// What was listed, as it was listed: equally long, and the same at every place.
pub open spec fn same_list(a: Seq<String>, b: Seq<String>) -> bool {
    &&& a.len() == b.len()
    &&& forall|i: int| 0 <= i < a.len() ==> (#[trigger] a[i])@ == b[i]@
}

/// The listing ends with one choice, that of a topic, among the values given.
pub open spec fn offers_topics(action: AutocompleteAction, topics: Seq<String>) -> bool {
    &&& action is Finish
    &&& action->Finish_0 is Ok
    &&& action->Finish_0->Ok_0@.len() == 1
    &&& action->Finish_0->Ok_0@[0].0@ == "topic"@
    &&& same_list(action->Finish_0->Ok_0@[0].1@, topics)
}

proof fn lemma_same_list(a: Seq<String>, b: Seq<String>)
    requires
        texts(a) == texts(b),
    ensures
        same_list(a, b),
{
    let va = texts(a);
    let vb = texts(b);
    assert(va.len() == a.len() && vb.len() == b.len());
    assert forall|i: int| 0 <= i < a.len() implies (#[trigger] a[i])@ == b[i]@ by {
        assert(va[i] == a[i]@);
        assert(vb[i] == b[i]@);
    }
}

/// With a namespace, the topics that the broker listed are offered, all of them, in the order in
/// which they were listed, and nothing else is.
pub proof fn every_listed_topic_is_offered(
    connector: PulsarConnector,
    profile: PulsarConfig,
    topics: Vec<String>,
    res: AutocompleteAction,
)
    requires
        profile.namespace is Some,
        call_ensures(
            PulsarConnector::get_autocomplete,
            (&connector, &profile, AutocompleteProgress::Listed(Ok(topics))),
            res,
        ),
    ensures
        offers_topics(res, topics@),
{
    let choices = res->Finish_0->Ok_0;
    let shown = choices_view(choices@);
    assert(shown == seq![("topic"@, texts(topics@))]);
    assert(shown.len() == choices@.len());
    assert(shown[0] == (choices@[0].0@, texts(choices@[0].1@)));
    lemma_same_list(choices@[0].1@, topics@);
}

/// Without a namespace the listing ends at once, saying so, however far it has come. With one, a
/// client is asked for with the profile's own configuration, then the namespace's own topics are,
/// and what fails is told with its own cause.
pub proof fn topics_are_listed_of_the_namespace(
    connector: PulsarConnector,
    profile: PulsarConfig,
    so_far: AutocompleteProgress,
    res: AutocompleteAction,
)
    requires
        call_ensures(PulsarConnector::get_autocomplete, (&connector, &profile, so_far), res),
    ensures
        profile.namespace is None ==> res is Finish && res->Finish_0 is Err && res->Finish_0->Err_0
            is NamespaceRequired,
        profile.namespace is Some && so_far is Started ==> res is Connect && same_config(
            res->config,
            profile,
        ),
        profile.namespace is Some && so_far is Connected && so_far->Connected_0 is Ok ==> res
            is ListPersistentTopics && res->namespace@ == profile.namespace->Some_0@,
        profile.namespace is Some && so_far is Connected && so_far->Connected_0 is Err
            ==> is_connect_failure(res, so_far->Connected_0->Err_0),
        profile.namespace is Some && so_far is Listed && so_far->Listed_0 is Err
            ==> is_listing_failure(res, profile.namespace->Some_0@, so_far->Listed_0->Err_0@),
{
    if profile.namespace is Some && so_far is Started {
        config_shows_all_it_holds(res->config, profile);
    }
}

/// The listing ends because no client could be had, for this reason.
pub open spec fn is_connect_failure(action: AutocompleteAction, error: ConnectError) -> bool {
    &&& action is Finish
    &&& action->Finish_0 is Err
    &&& action->Finish_0->Err_0 is Connect
    &&& action->Finish_0->Err_0->Connect_0.context@ == error.context@
    &&& action->Finish_0->Err_0->Connect_0.cause@ == error.cause@
}

/// The listing ends because the broker did not list the topics of this namespace, for this cause.
pub open spec fn is_listing_failure(
    action: AutocompleteAction,
    namespace: Seq<char>,
    cause: Seq<char>,
) -> bool {
    &&& action is Finish
    &&& action->Finish_0 is Err
    &&& action->Finish_0->Err_0 is TopicListing
    &&& action->Finish_0->Err_0->TopicListing_namespace@ == namespace
    &&& action->Finish_0->Err_0->TopicListing_cause@ == cause
}

/// The words in which each error is reported.
pub proof fn errors_are_told_in_their_words(error: Error, words: String)
    requires
        call_ensures(Error::message, (&error,), words),
    ensures
        match error {
            Error::MissingOption { name } => words@ == "required option '"@ + name@
                + "' is not set"@,
            Error::InvalidOption { name, reason } => words@ == reason@,
            Error::UnsupportedAuthentication { given } => words@
                == "unsupported Pulsar authentication type '"@ + given@ + "'"@,
            Error::InvalidProfile { reason } => words@ == reason@,
            Error::MissingSchema => words@ == "no schema defined for Pulsar connection"@,
            Error::MissingFormat => words@ == "'format' must be set for Pulsar connection"@,
            Error::FormatRequired => words@ == "format required for Pulsar source"@,
            Error::NamespaceRequired => words@
                == "Pulsar namespace is required to list topic options"@,
            Error::TopicListing { namespace, cause } => words@
                == "failed to list Pulsar topics in namespace '"@ + namespace@ + "': "@ + cause@,
            Error::Connect(error) => words@ == error.context@,
        },
{
}

/// A failure to set up a client is told whole: what was being done, and what went wrong with it.
pub proof fn connect_failure_is_told_whole(error: ConnectError, words: String)
    requires
        call_ensures(ConnectError::chain, (&error,), words),
    ensures
        words@ == error.context@ + ": "@ + error.cause@,
{
}

/// What the connector tells of itself.
pub proof fn connector_tells_of_itself(
    connector: PulsarConnector,
    assets: Assets,
    profile: PulsarConfig,
    table: PulsarTable,
    name: &'static str,
    metadata: ConnectorMetadata,
    kind: ConnectionType,
)
    ensures
        call_ensures(PulsarConnector::name, (&connector,), name) ==> name@ == "pulsar"@,
        call_ensures(PulsarConnector::table_type, (&connector, &profile, &table), kind) ==> kind
            == ConnectionType::Source,
        call_ensures(PulsarConnector::metadata, (&connector, assets), metadata)
            ==> shows_the_connector(metadata, assets),
{
}

/// The metadata is that of the connector, with these files.
pub open spec fn shows_the_connector(metadata: ConnectorMetadata, assets: Assets) -> bool {
    &&& metadata.id@ == "pulsar"@
    &&& metadata.name@ == "Pulsar"@
    &&& metadata.icon@ == assets.icon@
    &&& metadata.description@ == "Read from an Apache Pulsar topic"@
    &&& metadata.enabled
    &&& metadata.source
    &&& !metadata.sink
    &&& metadata.testing
    &&& !metadata.hidden
    &&& metadata.custom_schemas
    &&& metadata.connection_config is Some
    &&& metadata.connection_config->Some_0@ == assets.config_schema@
    &&& metadata.table_config@ == assets.table_schema@
}

/// A subscription type has its own name, and its name stands for it. What names no other type
/// stands for the exclusive one.
pub proof fn subscription_types_have_names(
    kind: SubscriptionType,
    name: &'static str,
    given: String,
    read: SubscriptionType,
)
    ensures
        call_ensures(SubscriptionType::name, (&kind,), name) ==> {
            &&& kind == SubscriptionType::Exclusive ==> name@ == "Exclusive"@
            &&& kind == SubscriptionType::Failover ==> name@ == "Failover"@
            &&& kind == SubscriptionType::Shared ==> name@ == "Shared"@
            &&& kind == SubscriptionType::KeyShared ==> name@ == "KeyShared"@
        },
        call_ensures(SubscriptionType::from_name, (&given,), read) ==> {
            &&& read == SubscriptionType::Failover <==> given@ == "Failover"@
            &&& read == SubscriptionType::Shared <==> given@ == "Shared"@
            &&& read == SubscriptionType::KeyShared <==> given@ == "KeyShared"@
        },
        call_ensures(SubscriptionType::name, (&kind,), name) && given@ == name@ && call_ensures(
            SubscriptionType::from_name,
            (&given,),
            read,
        ) ==> read == kind,
{
    reveal_strlit("Exclusive");
    reveal_strlit("Failover");
    reveal_strlit("Shared");
    reveal_strlit("KeyShared");
    assert("Exclusive"@.len() == 9 && "Failover"@.len() == 8);
    assert("Shared"@.len() == 6 && "KeyShared"@.len() == 9);
    assert("Exclusive"@[0] == 'E' && "KeyShared"@[0] == 'K');
}

/// The members of a table's serialized form: the subscription, its type's name where there is one,
/// and the topic.
pub open spec fn shown_members(table: PulsarTable) -> Seq<(Seq<char>, Seq<char>)> {
    match table.subscription_type {
        None => seq![("subscription"@, table.subscription@), ("topic"@, table.topic@)],
        Some(SubscriptionType::Exclusive) => seq![
            ("subscription"@, table.subscription@),
            ("subscriptionType"@, "Exclusive"@),
            ("topic"@, table.topic@),
        ],
        Some(SubscriptionType::Failover) => seq![
            ("subscription"@, table.subscription@),
            ("subscriptionType"@, "Failover"@),
            ("topic"@, table.topic@),
        ],
        Some(SubscriptionType::Shared) => seq![
            ("subscription"@, table.subscription@),
            ("subscriptionType"@, "Shared"@),
            ("topic"@, table.topic@),
        ],
        Some(SubscriptionType::KeyShared) => seq![
            ("subscription"@, table.subscription@),
            ("subscriptionType"@, "KeyShared"@),
            ("topic"@, table.topic@),
        ],
    }
}

/// A table is shown by its own members, in the order of their names.
pub proof fn table_is_shown_by_its_members(table: PulsarTable, fields: Vec<(String, String)>)
    requires
        call_ensures(PulsarTable::fields, (&table,), fields),
    ensures
        fields@.len() == shown_members(table).len(),
        forall|i: int|
            0 <= i < fields@.len() ==> (#[trigger] fields@[i]).0@ == shown_members(table)[i].0
                && fields@[i].1@ == shown_members(table)[i].1,
{
    let shown = fields_view(fields@);
    assert(shown == shown_members(table));
    assert(shown.len() == fields@.len());
    assert forall|i: int| 0 <= i < fields@.len() implies (#[trigger] fields@[i]).0@ == shown_members(
        table,
    )[i].0 && fields@[i].1@ == shown_members(table)[i].1 by {
        assert(shown[i] == (fields@[i].0@, fields@[i].1@));
    }
}

/// The connection is a source of its table, under the name given, and carries along what the schema
/// says.
pub open spec fn is_source_of(
    connection: Connection,
    id: Option<i64>,
    name: Seq<char>,
    schema: ConnectionSchema,
    shown: Seq<char>,
) -> bool {
    &&& connection.id == id
    &&& connection.connector@ == "pulsar"@
    &&& connection.name@ == name
    &&& connection.connection_type == ConnectionType::Source
    &&& same_schema(connection.schema, schema)
    &&& connection.config.rate_limit is None
    &&& same_opt_json(connection.config.format, schema.format)
    &&& same_opt_json(connection.config.bad_data, schema.bad_data)
    &&& same_opt_json(connection.config.framing, schema.framing)
    &&& same_json_list(connection.config.metadata_fields@, schema.metadata_fields@)
    &&& connection.description@ == "PulsarSource<"@ + shown + ">"@
}

/// A connection that was asked for with this schema, where the table is shown as `shown`: without a
/// schema, or without a format in it, there is none.
pub open spec fn is_connection_made(
    res: Result<Connection, Error>,
    id: Option<i64>,
    name: Seq<char>,
    schema: Option<&ConnectionSchema>,
    shown: Seq<char>,
) -> bool {
    &&& schema is None ==> res is Err && res->Err_0 is MissingSchema
    &&& schema is Some && schema->Some_0.format is None ==> res is Err && res->Err_0
        is MissingFormat
    &&& schema is Some && schema->Some_0.format is Some ==> res is Ok && is_source_of(
        res->Ok_0,
        id,
        name,
        *schema->Some_0,
        shown,
    )
}

pub(crate) proof fn lemma_connection_made(
    res: Result<Connection, Error>,
    id: Option<i64>,
    name: Seq<char>,
    config: ConfigView,
    table: TableView,
    schema: Option<&ConnectionSchema>,
    shown: Seq<char>,
)
    requires
        connection_result(res) == connection_shown_as(
            id,
            name,
            config,
            table,
            opt_schema(schema),
            shown,
        ),
    ensures
        is_connection_made(res, id, name, schema, shown),
        res is Ok ==> res->Ok_0.config.connection@ == config && res->Ok_0.config.table@ == table,
{
    if schema is Some && schema->Some_0.format is Some {
        let made = res->Ok_0;
        lemma_json_lists(made.schema.metadata_fields@, schema->Some_0.metadata_fields@);
        lemma_json_lists(made.config.metadata_fields@, schema->Some_0.metadata_fields@);
    }
}

/// A connection has the configuration and the table that it was made of, and says what its schema
/// says. It is described by how its table's members are shown.
pub proof fn connection_is_made_of_its_parts(
    connector: PulsarConnector,
    id: Option<i64>,
    name: &str,
    config: PulsarConfig,
    table: PulsarTable,
    schema: Option<&ConnectionSchema>,
    res: Result<Connection, Error>,
)
    requires
        call_ensures(
            PulsarConnector::from_config,
            (&connector, id, name, config, table, schema),
            res,
        ),
    ensures
        is_connection_made(res, id, name@, schema, object_debug(shown_members(table))),
        res is Ok ==> same_config(res->Ok_0.config.connection, config),
        res is Ok ==> same_table(res->Ok_0.config.table, table),
{
    assert(table@.fields() =~= shown_members(table));
    lemma_connection_made(
        res,
        id,
        name@,
        config@,
        table@,
        schema,
        object_debug(shown_members(table)),
    );
    if res is Ok {
        config_shows_all_it_holds(res->Ok_0.config.connection, config);
    }
}

/// The same, where how the table is shown is given.
pub proof fn connection_is_described_as_shown(
    id: Option<i64>,
    name: &str,
    config: PulsarConfig,
    table: PulsarTable,
    schema: Option<&ConnectionSchema>,
    shown: &str,
    res: Result<Connection, Error>,
    description: String,
)
    ensures
        call_ensures(connection_with_text, (id, name, config, table, schema, shown), res)
            ==> is_connection_made(res, id, name@, schema, shown@),
        call_ensures(connection_with_text, (id, name, config, table, schema, shown), res) && res
            is Ok ==> same_config(res->Ok_0.config.connection, config) && same_table(
            res->Ok_0.config.table,
            table,
        ),
        call_ensures(source_description, (shown,), description) ==> description@
            == "PulsarSource<"@ + shown@ + ">"@,
{
    if call_ensures(connection_with_text, (id, name, config, table, schema, shown), res) {
        lemma_connection_made(res, id, name@, config@, table@, schema, shown@);
        if res is Ok {
            config_shows_all_it_holds(res->Ok_0.config.connection, config);
        }
    }
}

/// A source exists exactly where a format is given, and has the configuration and the table that it
/// was made of, and what the operator's configuration says of the data.
pub proof fn source_is_made_of_its_parts(
    connector: PulsarConnector,
    profile: PulsarConfig,
    table: PulsarTable,
    config: OperatorConfig,
    res: Result<PulsarSourceFunc, Error>,
)
    requires
        call_ensures(PulsarConnector::make_operator, (&connector, profile, table, config), res),
    ensures
        config.format is None ==> res is Err && res->Err_0 is FormatRequired,
        config.format is Some ==> res is Ok,
        res is Ok ==> same_config(res->Ok_0.config, profile),
        res is Ok ==> same_table(res->Ok_0.table, table),
        res is Ok ==> res->Ok_0.format.text@ == config.format->Some_0.text@,
        res is Ok ==> same_opt_json(res->Ok_0.framing, config.framing),
        res is Ok ==> same_opt_json(res->Ok_0.bad_data, config.bad_data),
        res is Ok ==> same_json_list(res->Ok_0.metadata_fields@, config.metadata_fields@),
{
    if res is Ok {
        config_shows_all_it_holds(res->Ok_0.config, profile);
        lemma_json_lists(res->Ok_0.metadata_fields@, config.metadata_fields@);
    }
}

/// A copy says what it was copied from, and a string is wrapped as it was written.
pub proof fn copies_say_the_same(
    json: Option<Json>,
    json_copy: Option<Json>,
    list: Vec<Json>,
    list_copy: Vec<Json>,
    schema: ConnectionSchema,
    schema_copy: ConnectionSchema,
    config: PulsarConfig,
    config_copy: PulsarConfig,
    raw: String,
    wrapped: VarStr,
)
    ensures
        call_ensures(clone_opt_json, (&json,), json_copy) ==> same_opt_json(json_copy, json),
        call_ensures(clone_json_list, (&list,), list_copy) ==> same_json_list(list_copy@, list@),
        call_ensures(ConnectionSchema::clone, (&schema,), schema_copy) ==> same_schema(
            schema_copy,
            schema,
        ),
        call_ensures(PulsarConfig::clone, (&config,), config_copy) ==> same_config(
            config_copy,
            config,
        ),
        call_ensures(VarStr::new, (raw,), wrapped) ==> wrapped.raw@ == raw@,
{
    if call_ensures(clone_json_list, (&list,), list_copy) {
        lemma_json_lists(list_copy@, list@);
    }
    if call_ensures(ConnectionSchema::clone, (&schema,), schema_copy) {
        lemma_json_lists(schema_copy.metadata_fields@, schema.metadata_fields@);
    }
}

} // verus!
