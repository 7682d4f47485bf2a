//! What holds of the library as a whole.

use crate::config::{AuthenticationView, ConfigView, SubscriptionType, TableView};
use crate::connect::{
    certificate_file, connect_goes_on, connect_step, needs_of, settings_of, ConnectActionView,
    ConnectEventView, ConnectProgressView, ConnectStage, ConnectStep, SettingsView,
};
use crate::connection::{connection_made, ConnectionType};
use crate::connector::{connection_declared, left_by_declaration, source_of};
use crate::error::{ConnectErrorView, ErrorView};
use crate::options::{flag_of, required_text_of, text_of, OptionView, Options};
use crate::reading::{
    authentication_kind, connection_of, connection_pulls, first_error, kind_of, left_after,
    left_by_connection, left_by_table, lemma_connection_names, lemma_table_names, pull_error,
    table_of, table_pulls, AuthenticationKind, Pull,
};
use crate::schema::SchemaView;
use crate::source::{
    awaited, consumer_of, run_step, timestamp_of, ActionView, ControlMessage, ErrorDomain,
    EventView, Phase, ReceivedView, RetryHint, RunErrorView, SourceFinishType, SourceView, Step,
    StopMode, TaskView,
};
use vstd::prelude::*;

verus! {

/// No option is asked for twice.
pub open spec fn names_differ(pulls: Seq<Pull>) -> bool {
    forall|i: int, j: int|
        0 <= i < j < pulls.len() ==> (#[trigger] pulls[i]).name != (#[trigger] pulls[j]).name
}

/// Whether one of `pulls` asks for the option `name`.
pub open spec fn asks_for(pulls: Seq<Pull>, name: Seq<char>) -> bool {
    exists|i: int| 0 <= i < pulls.len() && (#[trigger] pulls[i]).name == name
}

/// Two sets of options have the same value for `name`, or both have none.
pub open spec fn agree_on(a: Options, b: Options, name: Seq<char>) -> bool {
    &&& a.dom().contains(name) == b.dom().contains(name)
    &&& a.dom().contains(name) ==> a[name] == b[name]
}

/// Two sets of options agree on all that `pulls` ask for.
pub open spec fn agree_on_all(a: Options, b: Options, pulls: Seq<Pull>) -> bool {
    forall|i: int| 0 <= i < pulls.len() ==> agree_on(a, b, (#[trigger] pulls[i]).name)
}

/// The place at which asking for `pulls` in turn first fails is `i`, with `error`.
pub open spec fn fails_first_at(
    options: Options,
    pulls: Seq<Pull>,
    i: int,
    error: ErrorView,
) -> bool {
    &&& 0 <= i < pulls.len()
    &&& pull_error(options, pulls[i]) == Some(error)
    &&& forall|j: int| 0 <= j < i ==> pull_error(options, #[trigger] pulls[j]) is None
}

proof fn lemma_first_error(options: Options, current: Options, pulls: Seq<Pull>, i: int)
    requires
        names_differ(pulls),
        0 <= i <= pulls.len(),
        forall|j: int| i <= j < pulls.len() ==> agree_on(options, current, (#[trigger] pulls[j]).name),
        forall|j: int| 0 <= j < i ==> pull_error(options, #[trigger] pulls[j]) is None,
    ensures
        match first_error(current, pulls, i) {
            None => forall|j: int|
                0 <= j < pulls.len() ==> pull_error(options, #[trigger] pulls[j]) is None,
            Some(error) => exists|k: int| fails_first_at(options, pulls, k, error),
        },
    decreases pulls.len() - i,
{
    if i < pulls.len() {
        assert(agree_on(options, current, pulls[i].name));
        assert(pull_error(options, pulls[i]) == pull_error(current, pulls[i]));
        match pull_error(current, pulls[i]) {
            Some(error) => {
                assert(fails_first_at(options, pulls, i, error));
            },
            None => {
                let rest = current.remove(pulls[i].name);
                assert forall|j: int| i + 1 <= j < pulls.len() implies agree_on(
                    options,
                    rest,
                    (#[trigger] pulls[j]).name,
                ) by {
                    assert(agree_on(options, current, pulls[j].name));
                    assert(pulls[i].name != pulls[j].name);
                }
                lemma_first_error(options, rest, pulls, i + 1);
            },
        }
    }
}

proof fn lemma_left(options: Options, pulls: Seq<Pull>, i: int, name: Seq<char>)
    requires
        0 <= i <= pulls.len(),
    ensures
        left_after(options, pulls, i).dom().contains(name) ==> agree_on(
            options,
            left_after(options, pulls, i),
            name,
        ),
        (forall|j: int| i <= j < pulls.len() ==> (#[trigger] pulls[j]).name != name) ==> agree_on(
            options,
            left_after(options, pulls, i),
            name,
        ),
        first_error(options, pulls, i) is None ==> forall|j: int|
            i <= j < pulls.len() ==> !left_after(options, pulls, i).dom().contains(
                (#[trigger] pulls[j]).name,
            ),
    decreases pulls.len() - i,
{
    if i < pulls.len() {
        let rest = options.remove(pulls[i].name);
        if pull_error(options, pulls[i]) is None {
            lemma_left(rest, pulls, i + 1, name);
            lemma_left(rest, pulls, i + 1, pulls[i].name);
        }
    }
}

proof fn lemma_same_reading(a: Options, b: Options, pulls: Seq<Pull>, i: int)
    requires
        names_differ(pulls),
        0 <= i <= pulls.len(),
        forall|j: int| i <= j < pulls.len() ==> agree_on(a, b, (#[trigger] pulls[j]).name),
    ensures
        first_error(a, pulls, i) == first_error(b, pulls, i),
    decreases pulls.len() - i,
{
    if i < pulls.len() {
        assert(agree_on(a, b, pulls[i].name));
        assert(pull_error(a, pulls[i]) == pull_error(b, pulls[i]));
        let ra = a.remove(pulls[i].name);
        let rb = b.remove(pulls[i].name);
        assert forall|j: int| i + 1 <= j < pulls.len() implies agree_on(
            ra,
            rb,
            (#[trigger] pulls[j]).name,
        ) by {
            assert(agree_on(a, b, pulls[j].name));
        }
        lemma_same_reading(ra, rb, pulls, i + 1);
    }
}

/// No option of a connection is asked for twice, whichever way to authenticate is named.
pub proof fn connection_options_differ(kind: AuthenticationKind)
    ensures
        names_differ(connection_pulls(kind)),
{
    lemma_connection_names();
}

/// No option of a table is asked for twice, and none of them is one of a connection.
pub proof fn table_options_differ(kind: AuthenticationKind)
    ensures
        names_differ(table_pulls()),
        forall|i: int|
            0 <= i < table_pulls().len() ==> !asks_for(
                connection_pulls(kind),
                (#[trigger] table_pulls()[i]).name,
            ),
{
    lemma_connection_names();
    lemma_table_names();
}

/// A connection can be read from a table's options exactly when each option that this takes can be
/// had in the way it is asked for, and they name a way to authenticate that is supported. Where an
/// option cannot be had, the error is that of the first such option, in the order of asking.
pub proof fn connection_is_read_when_every_option_can_be_had(options: Options)
    ensures
        ({
            let pulls = connection_pulls(kind_of(options));
            match connection_of(options) {
                Ok(_) => {
                    &&& !(kind_of(options) is Unsupported)
                    &&& forall|i: int|
                        0 <= i < pulls.len() ==> pull_error(options, #[trigger] pulls[i]) is None
                },
                Err(error) => {
                    ||| exists|i: int| fails_first_at(options, pulls, i, error)
                    ||| {
                        &&& kind_of(options) matches AuthenticationKind::Unsupported(given)
                        &&& error == ErrorView::UnsupportedAuthentication { given }
                        &&& forall|i: int|
                            0 <= i < pulls.len() ==> pull_error(
                                options,
                                #[trigger] pulls[i],
                            ) is None
                    }
                },
            }
        }),
{
    let pulls = connection_pulls(kind_of(options));
    connection_options_differ(kind_of(options));
    lemma_first_error(options, options, pulls, 0);
}

/// A table can be read from its options exactly when its topic and its subscription are strings, and
/// its subscription type is a string or not set.
pub proof fn table_is_read_when_every_option_can_be_had(options: Options)
    ensures
        table_of(options) is Ok <==> {
            &&& required_text_of(options, "topic"@) is Ok
            &&& required_text_of(options, "subscription"@) is Ok
            &&& text_of(options, "subscriptionType"@) is Ok
        },
{
    let pulls = table_pulls();
    table_options_differ(AuthenticationKind::Anonymous);
    lemma_first_error(options, options, pulls, 0);
    assert(pulls.len() == 3);
    match first_error(options, pulls, 0) {
        None => {
            assert(pull_error(options, pulls[0]) is None);
            assert(pull_error(options, pulls[1]) is None);
            assert(pull_error(options, pulls[2]) is None);
        },
        Some(error) => {
            let k = choose|k: int| fails_first_at(options, pulls, k, error);
            assert(fails_first_at(options, pulls, k, error));
            assert(k == 0 || k == 1 || k == 2);
        },
    }
}

/// Reading a connection takes no option out but those that it asks for, and when it succeeds none
/// of those is left.
pub proof fn connection_takes_its_own_options(options: Options, name: Seq<char>)
    ensures
        !asks_for(connection_pulls(kind_of(options)), name) ==> agree_on(
            options,
            left_by_connection(options),
            name,
        ),
        connection_of(options) is Ok && asks_for(connection_pulls(kind_of(options)), name)
            ==> !left_by_connection(options).dom().contains(name),
        left_by_connection(options).dom().contains(name) ==> agree_on(
            options,
            left_by_connection(options),
            name,
        ),
{
    lemma_left(options, connection_pulls(kind_of(options)), 0, name);
}

/// Reading a table takes no option out but those that it asks for, and when it succeeds none of
/// those is left.
pub proof fn table_takes_its_own_options(options: Options, name: Seq<char>)
    ensures
        !asks_for(table_pulls(), name) ==> agree_on(options, left_by_table(options), name),
        table_of(options) is Ok && asks_for(table_pulls(), name) ==> !left_by_table(
            options,
        ).dom().contains(name),
        left_by_table(options).dom().contains(name) ==> agree_on(
            options,
            left_by_table(options),
            name,
        ),
{
    lemma_left(options, table_pulls(), 0, name);
}

/// What a table is read as depends on its own three options alone.
pub proof fn table_depends_on_its_own_options(a: Options, b: Options)
    requires
        agree_on_all(a, b, table_pulls()),
    ensures
        table_of(a) == table_of(b),
{
    let pulls = table_pulls();
    table_options_differ(AuthenticationKind::Anonymous);
    lemma_same_reading(a, b, pulls, 0);
    assert(agree_on(a, b, pulls[0].name));
    assert(agree_on(a, b, pulls[1].name));
    assert(agree_on(a, b, pulls[2].name));
}

/// Reading a connection first makes no difference to the table that is read after.
pub proof fn connection_leaves_the_table_alone(options: Options)
    ensures
        table_of(left_by_connection(options)) == table_of(options),
{
    let left = left_by_connection(options);
    table_options_differ(kind_of(options));
    assert forall|i: int| 0 <= i < table_pulls().len() implies agree_on(
        left,
        options,
        (#[trigger] table_pulls()[i]).name,
    ) by {
        connection_takes_its_own_options(options, table_pulls()[i].name);
    }
    table_depends_on_its_own_options(left, options);
}

/// How a client checks the broker is said exactly when at least one of the options for it is set,
/// and then at least one part of it is said.
pub proof fn tls_is_said_when_an_option_for_it_is_set(options: Options)
    requires
        connection_of(options) is Ok,
    ensures
        connection_of(options)->Ok_0.tls is Some <==> {
            ||| options.dom().contains("tls.certificateChainFile"@)
            ||| options.dom().contains("tls.allowInsecureConnection"@)
            ||| options.dom().contains("tls.tlsHostnameVerificationEnabled"@)
        },
        connection_of(options)->Ok_0.tls matches Some(tls) ==> {
            ||| tls.certificate_chain_file is Some
            ||| tls.allow_insecure_connection is Some
            ||| tls.tls_hostname_verification_enabled is Some
        },
{
    let kind = kind_of(options);
    let pulls = connection_pulls(kind);
    connection_is_read_when_every_option_can_be_had(options);
    let n = pulls.len() as int;
    assert(pull_error(options, pulls[n - 3]) is None);
    assert(pull_error(options, pulls[n - 2]) is None);
    assert(pull_error(options, pulls[n - 1]) is None);
}

/// A way to authenticate may be named with capitals or without, and what names none is refused.
pub proof fn authentication_names(text: Seq<char>)
    ensures
        authentication_kind(Some("Token"@)) == AuthenticationKind::Token,
        authentication_kind(Some("token"@)) == AuthenticationKind::Token,
        authentication_kind(Some("Basic"@)) == AuthenticationKind::Basic,
        authentication_kind(Some("basic"@)) == AuthenticationKind::Basic,
        authentication_kind(Some("OAuth2"@)) == AuthenticationKind::OAuth2,
        authentication_kind(Some("oauth2"@)) == AuthenticationKind::OAuth2,
        authentication_kind(Some("None"@)) == AuthenticationKind::Anonymous,
        authentication_kind(Some("none"@)) == AuthenticationKind::Anonymous,
        authentication_kind(None) == AuthenticationKind::Anonymous,
        authentication_kind(Some(text)) == AuthenticationKind::Unsupported(text) <==> {
            &&& text != "Token"@
            &&& text != "token"@
            &&& text != "Basic"@
            &&& text != "basic"@
            &&& text != "OAuth2"@
            &&& text != "oauth2"@
            &&& text != "None"@
            &&& text != "none"@
        },
{
    reveal_strlit("Token");
    reveal_strlit("token");
    reveal_strlit("Basic");
    reveal_strlit("basic");
    reveal_strlit("OAuth2");
    reveal_strlit("oauth2");
    reveal_strlit("None");
    reveal_strlit("none");
    assert("Token"@.len() == 5 && "token"@.len() == 5 && "Basic"@.len() == 5);
    assert("basic"@.len() == 5 && "OAuth2"@.len() == 6 && "oauth2"@.len() == 6);
    assert("None"@.len() == 4 && "none"@.len() == 4);
    assert("Token"@[0] == 'T' && "token"@[0] == 't' && "Basic"@[0] == 'B' && "basic"@[0] == 'b');
}

/// The name of a subscription type stands for that type.
pub proof fn subscription_type_is_read_back(kind: SubscriptionType)
    ensures
        SubscriptionType::of_text(kind.text()) == kind,
{
    reveal_strlit("Exclusive");
    reveal_strlit("Failover");
    reveal_strlit("Shared");
    reveal_strlit("KeyShared");
    assert("Exclusive"@.len() == 9 && "Failover"@.len() == 8);
    assert("Shared"@.len() == 6 && "KeyShared"@.len() == 9);
    assert("Exclusive"@[0] == 'E' && "KeyShared"@[0] == 'K');
}

/// With a profile, a connection depends on no option but the table's, and takes out no other. The
/// configuration is the profile's.
pub proof fn profile_stands_for_the_connection_options(
    name: Seq<char>,
    a: Options,
    b: Options,
    schema: Option<SchemaView>,
    profile: Result<ConfigView, Seq<char>>,
    other: Seq<char>,
)
    requires
        agree_on_all(a, b, table_pulls()),
    ensures
        connection_declared(name, a, schema, Some(profile)) == connection_declared(
            name,
            b,
            schema,
            Some(profile),
        ),
        !asks_for(table_pulls(), other) ==> agree_on(
            a,
            left_by_declaration(a, Some(profile)),
            other,
        ),
        profile is Err ==> left_by_declaration(a, Some(profile)) == a,
        connection_declared(name, a, schema, Some(profile)) matches Ok(connection) ==> profile
            == Ok::<ConfigView, Seq<char>>(connection.config.connection),
{
    table_depends_on_its_own_options(a, b);
    table_takes_its_own_options(a, other);
}

/// A declaration without a profile makes the connection that its configuration and its table make,
/// each read from the options as they were declared.
pub proof fn declaration_reads_both_from_the_options(
    name: Seq<char>,
    options: Options,
    schema: Option<SchemaView>,
)
    ensures
        connection_declared(name, options, schema, None) == match connection_of(options) {
            Err(error) => Err(error),
            Ok(config) => match table_of(options) {
                Err(error) => Err(error),
                Ok(table) => connection_made(None, name, config, table, schema),
            },
        },
{
    connection_leaves_the_table_alone(options);
}

/// A connection that was made can always be worked: its source exists, and reads the table with the
/// configuration, and as the schema says.
pub proof fn every_connection_has_a_source(
    id: Option<i64>,
    name: Seq<char>,
    config: ConfigView,
    table: TableView,
    schema: SchemaView,
)
    requires
        connection_made(id, name, config, table, Some(schema)) is Ok,
    ensures
        ({
            let made = connection_made(id, name, config, table, Some(schema))->Ok_0;
            let source = source_of(made.config.connection, made.config.table, made.config);
            &&& made.connection_type == ConnectionType::Source
            &&& source is Ok
            &&& source->Ok_0.config == config
            &&& source->Ok_0.table == table
            &&& Some(source->Ok_0.format) == schema.format
            &&& source->Ok_0.framing == schema.framing
            &&& source->Ok_0.bad_data == schema.bad_data
            &&& source->Ok_0.metadata_fields == schema.metadata_fields
        }),
{
}

/// An option that was pulled is gone: asked for again, it is not set.
pub proof fn option_is_pulled_once(options: Options, name: Seq<char>)
    ensures
        text_of(options.remove(name), name) == Ok::<Option<Seq<char>>, ErrorView>(None),
        flag_of(options.remove(name), name) == Ok::<Option<bool>, ErrorView>(None),
        required_text_of(options.remove(name), name) == Err::<Seq<char>, ErrorView>(
            ErrorView::MissingOption { name },
        ),
{
}

/// An option that is set reads as it was set, whatever was set before.
pub proof fn option_reads_as_set(options: Options, name: Seq<char>, value: OptionView)
    ensures
        value.text matches Ok(text) ==> required_text_of(options.insert(name, value), name) == Ok::<
            Seq<char>,
            ErrorView,
        >(text),
        value.flag matches Ok(flag) ==> flag_of(options.insert(name, value), name) == Ok::<
            Option<bool>,
            ErrorView,
        >(Some(flag)),
{
}

/// What setting up a client meets: what becomes of each text, each file and each client.
pub struct World {
    pub resolve: spec_fn(Seq<char>) -> Result<Seq<char>, Seq<char>>,
    pub load: spec_fn(Seq<char>) -> Result<(), Seq<char>>,
    pub build: spec_fn(SettingsView) -> Result<(), Seq<char>>,
}

/// What an action of setting up a client is answered with.
pub open spec fn answer(world: World, action: ConnectActionView) -> ConnectEventView {
    match action {
        ConnectActionView::Resolve { text } => ConnectEventView::Resolved((world.resolve)(text)),
        ConnectActionView::LoadCertificateChain { path } => ConnectEventView::Loaded(
            (world.load)(path),
        ),
        ConnectActionView::Build(settings) => ConnectEventView::Built((world.build)(settings)),
        ConnectActionView::Finish(_) => ConnectEventView::Begun,
    }
}

/// Where setting up a client has come to, from `step` on, after at most `n` answers.
pub open spec fn connect_run(
    config: ConfigView,
    world: World,
    step: ConnectStep,
    n: nat,
) -> ConnectStep
    decreases n,
{
    if n == 0 || step.action is Finish {
        step
    } else {
        connect_run(
            config,
            world,
            connect_step(config, step.progress, answer(world, step.action)),
            (n - 1) as nat,
        )
    }
}

/// What becomes of the texts of a configuration, if all of them come out.
pub open spec fn all_resolved(config: ConfigView, world: World) -> Seq<Seq<char>> {
    Seq::new(needs_of(config).len(), |i: int| (world.resolve)(needs_of(config)[i].text)->Ok_0)
}

/// The failure of the first text, from that at `i` on, which does not come out.
pub open spec fn first_unresolved(config: ConfigView, world: World, i: int) -> Option<
    ConnectErrorView,
>
    decreases needs_of(config).len() - i,
{
    if i < 0 || i >= needs_of(config).len() {
        None
    } else {
        match (world.resolve)(needs_of(config)[i].text) {
            Err(cause) => Some(ConnectErrorView { context: needs_of(config)[i].context, cause }),
            Ok(_) => first_unresolved(config, world, i + 1),
        }
    }
}

/// The outcome of building the client.
pub open spec fn build_outcome(config: ConfigView, world: World) -> Result<(), ConnectErrorView> {
    match (world.build)(settings_of(config, all_resolved(config, world))) {
        Ok(_) => Ok(()),
        Err(cause) => Err(ConnectErrorView { context: "failed to connect to Pulsar"@, cause }),
    }
}

/// The outcome of setting up a client: every text comes out, then the certificates are read from the
/// file that is named, if one is, then the client is built.
pub open spec fn connect_outcome(config: ConfigView, world: World) -> Result<
    (),
    ConnectErrorView,
> {
    match first_unresolved(config, world, 0) {
        Some(error) => Err(error),
        None => if certificate_file(config) is Some {
            match (world.load)(all_resolved(config, world).last()) {
                Err(cause) => Err(
                    ConnectErrorView {
                        context: "failed to read Pulsar certificate chain"@,
                        cause,
                    },
                ),
                Ok(_) => build_outcome(config, world),
            }
        } else {
            build_outcome(config, world)
        },
    }
}

/// Setting up a client always knows what it waits for: what it does next is what leads to an event
/// that it then awaits, until it ends.
pub proof fn connect_awaits_what_it_asked_for(
    config: ConfigView,
    world: World,
    progress: ConnectProgressView,
    event: ConnectEventView,
)
    requires
        progress.fits(config),
        progress.awaits(event),
    ensures
        ({
            let step = connect_step(config, progress, event);
            &&& step.progress.fits(config)
            &&& step.action is Finish <==> step.progress.stage
                == ConnectStage::Ended
            &&& !(step.action is Finish) ==> step.progress.awaits(answer(world, step.action))
        }),
{
}

proof fn lemma_connect_run(config: ConfigView, world: World, resolved: Seq<Seq<char>>, n: nat)
    requires
        resolved.len() <= needs_of(config).len(),
        resolved == all_resolved(config, world).take(resolved.len() as int),
        n >= needs_of(config).len() - resolved.len() + 2,
    ensures
        connect_run(
            config,
            world,
            connect_goes_on(config, resolved),
            n,
        ).action == ConnectActionView::Finish(
            match first_unresolved(config, world, resolved.len() as int) {
                Some(error) => Err(error),
                None => if certificate_file(config) is Some {
                    match (world.load)(all_resolved(config, world).last()) {
                        Err(cause) => Err(
                            ConnectErrorView {
                                context: "failed to read Pulsar certificate chain"@,
                                cause,
                            },
                        ),
                        Ok(_) => build_outcome(config, world),
                    }
                } else {
                    build_outcome(config, world)
                },
            },
        ),
    decreases needs_of(config).len() - resolved.len(),
{
    let all = all_resolved(config, world);
    let k = resolved.len() as int;
    let step = connect_goes_on(config, resolved);
    if k < needs_of(config).len() {
        match (world.resolve)(needs_of(config)[k].text) {
            Ok(text) => {
                assert(resolved.push(text) =~= all.take(k + 1));
                lemma_connect_run(config, world, resolved.push(text), (n - 1) as nat);
            },
            Err(_) => {
                reveal_with_fuel(connect_run, 2);
            },
        }
    } else {
        assert(resolved =~= all);
        reveal_with_fuel(connect_run, 3);
    }
}

/// Setting up a client comes to an end, and to the outcome that the world decides.
pub proof fn connect_comes_to_its_outcome(config: ConfigView, world: World)
    ensures
        connect_run(
            config,
            world,
            connect_step(config, ConnectProgressView::created(), ConnectEventView::Begun),
            needs_of(config).len() + 2,
        ).action == ConnectActionView::Finish(connect_outcome(config, world)),
{
    let none: Seq<Seq<char>> = seq![];
    assert(none =~= all_resolved(config, world).take(0));
    lemma_connect_run(config, world, none, needs_of(config).len() + 2);
}

/// Without authentication and without a certificate file nothing is resolved and nothing is read:
/// the client is built at once, from the configuration alone.
pub proof fn plain_connection_is_built_at_once(config: ConfigView)
    requires
        config.authentication == AuthenticationView::Anonymous,
        certificate_file(config) is None,
    ensures
        ({
            let step = connect_step(
                config,
                ConnectProgressView::created(),
                ConnectEventView::Begun,
            );
            &&& step.action is Build
            &&& step.action->Build_0.service_url == config.service_url
            &&& step.action->Build_0.authentication is None
        }),
{
}

/// The history of a source: what happened, what it did then, and what it waited for before the
/// first event and after each.
pub struct History<M, C, L, E> {
    pub phases: Seq<Phase<M>>,
    pub events: Seq<EventView<M, C, L, E>>,
    pub actions: Seq<ActionView<M, C, L, E>>,
}

impl<M, C, L, E> History<M, C, L, E> {
    /// The source went from phase to phase as its steps say, and nothing happened that it did not
    /// await.
    pub open spec fn is_of(self, source: SourceView, task: TaskView) -> bool {
        &&& self.phases.len() == self.events.len() + 1
        &&& self.actions.len() == self.events.len()
        &&& self.phases[0] == Phase::<M>::Created
        &&& forall|i: int| 0 <= i < self.events.len() ==> #[trigger] self.steps_at(source, task, i)
    }

    /// The step at `i` is one of the source.
    pub open spec fn steps_at(self, source: SourceView, task: TaskView, i: int) -> bool {
        &&& awaited(self.phases[i], self.events[i])
        &&& (Step { phase: self.phases[i + 1], action: self.actions[i] }) == run_step(
            source,
            task,
            self.phases[i],
            self.events[i],
        )
    }
}

/// The event is that a message came, and the action is to have the engine read its payload, as of
/// its time.
pub open spec fn hands_over<M, C, L, E>(
    event: EventView<M, C, L, E>,
    action: ActionView<M, C, L, E>,
) -> bool {
    match event {
        EventView::Received(
            ReceivedView::Message { message, payload, event_time, publish_time },
        ) => action == (ActionView::<M, C, L, E>::Deserialize {
            payload,
            timestamp: timestamp_of(event_time, publish_time),
        }),
        _ => false,
    }
}

/// The event is that a message came, and the action is to acknowledge it.
pub open spec fn acknowledges<M, C, L, E>(
    event: EventView<M, C, L, E>,
    action: ActionView<M, C, L, E>,
) -> bool {
    match event {
        EventView::Received(
            ReceivedView::Message { message, payload, event_time, publish_time },
        ) => action == (ActionView::<M, C, L, E>::Acknowledge { message }),
        _ => false,
    }
}

/// A message is acknowledged only when it was read: the event before is that the engine read it,
/// and the one before that is that it came, whereupon its own payload was handed to the engine, as
/// of its own time.
pub proof fn message_is_acknowledged_after_it_was_read<M, C, L, E>(
    source: SourceView,
    task: TaskView,
    history: History<M, C, L, E>,
    i: int,
)
    requires
        history.is_of(source, task),
        0 <= i < history.events.len(),
        history.actions[i] is Acknowledge,
    ensures
        i >= 1,
        history.events[i] is Deserialized,
        history.events[i]->Deserialized_0 is Ok,
        hands_over(history.events[i - 1], history.actions[i - 1]),
        acknowledges(history.events[i - 1], history.actions[i]),
{
    assert(history.steps_at(source, task, i));
    if i >= 1 {
        assert(history.steps_at(source, task, i - 1));
    }
}

/// No message is passed over: one that came is handed to the engine at once, and is acknowledged as
/// soon as the engine has read it.
pub proof fn message_that_came_is_read<M, C, L, E>(
    source: SourceView,
    task: TaskView,
    history: History<M, C, L, E>,
    i: int,
)
    requires
        history.is_of(source, task),
        0 <= i < history.events.len(),
        history.events[i] is Received,
        history.events[i]->Received_0 is Message,
    ensures
        hands_over(history.events[i], history.actions[i]),
        i + 1 < history.events.len() ==> history.events[i + 1] is Deserialized,
        i + 1 < history.events.len() && history.events[i + 1]->Deserialized_0 is Ok
            ==> acknowledges(history.events[i], history.actions[i + 1]),
{
    assert(history.steps_at(source, task, i));
    if i + 1 < history.events.len() {
        assert(history.steps_at(source, task, i + 1));
    }
}

/// A source that has ended does nothing more.
pub proof fn nothing_follows_the_end<M, C, L, E>(
    source: SourceView,
    task: TaskView,
    history: History<M, C, L, E>,
    i: int,
)
    requires
        history.is_of(source, task),
        0 <= i < history.events.len(),
        history.actions[i] is Finish,
    ensures
        i == history.events.len() - 1,
{
    assert(history.steps_at(source, task, i));
    assert(history.phases[i + 1] is Ended);
    if i + 1 < history.events.len() {
        assert(history.steps_at(source, task, i + 1));
    }
}

/// Having the engine get ready to read a source's messages.
pub open spec fn gets_ready<M, C, L, E>(source: SourceView) -> ActionView<M, C, L, E> {
    ActionView::InitializeDeserializer {
        format: source.format,
        framing: source.framing,
        bad_data: source.bad_data,
        metadata_fields: source.metadata_fields,
    }
}

/// A source gets the engine ready, then a client, then its consumer, and only then waits, unless it
/// ends before.
pub proof fn source_starts_in_order<M, C, L, E>(
    source: SourceView,
    task: TaskView,
    history: History<M, C, L, E>,
)
    requires
        history.is_of(source, task),
    ensures
        history.events.len() > 0 ==> history.actions[0] == gets_ready::<M, C, L, E>(source),
        history.events.len() > 1 ==> history.actions[1] == (ActionView::<M, C, L, E>::Connect {
            config: source.config,
        }),
        history.events.len() > 2 ==> history.actions[2] is Finish || history.actions[2]
            == ActionView::<M, C, L, E>::Subscribe(consumer_of(source.table, task)),
        history.events.len() > 3 ==> history.actions[3] is Finish || history.actions[3] is Wait,
{
    if history.events.len() > 0 {
        assert(history.steps_at(source, task, 0));
    }
    if history.events.len() > 1 {
        assert(history.steps_at(source, task, 1));
    }
    if history.events.len() > 2 {
        assert(history.steps_at(source, task, 2));
    }
    if history.events.len() > 3 {
        assert(history.steps_at(source, task, 3));
    }
}

/// A source ends gracefully when its messages are over or when it is told to, and immediately when
/// it is told to or when a checkpoint says so, and in no other case. A failure of the connector lies
/// outside and may be tried again after a while, and an error of the engine is handed on as it is.
pub proof fn source_ends_for_a_reason<M, C, L, E>(
    source: SourceView,
    task: TaskView,
    phase: Phase<M>,
    event: EventView<M, C, L, E>,
)
    requires
        awaited(phase, event),
    ensures
        ({
            let action = run_step(source, task, phase, event).action;
            &&& action == ActionView::<M, C, L, E>::Finish(Ok(SourceFinishType::Graceful)) <==> {
                ||| event == EventView::<M, C, L, E>::Received(ReceivedView::Closed)
                ||| event == EventView::<M, C, L, E>::Control(
                    Some(ControlMessage::Stop { mode: StopMode::Graceful }),
                )
            }
            &&& action == ActionView::<M, C, L, E>::Finish(Ok(SourceFinishType::Immediate)) <==> {
                ||| event == (EventView::<M, C, L, E>::Checkpointed { stop: true })
                ||| event == EventView::<M, C, L, E>::Control(
                    Some(ControlMessage::Stop { mode: StopMode::Immediate }),
                )
            }
            &&& (action is Finish && action->Finish_0 is Err) <==> {
                ||| event is Connected && event->Connected_0 is Err
                ||| event is Subscribed && event->Subscribed_0 is Err
                ||| event is Received && event->Received_0 is Failed
                ||| event is Deserialized && event->Deserialized_0 is Err
                ||| event is Acknowledged && event->Acknowledged_0 is Err
                ||| event is Flushed && event->Flushed_0 is Err
            }
            &&& action matches ActionView::Finish(
                Err(RunErrorView::Connector { domain, retry, message }),
            ) ==> domain == ErrorDomain::External && retry == RetryHint::WithBackoff
            &&& action matches ActionView::Finish(Err(RunErrorView::Engine(error))) ==> {
                ||| event == EventView::<M, C, L, E>::Deserialized(Err(error))
                ||| event == EventView::<M, C, L, E>::Flushed(Err(error))
            }
        }),
{
}

/// What the engine has read is passed on exactly when the engine says that this is due, and it is
/// asked after every message that was acknowledged and at every tick.
pub proof fn source_flushes_when_due<M, C, L, E>(
    source: SourceView,
    task: TaskView,
    phase: Phase<M>,
    event: EventView<M, C, L, E>,
)
    requires
        awaited(phase, event),
    ensures
        run_step(source, task, phase, event).action is Flush <==> event == EventView::<
            M,
            C,
            L,
            E,
        >::FlushDue(true),
        run_step(source, task, phase, event).action is CheckFlush <==> {
            ||| event is Tick
            ||| event is Acknowledged && event->Acknowledged_0 is Ok
        },
{
}

} // verus!
