//! What a declaration makes of a table's options, told by the options as they were set.

use crate::config::PulsarConfig;
use crate::connection::{connection_result, object_debug, opt_schema, Connection};
use crate::connector::{
    config_taken, connection_declared, left_by_config, left_by_declaration, opt_profile,
    PulsarConnector,
};
use crate::error::Error;
use crate::laws::{agree_on, connection_leaves_the_table_alone};
use crate::laws_connector::{is_connection_made, lemma_connection_made, shown_members};
use crate::laws_options::{
    all_met, among_first, connection_demands, first_gone, first_unmet, is_config_given, is_met,
    is_refused_type, is_table_given, lemma_config_given, lemma_connection_met,
    lemma_connection_unmet, lemma_table_given, lemma_table_met, lemma_table_unmet, names_supported,
    table_demands, tells_why, Demand,
};
use crate::options::{ConnectorOptions, Options};
use crate::reading::{
    left_by_connection, left_by_table, lemma_connection_names, lemma_table_names, table_of,
};
use crate::same::{config_shows_all_it_holds, same_config};
use crate::schema::ConnectionSchema;
use vstd::prelude::*;

verus! {

/// How the options of a declaration have to be set, in the order in which they are looked at: those
/// of the connection, unless a profile stands for them, and then those of the table, unless no way
/// to authenticate that there is was named.
pub open spec fn declaration_demands(options: Options, with_profile: bool) -> Seq<Demand> {
    if with_profile {
        table_demands()
    } else if names_supported(options) {
        connection_demands(options) + table_demands()
    } else {
        connection_demands(options)
    }
}

/// The connection's configuration is the profile's where there is one, and else that of the
/// options.
pub open spec fn has_its_config(
    options: Options,
    profile: Option<Result<PulsarConfig, String>>,
    config: PulsarConfig,
) -> bool {
    match profile {
        Some(Ok(given)) => same_config(config, given),
        _ => is_config_given(options, config),
    }
}

/// What a declaration makes, and what is left of the options.
pub open spec fn declares(
    before: Options,
    name: Seq<char>,
    schema: Option<&ConnectionSchema>,
    profile: Option<Result<PulsarConfig, String>>,
    res: Result<Connection, Error>,
    after: Options,
) -> bool {
    let demands = declaration_demands(before, profile is Some);
    if profile is Some && profile->Some_0 is Err {
        &&& res is Err
        &&& res->Err_0 is InvalidProfile
        &&& res->Err_0->InvalidProfile_reason@ == profile->Some_0->Err_0@
        &&& after == before
    } else {
        &&& forall|k: int| #[trigger]
            first_unmet(before, demands, k) ==> {
                &&& res is Err
                &&& tells_why(before, demands[k], res->Err_0)
                &&& first_gone(before, after, demands, k + 1)
            }
        &&& all_met(before, demands) ==> first_gone(before, after, demands, demands.len() as int)
        &&& all_met(before, demands) && profile is None && !names_supported(before) ==> res is Err
            && is_refused_type(before, res->Err_0)
        &&& all_met(before, demands) && (profile is Some || names_supported(before))
            ==> makes_connection(before, name, schema, profile, res)
    }
}

/// The declaration makes a connection of its configuration and its table, as far as the schema lets
/// it.
pub open spec fn makes_connection(
    options: Options,
    name: Seq<char>,
    schema: Option<&ConnectionSchema>,
    profile: Option<Result<PulsarConfig, String>>,
    res: Result<Connection, Error>,
) -> bool {
    &&& res is Ok ==> has_its_config(options, profile, res->Ok_0.config.connection)
    &&& res is Ok ==> is_table_given(options, res->Ok_0.config.table)
    &&& res is Ok ==> is_connection_made(
        res,
        None,
        name,
        schema,
        object_debug(shown_members(res->Ok_0.config.table)),
    )
    &&& schema is None ==> res is Err && res->Err_0 is MissingSchema
    &&& schema is Some && schema->Some_0.format is None ==> res is Err && res->Err_0
        is MissingFormat
    &&& schema is Some && schema->Some_0.format is Some ==> res is Ok
}

proof fn lemma_table_names_are_new(options: Options, i: int)
    requires
        0 <= i < 3,
    ensures
        !among_first(
            connection_demands(options),
            connection_demands(options).len() as int,
            table_demands()[i].name,
        ),
{
    lemma_connection_names();
    lemma_table_names();
}

/// What the options say of the table is the same when the connection's are gone.
proof fn lemma_table_after(options: Options)
    requires
        first_gone(
            options,
            left_by_connection(options),
            connection_demands(options),
            connection_demands(options).len() as int,
        ),
    ensures
        forall|i: int| 0 <= i < 3 ==> agree_on(
            options,
            left_by_connection(options),
            (#[trigger] table_demands()[i]).name,
        ),
{
    let left = left_by_connection(options);
    assert forall|i: int| 0 <= i < 3 implies agree_on(
        options,
        left,
        (#[trigger] table_demands()[i]).name,
    ) by {
        lemma_table_names_are_new(options, i);
        let name = table_demands()[i].name;
        assert(left.dom().contains(name) || !left.dom().contains(name));
    }
}

proof fn lemma_both_gone(
    before: Options,
    between: Options,
    after: Options,
    a: Seq<Demand>,
    b: Seq<Demand>,
    n: int,
)
    requires
        first_gone(before, between, a, a.len() as int),
        first_gone(between, after, b, n),
        0 <= n <= b.len(),
    ensures
        first_gone(before, after, a + b, a.len() + n),
{
    let all = a + b;
    let m = a.len() as int;
    assert forall|name: Seq<char>|
        if among_first(all, m + n, name) {
            !(#[trigger] after.dom().contains(name))
        } else {
            agree_on(before, after, name)
        } by {
        assert(between.dom().contains(name) || !between.dom().contains(name));
        assert(after.dom().contains(name) || !after.dom().contains(name));
        if among_first(b, n, name) {
            let i = choose|i: int| 0 <= i < n && (#[trigger] b[i]).name == name;
            assert(all[m + i].name == name);
        } else if among_first(a, m, name) {
            let i = choose|i: int| 0 <= i < m && (#[trigger] a[i]).name == name;
            assert(all[i].name == name);
        } else if among_first(all, m + n, name) {
            let i = choose|i: int| 0 <= i < m + n && (#[trigger] all[i]).name == name;
            if i < m {
                assert(a[i].name == name);
            } else {
                assert(b[i - m].name == name);
            }
        }
    }
}

proof fn lemma_declared_unmet(
    before: Options,
    name: Seq<char>,
    schema: Option<&ConnectionSchema>,
    profile: Option<Result<PulsarConfig, String>>,
    res: Result<Connection, Error>,
    k: int,
)
    requires
        connection_result(res) == connection_declared(
            name,
            before,
            opt_schema(schema),
            opt_profile(profile),
        ),
        profile is Some ==> profile->Some_0 is Ok,
        first_unmet(before, declaration_demands(before, profile is Some), k),
    ensures
        res is Err,
        tells_why(before, declaration_demands(before, profile is Some)[k], res->Err_0),
        first_gone(
            before,
            left_by_declaration(before, opt_profile(profile)),
            declaration_demands(before, profile is Some),
            k + 1,
        ),
{
    let demands = declaration_demands(before, profile is Some);
    if profile is Some {
        lemma_table_unmet(before, k);
        assert(tells_why(before, demands[k], res->Err_0));
    } else {
        let own = connection_demands(before);
        let m = own.len() as int;
        if k < m {
            assert(demands[k] == own[k]);
            assert forall|i: int| 0 <= i < k implies is_met(before, #[trigger] own[i]) by {
                assert(demands[i] == own[i]);
            }
            assert(first_unmet(before, own, k));
            lemma_connection_unmet(before, k);
            assert(tells_why(before, own[k], res->Err_0));
            lemma_same_first(before, left_by_connection(before), own, demands, k + 1);
        } else {
            assert forall|i: int| 0 <= i < m implies is_met(before, #[trigger] own[i]) by {
                assert(demands[i] == own[i]);
            }
            assert(all_met(before, own));
            lemma_connection_met(before);
            lemma_table_after(before);
            let left = left_by_connection(before);
            let rest = table_demands();
            let j = k - m;
            assert(demands[k] == rest[j]);
            assert forall|i: int| 0 <= i < j implies is_met(left, #[trigger] rest[i]) by {
                assert(demands[m + i] == rest[i]);
                assert(agree_on(before, left, rest[i].name));
            }
            assert(agree_on(before, left, rest[j].name));
            assert(first_unmet(left, rest, j));
            lemma_table_unmet(left, j);
            assert(tells_why(left, rest[j], res->Err_0));
            lemma_both_gone(before, left, left_by_table(left), own, rest, j + 1);
        }
    }
}

proof fn lemma_same_first(
    before: Options,
    after: Options,
    a: Seq<Demand>,
    b: Seq<Demand>,
    n: int,
)
    requires
        first_gone(before, after, a, n),
        n <= a.len(),
        n <= b.len(),
        forall|i: int| 0 <= i < n ==> #[trigger] a[i] == b[i],
    ensures
        first_gone(before, after, b, n),
{
    assert forall|name: Seq<char>|
        if among_first(b, n, name) {
            !(#[trigger] after.dom().contains(name))
        } else {
            agree_on(before, after, name)
        } by {
        assert(after.dom().contains(name) || !after.dom().contains(name));
        if among_first(b, n, name) {
            let i = choose|i: int| 0 <= i < n && (#[trigger] b[i]).name == name;
            assert(a[i].name == name);
        } else if among_first(a, n, name) {
            let i = choose|i: int| 0 <= i < n && (#[trigger] a[i]).name == name;
            assert(b[i].name == name);
        }
    }
}

proof fn lemma_declared_met(
    before: Options,
    name: Seq<char>,
    schema: Option<&ConnectionSchema>,
    profile: Option<Result<PulsarConfig, String>>,
    res: Result<Connection, Error>,
)
    requires
        connection_result(res) == connection_declared(
            name,
            before,
            opt_schema(schema),
            opt_profile(profile),
        ),
        profile is Some ==> profile->Some_0 is Ok,
        all_met(before, declaration_demands(before, profile is Some)),
    ensures
        first_gone(
            before,
            left_by_declaration(before, opt_profile(profile)),
            declaration_demands(before, profile is Some),
            declaration_demands(before, profile is Some).len() as int,
        ),
        profile is None && !names_supported(before) ==> res is Err && is_refused_type(
            before,
            res->Err_0,
        ),
        profile is Some || names_supported(before) ==> makes_connection(
            before,
            name,
            schema,
            profile,
            res,
        ),
{
    let demands = declaration_demands(before, profile is Some);
    let own = connection_demands(before);
    let rest = table_demands();
    let m = own.len() as int;
    if profile is Some {
        lemma_table_met(before);
    } else {
        assert forall|i: int| 0 <= i < m implies is_met(before, #[trigger] own[i]) by {
            assert(demands[i] == own[i]);
        }
        assert(all_met(before, own));
        lemma_connection_met(before);
        if names_supported(before) {
            assert forall|i: int| 0 <= i < 3 implies is_met(before, #[trigger] rest[i]) by {
                assert(demands[m + i] == rest[i]);
            }
            lemma_table_after(before);
            let left = left_by_connection(before);
            assert forall|i: int| 0 <= i < 3 implies is_met(left, #[trigger] rest[i]) by {
                assert(is_met(before, rest[i]));
                assert(agree_on(before, left, rest[i].name));
            }
            assert(all_met(left, rest));
            lemma_table_met(left);
            lemma_both_gone(before, left, left_by_table(left), own, rest, 3);
            connection_leaves_the_table_alone(before);
        } else {
            assert(is_refused_type(before, res->Err_0));
        }
    }
    if profile is Some || names_supported(before) {
        assert(all_met(before, rest));
        lemma_table_met(before);
        let config = config_taken(before, opt_profile(profile))->Ok_0;
        let table = table_of(left_by_config(before, opt_profile(profile)))->Ok_0;
        assert(table == table_of(before)->Ok_0);
        let shown = object_debug(table.fields());
        lemma_connection_made(res, None, name, config, table, schema, shown);
        if res is Ok {
            let made = res->Ok_0.config;
            lemma_table_given(before, made.table);
            assert(table.fields() =~= shown_members(made.table));
            if profile is Some {
                config_shows_all_it_holds(made.connection, profile->Some_0->Ok_0);
            } else {
                lemma_config_given(before, made.connection);
            }
        }
    }
}

/// A declaration makes a connection whose configuration is the profile's, or else that of the
/// options, and whose table is that of the options. A profile that is no configuration is told, and
/// so is the first option that is not set as it has to be. The options that were looked at are
/// gone, and every other is as it was.
pub proof fn declaration_says_what_its_options_say(
    connector: PulsarConnector,
    name: &str,
    schema: Option<&ConnectionSchema>,
    profile: Option<Result<PulsarConfig, String>>,
)
    ensures
        forall|o: &mut ConnectorOptions, res: Result<Connection, Error>| #[trigger]
            call_ensures(
                PulsarConnector::from_options,
                (&connector, name, o, schema, profile),
                res,
            ) ==> declares(o@, name@, schema, profile, res, final(o)@),
{
    assert forall|o: &mut ConnectorOptions, res: Result<Connection, Error>| #[trigger]
        call_ensures(
            PulsarConnector::from_options,
            (&connector, name, o, schema, profile),
            res,
        ) implies declares(o@, name@, schema, profile, res, final(o)@) by {
        if profile is None || profile->Some_0 is Ok {
            let demands = declaration_demands(o@, profile is Some);
            assert forall|k: int| #[trigger] first_unmet(o@, demands, k) implies {
                &&& res is Err
                &&& tells_why(o@, demands[k], res->Err_0)
                &&& first_gone(o@, final(o)@, demands, k + 1)
            } by {
                lemma_declared_unmet(o@, name@, schema, profile, res, k);
            }
            if all_met(o@, demands) {
                lemma_declared_met(o@, name@, schema, profile, res);
            }
        }
    }
}

} // verus!
