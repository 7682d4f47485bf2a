//! What comes of a table's options, told by the options as they were set.

use crate::config::{
    PulsarConfig, PulsarConfigAuthentication, PulsarTable, SubscriptionType, Tls, VarStr,
};
use crate::connector::{config_result, table_result, PulsarConnector};
use crate::error::Error;
use crate::laws::{agree_on, connection_options_differ, names_differ, table_options_differ};
use crate::options::{ConnectorOptions, OptionValue, Options};
use crate::reading::{
    connection_of, connection_pulls, first_error, kind_of, left_after, left_by_connection,
    left_by_table, pull_error, table_of, table_pulls, AuthenticationKind, Pull,
};
use vstd::prelude::*;

verus! {

/// The option is set, as a string that reads `text`.
pub open spec fn is_text(options: Options, name: Seq<char>, text: Seq<char>) -> bool {
    &&& options.dom().contains(name)
    &&& options[name].text is Ok
    &&& options[name].text->Ok_0 == text
}

/// The option is set, as a truth value.
pub open spec fn is_flag(options: Options, name: Seq<char>, flag: bool) -> bool {
    &&& options.dom().contains(name)
    &&& options[name].flag is Ok
    &&& options[name].flag->Ok_0 == flag
}

/// The error says that the option `name` is not set.
pub open spec fn says_missing(error: Error, name: Seq<char>) -> bool {
    &&& error is MissingOption
    &&& error->MissingOption_name@ == name
}

/// The error says that the option `name` cannot be had, for the reason given.
pub open spec fn says_invalid(error: Error, name: Seq<char>, reason: Seq<char>) -> bool {
    &&& error is InvalidOption
    &&& error->InvalidOption_name@ == name
    &&& error->InvalidOption_reason@ == reason
}

/// Options that are new have none set. An option that is set has the value it was set to, in both
/// of its readings, and every other option is as before.
pub proof fn options_hold_what_was_set(fresh: ConnectorOptions, name: String, value: OptionValue)
    ensures
        call_ensures(ConnectorOptions::new, (), fresh) ==> forall|n: Seq<char>|
            !(#[trigger] fresh@.dom().contains(n)),
        forall|o: &mut ConnectorOptions, done: ()| #[trigger]
            call_ensures(ConnectorOptions::insert, (o, name, value), done) ==> holds_value(
                final(o)@,
                name@,
                value,
            ),
        forall|o: &mut ConnectorOptions, done: (), n: Seq<char>|
            (#[trigger] call_ensures(ConnectorOptions::insert, (o, name, value), done)) && n
                != name@ ==> #[trigger] agree_on(o@, final(o)@, n),
{
    assert forall|o: &mut ConnectorOptions, done: ()| #[trigger]
        call_ensures(ConnectorOptions::insert, (o, name, value), done) implies holds_value(
        final(o)@,
        name@,
        value,
    ) by {}
    assert forall|o: &mut ConnectorOptions, done: (), n: Seq<char>|
        (#[trigger] call_ensures(ConnectorOptions::insert, (o, name, value), done)) && n
            != name@ implies #[trigger] agree_on(o@, final(o)@, n) by {}
}

/// The option `name` is set to `value`.
pub open spec fn holds_value(options: Options, name: Seq<char>, value: OptionValue) -> bool {
    &&& options.dom().contains(name)
    &&& options[name].text is Ok <==> value.text is Ok
    &&& options[name].flag is Ok <==> value.flag is Ok
    &&& value.text is Ok ==> options[name].text->Ok_0 == value.text->Ok_0@
    &&& value.text is Err ==> options[name].text->Err_0 == value.text->Err_0@
    &&& value.flag is Ok ==> options[name].flag->Ok_0 == value.flag->Ok_0
    &&& value.flag is Err ==> options[name].flag->Err_0 == value.flag->Err_0@
}

/// Of the options before and after, `name` alone is gone, and every other is as it was.
pub open spec fn only_gone(before: Options, after: Options, name: Seq<char>) -> bool {
    &&& !after.dom().contains(name)
    &&& forall|n: Seq<char>| n != name ==> #[trigger] agree_on(before, after, n)
}

/// A string that was asked for is the one that was set, or none where none was, or the reason why
/// what was set is no string.
pub open spec fn is_text_asked_for(
    options: Options,
    name: Seq<char>,
    res: Result<Option<String>, Error>,
) -> bool {
    match res {
        Ok(Some(text)) => is_text(options, name, text@),
        Ok(None) => !options.dom().contains(name),
        Err(error) => options.dom().contains(name) && options[name].text is Err && says_invalid(
            error,
            name,
            options[name].text->Err_0,
        ),
    }
}

/// A string that has to be set and was asked for is the one that was set, or it is said that none
/// was, or why what was set is no string.
pub open spec fn is_required_text_asked_for(
    options: Options,
    name: Seq<char>,
    res: Result<String, Error>,
) -> bool {
    match res {
        Ok(text) => is_text(options, name, text@),
        Err(error) => if options.dom().contains(name) {
            options[name].text is Err && says_invalid(error, name, options[name].text->Err_0)
        } else {
            says_missing(error, name)
        },
    }
}

/// A truth value that was asked for is the one that was set, or none where none was, or the reason
/// why what was set is none.
pub open spec fn is_flag_asked_for(
    options: Options,
    name: Seq<char>,
    res: Result<Option<bool>, Error>,
) -> bool {
    match res {
        Ok(Some(flag)) => is_flag(options, name, flag),
        Ok(None) => !options.dom().contains(name),
        Err(error) => options.dom().contains(name) && options[name].flag is Err && says_invalid(
            error,
            name,
            options[name].flag->Err_0,
        ),
    }
}

/// Asking for an option gives what it was set to, and takes out that option and no other.
pub proof fn option_is_had_as_it_was_set(options: ConnectorOptions, name: &str, known: bool)
    ensures
        call_ensures(ConnectorOptions::contains, (&options, name), known) ==> known
            == options@.dom().contains(name@),
        forall|o: &mut ConnectorOptions, res: Result<Option<String>, Error>| #[trigger]
            call_ensures(ConnectorOptions::pull_opt_str, (o, name), res) ==> is_text_asked_for(
                o@,
                name@,
                res,
            ) && only_gone(o@, final(o)@, name@),
        forall|o: &mut ConnectorOptions, res: Result<String, Error>| #[trigger]
            call_ensures(ConnectorOptions::pull_str, (o, name), res) ==> is_required_text_asked_for(
                o@,
                name@,
                res,
            ) && only_gone(o@, final(o)@, name@),
        forall|o: &mut ConnectorOptions, res: Result<Option<bool>, Error>| #[trigger]
            call_ensures(ConnectorOptions::pull_opt_bool, (o, name), res) ==> is_flag_asked_for(
                o@,
                name@,
                res,
            ) && only_gone(o@, final(o)@, name@),
{
    assert forall|o: &mut ConnectorOptions, res: Result<Option<String>, Error>| #[trigger]
        call_ensures(ConnectorOptions::pull_opt_str, (o, name), res) implies is_text_asked_for(
        o@,
        name@,
        res,
    ) && only_gone(o@, final(o)@, name@) by {}
    assert forall|o: &mut ConnectorOptions, res: Result<String, Error>| #[trigger]
        call_ensures(ConnectorOptions::pull_str, (o, name), res) implies is_required_text_asked_for(
        o@,
        name@,
        res,
    ) && only_gone(o@, final(o)@, name@) by {}
    assert forall|o: &mut ConnectorOptions, res: Result<Option<bool>, Error>| #[trigger]
        call_ensures(ConnectorOptions::pull_opt_bool, (o, name), res) implies is_flag_asked_for(
        o@,
        name@,
        res,
    ) && only_gone(o@, final(o)@, name@) by {}
}

/// In which way an option has to be set.
pub enum Wanted {
    /// As a string.
    Text,
    /// As a string, if at all.
    TextIfAny,
    /// As a truth value, if at all.
    FlagIfAny,
}

/// An option, and in which way it has to be set.
pub struct Demand {
    pub name: Seq<char>,
    pub wanted: Wanted,
}

/// The option is set as it has to be.
pub open spec fn is_met(options: Options, demand: Demand) -> bool {
    match demand.wanted {
        Wanted::Text => options.dom().contains(demand.name) && options[demand.name].text is Ok,
        Wanted::TextIfAny => options.dom().contains(demand.name) ==> options[demand.name].text is Ok,
        Wanted::FlagIfAny => options.dom().contains(demand.name) ==> options[demand.name].flag is Ok,
    }
}

/// Every option is set as it has to be.
pub open spec fn all_met(options: Options, demands: Seq<Demand>) -> bool {
    forall|i: int| 0 <= i < demands.len() ==> is_met(options, #[trigger] demands[i])
}

/// The first option that is not set as it has to be is the one at `k`.
pub open spec fn first_unmet(options: Options, demands: Seq<Demand>, k: int) -> bool {
    &&& 0 <= k < demands.len()
    &&& !is_met(options, demands[k])
    &&& forall|i: int| 0 <= i < k ==> is_met(options, #[trigger] demands[i])
}

/// The error tells why the option is not set as it has to be.
pub open spec fn tells_why(options: Options, demand: Demand, error: Error) -> bool {
    if !options.dom().contains(demand.name) {
        says_missing(error, demand.name)
    } else if demand.wanted is FlagIfAny {
        says_invalid(error, demand.name, options[demand.name].flag->Err_0)
    } else {
        says_invalid(error, demand.name, options[demand.name].text->Err_0)
    }
}

/// One of the first `n` options is the one called `name`.
pub open spec fn among_first(demands: Seq<Demand>, n: int, name: Seq<char>) -> bool {
    exists|i: int| 0 <= i < n && (#[trigger] demands[i]).name == name
}

/// The first `n` options are gone, and every other is as it was.
pub open spec fn first_gone(before: Options, after: Options, demands: Seq<Demand>, n: int) -> bool {
    forall|name: Seq<char>|
        if among_first(demands, n, name) {
            !(#[trigger] after.dom().contains(name))
        } else {
            agree_on(before, after, name)
        }
}

/// The text of an option, if the option is set and is a string.
pub open spec fn given_text(options: Options, name: Seq<char>) -> Option<Seq<char>> {
    if options.dom().contains(name) && options[name].text is Ok {
        Some(options[name].text->Ok_0)
    } else {
        None
    }
}

/// The text names the use of a token.
pub open spec fn names_token(text: Option<Seq<char>>) -> bool {
    text == Some("Token"@) || text == Some("token"@)
}

/// The text names the use of a name and a password.
pub open spec fn names_basic(text: Option<Seq<char>>) -> bool {
    text == Some("Basic"@) || text == Some("basic"@)
}

/// The text names the use of OAuth2.
pub open spec fn names_oauth2(text: Option<Seq<char>>) -> bool {
    text == Some("OAuth2"@) || text == Some("oauth2"@)
}

/// The text names no authentication, or there is none.
pub open spec fn names_anonymous(text: Option<Seq<char>>) -> bool {
    text is None || text == Some("None"@) || text == Some("none"@)
}

/// A demand for a string.
pub open spec fn text(name: Seq<char>) -> Demand {
    Demand { name, wanted: Wanted::Text }
}

/// A demand for a string, if the option is set.
pub open spec fn text_if_any(name: Seq<char>) -> Demand {
    Demand { name, wanted: Wanted::TextIfAny }
}

/// A demand for a truth value, if the option is set.
pub open spec fn flag_if_any(name: Seq<char>) -> Demand {
    Demand { name, wanted: Wanted::FlagIfAny }
}

/// How the options of a connection have to be set, in the order in which they are looked at.
pub open spec fn connection_demands(options: Options) -> Seq<Demand> {
    let given = given_text(options, "authentication.type"@);
    if names_token(given) {
        seq![
            text("serviceUrl"@),
            text_if_any("namespace"@),
            text_if_any("authentication.type"@),
            text("authentication.token"@),
            text_if_any("tls.certificateChainFile"@),
            flag_if_any("tls.allowInsecureConnection"@),
            flag_if_any("tls.tlsHostnameVerificationEnabled"@),
        ]
    } else if names_basic(given) {
        seq![
            text("serviceUrl"@),
            text_if_any("namespace"@),
            text_if_any("authentication.type"@),
            text("authentication.username"@),
            text("authentication.password"@),
            text_if_any("tls.certificateChainFile"@),
            flag_if_any("tls.allowInsecureConnection"@),
            flag_if_any("tls.tlsHostnameVerificationEnabled"@),
        ]
    } else if names_oauth2(given) {
        seq![
            text("serviceUrl"@),
            text_if_any("namespace"@),
            text_if_any("authentication.type"@),
            text("authentication.issuerUrl"@),
            text("authentication.credentialsUrl"@),
            text("authentication.audience"@),
            text_if_any("authentication.scope"@),
            text_if_any("tls.certificateChainFile"@),
            flag_if_any("tls.allowInsecureConnection"@),
            flag_if_any("tls.tlsHostnameVerificationEnabled"@),
        ]
    } else if names_anonymous(given) {
        seq![
            text("serviceUrl"@),
            text_if_any("namespace"@),
            text_if_any("authentication.type"@),
            text_if_any("tls.certificateChainFile"@),
            flag_if_any("tls.allowInsecureConnection"@),
            flag_if_any("tls.tlsHostnameVerificationEnabled"@),
        ]
    } else {
        seq![
            text("serviceUrl"@),
            text_if_any("namespace"@),
            text_if_any("authentication.type"@),
        ]
    }
}

/// The options name a way to authenticate that there is.
pub open spec fn names_supported(options: Options) -> bool {
    let given = given_text(options, "authentication.type"@);
    names_token(given) || names_basic(given) || names_oauth2(given) || names_anonymous(given)
}

/// How the options of a table have to be set, in the order in which they are looked at.
pub open spec fn table_demands() -> Seq<Demand> {
    seq![text("topic"@), text("subscription"@), text_if_any("subscriptionType"@)]
}

spec fn same_demand(demand: Demand, pull: Pull) -> bool {
    &&& demand.name == pull.name
    &&& demand.wanted is Text <==> pull.kind is Required
    &&& demand.wanted is TextIfAny <==> pull.kind is Optional
    &&& demand.wanted is FlagIfAny <==> pull.kind is Flag
}

spec fn same_demands(demands: Seq<Demand>, pulls: Seq<Pull>, n: int) -> bool {
    &&& n <= demands.len()
    &&& n <= pulls.len()
    &&& forall|i: int| 0 <= i < n ==> same_demand(#[trigger] demands[i], pulls[i])
}

proof fn lemma_pulls(
    options: Options,
    current: Options,
    demands: Seq<Demand>,
    pulls: Seq<Pull>,
    i: int,
    n: int,
)
    requires
        names_differ(pulls),
        same_demands(demands, pulls, n),
        0 <= i <= n,
        forall|j: int| i <= j < n ==> agree_on(options, current, (#[trigger] pulls[j]).name),
        forall|j: int| i <= j < n ==> is_met(options, #[trigger] demands[j]),
    ensures
        ({
            let rest = left_to(current, pulls, i, n);
            &&& first_error(current, pulls, i) == first_error(rest, pulls, n)
            &&& left_after(current, pulls, i) == left_after(rest, pulls, n)
        }),
    decreases n - i,
{
    if i < n {
        let rest = current.remove(pulls[i].name);
        assert(same_demand(demands[i], pulls[i]));
        assert(agree_on(options, current, pulls[i].name));
        assert(is_met(options, demands[i]));
        assert(pull_error(current, pulls[i]) is None);
        assert forall|j: int| i + 1 <= j < n implies agree_on(
            options,
            rest,
            (#[trigger] pulls[j]).name,
        ) by {
            assert(agree_on(options, current, pulls[j].name));
            assert(pulls[i].name != pulls[j].name);
        }
        lemma_pulls(options, rest, demands, pulls, i + 1, n);
    }
}

/// The options without those that are asked for from the place `i` to the place `n`.
spec fn left_to(options: Options, pulls: Seq<Pull>, i: int, n: int) -> Options
    decreases n - i,
{
    if i >= n {
        options
    } else {
        left_to(options.remove(pulls[i].name), pulls, i + 1, n)
    }
}

proof fn lemma_left_to(options: Options, pulls: Seq<Pull>, i: int, n: int, name: Seq<char>)
    requires
        0 <= i <= n <= pulls.len(),
    ensures
        ({
            let left = left_to(options, pulls, i, n);
            &&& (exists|j: int| i <= j < n && (#[trigger] pulls[j]).name == name)
                ==> !left.dom().contains(name)
            &&& !(exists|j: int| i <= j < n && (#[trigger] pulls[j]).name == name) ==> agree_on(
                options,
                left,
                name,
            )
        }),
    decreases n - i,
{
    if i < n {
        lemma_left_to(options.remove(pulls[i].name), pulls, i + 1, n, name);
        if exists|j: int| i <= j < n && (#[trigger] pulls[j]).name == name {
            let j = choose|j: int| i <= j < n && (#[trigger] pulls[j]).name == name;
            if j == i && !(exists|j: int| i + 1 <= j < n && (#[trigger] pulls[j]).name == name) {
                assert(agree_on(
                    options.remove(pulls[i].name),
                    left_to(options.remove(pulls[i].name), pulls, i + 1, n),
                    name,
                ));
            }
        }
    }
}

/// When the first `n` options are as they have to be, what is left of all when they were asked for.
proof fn lemma_first_gone(options: Options, demands: Seq<Demand>, pulls: Seq<Pull>, n: int)
    requires
        same_demands(demands, pulls, n),
        0 <= n,
    ensures
        first_gone(options, left_to(options, pulls, 0, n), demands, n),
{
    let left = left_to(options, pulls, 0, n);
    assert forall|name: Seq<char>|
        if among_first(demands, n, name) {
            !(#[trigger] left.dom().contains(name))
        } else {
            agree_on(options, left, name)
        } by {
        lemma_left_to(options, pulls, 0, n, name);
        if among_first(demands, n, name) {
            let i = choose|i: int| 0 <= i < n && (#[trigger] demands[i]).name == name;
            assert(same_demand(demands[i], pulls[i]));
            assert(pulls[i].name == name);
        } else if exists|j: int| 0 <= j < n && (#[trigger] pulls[j]).name == name {
            let j = choose|j: int| 0 <= j < n && (#[trigger] pulls[j]).name == name;
            assert(same_demand(demands[j], pulls[j]));
            assert(demands[j].name == name);
        }
    }
}

proof fn lemma_all_met(options: Options, demands: Seq<Demand>, pulls: Seq<Pull>)
    requires
        names_differ(pulls),
        demands.len() == pulls.len(),
        same_demands(demands, pulls, pulls.len() as int),
        all_met(options, demands),
    ensures
        first_error(options, pulls, 0) is None,
        first_gone(options, left_after(options, pulls, 0), demands, demands.len() as int),
{
    let n = pulls.len() as int;
    lemma_pulls(options, options, demands, pulls, 0, n);
    lemma_first_gone(options, demands, pulls, n);
}

proof fn lemma_unmet(options: Options, demands: Seq<Demand>, pulls: Seq<Pull>, k: int)
    requires
        names_differ(pulls),
        same_demands(demands, pulls, k + 1),
        first_unmet(options, demands, k),
    ensures
        first_error(options, pulls, 0) is Some,
        first_error(options, pulls, 0) == pull_error(options, pulls[k]),
        first_gone(options, left_after(options, pulls, 0), demands, k + 1),
{
    lemma_pulls(options, options, demands, pulls, 0, k);
    lemma_left_to(options, pulls, 0, k, pulls[k].name);
    let rest = left_to(options, pulls, 0, k);
    assert(same_demand(demands[k], pulls[k]));
    assert(agree_on(options, rest, pulls[k].name)) by {
        assert(forall|j: int| 0 <= j < k ==> (#[trigger] pulls[j]).name != pulls[k].name);
    }
    assert(pull_error(options, pulls[k]) == pull_error(rest, pulls[k]));
    assert(left_after(rest, pulls, k) == rest.remove(pulls[k].name));
    lemma_first_gone(options, demands, pulls, k + 1);
    lemma_one_more(options, pulls, 0, k);
}

proof fn lemma_one_more(options: Options, pulls: Seq<Pull>, i: int, k: int)
    requires
        0 <= i <= k < pulls.len(),
    ensures
        left_to(options, pulls, i, k + 1) == left_to(options, pulls, i, k).remove(pulls[k].name),
    decreases k - i,
{
    reveal_with_fuel(left_to, 2);
    if i < k {
        lemma_one_more(options.remove(pulls[i].name), pulls, i + 1, k);
    }
}

proof fn lemma_connection_demands(options: Options)
    ensures
        ({
            let demands = connection_demands(options);
            let pulls = connection_pulls(kind_of(options));
            &&& names_differ(pulls)
            &&& same_demands(demands, pulls, 3)
            &&& is_met(options, demands[2]) ==> {
                &&& demands.len() == pulls.len()
                &&& same_demands(demands, pulls, pulls.len() as int)
                &&& names_supported(options) <==> !(kind_of(options) is Unsupported)
            }
            &&& !is_met(options, demands[2]) ==> forall|k: int|
                first_unmet(options, demands, k) ==> k <= 2
        }),
{
    connection_options_differ(kind_of(options));
}

proof fn lemma_tells_why(options: Options, demand: Demand, pull: Pull, error: Error)
    requires
        same_demand(demand, pull),
        !is_met(options, demand),
        pull_error(options, pull) == Some(error@),
    ensures
        tells_why(options, demand, error),
{
}

/// An optional string is that of the option, or none where the option is not set.
pub open spec fn is_opt_text(options: Options, name: Seq<char>, part: Option<String>) -> bool {
    match part {
        Some(part) => is_text(options, name, part@),
        None => !options.dom().contains(name),
    }
}

/// An optional variable string is that of the option, or none where the option is not set.
pub open spec fn is_opt_var(options: Options, name: Seq<char>, part: Option<VarStr>) -> bool {
    match part {
        Some(part) => is_text(options, name, part.raw@),
        None => !options.dom().contains(name),
    }
}

/// An optional truth value is that of the option, or none where the option is not set.
pub open spec fn is_opt_flag(options: Options, name: Seq<char>, part: Option<bool>) -> bool {
    match part {
        Some(part) => is_flag(options, name, part),
        None => !options.dom().contains(name),
    }
}

/// The authentication is of the kind that its option names, and each part of it is that of the
/// part's own option.
pub open spec fn is_authentication_given(
    options: Options,
    authentication: PulsarConfigAuthentication,
) -> bool {
    let given = given_text(options, "authentication.type"@);
    match authentication {
        PulsarConfigAuthentication::Anonymous => names_anonymous(given),
        PulsarConfigAuthentication::Token { token } => {
            &&& names_token(given)
            &&& is_text(options, "authentication.token"@, token.raw@)
        },
        PulsarConfigAuthentication::Basic { username, password } => {
            &&& names_basic(given)
            &&& is_text(options, "authentication.username"@, username.raw@)
            &&& is_text(options, "authentication.password"@, password.raw@)
        },
        PulsarConfigAuthentication::OAuth2 { issuer_url, credentials_url, audience, scope } => {
            &&& names_oauth2(given)
            &&& is_text(options, "authentication.issuerUrl"@, issuer_url@)
            &&& is_text(options, "authentication.credentialsUrl"@, credentials_url.raw@)
            &&& is_text(options, "authentication.audience"@, audience.raw@)
            &&& is_opt_var(options, "authentication.scope"@, scope)
        },
    }
}

/// How the broker is checked is said where one of the options for it is set, and then each part of
/// it is that of the part's own option.
pub open spec fn is_tls_given(options: Options, tls: Option<Tls>) -> bool {
    match tls {
        Some(tls) => {
            &&& is_opt_var(options, "tls.certificateChainFile"@, tls.certificate_chain_file)
            &&& is_opt_flag(options, "tls.allowInsecureConnection"@, tls.allow_insecure_connection)
            &&& is_opt_flag(
                options,
                "tls.tlsHostnameVerificationEnabled"@,
                tls.tls_hostname_verification_enabled,
            )
            &&& (options.dom().contains("tls.certificateChainFile"@) || options.dom().contains(
                "tls.allowInsecureConnection"@,
            ) || options.dom().contains("tls.tlsHostnameVerificationEnabled"@))
        },
        None => {
            &&& !options.dom().contains("tls.certificateChainFile"@)
            &&& !options.dom().contains("tls.allowInsecureConnection"@)
            &&& !options.dom().contains("tls.tlsHostnameVerificationEnabled"@)
        },
    }
}

/// Each part of the configuration is that of the part's own options.
pub open spec fn is_config_given(options: Options, config: PulsarConfig) -> bool {
    &&& is_text(options, "serviceUrl"@, config.service_url@)
    &&& is_opt_text(options, "namespace"@, config.namespace)
    &&& is_authentication_given(options, config.authentication)
    &&& is_tls_given(options, config.tls)
}

/// What reading a connection gives, and what is left of the options.
pub open spec fn reads_connection(
    before: Options,
    res: Result<PulsarConfig, Error>,
    after: Options,
) -> bool {
    let demands = connection_demands(before);
    &&& forall|k: int| #[trigger]
        first_unmet(before, demands, k) ==> {
            &&& res is Err
            &&& tells_why(before, demands[k], res->Err_0)
            &&& first_gone(before, after, demands, k + 1)
        }
    &&& all_met(before, demands) && !names_supported(before) ==> {
        &&& res is Err
        &&& res->Err_0 is UnsupportedAuthentication
        &&& is_text(before, "authentication.type"@, res->Err_0->given@)
        &&& first_gone(before, after, demands, 3)
    }
    &&& all_met(before, demands) && names_supported(before) ==> {
        &&& res is Ok
        &&& is_config_given(before, res->Ok_0)
        &&& first_gone(before, after, demands, demands.len() as int)
    }
}

pub(crate) proof fn lemma_connection_unmet(options: Options, k: int)
    requires
        first_unmet(options, connection_demands(options), k),
    ensures
        connection_of(options) is Err,
        first_gone(options, left_by_connection(options), connection_demands(options), k + 1),
        forall|error: Error|
            connection_of(options)->Err_0 == error@ ==> #[trigger] tells_why(
                options,
                connection_demands(options)[k],
                error,
            ),
{
    let demands = connection_demands(options);
    let pulls = connection_pulls(kind_of(options));
    lemma_connection_demands(options);
    if is_met(options, demands[2]) {
        lemma_unmet(options, demands, pulls, k);
    } else {
        assert(k <= 2);
        lemma_unmet(options, demands, pulls, k);
    }
    assert(same_demand(demands[k], pulls[k]));
    assert forall|error: Error| connection_of(options)->Err_0 == error@ implies #[trigger] tells_why(
        options,
        demands[k],
        error,
    ) by {
        lemma_tells_why(options, demands[k], pulls[k], error);
    }
}

pub(crate) proof fn lemma_connection_met(options: Options)
    requires
        all_met(options, connection_demands(options)),
    ensures
        connection_of(options) is Ok <==> names_supported(options),
        first_gone(
            options,
            left_by_connection(options),
            connection_demands(options),
            connection_demands(options).len() as int,
        ),
        forall|error: Error|
            connection_of(options) is Err && connection_of(options)->Err_0 == error@
                ==> #[trigger] is_refused_type(options, error),
{
    let demands = connection_demands(options);
    lemma_connection_demands(options);
    assert(is_met(options, demands[2]));
    lemma_all_met(options, demands, connection_pulls(kind_of(options)));
}

/// The error says that what the options name is no way to authenticate.
pub open spec fn is_refused_type(options: Options, error: Error) -> bool {
    error is UnsupportedAuthentication && is_text(options, "authentication.type"@, error->given@)
}

pub(crate) proof fn lemma_config_given(options: Options, config: PulsarConfig)
    requires
        all_met(options, connection_demands(options)),
        names_supported(options),
        connection_of(options) is Ok,
        connection_of(options)->Ok_0 == config@,
    ensures
        is_config_given(options, config),
{
    let demands = connection_demands(options);
    let given = given_text(options, "authentication.type"@);
    let n = demands.len() as int;
    lemma_connection_demands(options);
    assert(is_met(options, demands[0]));
    assert(is_met(options, demands[1]));
    assert(is_met(options, demands[2]));
    assert(is_met(options, demands[n - 3]));
    assert(is_met(options, demands[n - 2]));
    assert(is_met(options, demands[n - 1]));
    if names_token(given) {
        assert(is_met(options, demands[3]));
    } else if names_basic(given) {
        assert(is_met(options, demands[3]));
        assert(is_met(options, demands[4]));
    } else if names_oauth2(given) {
        assert(is_met(options, demands[3]));
        assert(is_met(options, demands[4]));
        assert(is_met(options, demands[5]));
        assert(is_met(options, demands[6]));
    }
    assert(is_authentication_given(options, config.authentication));
    assert(is_tls_given(options, config.tls));
}

/// Reading a connection gives a configuration each part of which is that of its own options, where
/// every option is set as it has to be and a way to authenticate that there is is named. Else the
/// first option that is not set as it has to be is told, and why, or what was named. The options
/// that were looked at are gone, and every other is as it was.
pub proof fn connection_says_what_its_options_say()
    ensures
        forall|o: &mut ConnectorOptions, res: Result<PulsarConfig, Error>| #[trigger]
            call_ensures(PulsarConnector::connection_from_options, (o,), res) ==> reads_connection(
                o@,
                res,
                final(o)@,
            ),
{
    assert forall|o: &mut ConnectorOptions, res: Result<PulsarConfig, Error>| #[trigger]
        call_ensures(PulsarConnector::connection_from_options, (o,), res) implies reads_connection(
        o@,
        res,
        final(o)@,
    ) by {
        let demands = connection_demands(o@);
        assert(config_result(res) == connection_of(o@));
        assert forall|k: int| #[trigger] first_unmet(o@, demands, k) implies {
            &&& res is Err
            &&& tells_why(o@, demands[k], res->Err_0)
            &&& first_gone(o@, final(o)@, demands, k + 1)
        } by {
            lemma_connection_unmet(o@, k);
            assert(tells_why(o@, demands[k], res->Err_0));
        }
        if all_met(o@, demands) {
            lemma_connection_met(o@);
            if names_supported(o@) {
                lemma_config_given(o@, res->Ok_0);
            } else {
                assert(is_refused_type(o@, res->Err_0));
            }
        }
    }
}

/// Each part of how the broker is checked holds its own option: a truth value that was set is said
/// as it was set, a file that was set is the one that is named, and what was not set is not said.
pub open spec fn tls_holds_its_options(options: Options, config: PulsarConfig) -> bool {
    &&& forall|flag: bool| #[trigger]
        is_flag(options, "tls.allowInsecureConnection"@, flag) ==> config.tls is Some
            && config.tls->Some_0.allow_insecure_connection == Some(flag)
    &&& forall|flag: bool| #[trigger]
        is_flag(options, "tls.tlsHostnameVerificationEnabled"@, flag) ==> config.tls is Some
            && config.tls->Some_0.tls_hostname_verification_enabled == Some(flag)
    &&& forall|file: Seq<char>| #[trigger]
        is_text(options, "tls.certificateChainFile"@, file) ==> config.tls is Some
            && config.tls->Some_0.certificate_chain_file is Some
            && config.tls->Some_0.certificate_chain_file->Some_0.raw@ == file
    &&& config.tls is Some && !options.dom().contains("tls.allowInsecureConnection"@)
        ==> config.tls->Some_0.allow_insecure_connection is None
    &&& config.tls is Some && !options.dom().contains("tls.tlsHostnameVerificationEnabled"@)
        ==> config.tls->Some_0.tls_hostname_verification_enabled is None
    &&& config.tls is Some && !options.dom().contains("tls.certificateChainFile"@)
        ==> config.tls->Some_0.certificate_chain_file is None
}

/// In every configuration that is read, each part of how the broker is checked holds its own
/// option.
pub proof fn broker_is_checked_as_the_options_say()
    ensures
        forall|o: &mut ConnectorOptions, res: Result<PulsarConfig, Error>| #[trigger]
            call_ensures(PulsarConnector::connection_from_options, (o,), res) && res is Ok
                ==> tls_holds_its_options(o@, res->Ok_0),
{
    assert forall|o: &mut ConnectorOptions, res: Result<PulsarConfig, Error>| #[trigger]
        call_ensures(PulsarConnector::connection_from_options, (o,), res) && res is Ok implies
        tls_holds_its_options(o@, res->Ok_0) by {
        connection_says_what_its_options_say();
        assert(reads_connection(o@, res, final(o)@));
        lemma_some_unmet(o@, connection_demands(o@));
        assert(is_config_given(o@, res->Ok_0));
    }
}

/// Either every option is set as it has to be, or there is a first that is not.
pub(crate) proof fn lemma_some_unmet(options: Options, demands: Seq<Demand>)
    ensures
        all_met(options, demands) || exists|k: int| #[trigger] first_unmet(options, demands, k),
{
    if !all_met(options, demands) {
        let i = choose|i: int| 0 <= i < demands.len() && !is_met(options, #[trigger] demands[i]);
        lemma_unmet_up_to(options, demands, i);
    }
}

proof fn lemma_unmet_up_to(options: Options, demands: Seq<Demand>, i: int)
    requires
        0 <= i < demands.len(),
        !is_met(options, demands[i]),
    ensures
        exists|k: int| #[trigger] first_unmet(options, demands, k),
    decreases i,
{
    if exists|j: int| 0 <= j < i && !is_met(options, #[trigger] demands[j]) {
        let j = choose|j: int| 0 <= j < i && !is_met(options, #[trigger] demands[j]);
        lemma_unmet_up_to(options, demands, j);
    } else {
        assert(first_unmet(options, demands, i));
    }
}

/// The subscription type is the one that its option names, the exclusive one where the option names
/// none that there is, and not said where the option is not set.
pub open spec fn is_subscription_type_given(
    options: Options,
    kind: Option<SubscriptionType>,
) -> bool {
    let given = given_text(options, "subscriptionType"@);
    &&& kind is Some <==> options.dom().contains("subscriptionType"@)
    &&& kind == Some(SubscriptionType::Failover) <==> given == Some("Failover"@)
    &&& kind == Some(SubscriptionType::Shared) <==> given == Some("Shared"@)
    &&& kind == Some(SubscriptionType::KeyShared) <==> given == Some("KeyShared"@)
}

/// Each part of the table is that of the part's own option.
pub open spec fn is_table_given(options: Options, table: PulsarTable) -> bool {
    &&& is_text(options, "topic"@, table.topic@)
    &&& is_text(options, "subscription"@, table.subscription@)
    &&& is_subscription_type_given(options, table.subscription_type)
}

/// What reading a table gives, and what is left of the options.
pub open spec fn reads_table(
    before: Options,
    res: Result<PulsarTable, Error>,
    after: Options,
) -> bool {
    let demands = table_demands();
    &&& forall|k: int| #[trigger]
        first_unmet(before, demands, k) ==> {
            &&& res is Err
            &&& tells_why(before, demands[k], res->Err_0)
            &&& first_gone(before, after, demands, k + 1)
        }
    &&& all_met(before, demands) ==> {
        &&& res is Ok
        &&& is_table_given(before, res->Ok_0)
        &&& first_gone(before, after, demands, demands.len() as int)
    }
}

pub(crate) proof fn lemma_table_unmet(options: Options, k: int)
    requires
        first_unmet(options, table_demands(), k),
    ensures
        table_of(options) is Err,
        first_gone(options, left_by_table(options), table_demands(), k + 1),
        forall|error: Error|
            table_of(options)->Err_0 == error@ ==> #[trigger] tells_why(
                options,
                table_demands()[k],
                error,
            ),
{
    let demands = table_demands();
    let pulls = table_pulls();
    table_options_differ(AuthenticationKind::Anonymous);
    assert(same_demands(demands, pulls, 3));
    lemma_unmet(options, demands, pulls, k);
    assert(same_demand(demands[k], pulls[k]));
    assert forall|error: Error| table_of(options)->Err_0 == error@ implies #[trigger] tells_why(
        options,
        demands[k],
        error,
    ) by {
        lemma_tells_why(options, demands[k], pulls[k], error);
    }
}

pub(crate) proof fn lemma_table_met(options: Options)
    requires
        all_met(options, table_demands()),
    ensures
        table_of(options) is Ok,
        first_gone(options, left_by_table(options), table_demands(), 3),
{
    table_options_differ(AuthenticationKind::Anonymous);
    assert(same_demands(table_demands(), table_pulls(), 3));
    lemma_all_met(options, table_demands(), table_pulls());
}

pub(crate) proof fn lemma_table_given(options: Options, table: PulsarTable)
    requires
        all_met(options, table_demands()),
        table_of(options) is Ok,
        table_of(options)->Ok_0 == table@,
    ensures
        is_table_given(options, table),
{
    let demands = table_demands();
    assert(is_met(options, demands[0]));
    assert(is_met(options, demands[1]));
    assert(is_met(options, demands[2]));
    reveal_strlit("Failover");
    reveal_strlit("Shared");
    reveal_strlit("KeyShared");
    assert("Failover"@.len() == 8 && "Shared"@.len() == 6 && "KeyShared"@.len() == 9);
}

/// Reading a table gives one each part of which is that of its own option, where every option is
/// set as it has to be. Else the first that is not is told, and why. The options that were looked
/// at are gone, and every other is as it was.
pub proof fn table_says_what_its_options_say()
    ensures
        forall|o: &mut ConnectorOptions, res: Result<PulsarTable, Error>| #[trigger]
            call_ensures(PulsarConnector::table_from_options, (o,), res) ==> reads_table(
                o@,
                res,
                final(o)@,
            ),
{
    assert forall|o: &mut ConnectorOptions, res: Result<PulsarTable, Error>| #[trigger]
        call_ensures(PulsarConnector::table_from_options, (o,), res) implies reads_table(
        o@,
        res,
        final(o)@,
    ) by {
        let demands = table_demands();
        assert(table_result(res) == table_of(o@));
        assert forall|k: int| #[trigger] first_unmet(o@, demands, k) implies {
            &&& res is Err
            &&& tells_why(o@, demands[k], res->Err_0)
            &&& first_gone(o@, final(o)@, demands, k + 1)
        } by {
            lemma_table_unmet(o@, k);
            assert(tells_why(o@, demands[k], res->Err_0));
        }
        if all_met(o@, demands) {
            lemma_table_met(o@);
            lemma_table_given(o@, res->Ok_0);
        }
    }
}

} // verus!
