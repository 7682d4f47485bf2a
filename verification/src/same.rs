//! When two values say the same.

use crate::config::{PulsarConfig, PulsarConfigAuthentication, PulsarTable, Tls, VarStr};
use crate::schema::{json_list, ConnectionSchema, Json};
use vstd::prelude::*;

verus! {

/// Two optional strings hold the same text, or neither is there.
pub open spec fn same_opt_text(a: Option<String>, b: Option<String>) -> bool {
    &&& a is Some <==> b is Some
    &&& a is Some ==> a->Some_0@ == b->Some_0@
}

/// Two optional variable strings hold the same text, or neither is there.
pub open spec fn same_opt_var(a: Option<VarStr>, b: Option<VarStr>) -> bool {
    &&& a is Some <==> b is Some
    &&& a is Some ==> a->Some_0.raw@ == b->Some_0.raw@
}

/// Two optional values that are handed on hold the same text, or neither is there.
pub open spec fn same_opt_json(a: Option<Json>, b: Option<Json>) -> bool {
    &&& a is Some <==> b is Some
    &&& a is Some ==> a->Some_0.text@ == b->Some_0.text@
}

/// Two lists of values that are handed on are equally long and hold the same texts.
pub open spec fn same_json_list(a: Seq<Json>, b: Seq<Json>) -> bool {
    &&& a.len() == b.len()
    &&& forall|i: int| 0 <= i < a.len() ==> (#[trigger] a[i]).text@ == b[i].text@
}

/// Two ways to authenticate are of the same kind, with the same texts.
pub open spec fn same_authentication(
    a: PulsarConfigAuthentication,
    b: PulsarConfigAuthentication,
) -> bool {
    match (a, b) {
        (PulsarConfigAuthentication::Anonymous, PulsarConfigAuthentication::Anonymous) => true,
        (
            PulsarConfigAuthentication::Token { token: s },
            PulsarConfigAuthentication::Token { token: t },
        ) => s.raw@ == t.raw@,
        (
            PulsarConfigAuthentication::Basic { username: s, password: p },
            PulsarConfigAuthentication::Basic { username: t, password: q },
        ) => s.raw@ == t.raw@ && p.raw@ == q.raw@,
        (
            PulsarConfigAuthentication::OAuth2 {
                issuer_url: i,
                credentials_url: c,
                audience: a,
                scope: s,
            },
            PulsarConfigAuthentication::OAuth2 {
                issuer_url: j,
                credentials_url: d,
                audience: b,
                scope: t,
            },
        ) => i@ == j@ && c.raw@ == d.raw@ && a.raw@ == b.raw@ && same_opt_var(s, t),
        _ => false,
    }
}

/// Two ways to check a broker say the same, or neither is there.
pub open spec fn same_opt_tls(a: Option<Tls>, b: Option<Tls>) -> bool {
    match (a, b) {
        (None, None) => true,
        (Some(s), Some(t)) => {
            &&& same_opt_var(s.certificate_chain_file, t.certificate_chain_file)
            &&& s.allow_insecure_connection == t.allow_insecure_connection
            &&& s.tls_hostname_verification_enabled == t.tls_hostname_verification_enabled
        },
        _ => false,
    }
}

/// Two configurations say the same.
pub open spec fn same_config(a: PulsarConfig, b: PulsarConfig) -> bool {
    &&& a.service_url@ == b.service_url@
    &&& same_opt_text(a.namespace, b.namespace)
    &&& same_authentication(a.authentication, b.authentication)
    &&& same_opt_tls(a.tls, b.tls)
}

/// Configurations with equal views say the same.
pub proof fn config_shows_all_it_holds(a: PulsarConfig, b: PulsarConfig)
    ensures
        a@ == b@ <==> same_config(a, b),
{
    if same_config(a, b) {
        assert(a@.namespace == b@.namespace);
        assert(a@.authentication == b@.authentication);
        assert(a@.tls == b@.tls);
    }
}

pub(crate) proof fn lemma_json_lists(a: Seq<Json>, b: Seq<Json>)
    requires
        json_list(a) == json_list(b),
    ensures
        same_json_list(a, b),
{
    let va = json_list(a);
    let vb = json_list(b);
    assert(va.len() == a.len() && vb.len() == b.len());
    assert forall|i: int| 0 <= i < a.len() implies (#[trigger] a[i]).text@ == b[i].text@ by {
        assert(va[i] == a[i].text@);
        assert(vb[i] == b[i].text@);
    }
}

/// Two tables say the same.
pub open spec fn same_table(a: PulsarTable, b: PulsarTable) -> bool {
    &&& a.topic@ == b.topic@
    &&& a.subscription@ == b.subscription@
    &&& a.subscription_type == b.subscription_type
}

/// Two schemas say the same.
pub open spec fn same_schema(a: ConnectionSchema, b: ConnectionSchema) -> bool {
    &&& same_opt_json(a.format, b.format)
    &&& same_opt_json(a.bad_data, b.bad_data)
    &&& same_opt_json(a.framing, b.framing)
    &&& same_json_list(a.metadata_fields@, b.metadata_fields@)
    &&& a.definition.text@ == b.definition.text@
}

} // verus!
