//! What setting up a client asks for and what it builds, told by the answers that it was given.

use crate::config::{PulsarConfig, PulsarConfigAuthentication, VarStr};
use crate::connect::{
    certificate_file, connect, connect_builds, connect_goes_on, needs_of, ClientAuthentication,
    ClientSettings, ConnectAction, ConnectEvent, ConnectProgress, ConnectStep,
};
use vstd::prelude::*;
use vstd::utf8::encode_utf8;

verus! {

/// The event is one that the action asks for. Nothing answers the end.
pub open spec fn answers_connect(event: ConnectEvent, action: ConnectAction) -> bool {
    match action {
        ConnectAction::Resolve { text } => event is Resolved,
        ConnectAction::LoadCertificateChain { path } => event is Loaded,
        ConnectAction::Build(settings) => event is Built,
        ConnectAction::Finish(outcome) => false,
    }
}

/// How a client was set up: where that began, what happened, and the step that each event led to.
pub struct ConnectHistory {
    pub start: ConnectProgress,
    pub events: Seq<ConnectEvent>,
    pub steps: Seq<(ConnectProgress, ConnectAction)>,
}

impl ConnectHistory {
    /// How far things had come before the event at `i`.
    pub open spec fn before(self, i: int) -> ConnectProgress {
        if i <= 0 {
            self.start
        } else {
            self.steps[i - 1].0
        }
    }

    /// The event at `i` answers what was done before it, and led to the step at `i`.
    pub open spec fn steps_at(self, config: PulsarConfig, i: int) -> bool {
        &&& i == 0 ==> self.events[0] is Begun
        &&& i > 0 ==> answers_connect(self.events[i], self.steps[i - 1].1)
        &&& call_ensures(connect, (&config, self.before(i), self.events[i]), self.steps[i])
    }

    /// A client was set up with `config`, from the very beginning.
    pub open spec fn is_of(self, config: PulsarConfig) -> bool {
        &&& call_ensures(ConnectProgress::new, (), self.start)
        &&& self.events.len() == self.steps.len()
        &&& forall|i: int| 0 <= i < self.steps.len() ==> #[trigger] self.steps_at(config, i)
    }

    /// What is done at `i`.
    pub open spec fn action(self, i: int) -> ConnectAction {
        self.steps[i].1
    }

    /// What is done at `i` is to put the environment variables into `text`.
    pub open spec fn resolves(self, i: int, text: Seq<char>) -> bool {
        self.action(i) is Resolve && self.action(i)->text@ == text
    }

    /// The question that was asked at `i` has been answered with a text.
    pub open spec fn came_out(self, i: int) -> bool {
        &&& 0 <= i
        &&& i + 1 < self.steps.len()
        &&& self.events[i + 1] is Resolved
        &&& self.events[i + 1]->Resolved_0 is Ok
    }

    /// The text with which the question at `i` was answered.
    pub open spec fn text_at(self, i: int) -> Seq<char> {
        self.events[i + 1]->Resolved_0->Ok_0@
    }

    /// The first `n` questions were all answered with a text.
    pub open spec fn came_out_to(self, n: int) -> bool {
        forall|i: int| 0 <= i < n ==> #[trigger] self.came_out(i)
    }

    /// The question at `i` was answered with a failure, and that is how it all ends, with these
    /// words and that cause.
    pub open spec fn refused(self, i: int, words: Seq<char>) -> bool {
        i + 1 < self.steps.len() && self.events[i + 1] is Resolved
            && self.events[i + 1]->Resolved_0 is Err ==> ends_with(
            self.action(i + 1),
            words,
            self.events[i + 1]->Resolved_0->Err_0@,
        )
    }
}

/// The action is to end with this failure.
pub open spec fn ends_with(action: ConnectAction, context: Seq<char>, cause: Seq<char>) -> bool {
    &&& action is Finish
    &&& action->Finish_0 is Err
    &&& action->Finish_0->Err_0.context@ == context
    &&& action->Finish_0->Err_0.cause@ == cause
}

/// The file with certificates that a configuration names, if it names one.
pub open spec fn trusted_file(config: PulsarConfig) -> Option<VarStr> {
    if config.tls is Some {
        config.tls->Some_0.certificate_chain_file
    } else {
        None
    }
}

/// What the first questions were answered with, in a form that steps are told in.
spec fn answers(history: ConnectHistory, n: int) -> Seq<Seq<char>> {
    Seq::new(n as nat, |i: int| history.text_at(i))
}

spec fn step_view(history: ConnectHistory, i: int) -> ConnectStep {
    ConnectStep { progress: history.steps[i].0@, action: history.steps[i].1@ }
}

proof fn lemma_place(history: ConnectHistory, config: PulsarConfig, k: int)
    requires
        history.is_of(config),
        0 <= k < history.steps.len(),
    ensures
        ({
            let n = needs_of(config@).len() as int;
            ||| {
                &&& k <= n
                &&& history.came_out_to(k)
                &&& step_view(history, k) == connect_goes_on(config@, answers(history, k))
            }
            ||| history.action(k) is Finish
            ||| {
                &&& k == n + 1
                &&& history.came_out_to(n)
                &&& history.events[k] is Loaded
                &&& history.events[k]->Loaded_0 is Ok
                &&& certificate_file(config@) is Some
                &&& step_view(history, k) == connect_builds(config@, answers(history, n))
            }
        }),
    decreases k,
{
    let n = needs_of(config@).len() as int;
    assert(history.steps_at(config, k));
    if k == 0 {
        assert(answers(history, 0) =~= seq![]);
    } else {
        lemma_place(history, config, k - 1);
        if history.events[k] is Resolved && history.events[k]->Resolved_0 is Ok {
            assert(history.came_out(k - 1));
            assert(answers(history, k) =~= answers(history, k - 1).push(history.text_at(k - 1)));
        }
    }
}

proof fn lemma_good_answers(history: ConnectHistory, config: PulsarConfig, k: int)
    requires
        history.is_of(config),
        0 <= k < history.steps.len(),
        k <= needs_of(config@).len(),
        history.came_out_to(k),
    ensures
        step_view(history, k) == connect_goes_on(config@, answers(history, k)),
    decreases k,
{
    assert(history.steps_at(config, k));
    if k == 0 {
        assert(answers(history, 0) =~= seq![]);
    } else {
        assert(history.came_out(k - 1));
        lemma_good_answers(history, config, k - 1);
        assert(answers(history, k) =~= answers(history, k - 1).push(history.text_at(k - 1)));
    }
}

/// The question at `k` is the one with this text, and its failure is told in these words.
pub open spec fn asks(
    history: ConnectHistory,
    k: int,
    text: Seq<char>,
    words: Seq<char>,
) -> bool {
    history.came_out_to(k) && k < history.steps.len() ==> history.resolves(k, text)
        && history.refused(k, words)
}

proof fn lemma_asks(history: ConnectHistory, config: PulsarConfig, k: int)
    requires
        history.is_of(config),
        0 <= k < needs_of(config@).len(),
    ensures
        asks(history, k, needs_of(config@)[k].text, needs_of(config@)[k].context),
{
    if history.came_out_to(k) && k < history.steps.len() {
        lemma_good_answers(history, config, k);
        if k + 1 < history.steps.len() {
            assert(history.steps_at(config, k + 1));
        }
    }
}

/// When the first `n` questions came out, and those are the ones of the authentication, the file
/// with certificates is next, if one is named, and else the client.
pub open spec fn goes_on_after(history: ConnectHistory, config: PulsarConfig, n: int) -> bool {
    match trusted_file(config) {
        Some(file) => {
            &&& asks(history, n, file.raw@, "invalid Pulsar certificate chain file"@)
            &&& history.came_out_to(n + 1) && n + 1 < history.steps.len() ==> history.action(n + 1)
                is LoadCertificateChain
        },
        None => history.came_out_to(n) && n < history.steps.len() ==> history.action(n) is Build,
    }
}

proof fn lemma_goes_on(history: ConnectHistory, config: PulsarConfig, n: int)
    requires
        history.is_of(config),
        trusted_file(config) is Some ==> n == needs_of(config@).len() - 1 && needs_of(
            config@,
        )[n].context == "invalid Pulsar certificate chain file"@ && needs_of(config@)[n].text
            == trusted_file(config)->Some_0.raw@,
        trusted_file(config) is None ==> n == needs_of(config@).len(),
    ensures
        goes_on_after(history, config, n),
{
    if trusted_file(config) is Some {
        lemma_asks(history, config, n);
        if history.came_out_to(n + 1) && n + 1 < history.steps.len() {
            lemma_good_answers(history, config, n + 1);
        }
    } else {
        if history.came_out_to(n) && n < history.steps.len() {
            lemma_good_answers(history, config, n);
        }
    }
}

/// Without authentication nothing is asked for on its account, and the client that is built proves
/// nothing.
pub proof fn anonymous_client_proves_nothing(history: ConnectHistory, config: PulsarConfig, k: int)
    requires
        history.is_of(config),
        config.authentication is Anonymous,
    ensures
        goes_on_after(history, config, 0),
        0 <= k < history.steps.len() && history.action(k) is Build ==> history.action(
            k,
        )->Build_0.authentication is None,
{
    lemma_goes_on(history, config, 0);
    if 0 <= k < history.steps.len() {
        lemma_place(history, config, k);
    }
}

/// The settings have a client send `data` as it stands, under the name of `method`.
pub open spec fn proves_with(
    settings: ClientSettings,
    method: Seq<char>,
    data: Seq<u8>,
) -> bool {
    &&& settings.authentication is Some
    &&& settings.authentication->Some_0 matches ClientAuthentication::Static { method: m, data: d }
    &&& m@ == method
    &&& d@ == data
}

/// With a token, the token's own text is asked for first, whatever is said of the broker, and the
/// client that is built sends what that came out as.
pub proof fn token_client_sends_the_token(
    history: ConnectHistory,
    config: PulsarConfig,
    token: VarStr,
    k: int,
)
    requires
        history.is_of(config),
        config.authentication == (PulsarConfigAuthentication::Token { token }),
    ensures
        asks(history, 0, token.raw@, "invalid Pulsar token"@),
        goes_on_after(history, config, 1),
        0 <= k < history.steps.len() && history.action(k) is Build ==> history.came_out_to(1)
            && proves_with(
            history.action(k)->Build_0,
            "token"@,
            encode_utf8(history.text_at(0)),
        ),
{
    lemma_asks(history, config, 0);
    lemma_goes_on(history, config, 1);
    if 0 <= k < history.steps.len() && history.action(k) is Build {
        lemma_place(history, config, k);
    }
}

/// With a name and a password, first the name's own text is asked for and then the password's,
/// whatever is said of the broker, and the client that is built sends what these came out as, with
/// a colon between them.
pub proof fn basic_client_sends_name_and_password(
    history: ConnectHistory,
    config: PulsarConfig,
    username: VarStr,
    password: VarStr,
    k: int,
)
    requires
        history.is_of(config),
        config.authentication == (PulsarConfigAuthentication::Basic { username, password }),
    ensures
        asks(history, 0, username.raw@, "invalid Pulsar username"@),
        asks(history, 1, password.raw@, "invalid Pulsar password"@),
        goes_on_after(history, config, 2),
        0 <= k < history.steps.len() && history.action(k) is Build ==> history.came_out_to(2)
            && proves_with(
            history.action(k)->Build_0,
            "basic"@,
            encode_utf8(history.text_at(0) + ":"@ + history.text_at(1)),
        ),
{
    lemma_asks(history, config, 0);
    lemma_asks(history, config, 1);
    lemma_goes_on(history, config, 2);
    if 0 <= k < history.steps.len() && history.action(k) is Build {
        lemma_place(history, config, k);
    }
}

/// The settings have a client turn to an issuer, with these credentials, for this audience and,
/// where one is given, this scope.
pub open spec fn turns_to(
    settings: ClientSettings,
    issuer: Seq<char>,
    credentials: Seq<char>,
    audience: Seq<char>,
    scope: Option<Seq<char>>,
) -> bool {
    &&& settings.authentication is Some
    &&& settings.authentication->Some_0 matches ClientAuthentication::OAuth2 {
        issuer_url,
        credentials_url,
        audience: a,
        scope: s,
    }
    &&& issuer_url@ == issuer
    &&& credentials_url@ == credentials
    &&& a is Some
    &&& a->Some_0@ == audience
    &&& s is Some <==> scope is Some
    &&& s is Some ==> s->Some_0@ == scope->Some_0
}

/// With OAuth2 and a scope, the texts of the credentials, the audience and the scope are asked for
/// in this order, whatever is said of the broker, and the client that is built has what each came
/// out as, and the issuer as it was written.
pub proof fn oauth2_client_has_its_scope(
    history: ConnectHistory,
    config: PulsarConfig,
    issuer_url: String,
    credentials_url: VarStr,
    audience: VarStr,
    scope: VarStr,
    k: int,
)
    requires
        history.is_of(config),
        config.authentication == (PulsarConfigAuthentication::OAuth2 {
            issuer_url,
            credentials_url,
            audience,
            scope: Some(scope),
        }),
    ensures
        asks(history, 0, credentials_url.raw@, "invalid Pulsar OAuth2 credentials URL"@),
        asks(history, 1, audience.raw@, "invalid Pulsar OAuth2 audience"@),
        asks(history, 2, scope.raw@, "invalid Pulsar OAuth2 scope"@),
        goes_on_after(history, config, 3),
        0 <= k < history.steps.len() && history.action(k) is Build ==> history.came_out_to(3)
            && turns_to(
            history.action(k)->Build_0,
            issuer_url@,
            history.text_at(0),
            history.text_at(1),
            Some(history.text_at(2)),
        ),
{
    lemma_asks(history, config, 0);
    lemma_asks(history, config, 1);
    lemma_asks(history, config, 2);
    lemma_goes_on(history, config, 3);
    if 0 <= k < history.steps.len() && history.action(k) is Build {
        lemma_place(history, config, k);
    }
}

/// With OAuth2 and no scope, the texts of the credentials and of the audience are asked for in this
/// order, whatever is said of the broker, and the client that is built has what each came out as,
/// the issuer as it was written, and no scope.
pub proof fn oauth2_client_without_scope(
    history: ConnectHistory,
    config: PulsarConfig,
    issuer_url: String,
    credentials_url: VarStr,
    audience: VarStr,
    k: int,
)
    requires
        history.is_of(config),
        config.authentication == (PulsarConfigAuthentication::OAuth2 {
            issuer_url,
            credentials_url,
            audience,
            scope: None,
        }),
    ensures
        asks(history, 0, credentials_url.raw@, "invalid Pulsar OAuth2 credentials URL"@),
        asks(history, 1, audience.raw@, "invalid Pulsar OAuth2 audience"@),
        goes_on_after(history, config, 2),
        0 <= k < history.steps.len() && history.action(k) is Build ==> history.came_out_to(2)
            && turns_to(
            history.action(k)->Build_0,
            issuer_url@,
            history.text_at(0),
            history.text_at(1),
            None,
        ),
{
    lemma_asks(history, config, 0);
    lemma_asks(history, config, 1);
    lemma_goes_on(history, config, 2);
    if 0 <= k < history.steps.len() && history.action(k) is Build {
        lemma_place(history, config, k);
    }
}

/// The client that is built goes to the configuration's own address, and checks the broker as its
/// configuration says, part by part, whichever way it authenticates.
pub proof fn client_checks_the_broker_as_configured(
    history: ConnectHistory,
    config: PulsarConfig,
    k: int,
)
    requires
        history.is_of(config),
        0 <= k < history.steps.len(),
        history.action(k) is Build,
    ensures
        history.action(k)->Build_0.service_url@ == config.service_url@,
        config.tls is None ==> history.action(k)->Build_0.allow_insecure_connection is None,
        config.tls is None ==> history.action(k)->Build_0.tls_hostname_verification_enabled is None,
        config.tls is Some ==> history.action(k)->Build_0.allow_insecure_connection
            == config.tls->Some_0.allow_insecure_connection,
        config.tls is Some ==> history.action(k)->Build_0.tls_hostname_verification_enabled
            == config.tls->Some_0.tls_hostname_verification_enabled,
{
    lemma_place(history, config, k);
}

/// Certificates are read from the file that is named and from no other: the last question is the
/// file's own text, and the file that is read is what that came out as. Where a file is named, no
/// client is built before its certificates were read.
pub proof fn certificates_come_from_the_file_named(
    history: ConnectHistory,
    config: PulsarConfig,
    k: int,
)
    requires
        history.is_of(config),
        0 <= k < history.steps.len(),
    ensures
        history.action(k) is LoadCertificateChain ==> {
            &&& trusted_file(config) is Some
            &&& k >= 1
            &&& history.resolves(k - 1, trusted_file(config)->Some_0.raw@)
            &&& history.came_out(k - 1)
            &&& history.action(k)->path@ == history.text_at(k - 1)
        },
        history.action(k) is Build && trusted_file(config) is Some ==> {
            &&& k >= 2
            &&& history.action(k - 1) is LoadCertificateChain
            &&& history.events[k] is Loaded
            &&& history.events[k]->Loaded_0 is Ok
        },
{
    lemma_place(history, config, k);
    let n = needs_of(config@).len() as int;
    if history.action(k) is LoadCertificateChain {
        assert(history.came_out(k - 1));
        lemma_good_answers(history, config, k - 1);
    }
    if history.action(k) is Build && trusted_file(config) is Some {
        lemma_good_answers(history, config, n);
    }
}

/// A file that cannot be read and a client that cannot be built end it, each in its own words and
/// with its own cause. When the file was read the client is built, and when that is done all is
/// well.
pub proof fn client_is_built_or_told_why_not(
    config: PulsarConfig,
    progress: ConnectProgress,
    cause: String,
    done: Result<(), String>,
    res: (ConnectProgress, ConnectAction),
)
    ensures
        call_ensures(connect, (&config, progress, ConnectEvent::Loaded(Err(cause))), res)
            ==> ends_with(res.1, "failed to read Pulsar certificate chain"@, cause@),
        call_ensures(connect, (&config, progress, ConnectEvent::Built(Err(cause))), res)
            ==> ends_with(res.1, "failed to connect to Pulsar"@, cause@),
        call_ensures(connect, (&config, progress, ConnectEvent::Loaded(done)), res) && done is Ok
            ==> res.1 is Build,
        call_ensures(connect, (&config, progress, ConnectEvent::Built(done)), res) && done is Ok
            ==> res.1 is Finish && res.1->Finish_0 is Ok,
{
}

/// At the beginning it is expected that a client is wanted, and nothing else. Afterwards exactly
/// what answers the last action is expected, and after the end nothing.
pub proof fn connect_expects_the_answer(
    history: ConnectHistory,
    config: PulsarConfig,
    k: int,
    event: ConnectEvent,
    expected: bool,
)
    requires
        history.is_of(config),
    ensures
        call_ensures(ConnectProgress::expects, (&history.start, &config, &event), expected)
            ==> expected == (event is Begun),
        0 <= k < history.steps.len() && call_ensures(
            ConnectProgress::expects,
            (&history.steps[k].0, &config, &event),
            expected,
        ) ==> expected == answers_connect(event, history.action(k)),
{
    if 0 <= k < history.steps.len() {
        assert(history.steps_at(config, k));
        lemma_place(history, config, k);
        if history.action(k) is Finish && k >= 1 {
            lemma_place(history, config, k - 1);
        }
    }
}

/// How many questions there are to a configuration: one for each text of its authentication that
/// may refer to environment variables, and one for the file with certificates, if one is named.
pub open spec fn questions(config: PulsarConfig) -> int {
    let file: int = if trusted_file(config) is Some { 1 } else { 0 };
    match config.authentication {
        PulsarConfigAuthentication::Anonymous => file,
        PulsarConfigAuthentication::Token { token } => 1 + file,
        PulsarConfigAuthentication::Basic { username, password } => 2 + file,
        PulsarConfigAuthentication::OAuth2 { issuer_url, credentials_url, audience, scope } => if scope
            is Some {
            3 + file
        } else {
            2 + file
        },
    }
}

/// What came of setting up a client with one configuration is taken for another only where it could
/// have come of that one: while texts are asked for, where the other has more of them than were
/// answered, and afterwards where it has as many, and names a file if one is being read.
pub proof fn progress_fits_as_many_questions(
    history: ConnectHistory,
    config: PulsarConfig,
    other: PulsarConfig,
    k: int,
    event: ConnectEvent,
    expected: bool,
)
    requires
        history.is_of(config),
        0 <= k < history.steps.len(),
        call_ensures(
            ConnectProgress::expects,
            (&history.steps[k].0, &other, &event),
            expected,
        ),
    ensures
        history.action(k) is Resolve ==> expected == (event is Resolved && k < questions(other)),
        history.action(k) is LoadCertificateChain ==> expected == (event is Loaded && k == questions(
            other,
        ) && trusted_file(other) is Some),
        history.action(k) is Build ==> expected == (event is Built && questions(config)
            == questions(other)),
        history.action(k) is Finish ==> !expected,
{
    assert(history.steps_at(config, k));
    lemma_place(history, config, k);
    assert(needs_of(config@).len() == questions(config));
    assert(needs_of(other@).len() == questions(other));
}

/// Setting up a client does not go on for ever: it asks at most four questions, reads at most one
/// file and builds at most one client.
pub proof fn connect_is_short(history: ConnectHistory, config: PulsarConfig)
    requires
        history.is_of(config),
    ensures
        history.steps.len() <= 7,
{
    let n = needs_of(config@).len() as int;
    let k = history.steps.len() - 1;
    if k >= 7 {
        assert(history.steps_at(config, 7));
        assert(history.steps_at(config, 6));
        lemma_place(history, config, 6);
        lemma_place(history, config, 5);
    }
}

} // verus!
