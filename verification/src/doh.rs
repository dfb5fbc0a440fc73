//! DNS over HTTPS (RFC 8484).
//!
//! The endpoint is an **IP literal** by default, so resolving it never needs
//! DNS itself: there is no bootstrap step and no chance of recursion. Payloads
//! are the raw `application/dns-message` wire format, posted over HTTPS.
//!
//! Failure is never fatal: every error path ends in `None` so the caller falls
//! back to the in-tunnel plaintext resolver. A wrong endpoint can therefore cost
//! latency but cannot break name resolution.

use vstd::prelude::*;

use crate::environment::Environment;
use crate::sysprofile::{
    is_off, is_on, knob, law_knob_decides_or_counts_as_unset, spells_off, spells_on,
};
use crate::text::{
    ascii_lowercase, characters, is_blank, is_white_space,
    law_only_blank_text_is_trimmed_to_nothing, law_padded_word_is_read_in_lower_case,
    law_tight_text_is_kept, law_trimmed_is_tight,
    law_trimming_takes_white_space_off_the_ends_only, lowered, trim, trimmed,
};

verus! {

/// Switches DNS over HTTPS off.
pub const DOH: &'static str = "AETHER_DOH";

/// The endpoint to ask in place of the default one.
pub const DOH_URL: &'static str = "AETHER_DOH_URL";

/// Accepts an endpoint whose certificate is not publicly trusted.
pub const DOH_INSECURE: &'static str = "AETHER_DOH_INSECURE";

/// Cloudflare's DoH resolver, addressed directly by IP. `1.1.1.1` is also a
/// valid HTTPS name, so the certificate carries an IP SAN and verification
/// stays on.
pub const DEFAULT_URL: &'static str = "https://1.1.1.1/dns-query";

/// The media type of a DNS message, of the query and of the reply.
pub const DNS_MESSAGE: &'static str = "application/dns-message";

/// The name under which the client introduces itself.
pub const USER_AGENT: &'static str = "mnx-guard-doh/1";

/// How long an exchange may take, in seconds.
pub const TIMEOUT_SECS: u64 = 4;

/// Whether DNS over HTTPS is on: unless the value is one of the off spellings.
pub open spec fn doh_on(value: Option<Seq<char>>) -> bool {
    match value {
        Some(text) => !is_off(lowered(trimmed(text))),
        None => true,
    }
}

/// DoH is on unless `AETHER_DOH` is one of the explicit off spellings.
pub fn enabled(env: &Environment) -> (on: bool)
    ensures
        on == doh_on(env.value(DOH@)),
{
    match env.get(DOH) {
        Some(value) => {
            let word = ascii_lowercase(trim(value));
            !spells_off(word.as_slice())
        },
        None => true,
    }
}

/// The endpoint to ask: what the value holds between white space, if anything.
pub open spec fn endpoint_url(value: Option<Seq<char>>) -> Seq<char> {
    match value {
        Some(text) => if trimmed(text).len() > 0 {
            trimmed(text)
        } else {
            DEFAULT_URL@
        },
        None => DEFAULT_URL@,
    }
}

/// The endpoint to ask.
pub fn endpoint(env: &Environment) -> (url: String)
    ensures
        url@ == endpoint_url(env.value(DOH_URL@)),
{
    match env.get(DOH_URL) {
        Some(value) => {
            let url = trim(value);
            if url.is_empty() {
                DEFAULT_URL.to_string()
            } else {
                url.to_string()
            }
        },
        None => DEFAULT_URL.to_string(),
    }
}

/// Whether any certificate will do: only by one of the on spellings to the letter.
pub open spec fn any_certificate(value: Option<Seq<char>>) -> bool {
    match value {
        Some(text) => is_on(text),
        None => false,
    }
}

/// Escape hatch for an endpoint whose certificate is not publicly trusted.
/// Off by default; only `AETHER_DOH_INSECURE` turns it on.
pub fn insecure(env: &Environment) -> (accept: bool)
    ensures
        accept == any_certificate(env.value(DOH_INSECURE@)),
{
    match env.get(DOH_INSECURE) {
        Some(value) => {
            let word = characters(value);
            spells_on(word.as_slice())
        },
        None => false,
    }
}

/// How the HTTPS client is to be built.
pub struct ClientSettings {
    pub timeout_secs: u64,
    pub user_agent: String,
    pub accept_invalid_certs: bool,
}

/// Says how the HTTPS client is to be built.
pub fn client_settings(env: &Environment) -> (settings: ClientSettings)
    ensures
        settings.timeout_secs == TIMEOUT_SECS,
        settings.user_agent@ == USER_AGENT@,
        settings.accept_invalid_certs == any_certificate(env.value(DOH_INSECURE@)),
{
    ClientSettings {
        timeout_secs: TIMEOUT_SECS,
        user_agent: USER_AGENT.to_string(),
        accept_invalid_certs: insecure(env),
    }
}

/// `reqwest::Client`, which carries the exchange.
#[verifier::external_type_specification]
#[verifier::external_body]
pub struct ExClient(reqwest::Client);

/// `reqwest::Error`, of which only that it was given is ever looked at.
#[verifier::external_type_specification]
#[verifier::external_body]
pub struct ExError(reqwest::Error);

/// `reqwest::ClientBuilder::build`, on a builder with this total timeout, this
/// `User-Agent` header and this choice to accept invalid certificates. It looks at
/// the proxies of the system and at the TLS backend, so nothing is said of whether
/// it gives a client or an error.
#[verifier::external_body]
fn build_client(timeout_secs: u64, user_agent: &str, accept_invalid_certs: bool) -> (reply: Result<
    reqwest::Client,
    reqwest::Error,
>) {
    reqwest::Client::builder()
        .timeout(std::time::Duration::from_secs(timeout_secs))
        .user_agent(user_agent)
        .danger_accept_invalid_certs(accept_invalid_certs)
        .build()
}

/// Whether `built` is what came of building a client with these settings.
pub closed spec fn built_with(
    timeout_secs: u64,
    user_agent: Seq<char>,
    accept_invalid_certs: bool,
    built: Result<reqwest::Client, reqwest::Error>,
) -> bool {
    exists|agent: &str|
        {
            &&& #[trigger] call_ensures(
                build_client,
                (timeout_secs, agent, accept_invalid_certs),
                built,
            )
            &&& agent@ == user_agent
        }
}

/// Whether `built` is what came of building the client that `env` asks for.
pub open spec fn built_for(
    env: Environment,
    built: Result<reqwest::Client, reqwest::Error>,
) -> bool {
    built_with(TIMEOUT_SECS, USER_AGENT@, any_certificate(env.value(DOH_INSECURE@)), built)
}

/// Builds the HTTPS client.
pub fn new_client(env: &Environment) -> (built: Result<reqwest::Client, reqwest::Error>)
    ensures
        built_for(*env, built),
{
    let settings = client_settings(env);
    build_client(
        settings.timeout_secs,
        settings.user_agent.as_str(),
        settings.accept_invalid_certs,
    )
}

/// The HTTPS client of this process; there is none where it cannot be built. The
/// first call asks `read` for the environment and keeps what came of building the
/// client in `slot`; every later call gives back what is kept there and does not
/// ask again.
pub fn client<F: FnOnce() -> Environment>(
    slot: &mut Option<Result<reqwest::Client, reqwest::Error>>,
    read: F,
) -> (client: Option<&reqwest::Client>)
    requires
        *old(slot) is None ==> call_requires(read, ()),
    ensures
        *old(slot) is Some ==> *final(slot) == *old(slot),
        *old(slot) is None ==> exists|env: Environment, built: Result<_, _>|
            {
                &&& call_ensures(read, (), env)
                &&& #[trigger] built_for(env, built)
                &&& *final(slot) == Some(built)
            },
        client == match *final(slot) {
            Some(Ok(kept)) => Some(&kept),
            _ => None,
        },
{
    if slot.is_none() {
        let env = read();
        *slot = Some(new_client(&env));
    }
    match slot {
        Some(Ok(kept)) => Some(kept),
        _ => None,
    }
}

/// Where the query is posted and what its headers say.
pub struct Post {
    pub url: String,
    pub content_type: String,
    pub accept: String,
}

/// Says where the query is posted and what its headers say.
pub fn post(env: &Environment) -> (request: Post)
    ensures
        request.url@ == endpoint_url(env.value(DOH_URL@)),
        request.content_type@ == DNS_MESSAGE@,
        request.accept@ == DNS_MESSAGE@,
{
    Post {
        url: endpoint(env),
        content_type: DNS_MESSAGE.to_string(),
        accept: DNS_MESSAGE.to_string(),
    }
}

/// `reqwest::RequestBuilder`, a request that is yet to be sent.
#[verifier::external_type_specification]
#[verifier::external_body]
pub struct ExRequestBuilder(reqwest::RequestBuilder);

/// `reqwest::Client::post` to `url`, with these `Content-Type` and `Accept` headers
/// and `query` as its body. The request stays opaque: a text that is no URL or no
/// header value shows only when it is sent.
#[verifier::external_body]
fn build_post(
    client: &reqwest::Client,
    url: &str,
    content_type: &str,
    accept: &str,
    query: Vec<u8>,
) -> (request: reqwest::RequestBuilder) {
    client
        .post(url)
        .header(reqwest::header::CONTENT_TYPE, content_type)
        .header(reqwest::header::ACCEPT, accept)
        .body(query)
}

/// Whether `request` is what came of posting `query` with `client` to `url`, with
/// these headers.
pub closed spec fn posted_with(
    client: reqwest::Client,
    url: Seq<char>,
    content_type: Seq<char>,
    accept: Seq<char>,
    query: Vec<u8>,
    request: reqwest::RequestBuilder,
) -> bool {
    exists|to: &str, sent: &str, wanted: &str|
        {
            &&& #[trigger] call_ensures(build_post, (&client, to, sent, wanted, query), request)
            &&& to@ == url
            &&& sent@ == content_type
            &&& wanted@ == accept
        }
}

/// Makes the request that posts `query`.
pub fn request(env: &Environment, client: &reqwest::Client, query: Vec<u8>) -> (request:
    reqwest::RequestBuilder)
    ensures
        posted_with(
            *client,
            endpoint_url(env.value(DOH_URL@)),
            DNS_MESSAGE@,
            DNS_MESSAGE@,
            query,
            request,
        ),
{
    let laid_down = post(env);
    build_post(
        client,
        laid_down.url.as_str(),
        laid_down.content_type.as_str(),
        laid_down.accept.as_str(),
        query,
    )
}

/// What came of the last action, in a resolution to an address of type `A`.
#[derive(Debug, Clone, Copy, PartialEq, Eq)]
pub enum Event<A> {
    /// A name is to be resolved.
    Asked,
    /// There is a client, or it could not be built.
    Client { ready: bool },
    /// The status of the response, or nothing if the request failed.
    Responded { status: Option<u16> },
    /// The body of the response was read, or could not be.
    Body { read: bool },
    /// The body answers the query that was posted, or something else.
    Matched { answers: bool },
    /// The address of the first A record in the body, if there is one.
    Parsed { address: Option<A> },
}

/// What to do next in a resolution.
#[derive(Debug, Clone, Copy, PartialEq, Eq)]
pub enum Action<A> {
    /// Get hold of the client.
    GetClient,
    /// Build the query for an A record and post it.
    PostQuery,
    /// Read the body of the response.
    ReadBody,
    /// Hold the body against the query.
    MatchBody,
    /// Look for an A record in the body.
    ParseBody,
    /// End with this result.
    Finish(Option<A>),
}

/// Whether an HTTP status tells of success.
pub open spec fn is_success(status: u16) -> bool {
    200 <= status <= 299
}

/// What follows on an event. All that fails ends the resolution with no address.
pub open spec fn next_action<A>(doh: Option<Seq<char>>, event: Event<A>) -> Action<A> {
    match event {
        Event::Asked => if doh_on(doh) {
            Action::GetClient
        } else {
            Action::Finish(None)
        },
        Event::Client { ready } => if ready {
            Action::PostQuery
        } else {
            Action::Finish(None)
        },
        Event::Responded { status } => if status matches Some(code) && is_success(code) {
            Action::ReadBody
        } else {
            Action::Finish(None)
        },
        Event::Body { read } => if read {
            Action::MatchBody
        } else {
            Action::Finish(None)
        },
        Event::Matched { answers } => if answers {
            Action::ParseBody
        } else {
            Action::Finish(None)
        },
        Event::Parsed { address } => Action::Finish(address),
    }
}

/// Takes the resolution of an A record one step further.
///
/// It ends with no address when DoH is disabled or the exchange fails for any
/// reason, so the caller can fall back to plaintext DNS immediately.
pub fn resolve<A>(env: &Environment, event: Event<A>) -> (action: Action<A>)
    ensures
        action == next_action(env.value(DOH@), event),
{
    let go_on = match &event {
        Event::Asked => enabled(env),
        Event::Client { ready } => *ready,
        Event::Responded { status } => match status {
            Some(code) => 200 <= *code && *code <= 299,
            None => false,
        },
        Event::Body { read } => *read,
        Event::Matched { answers } => *answers,
        Event::Parsed { .. } => true,
    };
    if !go_on {
        return Action::Finish(None);
    }
    match event {
        Event::Asked => Action::GetClient,
        Event::Client { .. } => Action::PostQuery,
        Event::Responded { .. } => Action::ReadBody,
        Event::Body { .. } => Action::MatchBody,
        Event::Matched { .. } => Action::ParseBody,
        Event::Parsed { address } => Action::Finish(address),
    }
}

/// How the world answers in one resolution.
pub struct Exchange<A> {
    pub client: bool,
    pub status: Option<u16>,
    pub body: bool,
    pub answers: bool,
    pub address: Option<A>,
}

/// What comes of an action in an exchange.
pub open spec fn event_after<A>(exchange: Exchange<A>, action: Action<A>) -> Event<A> {
    match action {
        Action::GetClient => Event::Client { ready: exchange.client },
        Action::PostQuery => Event::Responded { status: exchange.status },
        Action::ReadBody => Event::Body { read: exchange.body },
        Action::MatchBody => Event::Matched { answers: exchange.answers },
        Action::ParseBody => Event::Parsed { address: exchange.address },
        Action::Finish(address) => Event::Parsed { address },
    }
}

/// The action that stands once the world has answered `steps` times in an exchange.
pub open spec fn action_after<A>(
    doh: Option<Seq<char>>,
    exchange: Exchange<A>,
    steps: nat,
) -> Action<A>
    decreases steps,
{
    if steps == 0 {
        next_action(doh, Event::Asked)
    } else {
        next_action(
            doh,
            event_after(exchange, action_after(doh, exchange, (steps - 1) as nat)),
        )
    }
}

/// Every resolution ends after at most five answers from the world. It ends with
/// the address that was parsed where DoH is on and nothing failed on the way, and
/// with no address otherwise.
pub proof fn law_resolution_ends_in_the_address_or_in_none<A>(
    doh: Option<Seq<char>>,
    exchange: Exchange<A>,
)
    ensures
        action_after(doh, exchange, 5) == Action::Finish(
            if doh_on(doh) && exchange.client && (exchange.status matches Some(code)
                && 200 <= code <= 299) && exchange.body && exchange.answers {
                exchange.address
            } else {
                None
            },
        ),
{
    reveal_with_fuel(action_after, 6);
}

/// `AETHER_DOH` is a knob that is on by default, with the spellings of the others.
pub proof fn law_doh_is_a_knob(value: Option<Seq<char>>)
    ensures
        doh_on(value) == knob(value, true),
{
    if let Some(text) = value {
        law_knob_decides_or_counts_as_unset(text, true);
    }
}

/// The endpoint is never blank and has no white space around it.
pub proof fn law_endpoint_is_never_blank(value: Option<Seq<char>>)
    ensures
        endpoint_url(value).len() > 0,
        trimmed(endpoint_url(value)) == endpoint_url(value),
{
    reveal_strlit("https://1.1.1.1/dns-query");
    if let Some(text) = value {
        law_trimmed_is_tight(text);
    }
}

/// Without the variable every certificate is checked, and a value that accepts
/// any certificate would switch a knob on too.
pub proof fn law_certificates_are_checked_by_default(value: Seq<char>)
    ensures
        !any_certificate(None),
        any_certificate(Some(value)) ==> knob(Some(value), false),
{
    reveal_strlit("on");
    reveal_strlit("1");
    reveal_strlit("true");
    reveal_strlit("yes");
    if is_on(value) {
        assert(trimmed(value) == value);
        assert(lowered(value) =~= value);
        law_knob_decides_or_counts_as_unset(value, false);
    }
}

/// The endpoint that is set is the one that is asked, whatever it is, less the
/// white space around it.
pub proof fn law_endpoint_that_is_set_is_asked(
    before: Seq<char>,
    text: Seq<char>,
    after: Seq<char>,
)
    requires
        is_blank(before),
        is_blank(after),
        text.len() > 0,
        !is_white_space(text[0]),
        !is_white_space(text.last()),
    ensures
        endpoint_url(Some(before + text + after)) == text,
{
    law_tight_text_is_kept(before, text, after);
}

/// The default endpoint stands in exactly where none is set or what is set is all
/// white space; any other value holds the endpoint between its white space.
pub proof fn law_default_endpoint_stands_in_for_nothing_else(value: Seq<char>)
    ensures
        endpoint_url(None) == "https://1.1.1.1/dns-query"@,
        is_blank(value) ==> endpoint_url(Some(value)) == "https://1.1.1.1/dns-query"@,
        !is_blank(value) ==> exists|before: Seq<char>, after: Seq<char>|
            is_blank(before) && is_blank(after) && value == #[trigger] (before + endpoint_url(
                Some(value),
            ) + after),
{
    law_only_blank_text_is_trimmed_to_nothing(value);
    law_trimming_takes_white_space_off_the_ends_only(value);
    if !is_blank(value) {
        let (before, after) = choose|before: Seq<char>, after: Seq<char>|
            is_blank(before) && is_blank(after) && value == #[trigger] (before + trimmed(value)
                + after);
        assert(value == before + endpoint_url(Some(value)) + after);
    }
}

/// The four off spellings switch DoH off, in any case and with any white space
/// around them.
pub proof fn law_off_spellings_switch_doh_off(
    before: Seq<char>,
    word: Seq<char>,
    after: Seq<char>,
)
    requires
        is_blank(before),
        is_blank(after),
        lowered(word) == "off"@ || lowered(word) == "0"@ || lowered(word) == "false"@ || lowered(
            word,
        ) == "no"@,
    ensures
        !doh_on(Some(before + word + after)),
{
    reveal_strlit("off");
    reveal_strlit("0");
    reveal_strlit("false");
    reveal_strlit("no");
    law_padded_word_is_read_in_lower_case(before, word, after);
}

/// Nothing but the four off spellings switches DoH off.
pub proof fn law_nothing_else_switches_doh_off(value: Seq<char>)
    requires
        lowered(trimmed(value)) != "off"@,
        lowered(trimmed(value)) != "0"@,
        lowered(trimmed(value)) != "false"@,
        lowered(trimmed(value)) != "no"@,
    ensures
        doh_on(Some(value)),
        doh_on(None),
{
}

/// Certificates go unchecked exactly for the four on spellings to the letter.
pub proof fn law_four_spellings_leave_certificates_unchecked(value: Seq<char>)
    ensures
        any_certificate(Some(value)) <==> (value == "1"@ || value == "true"@ || value == "yes"@
            || value == "on"@),
        !any_certificate(None),
{
}

/// The switch decides whether a resolution begins; after that it makes no
/// difference.
pub proof fn law_switch_decides_only_the_beginning<A>(
    doh: Option<Seq<char>>,
    other: Option<Seq<char>>,
    event: Event<A>,
)
    ensures
        event != Event::<A>::Asked ==> next_action(doh, event) == next_action(other, event),
        next_action(doh, Event::<A>::Asked) == Action::<A>::Finish(None) <==> !doh_on(doh),
{
}

/// A resolution ends with an address only where one was parsed, and then with that
/// one; otherwise an event either ends it with none or takes it one action on.
pub proof fn law_only_a_parsed_address_is_given<A>(doh: Option<Seq<char>>, event: Event<A>)
    ensures
        next_action(doh, event) matches Action::Finish(Some(address)) ==> event == (
        Event::Parsed { address: Some(address) }),
        event matches Event::Parsed { address } ==> next_action(doh, event) == Action::Finish(
            address,
        ),
        event matches Event::Client { ready } ==> next_action(doh, event) == (if ready {
            Action::<A>::PostQuery
        } else {
            Action::<A>::Finish(None)
        }),
        event matches Event::Responded { status } ==> (next_action(doh, event)
            == Action::<A>::ReadBody <==> (status matches Some(code) && 200 <= code < 300)),
        event matches Event::Responded { status } ==> next_action(doh, event) is ReadBody
            || next_action(doh, event) == Action::<A>::Finish(None),
        event matches Event::Body { read } ==> next_action(doh, event) == (if read {
            Action::<A>::MatchBody
        } else {
            Action::<A>::Finish(None)
        }),
        event matches Event::Matched { answers } ==> next_action(doh, event) == (if answers {
            Action::<A>::ParseBody
        } else {
            Action::<A>::Finish(None)
        }),
{
}

/// Every client is built with the same timeout and the same name, and leaves
/// certificates unchecked exactly where the variable says so to the letter.
pub proof fn law_every_client_is_built_alike(
    env: Environment,
    built: Result<reqwest::Client, reqwest::Error>,
)
    requires
        built_for(env, built),
    ensures
        ({
            let said = env.value("AETHER_DOH_INSECURE"@);
            built_with(
                4,
                "mnx-guard-doh/1"@,
                said == Some("1"@) || said == Some("true"@) || said == Some("yes"@) || said
                    == Some("on"@),
                built,
            )
        }),
{
}

/// What a client is said to be built with is what the builder was handed.
proof fn law_builder_is_handed_the_settings(
    timeout_secs: u64,
    user_agent: Seq<char>,
    accept_invalid_certs: bool,
    built: Result<reqwest::Client, reqwest::Error>,
)
    requires
        built_with(timeout_secs, user_agent, accept_invalid_certs, built),
    ensures
        exists|agent: &str| #[trigger]
            call_ensures(build_client, (timeout_secs, agent, accept_invalid_certs), built)
                && agent@ == user_agent,
{
}

/// What a request is said to be posted with is what the client was handed.
proof fn law_client_is_handed_the_request(
    client: reqwest::Client,
    url: Seq<char>,
    content_type: Seq<char>,
    accept: Seq<char>,
    query: Vec<u8>,
    request: reqwest::RequestBuilder,
)
    requires
        posted_with(client, url, content_type, accept, query, request),
    ensures
        exists|to: &str, sent: &str, wanted: &str| #[trigger]
            call_ensures(build_post, (&client, to, sent, wanted, query), request) && to@ == url
                && sent@ == content_type && wanted@ == accept,
{
}

/// The query is posted to the endpoint that is set, whatever it is, as a DNS
/// message, and a DNS message is asked for in return.
pub proof fn law_query_is_posted_to_the_endpoint_that_is_set(
    env: Environment,
    before: Seq<char>,
    text: Seq<char>,
    after: Seq<char>,
    url: String,
    request: Post,
)
    requires
        call_ensures(endpoint, (&env,), url),
        call_ensures(post, (&env,), request),
        is_blank(before),
        is_blank(after),
        text.len() > 0,
        !is_white_space(text[0]),
        !is_white_space(text.last()),
    ensures
        env.value("AETHER_DOH_URL"@) == Some(before + text + after) ==> url@ == text,
        env.value("AETHER_DOH_URL"@) is None ==> url@ == "https://1.1.1.1/dns-query"@,
        request.url@ == url@,
        request.content_type@ == "application/dns-message"@,
        request.accept@ == "application/dns-message"@,
{
    law_tight_text_is_kept(before, text, after);
}

} // verus!
