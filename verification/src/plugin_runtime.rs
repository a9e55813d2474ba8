//! The host calls of one invocation: every side effect that a plugin asks
//! for is held against the plugin's policy here, before anything is done.

use vstd::prelude::*;
use vstd::hash_map::StringHashMap;
use vstd::string::*;
use crate::host::{
    HostError, HostErrorView, HttpHeader, HttpHeaderView, HttpRequest, HttpRequestView,
    HttpResponse, HttpResponseView, LogLevel, GENERIC_FAILURE, HTTP_REQUEST_FAILED,
};
use crate::host_name::{
    host_listed, host_of_url, parse_hosts, spec_host_listed, spec_parsed_hosts, url_host,
};
use crate::http::{build_http_url, spec_http_url};
use crate::plugin_config::{PluginConfig, PluginConfigView};
use crate::text::{debug_text, quote, same_text, spec_upper, to_upper};

verus! {

/// The methods that a plugin may use.
#[derive(Debug, Clone, Copy, PartialEq, Eq, Structural)]
pub enum HttpMethod {
    Get,
    Post,
    Put,
    Delete,
}

/// The method that an upper-case name stands for.
pub open spec fn spec_method_named(upper: Seq<char>) -> Option<HttpMethod> {
    if upper == "GET"@ {
        Some(HttpMethod::Get)
    } else if upper == "POST"@ {
        Some(HttpMethod::Post)
    } else if upper == "PUT"@ {
        Some(HttpMethod::Put)
    } else if upper == "DELETE"@ {
        Some(HttpMethod::Delete)
    } else {
        None
    }
}

/// Reads a method from its name in upper case. Any other text is no method.
pub fn method_named(upper: &str) -> (method: Option<HttpMethod>)
    ensures
        method == spec_method_named(upper@),
{
    if same_text(upper, "GET") {
        Some(HttpMethod::Get)
    } else if same_text(upper, "POST") {
        Some(HttpMethod::Post)
    } else if same_text(upper, "PUT") {
        Some(HttpMethod::Put)
    } else if same_text(upper, "DELETE") {
        Some(HttpMethod::Delete)
    } else {
        None
    }
}

/// A request that the policy has let through, ready for the transport.
#[derive(Debug, PartialEq, Eq)]
pub struct HttpCall {
    pub method: HttpMethod,
    pub url: String,
    pub body: String,
    pub headers: Vec<HttpHeader>,
}

/// A request for the transport as plain values.
pub struct HttpCallView {
    pub method: HttpMethod,
    pub url: Seq<char>,
    pub body: Seq<char>,
    pub headers: Seq<HttpHeaderView>,
}

impl View for HttpCall {
    type V = HttpCallView;

    open spec fn view(&self) -> HttpCallView {
        HttpCallView {
            method: self.method,
            url: self.url@,
            body: self.body@,
            headers: self.headers.deep_view(),
        }
    }
}

/// Whether the policy lets the plugin reach `url`: the list of domains is
/// present, `url` is an absolute URL with a host, and some entry of the list,
/// read as a host, is that host.
pub open spec fn spec_domain_allowed(config: PluginConfigView, url: Seq<char>) -> bool {
    match (config.allowed_domains, url_host(url)) {
        (Some(entries), Some(host)) => spec_host_listed(spec_parsed_hosts(entries), host),
        _ => false,
    }
}

/// The message of a request to a host that the policy does not list.
pub open spec fn spec_url_denied(url: Seq<char>) -> Seq<char> {
    "URL "@ + debug_text(url) + " is not allowed, please add it to the allowed_domains"@
}

/// The message of a read of a variable that the policy does not list.
pub open spec fn spec_env_denied(key: Seq<char>, plugin: Seq<char>) -> Seq<char> {
    "Key "@ + debug_text(key) + " is not readable for plugin "@ + debug_text(plugin)
}

/// The message of a response whose body is not text; `reason` is what the
/// decoder said.
pub open spec fn spec_body_not_text(reason: Seq<char>) -> Seq<char> {
    "Could not parse http response as text "@ + reason
}

/// What becomes of a request: the policy is asked first, then the method is
/// read, and only then is there anything to send.
pub open spec fn spec_http_call(config: PluginConfigView, request: HttpRequestView) -> Result<
    HttpCallView,
    HostErrorView,
> {
    if !spec_domain_allowed(config, request.url) {
        Err(HostErrorView { code: GENERIC_FAILURE, message: spec_url_denied(request.url) })
    } else {
        match spec_method_named(spec_upper(request.method)) {
            None => Err(
                HostErrorView { code: GENERIC_FAILURE, message: "Invalid HTTP METHOD"@ },
            ),
            Some(method) => Ok(
                HttpCallView {
                    method,
                    url: spec_http_url(request.url, request.params),
                    body: request.body,
                    headers: request.headers,
                },
            ),
        }
    }
}

/// The plain values of a planned request or of its refusal.
pub open spec fn spec_call_view(planned: Result<HttpCall, HostError>) -> Result<
    HttpCallView,
    HostErrorView,
> {
    match planned {
        Ok(call) => Ok(call@),
        Err(error) => Err(error@),
    }
}

/// The message of a response of which a header is not text.
pub open spec fn spec_headers_not_text() -> Seq<char> {
    "Could not parse http response headers as text"@
}

/// What the transport brought back: the status; the headers, or `None`
/// where the value of one of them is no text; and the body as text or, where
/// it is no text, what the decoder said.
#[derive(Debug, PartialEq, Eq)]
pub struct TransportReply {
    pub status: u16,
    pub body: Result<String, String>,
    pub headers: Option<Vec<HttpHeader>>,
}

/// The plain values of what the transport did with a request: a reply, or
/// the transport's own message where it failed. A reply is handed on only
/// where its headers and its body are text; the headers are looked at first.
pub open spec fn spec_response(outcome: Result<TransportReply, String>) -> Result<
    HttpResponseView,
    HostErrorView,
> {
    match outcome {
        Err(message) => Err(HostErrorView { code: HTTP_REQUEST_FAILED, message: message@ }),
        Ok(reply) => match (reply.headers, reply.body) {
            (None, _) => Err(
                HostErrorView { code: GENERIC_FAILURE, message: spec_headers_not_text() },
            ),
            (Some(_), Err(reason)) => Err(
                HostErrorView { code: GENERIC_FAILURE, message: spec_body_not_text(reason@) },
            ),
            (Some(headers), Ok(text)) => Ok(
                HttpResponseView {
                    status: reply.status,
                    response: text@,
                    headers: headers.deep_view(),
                },
            ),
        },
    }
}

/// The plain values of a response or of its failure.
pub open spec fn spec_response_view(response: Result<HttpResponse, HostError>) -> Result<
    HttpResponseView,
    HostErrorView,
> {
    match response {
        Ok(response) => Ok(response@),
        Err(error) => Err(error@),
    }
}

/// Turns what the transport did into what the plugin sees. A transport
/// failure keeps the transport's message under the code for failed requests;
/// headers or a body that are no text are a generic failure; anything else is
/// handed on with status, body and headers as they came.
pub fn http_response(outcome: Result<TransportReply, String>) -> (response: Result<
    HttpResponse,
    HostError,
>)
    ensures
        spec_response_view(response) == spec_response(outcome),
{
    match outcome {
        Err(message) => Err(HostError { code: HTTP_REQUEST_FAILED, message }),
        Ok(reply) => {
            let TransportReply { status, body, headers } = reply;
            match headers {
                None => Err(
                    HostError {
                        code: GENERIC_FAILURE,
                        message: String::from_str("Could not parse http response headers as text"),
                    },
                ),
                Some(headers) => match body {
                    Err(reason) => {
                        let mut message = String::from_str(
                            "Could not parse http response as text ",
                        );
                        message.append(reason.as_str());
                        Err(HostError { code: GENERIC_FAILURE, message })
                    },
                    Ok(text) => Ok(HttpResponse { status, response: text, headers }),
                },
            }
        },
    }
}

/// What a read of a variable gives the plugin: a refusal where the policy
/// does not list the variable, whatever the environment holds; else the value
/// that the environment gave, or its message as a generic failure.
pub open spec fn spec_env(
    config: PluginConfigView,
    key: Seq<char>,
    read: Result<Seq<char>, Seq<char>>,
) -> Result<Seq<char>, HostErrorView> {
    if !config.allows_env_var(key) {
        Err(HostErrorView { code: GENERIC_FAILURE, message: spec_env_denied(key, config.name) })
    } else {
        match read {
            Ok(value) => Ok(value),
            Err(message) => Err(HostErrorView { code: GENERIC_FAILURE, message }),
        }
    }
}

/// The plain values of a text or of the message in its place.
pub open spec fn spec_read_view(read: Result<String, String>) -> Result<Seq<char>, Seq<char>> {
    match read {
        Ok(value) => Ok(value@),
        Err(message) => Err(message@),
    }
}

/// The plain values of a value handed to the plugin or of its failure.
pub open spec fn spec_value_view(value: Result<String, HostError>) -> Result<
    Seq<char>,
    HostErrorView,
> {
    match value {
        Ok(value) => Ok(value@),
        Err(error) => Err(error@),
    }
}

/// A log line that a plugin asked for.
#[derive(Debug, PartialEq, Eq)]
pub struct LogEvent {
    pub level: LogLevel,
    pub message: String,
}

/// The state of the host calls of one invocation: the plugin's policy and
/// the input that the caller passed. It lives as long as the invocation.
pub struct PluginRuntime {
    pub config: PluginConfig,
    pub input: StringHashMap<String>,
}

/// The map that a list of pairs stands for: a later pair replaces an
/// earlier one with the same key.
pub open spec fn spec_input(pairs: Seq<(Seq<char>, Seq<char>)>) -> Map<Seq<char>, Seq<char>>
    decreases pairs.len(),
{
    if pairs.len() == 0 {
        Map::empty()
    } else {
        spec_input(pairs.drop_last()).insert(pairs.last().0, pairs.last().1)
    }
}

impl PluginRuntime {
    /// The input of the invocation as a map of plain values.
    pub open spec fn input_view(&self) -> Map<Seq<char>, Seq<char>> {
        self.input@.map_values(|value: String| value@)
    }

    /// The state for one invocation of a plugin with policy `config`, on the
    /// input given as pairs of key and value.
    pub fn new(config: PluginConfig, input: Vec<(String, String)>) -> (runtime: Self)
        ensures
            runtime.config@ == config@,
            runtime.input_view() == spec_input(input.deep_view()),
    {
        let mut map: StringHashMap<String> = StringHashMap::new();
        let mut i: usize = 0;
        assert(map@.map_values(|value: String| value@) =~= spec_input(
            input.deep_view().take(0),
        ));
        while i < input.len()
            invariant
                i <= input.len(),
                map@.map_values(|value: String| value@) == spec_input(
                    input.deep_view().take(i as int),
                ),
            decreases input.len() - i,
        {
            let key = input[i].0.clone();
            let value = input[i].1.clone();
            let ghost before = map@;
            map.insert(key, value);
            proof {
                let pairs = input.deep_view();
                let next = pairs.take(i + 1);
                assert(next.drop_last() =~= pairs.take(i as int));
                assert(next.last() == pairs[i as int]);
                assert(pairs[i as int] == (key@, value@));
                assert(map@.map_values(|value: String| value@) =~= before.map_values(
                    |value: String| value@,
                ).insert(key@, value@));
            }
            i += 1;
        }
        assert(input.deep_view().take(input.len() as int) =~= input.deep_view());
        PluginRuntime { config, input: map }
    }

    /// Whether the policy lets the plugin read the variable `value`.
    pub fn is_env_var_allowed(&self, value: &str) -> (allowed: bool)
        ensures
            allowed == self.config@.allows_env_var(value@),
    {
        match &self.config.allowed_env_vars {
            Some(vars) => {
                let mut i: usize = 0;
                while i < vars.len()
                    invariant
                        i <= vars.len(),
                        self.config@.allowed_env_vars == Some(vars.deep_view()),
                        forall|j: int| 0 <= j < i ==> vars.deep_view()[j] != value@,
                    decreases vars.len() - i,
                {
                    if same_text(vars[i].as_str(), value) {
                        assert(vars.deep_view()[i as int] == value@);
                        return true;
                    }
                    i += 1;
                }
                false
            },
            None => false,
        }
    }

    /// Whether the policy lets the plugin reach the URL `domain`.
    pub fn is_domain_allowed(&self, domain: &str) -> (allowed: bool)
        ensures
            allowed == spec_domain_allowed(self.config@, domain@),
    {
        match &self.config.allowed_domains {
            Some(entries) => match host_of_url(domain) {
                Some(host) => {
                    let hosts = parse_hosts(entries);
                    host_listed(&hosts, &host)
                },
                None => false,
            },
            None => false,
        }
    }

    /// Decides what becomes of a request, before anything is sent. A target
    /// that the policy does not allow is refused first; then a method other
    /// than GET, POST, PUT or DELETE (in any case); what is left is handed on
    /// with the query string joined to the target, and body and headers as
    /// they came.
    pub fn http_call(&self, request: HttpRequest) -> (planned: Result<HttpCall, HostError>)
        ensures
            spec_call_view(planned) == spec_http_call(self.config@, request@),
            !spec_domain_allowed(self.config@, request@.url) ==> planned is Err,
    {
        if !self.is_domain_allowed(request.url.as_str()) {
            let mut message = String::from_str("URL ");
            let quoted = quote(request.url.as_str());
            message.append(quoted.as_str());
            message.append(" is not allowed, please add it to the allowed_domains");
            return Err(HostError { code: GENERIC_FAILURE, message });
        }
        let upper = to_upper(request.method.as_str());
        match method_named(upper.as_str()) {
            None => Err(
                HostError { code: GENERIC_FAILURE, message: String::from_str("Invalid HTTP METHOD") },
            ),
            Some(method) => {
                let url = build_http_url(request.url.as_str(), request.params.as_str());
                let HttpRequest { method: _, url: _, params: _, body, headers } = request;
                Ok(HttpCall { method, url, body, headers })
            },
        }
    }

    /// Asks the policy whether the plugin may read the variable `key`. The
    /// refusal names the variable and the plugin.
    pub fn env_check(&self, key: &str) -> (checked: Result<(), HostError>)
        ensures
            checked is Ok <==> self.config@.allows_env_var(key@),
            checked matches Err(error) ==> error@ == (HostErrorView {
                code: GENERIC_FAILURE,
                message: spec_env_denied(key@, self.config@.name),
            }),
    {
        if self.is_env_var_allowed(key) {
            Ok(())
        } else {
            let mut message = String::from_str("Key ");
            let quoted_key = quote(key);
            message.append(quoted_key.as_str());
            message.append(" is not readable for plugin ");
            let quoted_name = quote(self.config.name.as_str());
            message.append(quoted_name.as_str());
            Err(HostError { code: GENERIC_FAILURE, message })
        }
    }

    /// What the plugin gets for a read of the variable `key`, where `read`
    /// is what the environment holds for it: its value, or the message that
    /// says why there is none. The policy is asked before `read` is looked at.
    pub fn env(&self, key: &str, read: Result<String, String>) -> (value: Result<String, HostError>)
        ensures
            spec_value_view(value) == spec_env(self.config@, key@, spec_read_view(read)),
            !self.config@.allows_env_var(key@) ==> value is Err,
    {
        match self.env_check(key) {
            Err(error) => Err(error),
            Ok(_) => match read {
                Ok(value) => Ok(value),
                Err(message) => Err(HostError { code: GENERIC_FAILURE, message }),
            },
        }
    }

    /// The value that the caller passed under `key`, if any.
    pub fn get(&self, key: &str) -> (value: Option<String>)
        ensures
            value.deep_view() == (if self.input_view().contains_key(key@) {
                Some(self.input_view()[key@])
            } else {
                None
            }),
    {
        match self.input.get(key) {
            Some(value) => Some(value.clone()),
            None => None,
        }
    }

    /// The log line for a message of the plugin: the level and the message
    /// as they came.
    pub fn log(&self, level: LogLevel, message: String) -> (event: LogEvent)
        ensures
            event.level == level,
            event.message@ == message@,
    {
        LogEvent { level, message }
    }
}

/// A request whose target the policy does not allow is refused with a generic
/// failure, whatever its method, body and headers: nothing is handed to the
/// transport.
pub proof fn lemma_denied_target_is_refused(config: PluginConfigView, request: HttpRequestView)
    requires
        !spec_domain_allowed(config, request.url),
    ensures
        spec_http_call(config, request) == Err::<HttpCallView, HostErrorView>(
            HostErrorView { code: GENERIC_FAILURE, message: spec_url_denied(request.url) },
        ),
{
}

/// A policy without a list of domains allows no target at all.
pub proof fn lemma_no_domains_no_target(config: PluginConfigView, url: Seq<char>)
    requires
        config.allowed_domains is None,
    ensures
        !spec_domain_allowed(config, url),
{
}

/// A read of a variable is refused exactly when the policy does not list the
/// variable, whether or not the environment holds it. Left out is the read of
/// a listed variable that the environment does not hold, which fails too.
pub proof fn lemma_env_refused_iff_not_listed(
    config: PluginConfigView,
    key: Seq<char>,
    read: Result<Seq<char>, Seq<char>>,
)
    requires
        !(config.allows_env_var(key) && read is Err),
    ensures
        spec_env(config, key, read) is Err <==> !config.allows_env_var(key),
        !config.allows_env_var(key) ==> spec_env(config, key, read) == spec_env(
            config,
            key,
            Err(Seq::empty()),
        ),
{
}

} // verus!
