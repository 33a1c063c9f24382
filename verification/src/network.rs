//! The network commands' own logic: what the system proxy looks like to the
//! front end, the host name, which interfaces are listed, and how the HTTP
//! requests for the panel and for IP detection are set up and retried.
//! Sending the requests and reading the system settings is left to the caller.

use vstd::prelude::*;
use crate::text::{decimal, push_decimal, str_equal, trim_matches, trim_matches_char};
use crate::external::{
    str_to_lowercase, str_to_uppercase, unicode_lowercase, unicode_uppercase, mapping_new, mapping_insert,
    mapping_get_str, YamlValue, untag, mapping_entries, entry_keys, entry_for, YamlScalar,
};
use serde_yaml_ng::Mapping;
use vstd::string::StringExecFns;
use vstd::string::StrSliceExecFns;

verus! {

/// The reply to an IP-detection request.
pub struct IpDetectionHttpResponse {
    pub status: u16,
    pub body: String,
}

/// The reply to a panel request.
pub struct PanelHttpResponse {
    pub status: u16,
    pub body: String,
}

/// The operating system's proxy settings.
pub struct SystemProxy {
    pub enable: bool,
    pub host: String,
    pub port: u16,
    pub bypass: String,
}

/// The operating system's automatic (PAC) proxy settings.
pub struct AutoProxy {
    pub enable: bool,
    pub url: String,
}

/// The system proxy as the front end receives it: the entries `enable`,
/// `server` (as `host:port`) and `bypass`, in that order.
pub fn get_sys_proxy(proxy: &SystemProxy) -> (r: Mapping)
    ensures
        mapping_entries(r) == seq![
            (YamlScalar::Str("enable"@), YamlScalar::Bool(proxy.enable)),
            (YamlScalar::Str("server"@), YamlScalar::Str(proxy.host@ + ":"@ + decimal(proxy.port as nat))),
            (YamlScalar::Str("bypass"@), YamlScalar::Str(proxy.bypass@)),
        ],
{
    let mut server = proxy.host.clone();
    server.append(":");
    push_decimal(&mut server, proxy.port as u64);
    let mut map = mapping_new();
    proof {
        assert(entry_keys(mapping_entries(map)) =~= Seq::<YamlScalar>::empty());
    }
    mapping_insert(&mut map, "enable", YamlValue::Bool(proxy.enable));
    proof {
        reveal_strlit("enable");
        reveal_strlit("server");
        reveal_strlit("bypass");
        assert(entry_keys(mapping_entries(map)) =~= seq![YamlScalar::Str("enable"@)]);
        assert("enable"@[0] != "server"@[0]);
    }
    mapping_insert(&mut map, "server", YamlValue::Str(server));
    proof {
        assert(entry_keys(mapping_entries(map)) =~= seq![YamlScalar::Str("enable"@), YamlScalar::Str("server"@)]);
        assert("enable"@[0] != "bypass"@[0]);
        assert("server"@[0] != "bypass"@[0]);
    }
    mapping_insert(&mut map, "bypass", YamlValue::Str(proxy.bypass.clone()));
    map
}

/// The automatic proxy as the front end receives it: the entries `enable`
/// and `url`, in that order.
pub fn get_auto_proxy(proxy: &AutoProxy) -> (r: Mapping)
    ensures
        mapping_entries(r) == seq![
            (YamlScalar::Str("enable"@), YamlScalar::Bool(proxy.enable)),
            (YamlScalar::Str("url"@), YamlScalar::Str(proxy.url@)),
        ],
{
    let mut map = mapping_new();
    proof {
        assert(entry_keys(mapping_entries(map)) =~= Seq::<YamlScalar>::empty());
    }
    mapping_insert(&mut map, "enable", YamlValue::Bool(proxy.enable));
    proof {
        reveal_strlit("enable");
        reveal_strlit("url");
        assert(entry_keys(mapping_entries(map)) =~= seq![YamlScalar::Str("enable"@)]);
        assert("enable"@[0] != "url"@[0]);
    }
    mapping_insert(&mut map, "url", YamlValue::Str(proxy.url.clone()));
    map
}

/// The host name from the system's answer: the name itself when it is valid
/// Unicode, else its `Debug` rendering without the surrounding quotes.
pub fn hostname_from_lookup(lookup: Result<String, String>) -> (r: String)
    ensures
        lookup matches Ok(name) ==> r@ == name@,
        lookup matches Err(debug) ==> r@ == trim_matches(debug@, '"'),
{
    match lookup {
        Ok(name) => name,
        Err(debug) => trim_matches_char(debug.as_str(), '"'),
    }
}

/// The strings as character sequences.
pub open spec fn strings_view(v: Seq<String>) -> Seq<Seq<char>> {
    v.map_values(|s: String| s@)
}

/// The indices, in order, among the first `n` of `candidates` of those whose
/// name is in `names`.
pub open spec fn listed_indices(names: Seq<Seq<char>>, candidates: Seq<Seq<char>>, n: int) -> Seq<usize>
    decreases n,
{
    if n <= 0 {
        Seq::empty()
    } else if names.contains(candidates[n - 1]) {
        listed_indices(names, candidates, n - 1).push((n - 1) as usize)
    } else {
        listed_indices(names, candidates, n - 1)
    }
}

fn contains_string(names: &Vec<String>, s: &String) -> (r: bool)
    ensures
        r == strings_view(names@).contains(s@),
{
    let mut i: usize = 0;
    while i < names.len()
        invariant
            i <= names@.len(),
            forall|j: int| 0 <= j < i ==> names@[j]@ != s@,
        decreases names@.len() - i,
    {
        if names[i] == *s {
            assert(strings_view(names@)[i as int] == s@);
            return true;
        }
        i = i + 1;
    }
    assert forall|k: int| 0 <= k < strings_view(names@).len() implies strings_view(names@)[k] != s@ by {
        assert(strings_view(names@)[k] == names@[k]@);
    }
    false
}

/// Which of the system's interfaces (given by name, in the system's order)
/// to report: those whose name is among `names`, in order.
pub fn get_network_interfaces_info(names: &Vec<String>, interface_names: &Vec<String>) -> (r: Vec<usize>)
    ensures
        r@ == listed_indices(strings_view(names@), strings_view(interface_names@), interface_names@.len() as int),
{
    let mut r: Vec<usize> = Vec::new();
    let mut i: usize = 0;
    while i < interface_names.len()
        invariant
            i <= interface_names@.len(),
            r@ == listed_indices(strings_view(names@), strings_view(interface_names@), i as int),
        decreases interface_names@.len() - i,
    {
        assert(strings_view(interface_names@)[i as int] == interface_names@[i as int]@);
        if contains_string(names, &interface_names[i]) {
            r.push(i);
        }
        i = i + 1;
    }
    r
}

/// The core's mode in lower case, `rule` when the configuration sets none.
pub open spec fn spec_clash_mode_lower(mode: Option<Seq<char>>) -> Seq<char> {
    match mode {
        Some(m) => unicode_lowercase(m),
        None => "rule"@,
    }
}

/// The string under `mode` in the core's configuration (inside any tags),
/// if there is one.
pub open spec fn spec_mode_setting(clash: Mapping) -> Option<Seq<char>> {
    match entry_for(mapping_entries(clash), YamlScalar::Str("mode"@)) {
        Some(v) => match untag(v) {
            YamlScalar::Str(s) => Some(s),
            _ => None,
        },
        None => None,
    }
}

/// The core's `mode` setting (if it is a string) in lower case; `rule` if unset.
pub fn clash_mode_lower(clash: &Mapping) -> (r: String)
    ensures
        r@ == spec_clash_mode_lower(spec_mode_setting(*clash)),
{
    match mapping_get_str(clash, "mode") {
        Some(m) => str_to_lowercase(m.as_str()),
        None => String::from_str("rule"),
    }
}

/// `v` clamped into `[lo, hi]`.
pub open spec fn clamp(v: int, lo: int, hi: int) -> int {
    if v < lo { lo } else if v > hi { hi } else { v }
}

/// The connect timeout: the given one or the default, kept within 1 s to 2 min.
pub open spec fn spec_connect_ms(given: Option<u64>, default: u64) -> int {
    clamp(match given { Some(v) => v as int, None => default as int }, 1_000, 120_000)
}

/// The request timeout: the given one or the default, at least the connect
/// timeout and at most 5 min.
pub open spec fn spec_request_ms(given: Option<u64>, default: u64, connect: int) -> int {
    let r = match given { Some(v) => v as int, None => default as int };
    let r = if r < connect { connect } else { r };
    if r > 300_000 { 300_000 } else { r }
}

/// The connect and request timeouts in milliseconds.
pub fn request_timeouts(connect_ms: Option<u64>, request_ms: Option<u64>, default_connect: u64, default_request: u64) -> (r: (u64, u64))
    ensures
        r.0 == spec_connect_ms(connect_ms, default_connect),
        r.1 == spec_request_ms(request_ms, default_request, r.0 as int),
{
    let c = match connect_ms { Some(v) => v, None => default_connect };
    let c = if c < 1_000 { 1_000 } else if c > 120_000 { 120_000 } else { c };
    let r = match request_ms { Some(v) => v, None => default_request };
    let r = if r < c { c } else { r };
    let r = if r > 300_000 { 300_000 } else { r };
    (c, r)
}

/// A timeout the caller gives is used, only pulled into range (the connect
/// timeout into 1 s to 2 min, the request timeout up to the connect timeout
/// and down to 5 min); the defaults matter only when none is given, and then
/// act as if given. In particular a given timeout already in range is used
/// unchanged.
pub proof fn lemma_given_timeouts_are_used(
    connect: u64,
    request: u64,
    default_connect: u64,
    default_request: u64,
    other_connect: u64,
    other_request: u64,
    c: int,
)
    ensures
        spec_connect_ms(Some(connect), default_connect)
            == (if connect < 1_000 { 1_000 } else if connect > 120_000 { 120_000 } else { connect as int }),
        spec_request_ms(Some(request), default_request, c)
            == vstd::math::min(vstd::math::max(request as int, c), 300_000),
        1_000 <= connect <= 120_000 ==> spec_connect_ms(Some(connect), default_connect) == connect,
        c <= request <= 300_000 ==> spec_request_ms(Some(request), default_request, c) == request,
        spec_connect_ms(Some(connect), default_connect) == spec_connect_ms(Some(connect), other_connect),
        spec_request_ms(Some(request), default_request, c) == spec_request_ms(Some(request), other_request, c),
        spec_connect_ms(None, default_connect) == spec_connect_ms(Some(default_connect), other_connect),
        spec_request_ms(None, default_request, c) == spec_request_ms(Some(default_request), other_request, c),
{
}

/// Whatever is asked, the connect timeout lies within 1 s to 2 min and the
/// request timeout lies between the connect timeout and 5 min.
pub proof fn lemma_timeouts_bounded(connect_ms: Option<u64>, request_ms: Option<u64>, default_connect: u64, default_request: u64)
    ensures
        1_000 <= spec_connect_ms(connect_ms, default_connect) <= 120_000,
        spec_connect_ms(connect_ms, default_connect) <= spec_request_ms(request_ms, default_request, spec_connect_ms(connect_ms, default_connect)) <= 300_000,
{
}

/// The HTTP methods the panel may use.
#[derive(Clone, Copy, Debug, PartialEq, Eq, Structural)]
pub enum HttpMethod {
    Get,
    Post,
    Put,
    Patch,
    Delete,
}

/// The method named by `upper` (already in upper case), or the error for any other name.
pub open spec fn spec_http_method(upper: Seq<char>) -> Result<HttpMethod, Seq<char>> {
    if upper == "GET"@ {
        Ok(HttpMethod::Get)
    } else if upper == "POST"@ {
        Ok(HttpMethod::Post)
    } else if upper == "PUT"@ {
        Ok(HttpMethod::Put)
    } else if upper == "PATCH"@ {
        Ok(HttpMethod::Patch)
    } else if upper == "DELETE"@ {
        Ok(HttpMethod::Delete)
    } else {
        Err("unsupported HTTP method: "@ + upper)
    }
}

/// A method result seen through string views.
pub open spec fn method_result(r: Result<HttpMethod, String>) -> Result<HttpMethod, Seq<char>> {
    match r {
        Ok(m) => Ok(m),
        Err(e) => Err(e@),
    }
}

/// The method named by the upper-cased name `upper`.
pub fn http_method_from_upper(upper: &str) -> (r: Result<HttpMethod, String>)
    ensures
        method_result(r) == spec_http_method(upper@),
{
    if str_equal(upper, "GET") {
        Ok(HttpMethod::Get)
    } else if str_equal(upper, "POST") {
        Ok(HttpMethod::Post)
    } else if str_equal(upper, "PUT") {
        Ok(HttpMethod::Put)
    } else if str_equal(upper, "PATCH") {
        Ok(HttpMethod::Patch)
    } else if str_equal(upper, "DELETE") {
        Ok(HttpMethod::Delete)
    } else {
        let mut e = String::from_str("unsupported HTTP method: ");
        e.append(upper);
        Err(e)
    }
}

/// A panel request ready to be sent.
pub struct PanelRequest {
    pub method: HttpMethod,
    pub url: String,
    pub connect_timeout_ms: u64,
    pub request_timeout_ms: u64,
    /// The `Accept` header: always `application/json`.
    pub accept: String,
    /// Whether to send `Content-Type: application/json`.
    pub json_content_type: bool,
    /// Extra headers, sent after the fixed ones.
    pub headers: Vec<(String, String)>,
    pub body: Option<String>,
    /// The proxy to send through; `None` sends straight to the server,
    /// past any system or environment proxy.
    pub proxy: Option<String>,
}

/// The panel's connect and request timeouts: 30 s and 45 s by default.
pub fn panel_timeouts(connect_timeout_ms: Option<u64>, request_timeout_ms: Option<u64>) -> (r: (u64, u64))
    ensures
        r.0 == spec_connect_ms(connect_timeout_ms, 30_000),
        r.1 == spec_request_ms(request_timeout_ms, 45_000, r.0 as int),
{
    request_timeouts(connect_timeout_ms, request_timeout_ms, 30_000, 45_000)
}

/// The panel request for an already upper-cased method name: unknown
/// methods are refused; the timeouts default to 30 s and 45 s; a JSON
/// content type is declared for a body sent with any method but `GET`; the
/// request goes straight to the server, through no proxy.
pub fn panel_request_from_upper(
    upper_method: &str,
    url: String,
    body: Option<String>,
    headers: Option<Vec<(String, String)>>,
    connect_timeout_ms: Option<u64>,
    request_timeout_ms: Option<u64>,
) -> (r: Result<PanelRequest, String>)
    ensures
        spec_http_method(upper_method@) is Err ==> (r matches Err(e) && e@ == spec_http_method(upper_method@)->Err_0),
        spec_http_method(upper_method@) is Ok ==> (r matches Ok(req) && {
            &&& req.method == spec_http_method(upper_method@)->Ok_0
            &&& req.url == url
            &&& req.connect_timeout_ms == spec_connect_ms(connect_timeout_ms, 30_000)
            &&& req.request_timeout_ms == spec_request_ms(request_timeout_ms, 45_000, req.connect_timeout_ms as int)
            &&& req.accept@ == "application/json"@
            &&& req.json_content_type == (req.method != HttpMethod::Get && body is Some)
            &&& req.headers@ == (match headers { Some(h) => h@, None => Seq::empty() })
            &&& req.body == body
            &&& req.proxy is None
        }),
{
    let (c, t) = panel_timeouts(connect_timeout_ms, request_timeout_ms);
    let method = http_method_from_upper(upper_method)?;
    let json_content_type = method != HttpMethod::Get && body.is_some();
    let headers = match headers {
        Some(h) => h,
        None => Vec::new(),
    };
    let accept = String::from_str("application/json");
    Ok(PanelRequest { method, url, connect_timeout_ms: c, request_timeout_ms: t, accept, json_content_type, headers, body, proxy: None })
}

/// The panel request for `method` in any case (upper-cased with std's Unicode mapping).
pub fn panel_http_request(
    method: &str,
    url: String,
    body: Option<String>,
    headers: Option<Vec<(String, String)>>,
    connect_timeout_ms: Option<u64>,
    request_timeout_ms: Option<u64>,
) -> (r: Result<PanelRequest, String>)
    ensures
        spec_http_method(unicode_uppercase(method@)) is Err ==>
            (r matches Err(e) && e@ == spec_http_method(unicode_uppercase(method@))->Err_0),
        spec_http_method(unicode_uppercase(method@)) is Ok ==> (r matches Ok(req) && {
            &&& req.method == spec_http_method(unicode_uppercase(method@))->Ok_0
            &&& req.url == url
            &&& req.connect_timeout_ms == spec_connect_ms(connect_timeout_ms, 30_000)
            &&& req.request_timeout_ms == spec_request_ms(request_timeout_ms, 45_000, req.connect_timeout_ms as int)
            &&& req.accept@ == "application/json"@
            &&& req.json_content_type == (req.method != HttpMethod::Get && body is Some)
            &&& req.headers@ == (match headers { Some(h) => h@, None => Seq::empty() })
            &&& req.body == body
            &&& req.proxy is None
        }),
{
    let upper = str_to_uppercase(method);
    panel_request_from_upper(upper.as_str(), url, body, headers, connect_timeout_ms, request_timeout_ms)
}

/// An error and the errors that caused it, outermost first, one per line.
pub open spec fn error_chain(messages: Seq<Seq<char>>) -> Seq<char>
    decreases messages.len(),
{
    if messages.len() == 0 {
        Seq::empty()
    } else if messages.len() == 1 {
        messages[0]
    } else {
        error_chain(messages.drop_last()) + "\n  caused by: "@ + messages.last()
    }
}

/// The message of an HTTP error followed by its causes (the messages of
/// the error and of each `source()` in turn).
pub fn reqwest_error_chain(messages: &Vec<String>) -> (s: String)
    ensures
        s@ == error_chain(strings_view(messages@)),
{
    let mut s = String::new();
    let mut i: usize = 0;
    while i < messages.len()
        invariant
            i <= messages@.len(),
            s@ == error_chain(strings_view(messages@.subrange(0, i as int))),
        decreases messages@.len() - i,
    {
        if i > 0 {
            s.append("\n  caused by: ");
        }
        s.append(messages[i].as_str());
        proof {
            let next = strings_view(messages@.subrange(0, i + 1));
            assert(next.drop_last() =~= strings_view(messages@.subrange(0, i as int)));
            assert(next.last() == messages@[i as int]@);
            if i == 0 {
                assert(next.len() == 1);
                assert(s@ =~= error_chain(next));
            }
        }
        i = i + 1;
    }
    assert(messages@.subrange(0, messages@.len() as int) =~= messages@);
    s
}

/// The panel's error when sending fails: `reqwest: ` and the error chain.
pub fn panel_send_error(messages: &Vec<String>) -> (s: String)
    ensures
        s@ == "reqwest: "@ + error_chain(strings_view(messages@)),
{
    let mut s = String::from_str("reqwest: ");
    let chain = reqwest_error_chain(messages);
    s.append(chain.as_str());
    s
}

/// What came of sending a panel request.
pub enum PanelOutcome {
    /// The server answered with this status and body text, whatever the status.
    Reply { status: u16, body: String },
    /// Sending failed; the messages of the error and of its causes, outermost first.
    SendFailed(Vec<String>),
    /// The body could not be read; the error's message.
    BodyFailed(String),
}

/// The panel command's result: every reply, whatever its status, is handed
/// back as it came; a failed send is reported as `reqwest: ` and the error
/// chain; a failed body read by the error's message.
pub fn panel_http_result(outcome: PanelOutcome) -> (r: Result<PanelHttpResponse, String>)
    ensures
        match outcome {
            PanelOutcome::Reply { status, body } => (r matches Ok(resp) && resp.status == status && resp.body == body),
            PanelOutcome::SendFailed(messages) => (r matches Err(e) && e@ == "reqwest: "@ + error_chain(strings_view(messages@))),
            PanelOutcome::BodyFailed(message) => (r matches Err(e) && e@ == message@),
        },
{
    match outcome {
        PanelOutcome::Reply { status, body } => Ok(PanelHttpResponse { status, body }),
        PanelOutcome::SendFailed(messages) => Err(panel_send_error(&messages)),
        PanelOutcome::BodyFailed(message) => Err(message),
    }
}

/// The proxy address for the core's mixed port.
pub fn mixed_proxy_url(port: u16) -> (s: String)
    ensures
        s@ == "http://127.0.0.1:"@ + decimal(port as nat),
{
    let mut s = String::from_str("http://127.0.0.1:");
    push_decimal(&mut s, port as u64);
    s
}

/// How an IP-detection request is made.
pub struct IpDetectionPlan {
    pub connect_timeout_ms: u64,
    pub request_timeout_ms: u64,
    /// The core's mixed port to go through first, if any.
    pub mixed_port: Option<u16>,
}

/// Whether to try the core's mixed port: unless explicitly declined, and
/// unless the core runs in `direct` mode.
pub open spec fn spec_want_mixed(use_mixed_port_proxy: Option<bool>, mode_lower: Seq<char>) -> bool {
    match use_mixed_port_proxy {
        Some(false) => false,
        _ => mode_lower != "direct"@,
    }
}

/// The mixed port: the application's own setting when positive, else the core's.
pub open spec fn spec_mixed_port(verge_mixed_port: Option<u16>, clash_mixed_port: u16) -> u16 {
    match verge_mixed_port {
        Some(p) => if p > 0 { p } else { clash_mixed_port },
        None => clash_mixed_port,
    }
}

/// The mixed port is wanted exactly when the caller has not declined it
/// with `Some(false)` and the core is not in `direct` mode: passing nothing
/// is the same as passing `Some(true)`. The port is the application's own
/// when set above 0, else the core's.
pub proof fn lemma_mixed_port_choice(use_mixed_port_proxy: Option<bool>, mode_lower: Seq<char>, verge: Option<u16>, clash: u16)
    ensures
        spec_want_mixed(use_mixed_port_proxy, mode_lower)
            == (use_mixed_port_proxy != Some(false) && mode_lower != "direct"@),
        spec_want_mixed(None, mode_lower) == spec_want_mixed(Some(true), mode_lower),
        !spec_want_mixed(Some(false), mode_lower),
        !spec_want_mixed(use_mixed_port_proxy, "direct"@),
        verge is Some && verge.unwrap() > 0 ==> spec_mixed_port(verge, clash) == verge.unwrap(),
        !(verge is Some && verge.unwrap() > 0) ==> spec_mixed_port(verge, clash) == clash,
{
}

/// The IP-detection plan for a core mode already in lower case: timeouts
/// default to 8 s and 10 s; the mixed port is used when wanted and positive.
pub fn ip_detection_plan(
    connect_timeout_ms: Option<u64>,
    request_timeout_ms: Option<u64>,
    use_mixed_port_proxy: Option<bool>,
    mode_lower: &str,
    verge_mixed_port: Option<u16>,
    clash_mixed_port: u16,
) -> (plan: IpDetectionPlan)
    ensures
        plan.connect_timeout_ms == spec_connect_ms(connect_timeout_ms, 8_000),
        plan.request_timeout_ms == spec_request_ms(request_timeout_ms, 10_000, plan.connect_timeout_ms as int),
        plan.mixed_port == (if spec_want_mixed(use_mixed_port_proxy, mode_lower@)
            && spec_mixed_port(verge_mixed_port, clash_mixed_port) > 0 {
            Some(spec_mixed_port(verge_mixed_port, clash_mixed_port))
        } else {
            None::<u16>
        }),
{
    let (c, r) = request_timeouts(connect_timeout_ms, request_timeout_ms, 8_000, 10_000);
    let want_mixed = match use_mixed_port_proxy {
        Some(false) => false,
        _ => !str_equal(mode_lower, "direct"),
    };
    let mut mixed_port: Option<u16> = None;
    if want_mixed {
        let p = match verge_mixed_port {
            Some(p) => if p > 0 { p } else { clash_mixed_port },
            None => clash_mixed_port,
        };
        if p > 0 {
            mixed_port = Some(p);
        }
    }
    IpDetectionPlan { connect_timeout_ms: c, request_timeout_ms: r, mixed_port }
}

/// The IP-detection plan for the core's configuration `clash` (its `mode`
/// setting) and mixed ports.
pub fn ip_detection_http_get(
    connect_timeout_ms: Option<u64>,
    request_timeout_ms: Option<u64>,
    use_mixed_port_proxy: Option<bool>,
    clash: &Mapping,
    verge_mixed_port: Option<u16>,
    clash_mixed_port: u16,
) -> (plan: IpDetectionPlan)
    ensures ({
        let mode_lower = spec_clash_mode_lower(spec_mode_setting(*clash));
        &&& plan.connect_timeout_ms == spec_connect_ms(connect_timeout_ms, 8_000)
        &&& plan.request_timeout_ms == spec_request_ms(request_timeout_ms, 10_000, plan.connect_timeout_ms as int)
        &&& plan.mixed_port == (if spec_want_mixed(use_mixed_port_proxy, mode_lower)
                && spec_mixed_port(verge_mixed_port, clash_mixed_port) > 0 {
                Some(spec_mixed_port(verge_mixed_port, clash_mixed_port))
            } else {
                None::<u16>
            })
    }),
{
    let mode_lower = clash_mode_lower(clash);
    ip_detection_plan(connect_timeout_ms, request_timeout_ms, use_mixed_port_proxy, mode_lower.as_str(), verge_mixed_port, clash_mixed_port)
}

/// The route of one IP-detection attempt.
#[derive(Clone, Copy, Debug, PartialEq, Eq, Structural)]
pub enum IpDetectionRoute {
    /// Through the core's mixed port.
    ViaMixed(u16),
    /// Straight to the server.
    Direct,
}

/// The proxy for a route: the mixed port's address for a route through a
/// port above 0; none for a direct route or port 0.
pub open spec fn spec_route_proxy(route: IpDetectionRoute) -> Option<Seq<char>> {
    match route {
        IpDetectionRoute::ViaMixed(p) => if p > 0 {
            Some("http://127.0.0.1:"@ + decimal(p as nat))
        } else {
            None
        },
        IpDetectionRoute::Direct => None,
    }
}

/// An optional string as an optional character sequence.
pub open spec fn opt_view(o: Option<String>) -> Option<Seq<char>> {
    match o {
        Some(s) => Some(s@),
        None => None,
    }
}

/// The proxy for an attempt: the mixed port's address for a route through a
/// port above 0; `None` (no proxy at all) for a direct route or port 0.
pub fn ip_detection_proxy(route: IpDetectionRoute) -> (r: Option<String>)
    ensures
        opt_view(r) == spec_route_proxy(route),
{
    match route {
        IpDetectionRoute::ViaMixed(p) => if p > 0 {
            Some(mixed_proxy_url(p))
        } else {
            None
        },
        IpDetectionRoute::Direct => None,
    }
}

/// The first attempt: through the mixed port if the plan has one, else direct.
pub fn ip_detection_first_route(plan: &IpDetectionPlan) -> (r: IpDetectionRoute)
    ensures
        plan.mixed_port matches Some(p) ==> r == IpDetectionRoute::ViaMixed(p),
        plan.mixed_port is None ==> r == IpDetectionRoute::Direct,
{
    match plan.mixed_port {
        Some(p) => IpDetectionRoute::ViaMixed(p),
        None => IpDetectionRoute::Direct,
    }
}

/// One IP-detection request ready to be sent.
pub struct IpDetectionRequest {
    /// Always `GET`.
    pub method: HttpMethod,
    pub url: String,
    /// The `Accept` header: always `application/json`.
    pub accept: String,
    /// The `User-Agent` header.
    pub user_agent: String,
    pub connect_timeout_ms: u64,
    pub request_timeout_ms: u64,
    /// The proxy for every scheme; `None` sends straight to the server.
    pub proxy: Option<String>,
}

/// The request of one attempt along `route`: a `GET` of `url` accepting
/// JSON, with the caller's user agent, the plan's timeouts and the route's proxy.
pub fn ip_detection_http_request(url: &str, user_agent: &str, plan: &IpDetectionPlan, route: IpDetectionRoute) -> (req: IpDetectionRequest)
    ensures
        req.method == HttpMethod::Get,
        req.url@ == url@,
        req.accept@ == "application/json"@,
        req.user_agent@ == user_agent@,
        req.connect_timeout_ms == plan.connect_timeout_ms,
        req.request_timeout_ms == plan.request_timeout_ms,
        opt_view(req.proxy) == spec_route_proxy(route),
{
    IpDetectionRequest {
        method: HttpMethod::Get,
        url: String::from_str(url),
        accept: String::from_str("application/json"),
        user_agent: String::from_str(user_agent),
        connect_timeout_ms: plan.connect_timeout_ms,
        request_timeout_ms: plan.request_timeout_ms,
        proxy: ip_detection_proxy(route),
    }
}

/// What came of one IP-detection attempt.
pub enum IpDetectionOutcome {
    /// The server answered with this status and body text, whatever the status.
    Reply { status: u16, body: String },
    /// The client could not be built, the request not sent or the body not
    /// read; the error's message.
    Failed(String),
}

/// The attempt's result: the reply as it came, whatever its status, or the
/// error's message.
pub fn ip_detection_result(outcome: IpDetectionOutcome) -> (r: Result<IpDetectionHttpResponse, String>)
    ensures
        match outcome {
            IpDetectionOutcome::Reply { status, body } => (r matches Ok(resp) && resp.status == status && resp.body == body),
            IpDetectionOutcome::Failed(message) => (r matches Err(e) && e@ == message@),
        },
{
    match outcome {
        IpDetectionOutcome::Reply { status, body } => Ok(IpDetectionHttpResponse { status, body }),
        IpDetectionOutcome::Failed(message) => Err(message),
    }
}

/// What follows an attempt.
pub enum IpDetectionStep {
    /// This is the command's result.
    Finished(Result<IpDetectionHttpResponse, String>),
    /// Try again, straight to the server.
    RetryDirect,
}

/// After an attempt: a reply is the result; a failure through the mixed
/// port is retried directly; a direct failure is the result.
pub fn ip_detection_next(route: IpDetectionRoute, outcome: Result<IpDetectionHttpResponse, String>) -> (r: IpDetectionStep)
    ensures
        outcome is Ok ==> (r matches IpDetectionStep::Finished(res) && res == outcome),
        outcome is Err && route is Direct ==> (r matches IpDetectionStep::Finished(res) && res == outcome),
        outcome is Err && route is ViaMixed ==> r is RetryDirect,
{
    match outcome {
        Ok(resp) => IpDetectionStep::Finished(Ok(resp)),
        Err(e) => match route {
            IpDetectionRoute::ViaMixed(_) => IpDetectionStep::RetryDirect,
            IpDetectionRoute::Direct => IpDetectionStep::Finished(Err(e)),
        },
    }
}

} // verus!

verus! {

/// The interfaces reported are exactly those whose name is listed, each
/// once and in the system's order.
pub proof fn lemma_listed_indices(names: Seq<Seq<char>>, candidates: Seq<Seq<char>>, n: int)
    requires
        0 <= n <= candidates.len(),
        candidates.len() <= usize::MAX,
    ensures ({
        let r = listed_indices(names, candidates, n);
        &&& forall|k: int| 0 <= k < r.len() ==> #[trigger] r[k] < n && names.contains(candidates[r[k] as int])
        &&& forall|k1: int, k2: int| 0 <= k1 < k2 < r.len() ==> r[k1] < r[k2]
        &&& forall|i: int| 0 <= i < n && names.contains(#[trigger] candidates[i]) ==> r.contains(i as usize)
    }),
    decreases n,
{
    if n > 0 {
        lemma_listed_indices(names, candidates, n - 1);
        let prev = listed_indices(names, candidates, n - 1);
        let r = listed_indices(names, candidates, n);
        if names.contains(candidates[n - 1]) {
            assert(r == prev.push((n - 1) as usize));
            assert(r[r.len() - 1] == (n - 1) as usize);
            assert forall|i: int| 0 <= i < n && names.contains(#[trigger] candidates[i]) implies r.contains(i as usize) by {
                if i < n - 1 {
                    let k = choose|k: int| 0 <= k < prev.len() && prev[k] == i as usize;
                    assert(r[k] == i as usize);
                } else {
                    assert(r[r.len() - 1] == i as usize);
                }
            }
        }
    }
}

} // verus!
