use clash_verge::network::{
    clash_mode_lower, get_auto_proxy, get_network_interfaces_info, get_sys_proxy, panel_timeouts,
    hostname_from_lookup, http_method_from_upper, ip_detection_first_route, ip_detection_http_get,
    ip_detection_next, ip_detection_plan, ip_detection_proxy, mixed_proxy_url, panel_http_request,
    panel_request_from_upper, panel_send_error, reqwest_error_chain, request_timeouts, AutoProxy,
    HttpMethod, IpDetectionHttpResponse, IpDetectionRoute, IpDetectionStep, PanelHttpResponse,
    SystemProxy, panel_http_result, PanelOutcome, ip_detection_http_request, ip_detection_result,
    IpDetectionOutcome, IpDetectionPlan,
};

use serde_yaml_ng::{Mapping, Value};

fn strings(v: &[&str]) -> Vec<String> {
    v.iter().map(|s| s.to_string()).collect()
}

fn yaml(text: &str) -> Mapping {
    serde_yaml_ng::from_str(text).unwrap()
}

fn entries(m: &Mapping) -> Vec<(String, Value)> {
    m.iter().map(|(k, v)| (k.as_str().unwrap().to_string(), v.clone())).collect()
}

#[test]
fn sys_proxy_server_is_host_colon_port() {
    let p = SystemProxy { enable: true, host: "127.0.0.1".to_string(), port: 7897, bypass: "localhost".to_string() };
    let m = get_sys_proxy(&p);
    assert_eq!(
        entries(&m),
        vec![
            ("enable".to_string(), Value::Bool(true)),
            ("server".to_string(), Value::String("127.0.0.1:7897".to_string())),
            ("bypass".to_string(), Value::String("localhost".to_string())),
        ]
    );
    let p = SystemProxy { enable: false, host: String::new(), port: 0, bypass: String::new() };
    assert_eq!(get_sys_proxy(&p).get("server").and_then(|v| v.as_str()), Some(":0"));
    let p = SystemProxy { enable: false, host: "h".to_string(), port: 65535, bypass: String::new() };
    assert_eq!(get_sys_proxy(&p).get("server").and_then(|v| v.as_str()), Some("h:65535"));
    assert_eq!(get_sys_proxy(&p).get("enable").and_then(|v| v.as_bool()), Some(false));
}

#[test]
fn auto_proxy_is_passed_through() {
    let m = get_auto_proxy(&AutoProxy { enable: true, url: "http://127.0.0.1:33331/pac".to_string() });
    assert_eq!(
        entries(&m),
        vec![
            ("enable".to_string(), Value::Bool(true)),
            ("url".to_string(), Value::String("http://127.0.0.1:33331/pac".to_string())),
        ]
    );
}

#[test]
fn hostname_fallback_strips_quotes() {
    assert_eq!(hostname_from_lookup(Ok("box".to_string())), "box");
    assert_eq!(hostname_from_lookup(Ok("\"box\"".to_string())), "\"box\"");
    assert_eq!(hostname_from_lookup(Err("\"bo\\xFFx\"".to_string())), "bo\\xFFx");
    assert_eq!(hostname_from_lookup(Err("\"\"\"".to_string())), "");
    assert_eq!(hostname_from_lookup(Err("a\"b".to_string())), "a\"b");
}

#[test]
fn listed_interfaces_in_system_order() {
    let names = strings(&["eth0", "wlan0"]);
    let found = strings(&["lo", "wlan0", "docker0", "eth0", "wlan0"]);
    assert_eq!(get_network_interfaces_info(&names, &found), vec![1, 3, 4]);
    assert_eq!(get_network_interfaces_info(&vec![], &found), Vec::<usize>::new());
}

#[test]
fn clash_mode_defaults_to_rule() {
    assert_eq!(clash_mode_lower(&yaml("mode: Global\nmixed-port: 7897")), "global");
    assert_eq!(clash_mode_lower(&yaml("mode: DIRECT")), "direct");
    assert_eq!(clash_mode_lower(&yaml("mixed-port: 7897")), "rule");
    assert_eq!(clash_mode_lower(&yaml("mode: 3")), "rule");
    assert_eq!(clash_mode_lower(&yaml("mode: !pick Global")), "global");
    assert_eq!(clash_mode_lower(&yaml("? !t mode\n: Global")), "rule");
    assert_eq!(clash_mode_lower(&Mapping::new()), "rule");
}

#[test]
fn timeouts_are_clamped() {
    assert_eq!(request_timeouts(None, None, 30_000, 45_000), (30_000, 45_000));
    assert_eq!(request_timeouts(Some(10), Some(10), 30_000, 45_000), (1_000, 1_000));
    assert_eq!(request_timeouts(Some(500_000), None, 30_000, 45_000), (120_000, 120_000));
    assert_eq!(request_timeouts(Some(5_000), Some(u64::MAX), 30_000, 45_000), (5_000, 300_000));
    assert_eq!(request_timeouts(Some(60_000), Some(2_000), 8_000, 10_000), (60_000, 60_000));
}

#[test]
fn panel_methods() {
    assert_eq!(http_method_from_upper("GET"), Ok(HttpMethod::Get));
    assert_eq!(http_method_from_upper("DELETE"), Ok(HttpMethod::Delete));
    assert_eq!(http_method_from_upper("get"), Err("unsupported HTTP method: get".to_string()));
    let r = panel_http_request("post", "https://x/".to_string(), Some("{}".to_string()), None, None, None).unwrap();
    assert_eq!(r.method, HttpMethod::Post);
    assert!(r.json_content_type);
    assert_eq!((r.connect_timeout_ms, r.request_timeout_ms), (30_000, 45_000));
    assert_eq!(r.body, Some("{}".to_string()));
    assert!(r.headers.is_empty());
    assert_eq!(r.proxy, None);
    assert_eq!(panel_timeouts(None, None), (30_000, 45_000));
    assert_eq!(panel_timeouts(Some(200_000), Some(1)), (120_000, 120_000));
    let r = panel_http_request("Get", "https://x/".to_string(), Some("{}".to_string()), None, None, None).unwrap();
    assert!(!r.json_content_type);
    let r = panel_http_request("patch", "u".to_string(), None, Some(vec![("X-A".to_string(), "1".to_string())]), Some(2_000), Some(1_000)).unwrap();
    assert_eq!(r.method, HttpMethod::Patch);
    assert!(!r.json_content_type);
    assert_eq!(r.headers, vec![("X-A".to_string(), "1".to_string())]);
    assert_eq!((r.connect_timeout_ms, r.request_timeout_ms), (2_000, 2_000));
    assert_eq!(panel_http_request("put", "u".to_string(), None, None, None, None).unwrap().method, HttpMethod::Put);
    assert_eq!(
        panel_http_request("trace", "u".to_string(), None, None, None, None).err(),
        Some("unsupported HTTP method: TRACE".to_string())
    );
    // std's Unicode upper-casing maps the long s to S
    assert_eq!(panel_http_request("po\u{17f}t", "u".to_string(), None, None, None, None).unwrap().method, HttpMethod::Post);
    assert!(panel_request_from_upper("post", "u".to_string(), None, None, None, None).is_err());
}

#[test]
fn error_chain_lists_causes() {
    assert_eq!(reqwest_error_chain(&strings(&["error sending request"])), "error sending request");
    assert_eq!(
        reqwest_error_chain(&strings(&["a", "b", "c"])),
        "a\n  caused by: b\n  caused by: c"
    );
    assert_eq!(reqwest_error_chain(&vec![]), "");
    assert_eq!(panel_send_error(&strings(&["x", "y"])), "reqwest: x\n  caused by: y");
}

#[test]
fn mixed_proxy_address() {
    assert_eq!(mixed_proxy_url(7897), "http://127.0.0.1:7897");
    assert_eq!(ip_detection_proxy(IpDetectionRoute::ViaMixed(1)), Some("http://127.0.0.1:1".to_string()));
    assert_eq!(ip_detection_proxy(IpDetectionRoute::Direct), None);
    assert_eq!(ip_detection_proxy(IpDetectionRoute::ViaMixed(0)), None);
}

#[test]
fn ip_detection_route_choice() {
    let p = ip_detection_plan(None, None, None, "rule", Some(7899), 7897);
    assert_eq!((p.connect_timeout_ms, p.request_timeout_ms, p.mixed_port), (8_000, 10_000, Some(7899)));
    assert_eq!(ip_detection_plan(None, None, None, "rule", Some(0), 7897).mixed_port, Some(7897));
    assert_eq!(ip_detection_plan(None, None, None, "rule", None, 7897).mixed_port, Some(7897));
    assert_eq!(ip_detection_plan(None, None, None, "rule", None, 0).mixed_port, None);
    assert_eq!(ip_detection_plan(None, None, None, "direct", Some(7899), 7897).mixed_port, None);
    assert_eq!(ip_detection_plan(None, None, Some(false), "rule", Some(7899), 7897).mixed_port, None);
    assert_eq!(ip_detection_plan(None, None, Some(true), "global", Some(7899), 7897).mixed_port, Some(7899));
    assert_eq!(ip_detection_http_get(None, None, Some(true), &yaml("mode: Direct"), Some(7899), 7897).mixed_port, None);
    assert_eq!(ip_detection_http_get(None, None, None, &Mapping::new(), Some(7899), 7897).mixed_port, Some(7899));
    let p = ip_detection_http_get(Some(100), Some(50), None, &yaml("mode: rule"), None, 1);
    assert_eq!((p.connect_timeout_ms, p.request_timeout_ms), (1_000, 1_000));
    assert_eq!(ip_detection_first_route(&p), IpDetectionRoute::ViaMixed(1));
    let p = ip_detection_plan(None, None, None, "direct", None, 1);
    assert_eq!(ip_detection_first_route(&p), IpDetectionRoute::Direct);
}

#[test]
fn ip_detection_retries_direct_once() {
    let ok = || Ok(IpDetectionHttpResponse { status: 200, body: "{}".to_string() });
    match ip_detection_next(IpDetectionRoute::ViaMixed(7897), ok()) {
        IpDetectionStep::Finished(Ok(r)) => assert_eq!((r.status, r.body.as_str()), (200, "{}")),
        _ => panic!("expected the reply"),
    }
    assert!(matches!(
        ip_detection_next(IpDetectionRoute::ViaMixed(7897), Err("refused".to_string())),
        IpDetectionStep::RetryDirect
    ));
    match ip_detection_next(IpDetectionRoute::Direct, Err("timeout".to_string())) {
        IpDetectionStep::Finished(Err(e)) => assert_eq!(e, "timeout"),
        _ => panic!("expected the error"),
    }
    let r = PanelHttpResponse { status: 404, body: String::new() };
    assert_eq!(r.status, 404);
}

#[test]
fn panel_request_accepts_json() {
    let req = panel_http_request("post", "http://x".to_string(), None, None, None, None).unwrap();
    assert_eq!(req.accept, "application/json");
    assert!(!req.json_content_type);
}

#[test]
fn panel_replies_of_any_status_are_results() {
    let r = panel_http_result(PanelOutcome::Reply { status: 404, body: "nope".to_string() }).unwrap();
    assert_eq!((r.status, r.body.as_str()), (404, "nope"));
    let r = panel_http_result(PanelOutcome::Reply { status: 200, body: "{}".to_string() }).unwrap();
    assert_eq!((r.status, r.body.as_str()), (200, "{}"));
    let e = panel_http_result(PanelOutcome::SendFailed(strings(&["error sending request", "timed out"])));
    assert_eq!(e.err().unwrap(), "reqwest: error sending request\n  caused by: timed out");
    let e = panel_http_result(PanelOutcome::BodyFailed("decode failed".to_string()));
    assert_eq!(e.err().unwrap(), "decode failed");
}

#[test]
fn ip_detection_request_fields() {
    let plan = IpDetectionPlan { connect_timeout_ms: 8_000, request_timeout_ms: 10_000, mixed_port: Some(7897) };
    let req = ip_detection_http_request("https://api.ip.sb/geoip", "clash-verge/v2", &plan, IpDetectionRoute::ViaMixed(7897));
    assert_eq!(req.method, HttpMethod::Get);
    assert_eq!(req.url, "https://api.ip.sb/geoip");
    assert_eq!(req.accept, "application/json");
    assert_eq!(req.user_agent, "clash-verge/v2");
    assert_eq!((req.connect_timeout_ms, req.request_timeout_ms), (8_000, 10_000));
    assert_eq!(req.proxy.as_deref(), Some("http://127.0.0.1:7897"));
    let req = ip_detection_http_request("https://x", "ua", &plan, IpDetectionRoute::Direct);
    assert_eq!(req.proxy, None);
    let req = ip_detection_http_request("https://x", "ua", &plan, IpDetectionRoute::ViaMixed(0));
    assert_eq!(req.proxy, None);
}

#[test]
fn ip_detection_replies_of_any_status_are_results() {
    let r = ip_detection_result(IpDetectionOutcome::Reply { status: 503, body: "busy".to_string() }).unwrap();
    assert_eq!((r.status, r.body.as_str()), (503, "busy"));
    let e = ip_detection_result(IpDetectionOutcome::Failed("connection refused".to_string()));
    assert_eq!(e.err().unwrap(), "connection refused");
}
