use philipshue::discover::discovery_url::{read_bridges, DiscoveryUrlResponse, DISCOVER_ADDRESS};
use philipshue::discover::first_bridge;
use philipshue::http::{Method, Request};
use philipshue::json::{parse, Decode, Json};
use philipshue::{
    Discover, DiscoveredHueBridge, DiscoveryUrl, HueBridge, HueError, RequestFailure,
};

fn record(id: &str, ip: &str, port: u16) -> DiscoveryUrlResponse {
    DiscoveryUrlResponse { id: id.to_string(), internal_ip_address: ip.to_string(), port }
}

fn found(id: &str, url: &str) -> DiscoveredHueBridge {
    DiscoveredHueBridge { id: id.to_string(), url: url.to_string() }
}

#[test]
fn port_443_gives_https_without_port() {
    let bridge = record("X", "10.0.0.5", 443).into_bridge();
    assert_eq!(bridge, found("X", "https://10.0.0.5"));
}

#[test]
fn other_port_gives_http_with_port() {
    assert_eq!(record("a", "192.168.1.20", 80).into_bridge().url, "http://192.168.1.20:80");
    assert_eq!(record("a", "192.168.1.20", 8080).into_bridge().url, "http://192.168.1.20:8080");
    assert_eq!(record("a", "h", 0).into_bridge().url, "http://h:0");
    assert_eq!(record("a", "h", 65535).into_bridge().url, "http://h:65535");
    assert_eq!(record("a", "h", 442).into_bridge().url, "http://h:442");
    assert_eq!(record("a", "h", 444).into_bridge().url, "http://h:444");
}

#[test]
fn record_keeps_its_id() {
    assert_eq!(record("001788fffe100491", "h", 443).into_bridge().id, "001788fffe100491");
}

#[test]
fn address_is_not_looked_at() {
    assert_eq!(record("a", "", 443).into_bridge().url, "https://");
    assert_eq!(record("a", "fe80::1", 81).into_bridge().url, "http://fe80::1:81");
}

#[test]
fn first_bridge_of_none_is_no_bridge_found() {
    assert_eq!(first_bridge(Vec::new()), Err(HueError::NoBridgeFound));
}

#[test]
fn first_bridge_is_the_first_unchanged() {
    let all = vec![found("b", "https://2"), found("a", "https://1"), found("c", "https://3")];
    assert_eq!(first_bridge(all), Ok(found("b", "https://2")));
    assert_eq!(first_bridge(vec![found("z", "u")]), Ok(found("z", "u")));
}

#[test]
fn discovery_request_is_a_get_of_the_endpoint() {
    assert_eq!(DISCOVER_ADDRESS, "https://discovery.meethue.com");
    assert_eq!(
        DiscoveryUrl::request(),
        Request { method: Method::Get, url: "https://discovery.meethue.com".to_string(), body: None }
    );
}

#[test]
fn discovery_scenario_https() {
    let body = r#"[{"id":"X","internalipaddress":"10.0.0.5","port":443}]"#;
    let bridges = DiscoveryUrl::discover(200, body).unwrap();
    assert_eq!(bridges, vec![found("X", "https://10.0.0.5")]);
    let one = DiscoveryUrl::discover_one(200, body).unwrap();
    assert_eq!(one.url, "https://10.0.0.5");
    let bridge: HueBridge = one.into();
    assert_eq!(bridge.bridge_url, "https://10.0.0.5");
}

#[test]
fn discovery_lists_bridges_in_the_order_of_the_answer() {
    let body = r#"[
        {"id":"b","internalipaddress":"10.0.0.7","port":80},
        {"id":"a","internalipaddress":"10.0.0.6","port":443, "extra": [1, 2]}
    ]"#;
    assert_eq!(
        DiscoveryUrl::discover(204, body),
        Ok(vec![found("b", "http://10.0.0.7:80"), found("a", "https://10.0.0.6")])
    );
    assert_eq!(DiscoveryUrl::discover_one(204, body), Ok(found("b", "http://10.0.0.7:80")));
}

#[test]
fn discovery_of_nothing() {
    assert_eq!(DiscoveryUrl::discover(200, "[]"), Ok(Vec::new()));
    assert_eq!(DiscoveryUrl::discover_one(200, "[]"), Err(HueError::NoBridgeFound));
}

#[test]
fn discovery_status_outside_2xx_is_a_request_failure() {
    let body = r#"[{"id":"X","internalipaddress":"10.0.0.5","port":443}]"#;
    for status in [199u16, 300, 301, 404, 429, 500, 0, 65535] {
        assert_eq!(
            DiscoveryUrl::discover(status, body),
            Err(HueError::RequestError(RequestFailure::Status(status)))
        );
        assert_eq!(
            DiscoveryUrl::discover_one(status, body),
            Err(HueError::RequestError(RequestFailure::Status(status)))
        );
    }
    assert!(DiscoveryUrl::discover(299, body).is_ok());
}

#[test]
fn discovery_body_that_is_no_list_of_records() {
    let bad = [
        "",
        "not json",
        "{}",
        r#"{"id":"X","internalipaddress":"10.0.0.5","port":443}"#,
        r#"[{"id":"X","internalipaddress":"10.0.0.5"}]"#,
        r#"[{"id":"X","internalipaddress":"10.0.0.5","port":"443"}]"#,
        r#"[{"id":"X","internalipaddress":"10.0.0.5","port":65536}]"#,
        r#"[{"id":"X","internalipaddress":"10.0.0.5","port":-1}]"#,
        r#"[{"id":"X","internalipaddress":"10.0.0.5","port":443.5}]"#,
        r#"[{"id":7,"internalipaddress":"10.0.0.5","port":443}]"#,
        r#"[{"id":"X","internalipaddress":null,"port":443}]"#,
        r#"[{"id":"X","internalipaddress":"10.0.0.5","port":443}, 3]"#,
        r#"[{"id":"X","internalipaddress":"10.0.0.5","port":443}] trailing"#,
    ];
    for body in bad {
        assert_eq!(
            DiscoveryUrl::discover(200, body),
            Err(HueError::RequestError(RequestFailure::Body)),
            "{body}"
        );
    }
}

#[test]
fn status_is_looked_at_before_the_body() {
    assert_eq!(
        DiscoveryUrl::discover(503, "not json"),
        Err(HueError::RequestError(RequestFailure::Status(503)))
    );
}

#[test]
fn read_bridges_from_a_document() {
    let doc = Json::Array(vec![Json::Object(vec![
        ("port".to_string(), Json::Number(Some(443))),
        ("id".to_string(), Json::Text("X".to_string())),
        ("internalipaddress".to_string(), Json::Text("10.0.0.5".to_string())),
    ])]);
    assert_eq!(read_bridges(&doc), Ok(vec![found("X", "https://10.0.0.5")]));
    assert_eq!(read_bridges(&Json::Null), Err(HueError::RequestError(RequestFailure::Body)));
    assert_eq!(
        read_bridges(&Json::Array(vec![Json::Null])),
        Err(HueError::RequestError(RequestFailure::Body))
    );
}

#[test]
fn record_decodes_from_an_object() {
    let doc = parse(r#"{"id":"X","internalipaddress":"10.0.0.5","port":8080}"#).unwrap();
    assert_eq!(DiscoveryUrlResponse::from_json(&doc), Some(record("X", "10.0.0.5", 8080)));
    assert_eq!(DiscoveryUrlResponse::from_json(&Json::Array(Vec::new())), None);
}

#[test]
fn discovered_bridge_turns_into_a_bridge() {
    let bridge = HueBridge::from(found("id", "url"));
    assert_eq!(bridge, HueBridge::new("url".to_string()));
}
