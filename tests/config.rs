use reywen_http::engines::hyper::Hyper;
use reywen_http::engines::reqwasm::Reqwasm;
use reywen_http::engines::reqwest::Reqwest;
use reywen_http::engines::Setter;
use reywen_http::header::{HeaderData, Headers};
use reywen_http::hyper_driver::{Delta, Delta2};
use reywen_http::request::{Method, MethodOption, Outgoing};
use reywen_http::results::{DeltaError, Engine, HeaderError};
use reywen_http::USER_AGENT;

fn entries(h: &Headers) -> Vec<(String, String)> {
    (0..h.len()).map(|i| h.entry(i)).collect()
}

fn pair(k: &str, v: &str) -> (String, String) {
    (k.to_string(), v.to_string())
}

/// A stand-in transport that records what it was asked to send.
struct MockTransport {
    sent: Vec<Outgoing>,
}

impl MockTransport {
    fn send(&mut self, request: Result<Outgoing, DeltaError>) {
        if let Ok(r) = request {
            self.sent.push(r);
        }
    }
}

#[test]
fn plain_get_url_is_base_and_path() {
    let mut client = Hyper::new();
    client.set_url("https://api.example.com");
    let out = client.prepare(Method::GET, "/x", None).unwrap();
    assert_eq!(out.url, "https://api.example.com/x");
    assert_eq!(out.method, Method::GET);
    assert!(out.body.is_none());
    assert_eq!(entries(&out.headers), vec![pair("user-agent", USER_AGENT)]);

    let delta = Delta::new().set_url("https://api.example.com");
    let out = delta.prepare(Method::GET, "/x", None).unwrap();
    assert_eq!(out.url, "https://api.example.com/x");
}

#[test]
fn no_slash_normalisation() {
    let client = Hyper::new().set_url("https://a.example/");
    assert_eq!(client.prepare(Method::GET, "/b", None).unwrap().url, "https://a.example//b");
    let client = Hyper::new().set_url("https://a.example");
    assert_eq!(client.prepare(Method::GET, "b", None).unwrap().url, "https://a.exampleb");
}

#[test]
fn body_brings_json_content_type() {
    let client = Hyper::new().set_url("http://h");
    let out = client.prepare(Method::POST, "/p", Some(b"{}".to_vec())).unwrap();
    assert_eq!(
        entries(&out.headers),
        vec![pair("user-agent", USER_AGENT), pair("content-type", "application/json")]
    );
    assert_eq!(out.body, Some(b"{}".to_vec()));
    let out = client.prepare(Method::DELETE, "/p", None).unwrap();
    assert_eq!(entries(&out.headers), vec![pair("user-agent", USER_AGENT)]);
}

#[test]
fn overrides_win_over_defaults() {
    let mut client = Hyper::new();
    client.add_header("User-Agent", "default-agent").unwrap();
    client.add_header("X-Trace", "1").unwrap();
    client.add_header("Content-Type", "text/plain").unwrap();
    client.set_user_agent("mine/1.0");
    client.set_content_type("application/xml");
    let out = client.prepare(Method::PUT, "/", None).unwrap();
    assert_eq!(
        entries(&out.headers),
        vec![pair("x-trace", "1"), pair("user-agent", "mine/1.0"), pair("content-type", "application/xml")]
    );
}

#[test]
fn space_in_header_key_is_refused_and_nothing_sent() {
    let mut transport = MockTransport { sent: Vec::new() };
    let mut client = Hyper::new().set_url("https://api.example.com");
    match client.add_header("bad key", "v") {
        Err(DeltaError::Header(HeaderError::Name(_))) => {}
        other => panic!("unexpected {:?}", other.map(|_| ())),
    }
    assert_eq!(client.headers.len(), 0);
    let mut delta = Delta::new();
    let result = delta.add_header("bad key", "v");
    assert!(matches!(result, Err(DeltaError::Header(HeaderError::Name(_)))));
    if let Ok(d) = result {
        transport.send(d.prepare(Method::GET, "/x", None));
    }
    assert_eq!(transport.sent.len(), 0);
    assert_eq!(delta.headers.len(), 0);
}

#[test]
fn header_value_with_control_char_is_refused() {
    let mut client = Reqwest::new();
    assert!(matches!(client.add_header("x-ok", "a\nb"), Err(DeltaError::Header(HeaderError::Value(_)))));
    assert!(matches!(client.add_header("", "v"), Err(DeltaError::Header(HeaderError::Name(_)))));
    assert!(matches!(client.add_header("x(y", "a\nb"), Err(DeltaError::Header(HeaderError::Name(_)))));
    assert!(client.add_header("x-ok", "tab\there é").is_ok());
    assert_eq!(entries(&client.headers), vec![pair("x-ok", "tab\there é")]);
    let mut agent = Hyper::new();
    agent.set_user_agent("bad\u{7f}agent");
    assert!(matches!(agent.prepare(Method::GET, "/", None), Err(DeltaError::Header(HeaderError::Value(_)))));
}

#[test]
fn append_keeps_repeated_names() {
    let mut client = Hyper::new();
    client.add_header("Accept", "a").unwrap();
    let copy = client.add_header("accept", "b").unwrap();
    assert_eq!(entries(&client.headers), vec![pair("accept", "a"), pair("accept", "b")]);
    assert_eq!(entries(&copy.headers), entries(&client.headers));
}

#[test]
fn delta_add_header_replaces_and_add_headers_appends() {
    let mut delta = Delta::new();
    delta.add_header("A", "1").unwrap();
    delta.add_header("a", "2").unwrap();
    assert_eq!(entries(&delta.headers), vec![pair("a", "2")]);
    delta.add_headers(vec![("a", "3"), ("B", "4")]).unwrap();
    assert_eq!(entries(&delta.headers), vec![pair("a", "2"), pair("a", "3"), pair("b", "4")]);
    let before = entries(&delta.headers);
    let r = delta.add_headers(vec![("c", "5"), ("bad key", "6"), ("d", "\n")]);
    assert!(matches!(r, Err(DeltaError::Header(HeaderError::Name(_)))));
    assert_eq!(entries(&delta.headers), before);
    let r = delta.set_headers(vec![("x", "1"), ("y", "\u{1}")]);
    assert!(matches!(r, Err(DeltaError::Header(HeaderError::Value(_)))));
    assert_eq!(entries(&delta.headers), before);
    delta.set_headers(vec![("x", "1")]).unwrap();
    assert_eq!(entries(&delta.headers), vec![pair("x", "1")]);
    let cleared = delta.remove_headers();
    assert_eq!(cleared.headers.len(), 0);
    let d = delta.set_timeout(10);
    assert_eq!(d.timeout, 10);
    assert_eq!(delta.set_user_agent("ua").user_agent, Some("ua".to_string()));
}

#[test]
fn delta2_uses_full_url() {
    let client = Delta2::new();
    let out = client.prepare(Method::HEAD, "https://g.co", Some(vec![0])).unwrap();
    assert_eq!(out.url, "https://g.co");
    assert_eq!(out.body, Some(vec![0]));
}

#[test]
fn reqwest_parses_the_url_first() {
    let client = Reqwest::new().set_url("not a url");
    let mut bad_agent = client.clone();
    bad_agent.set_user_agent("\u{0}");
    assert!(matches!(bad_agent.prepare(Method::GET, "/x", None), Err(DeltaError::Engine(Engine::Url(_)))));
    let good = Reqwest::new().set_url("https://api.example.com");
    let p = good.prepare(Method::GET, "/x", None).unwrap();
    assert_eq!(p.request.url, "https://api.example.com/x");
    assert_eq!(p.url.as_str(), "https://api.example.com/x");
}

#[test]
fn reqwasm_header_delete() {
    let mut client = Reqwasm::new();
    client.add_header("X-A", "1").unwrap();
    client.add_header("x-b", "2").unwrap();
    client.add_header("x-a", "3").unwrap();
    client.header_delete("X-A");
    assert_eq!(entries(&client.headers), vec![pair("x-b", "2")]);
    client.header_delete("bad key");
    assert_eq!(entries(&client.headers), vec![pair("x-b", "2")]);
}

#[test]
fn setter_trait_matches_inherent() {
    let mut client = Reqwasm::new();
    let c = Setter::set_url(&mut client, "u");
    assert_eq!(c.url, "u");
    let c = Setter::set_content_type(&mut client, "text/csv");
    assert_eq!(c.content_type, Some("text/csv".to_string()));
    let c = Setter::set_user_agent(&mut client, "ua");
    assert_eq!(c.user_agent, Some("ua".to_string()));
    let mut h = Headers::new();
    h.append("K", "v").unwrap();
    let c = client.set_headers(h);
    assert_eq!(entries(&c.headers), vec![pair("k", "v")]);
}

#[test]
fn header_data_forms() {
    let d = HeaderData::new("X-Mixed", "Value").unwrap();
    assert_eq!(d.as_str(), pair("X-Mixed", "Value"));
    assert_eq!(d.as_header_value(), pair("x-mixed", "Value"));
    assert_eq!(entries(&d.as_header_map()), vec![pair("x-mixed", "Value")]);
    assert!(matches!(HeaderData::new("a:b", "v"), Err(HeaderError::Name(_))));
    assert!(matches!(HeaderData::new("ab", "\r"), Err(HeaderError::Value(_))));
}

#[test]
fn headers_insert_and_remove() {
    let mut h = Headers::new();
    h.append("a", "1").unwrap();
    h.append("B", "2").unwrap();
    h.append("a", "3").unwrap();
    h.insert("A", "4").unwrap();
    assert_eq!(entries(&h), vec![pair("b", "2"), pair("a", "4")]);
    assert!(matches!(h.append("bad key", "1"), Err(DeltaError::Header(HeaderError::Name(_)))));
    assert!(matches!(h.insert("ok", "\n"), Err(DeltaError::Header(HeaderError::Value(_)))));
    assert_eq!(entries(&h), vec![pair("b", "2"), pair("a", "4")]);
    h.remove(&"b".to_string());
    assert_eq!(entries(&h), vec![pair("a", "4")]);
    assert_eq!(entries(&h.duplicate()), entries(&h));
}

#[test]
fn method_options_round_trip() {
    for o in [
        MethodOption::Post, MethodOption::Put, MethodOption::Patch, MethodOption::Get, MethodOption::Delete,
        MethodOption::Head, MethodOption::Options, MethodOption::Connect, MethodOption::Trace,
    ] {
        assert_eq!(Method::from_option(o).option(), o);
    }
    assert_eq!(Method::GET.option(), MethodOption::Get);
}

#[test]
fn capitalised_default_user_agent_is_replaced() {
    let mut defaults = Headers::new();
    defaults.append("User-Agent", "x").unwrap();
    defaults.append("Content-Type", "text/plain").unwrap();
    defaults.append("X-Keep", "1").unwrap();
    defaults.append("x-keep", "2").unwrap();
    for out in [
        Hyper::new().set_headers(defaults.clone()).set_user_agent("u").prepare(Method::GET, "/", None).unwrap(),
        Reqwasm::new().set_headers(defaults.clone()).set_user_agent("u").prepare(Method::GET, "/", None).unwrap(),
    ] {
        assert_eq!(
            entries(&out.headers),
            vec![pair("content-type", "text/plain"), pair("x-keep", "1"), pair("x-keep", "2"), pair("user-agent", "u")]
        );
    }
    let mut delta = Delta::new();
    delta.add_headers(vec![("User-Agent", "x"), ("X-Keep", "1")]).unwrap();
    delta.set_user_agent("u");
    delta.content_type = Some("application/xml".to_string());
    let out = delta.prepare(Method::POST, "/", Some(vec![1])).unwrap();
    assert_eq!(
        entries(&out.headers),
        vec![pair("x-keep", "1"), pair("user-agent", "u"), pair("content-type", "application/xml")]
    );
}
