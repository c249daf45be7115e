use reywen_http::engines::hyper::Body;
use reywen_http::engines::reqwasm::Body as WasmBody;
use reywen_http::engines::reqwest::ReqwestBody;
use reywen_http::hyper_driver::{DeltaBody, StatusCode};
use reywen_http::results::DeltaError;

fn status(code: u16) -> StatusCode {
    StatusCode::new(code).unwrap()
}

fn delta(code: u16, body: Option<&[u8]>) -> DeltaBody {
    DeltaBody { body: body.map(|b| b.to_vec()), status: status(code) }
}

#[test]
fn no_content_decodes_to_null() {
    for body in [None, Some(&b""[..]), Some(&b"{not json"[..]), Some(&b"\xff\xfe"[..])] {
        let v = delta(204, body).serde_switch();
        assert!(matches!(v, Ok(None)));
    }
}

#[test]
fn ok_without_body_decodes_to_null() {
    assert!(matches!(delta(200, None).serde_switch(), Ok(None)));
}

#[test]
fn ok_with_bad_body_is_decode_error() {
    for body in [&b"{not json"[..], &b""[..], &b"\xff"[..]] {
        let v = delta(200, Some(body)).serde_switch();
        assert!(matches!(v, Err(DeltaError::Serde(_))));
    }
}

#[test]
fn not_found_carries_status_and_text() {
    let text = "{\"reason\":\"missing\"}";
    match delta(404, Some(text.as_bytes())).serde_switch() {
        Err(DeltaError::Http(code, body)) => {
            assert_eq!(code, 404);
            assert_eq!(body, text);
        }
        other => panic!("unexpected {:?}", other),
    }
    match delta(404, Some(b"plain words")).serde_switch() {
        Err(DeltaError::Http(code, body)) => {
            assert_eq!(code, 404);
            assert_eq!(body, "plain words");
        }
        other => panic!("unexpected {:?}", other),
    }
}

#[test]
fn other_success_codes_are_failures() {
    for code in [201u16, 202, 304, 500] {
        match delta(code, None).serde_switch() {
            Err(DeltaError::Http(c, body)) => {
                assert_eq!(c, code);
                assert_eq!(body, "");
            }
            other => panic!("unexpected {:?}", other),
        }
    }
}

#[test]
fn failure_with_invalid_utf8_is_byte_error() {
    assert!(matches!(delta(500, Some(b"\xff\xfe")).serde_switch(), Err(DeltaError::Byte(_))));
    assert!(matches!(delta(404, Some(b"\xc3")).bytes(), Err(DeltaError::Byte(_))));
}

#[test]
fn round_trip_through_ok_body() {
    let mut map = serde_json::Map::new();
    map.insert("id".to_string(), serde_json::Value::from(7));
    map.insert("name".to_string(), serde_json::Value::from("café"));
    map.insert(
        "list".to_string(),
        serde_json::Value::Array(vec![serde_json::Value::Bool(true), serde_json::Value::Null]),
    );
    let sent = serde_json::Value::Object(map);
    let bytes = serde_json::to_vec(&sent).unwrap();
    let decoded = delta(200, Some(&bytes)).serde_switch().unwrap().unwrap();
    assert_eq!(decoded, sent);
}

#[test]
fn bytes_follow_the_switch() {
    assert_eq!(delta(200, Some(b"abc")).bytes().unwrap(), b"abc".to_vec());
    assert_eq!(delta(200, None).bytes().unwrap(), Vec::<u8>::new());
    assert_eq!(delta(204, Some(b"ignored")).bytes().unwrap(), Vec::<u8>::new());
    match delta(418, Some(b"teapot")).bytes() {
        Err(DeltaError::Http(c, t)) => {
            assert_eq!(c, 418);
            assert_eq!(t, "teapot");
        }
        other => panic!("unexpected {:?}", other),
    }
}

#[test]
fn engine_bodies_share_the_switch() {
    let expected = serde_json::Value::Array(vec![serde_json::Value::from(1), serde_json::Value::from(2)]);
    let b = Body { body: Some(b"[1,2]".to_vec()), status: status(200) };
    assert_eq!(b.serde_switch().unwrap(), Some(expected));
    let r = ReqwestBody { body: Some(b"[1,2]".to_vec()), status: status(200) };
    assert_eq!(r.bytes().unwrap(), b"[1,2]".to_vec());
    let w = WasmBody { body: None, status: status(204) };
    assert!(matches!(w.serde_switch(), Ok(None)));
    let d = WasmBody::default();
    assert_eq!(d.status.as_u16(), 200);
    assert!(d.body.is_none());
}

#[test]
fn status_code_construction() {
    assert!(StatusCode::new(0).is_none());
    let s = StatusCode::new(404).unwrap();
    assert_eq!(s.as_u16(), 404);
    assert_eq!(s.as_str(), "404");
    assert_eq!(StatusCode::new(7).unwrap().as_str(), "7");
    assert_eq!(StatusCode::new(65535).unwrap().as_str(), "65535");
    assert_eq!(StatusCode::ok().as_u16(), 200);
}
