//! Tests of the message model: parameter lookup, numeric parsing, URI
//! rendering, identity derivation, and header pushes with replacement.
use sip_dialog_core::fmt::{u32_to_dec_string, uri_to_string};
use sip_dialog_core::ident::{DialogId, TransactionRole};
use sip_dialog_core::msg::{
    find_cseq, find_first_route, param_value, unique_push, Header, Method, NameAddr, Request,
    Response, Uri,
};
use sip_dialog_core::parse::{parse_u16_dec, parse_u32_dec};

fn bare_uri(host: &str) -> Uri {
    Uri { user: None, host: host.to_string(), port: None, params: vec![] }
}

fn addr(uri: Uri, tag: Option<&str>) -> NameAddr {
    NameAddr { display_name: None, uri, tag: tag.map(|t| t.to_string()), params: vec![] }
}

#[test]
fn parse_u32_reads_digits_exactly() {
    assert_eq!(parse_u32_dec(&"123".to_string()), Some(123));
    assert_eq!(parse_u32_dec(&"0".to_string()), Some(0));
    assert_eq!(parse_u32_dec(&"4294967295".to_string()), Some(u32::MAX));
    assert_eq!(parse_u32_dec(&"4294967296".to_string()), None);
    assert_eq!(parse_u32_dec(&"".to_string()), None);
    assert_eq!(parse_u32_dec(&"12a".to_string()), None);
    assert_eq!(parse_u32_dec(&"-3".to_string()), None);
}

#[test]
fn parse_u16_bounds_the_port() {
    assert_eq!(parse_u16_dec(&"33344".to_string()), Some(33344));
    assert_eq!(parse_u16_dec(&"65535".to_string()), Some(65535));
    assert_eq!(parse_u16_dec(&"65536".to_string()), None);
    assert_eq!(parse_u16_dec(&"005".to_string()), Some(5));
}

#[test]
fn decimal_rendering_is_exact() {
    assert_eq!(u32_to_dec_string(0), "0");
    assert_eq!(u32_to_dec_string(7), "7");
    assert_eq!(u32_to_dec_string(65535), "65535");
    assert_eq!(u32_to_dec_string(4294967295), "4294967295");
}

#[test]
fn uri_rendering_is_exact() {
    let u = Uri {
        user: Some("alice".to_string()),
        host: "example.com".to_string(),
        port: Some(5060),
        params: vec![("transport".to_string(), Some("udp".to_string()))],
    };
    assert_eq!(uri_to_string(&u), "sip:alice@example.com:5060;transport=udp");
    assert_eq!(uri_to_string(&bare_uri("example.org")), "sip:example.org");
}

#[test]
fn param_lookup_finds_first_binding() {
    let params = vec![
        ("lr".to_string(), None),
        ("transport".to_string(), Some("tcp".to_string())),
        ("transport".to_string(), Some("udp".to_string())),
    ];
    assert_eq!(param_value(&params, &"lr".to_string()), Some(None));
    assert_eq!(
        param_value(&params, &"transport".to_string()),
        Some(Some("tcp".to_string()))
    );
    assert_eq!(param_value(&params, &"absent".to_string()), None);
}

#[test]
fn identity_from_request_and_response() {
    let req = Request {
        method: Method::Invite,
        uri: bare_uri("b.example.com"),
        headers: vec![
            Header::CallId("call-1".to_string()),
            Header::From(addr(bare_uri("a.example.com"), Some("ft"))),
            Header::To(addr(bare_uri("b.example.com"), None)),
        ],
        body: vec![],
    };
    let id = DialogId::from_request(&req).unwrap();
    assert_eq!(id.call_id, "call-1");
    assert_eq!(id.from_tag, "ft");
    assert_eq!(id.to_tag, "");

    let resp = Response {
        status: 200,
        headers: vec![
            Header::CallId("call-1".to_string()),
            Header::From(addr(bare_uri("a.example.com"), Some("ft"))),
            Header::To(addr(bare_uri("b.example.com"), Some("tt"))),
        ],
        body: vec![],
    };
    let as_client = DialogId::from_response(&resp, TransactionRole::Client).unwrap();
    assert_eq!((as_client.from_tag.as_str(), as_client.to_tag.as_str()), ("ft", "tt"));
    let as_server = DialogId::from_response(&resp, TransactionRole::Server).unwrap();
    assert_eq!((as_server.from_tag.as_str(), as_server.to_tag.as_str()), ("tt", "ft"));
}

#[test]
fn identity_text_joins_fields() {
    let id = DialogId {
        call_id: "c".to_string(),
        from_tag: "f".to_string(),
        to_tag: "t".to_string(),
    };
    assert_eq!(id.to_text(), "c-f-t");
}

#[test]
fn unique_push_overwrites_same_kind() {
    let mut hs = vec![
        Header::CallId("one".to_string()),
        Header::MaxForwards(70),
    ];
    unique_push(&mut hs, Header::CallId("two".to_string()));
    assert_eq!(
        hs,
        vec![Header::CallId("two".to_string()), Header::MaxForwards(70)]
    );
    unique_push(&mut hs, Header::ContentLength(3));
    assert_eq!(hs.len(), 3);
    assert_eq!(hs[2], Header::ContentLength(3));
}

#[test]
fn cseq_lookup_takes_first() {
    let hs = vec![
        Header::MaxForwards(70),
        Header::CSeq(7, Method::Invite),
        Header::CSeq(9, Method::Bye),
    ];
    assert_eq!(find_cseq(&hs), Some((7, Method::Invite)));
    assert_eq!(find_cseq(&vec![]), None);
}

#[test]
fn first_route_is_found() {
    let hs = vec![
        Header::MaxForwards(70),
        Header::Route(bare_uri("p1.example.com")),
        Header::Route(bare_uri("p2.example.com")),
    ];
    let r = find_first_route(&hs).unwrap();
    assert_eq!(r.host, "p1.example.com");
}
