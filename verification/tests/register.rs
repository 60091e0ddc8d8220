//! Tests of the REGISTER client: request construction, digest answers with
//! known vectors, and public-address discovery from `received` and `rport`.
use sip_dialog_core::auth::{handle_client_authenticate, Credential};
use sip_dialog_core::msg::{
    Algorithm, Challenge, Header, Method, NameAddr, Qop, Request, Response, SipAddr, Transport,
    Uri, Via,
};
use sip_dialog_core::registration::{Registration, RegisterStep};

fn local_addr() -> SipAddr {
    SipAddr { transport: Some(Transport::Udp), host: "10.0.0.2".to_string(), port: Some(5060) }
}

fn credential() -> Credential {
    Credential {
        username: "bob".to_string(),
        password: "zanzibar".to_string(),
        realm: None,
    }
}

fn registration() -> Registration {
    Registration::new(Some(credential()), 40)
}

const SERVER: &str = "registrar.biloxi.example.com";
const NONCE: &str = "dcd98b7102dd2f0e8b11d0f600bfb0c093";

fn challenge(qop: Option<Qop>) -> Challenge {
    Challenge {
        realm: "biloxi.example.com".to_string(),
        nonce: NONCE.to_string(),
        algorithm: Algorithm::Md5,
        qop,
        opaque: None,
    }
}

fn challenge_response(with_via_discovery: bool) -> Response {
    let mut via = Via {
        transport: Transport::Udp,
        host: "10.0.0.2".to_string(),
        port: Some(5060),
        branch: Some("z9hG4bK-1".to_string()),
        params: vec![],
    };
    if with_via_discovery {
        via.params = vec![
            ("received".to_string(), Some("203.0.113.7".to_string())),
            ("rport".to_string(), Some("33344".to_string())),
        ];
    }
    Response {
        status: 401,
        headers: vec![
            Header::Via(via),
            Header::WwwAuthenticate(challenge(None)),
        ],
        body: vec![],
    }
}

#[test]
fn register_request_addresses_the_user_at_the_registrar() {
    let mut reg = registration();
    let req = reg.prepare_register(
        &SERVER.to_string(),
        &local_addr(),
        "ft-reg".to_string(),
        "call-reg".to_string(),
        Some("z9hG4bK-1".to_string()),
    );
    assert_eq!(req.method, Method::Register);
    assert_eq!(req.uri.host, SERVER);
    let from = sip_dialog_core::msg::find_from(&req.headers).unwrap();
    assert_eq!(from.uri.user.as_deref(), Some("bob"));
    assert_eq!(from.uri.host, SERVER);
    assert_eq!(from.tag.as_deref(), Some("ft-reg"));
    let to = sip_dialog_core::msg::find_to(&req.headers).unwrap();
    assert_eq!(to.uri.user.as_deref(), Some("bob"));
    assert_eq!(to.tag, None);
    assert_eq!(sip_dialog_core::msg::find_cseq(&req.headers), Some((41, Method::Register)));
    // Without a public address the Contact advertises the local address.
    let contact = sip_dialog_core::msg::find_contact(&req.headers).unwrap();
    assert_eq!(contact.uri.host, "10.0.0.2");
    assert_eq!(contact.params, vec![("ob".to_string(), None)]);
    // The Allow list is present.
    assert!(req.headers.iter().any(|h| matches!(h, Header::Allow(_))));
}

#[test]
fn digest_answer_matches_the_md5_vector() {
    let original = Request {
        method: Method::Register,
        uri: Uri { user: None, host: SERVER.to_string(), port: None, params: vec![] },
        headers: vec![Header::CSeq(41, Method::Register)],
        body: vec![],
    };
    let resp = Response {
        status: 401,
        headers: vec![Header::WwwAuthenticate(challenge(None))],
        body: vec![],
    };
    let retry =
        handle_client_authenticate(42, &original, &resp, &credential(), &"0a4f113b".to_string())
            .unwrap();
    let auth = retry
        .headers
        .iter()
        .find_map(|h| match h {
            Header::Authorization(a) => Some(a),
            _ => None,
        })
        .expect("the retry must carry Authorization");
    assert_eq!(auth.username, "bob");
    assert_eq!(auth.realm, "biloxi.example.com");
    assert_eq!(auth.nonce, NONCE);
    assert_eq!(auth.uri, format!("sip:{}", SERVER));
    assert_eq!(auth.qop, None);
    assert_eq!(auth.response, "d90e4f67d3910751d1524b8a591fdfdd");
    assert_eq!(sip_dialog_core::msg::find_cseq(&retry.headers), Some((42, Method::Register)));
}

#[test]
fn digest_answer_matches_the_qop_vector() {
    let original = Request {
        method: Method::Register,
        uri: Uri { user: None, host: SERVER.to_string(), port: None, params: vec![] },
        headers: vec![Header::CSeq(41, Method::Register)],
        body: vec![],
    };
    let resp = Response {
        status: 401,
        headers: vec![Header::WwwAuthenticate(challenge(Some(Qop::Auth)))],
        body: vec![],
    };
    let retry =
        handle_client_authenticate(42, &original, &resp, &credential(), &"0a4f113b".to_string())
            .unwrap();
    let auth = retry
        .headers
        .iter()
        .find_map(|h| match h {
            Header::Authorization(a) => Some(a),
            _ => None,
        })
        .expect("the retry must carry Authorization");
    assert_eq!(auth.qop, Some((Qop::Auth, "0a4f113b".to_string(), 1)));
    assert_eq!(auth.response, "e7b64818f658d8ef19b95150c8e487cb");
}

#[test]
fn challenge_without_digest_is_reported() {
    let original = Request {
        method: Method::Register,
        uri: Uri { user: None, host: SERVER.to_string(), port: None, params: vec![] },
        headers: vec![],
        body: vec![],
    };
    let resp = Response { status: 401, headers: vec![], body: vec![] };
    let err = handle_client_authenticate(42, &original, &resp, &credential(), &"c".to_string())
        .unwrap_err();
    assert_eq!(err, sip_dialog_core::auth::AuthError::NoChallenge);

    let mut sha_challenge = challenge(None);
    sha_challenge.algorithm = Algorithm::Sha256;
    let resp2 = Response {
        status: 401,
        headers: vec![Header::WwwAuthenticate(sha_challenge)],
        body: vec![],
    };
    let err2 = handle_client_authenticate(42, &original, &resp2, &credential(), &"c".to_string())
        .unwrap_err();
    assert_eq!(err2, sip_dialog_core::auth::AuthError::UnsupportedAlgorithm);
}

#[test]
fn unparsable_request_uri_fails_the_digest() {
    // An empty host renders as `sip:`, which the digest computation's URI
    // parser refuses.
    let original = Request {
        method: Method::Register,
        uri: Uri { user: None, host: String::new(), port: None, params: vec![] },
        headers: vec![Header::CSeq(41, Method::Register)],
        body: vec![],
    };
    let resp = Response {
        status: 401,
        headers: vec![Header::WwwAuthenticate(challenge(None))],
        body: vec![],
    };
    let err = handle_client_authenticate(42, &original, &resp, &credential(), &"c".to_string())
        .unwrap_err();
    assert_eq!(err, sip_dialog_core::auth::AuthError::DigestUnavailable);
}

#[test]
fn discovery_rewrites_contact_and_via() {
    let mut reg = registration();
    let original = reg.prepare_register(
        &SERVER.to_string(),
        &local_addr(),
        "ft-reg".to_string(),
        "call-reg".to_string(),
        Some("z9hG4bK-1".to_string()),
    );
    let resp = challenge_response(true);
    let step = reg.on_register_response(&original, resp, false, &"0a4f113b".to_string());
    let retry = match step {
        RegisterStep::Retry(r) => r,
        other => panic!("unexpected step: {:?}", other),
    };
    assert_eq!(
        reg.discovered_public_address(),
        Some(("203.0.113.7".to_string(), 33344))
    );
    // The authenticated retry advertises the discovered address in both the
    // Contact URI and the Via.
    let contact = sip_dialog_core::msg::find_contact(&retry.headers).unwrap();
    assert_eq!(contact.uri.host, "203.0.113.7");
    assert_eq!(contact.uri.port, Some(33344));
    assert_eq!(contact.uri.user.as_deref(), Some("bob"));
    assert_eq!(contact.params, vec![("ob".to_string(), None)]);
    let via = sip_dialog_core::msg::find_first_via(&retry.headers).unwrap();
    assert_eq!(via.host, "203.0.113.7");
    assert_eq!(via.port, Some(33344));
    // The retry advanced the sequence space and carries the digest.
    assert_eq!(sip_dialog_core::msg::find_cseq(&retry.headers), Some((42, Method::Register)));
    assert!(retry.headers.iter().any(|h| matches!(h, Header::Authorization(_))));
}

#[test]
fn discovery_needs_a_parsable_rport() {
    let mut reg = registration();
    let original = reg.prepare_register(
        &SERVER.to_string(),
        &local_addr(),
        "ft-reg".to_string(),
        "call-reg".to_string(),
        None,
    );
    let resp = Response {
        status: 401,
        headers: vec![
            Header::Via(Via {
                transport: Transport::Udp,
                host: "10.0.0.2".to_string(),
                port: Some(5060),
                branch: None,
                params: vec![
                    ("received".to_string(), Some("203.0.113.7".to_string())),
                    ("rport".to_string(), Some("not-a-port".to_string())),
                ],
            }),
            Header::WwwAuthenticate(challenge(None)),
        ],
        body: vec![],
    };
    let step = reg.on_register_response(&original, resp, false, &"c".to_string());
    assert!(matches!(step, RegisterStep::Retry(_)));
    // A Via whose rport does not parse reports no public address.
    assert_eq!(reg.discovered_public_address(), None);
}

#[test]
fn second_challenge_is_returned_as_is() {
    let mut reg = registration();
    let original = reg.prepare_register(
        &SERVER.to_string(),
        &local_addr(),
        "ft-reg".to_string(),
        "call-reg".to_string(),
        None,
    );
    let resp = challenge_response(false);
    match reg.on_register_response(&original, resp, true, &"c".to_string()) {
        RegisterStep::Done(x) => assert_eq!(x.status, 401),
        other => panic!("unexpected step: {:?}", other),
    }
}

#[test]
fn ok_refreshes_address_and_caches_the_echoed_contact() {
    let mut reg = registration();
    let ok = Response {
        status: 200,
        headers: vec![
            Header::Via(Via {
                transport: Transport::Udp,
                host: "10.0.0.2".to_string(),
                port: Some(5060),
                branch: None,
                params: vec![
                    ("received".to_string(), Some("203.0.113.7".to_string())),
                    ("rport".to_string(), Some("33344".to_string())),
                ],
            }),
            Header::Contact(NameAddr {
                display_name: None,
                uri: Uri {
                    user: Some("bob".to_string()),
                    host: "203.0.113.7".to_string(),
                    port: Some(33344),
                    params: vec![],
                },
                tag: None,
                params: vec![("expires".to_string(), Some("3600".to_string()))],
            }),
        ],
        body: vec![],
    };
    match reg.on_register_response(
        &Request { method: Method::Register, uri: Uri { user: None, host: SERVER.to_string(), port: None, params: vec![] }, headers: vec![], body: vec![] },
        ok,
        false,
        &"c".to_string(),
    ) {
        RegisterStep::Done(x) => assert_eq!(x.status, 200),
        other => panic!("unexpected step: {:?}", other),
    }
    assert_eq!(
        reg.discovered_public_address(),
        Some(("203.0.113.7".to_string(), 33344))
    );
    assert_eq!(reg.expires(), 3600);
}

#[test]
fn contact_prefers_the_discovered_address_over_the_cache() {
    let mut reg = registration();
    // A cached contact on a stale host does not outlive discovery.
    reg.contact = Some(NameAddr {
        display_name: None,
        uri: Uri {
            user: Some("bob".to_string()),
            host: "10.0.0.99".to_string(),
            port: Some(5060),
            params: vec![],
        },
        tag: None,
        params: vec![],
    });
    reg.public_address = Some(("203.0.113.7".to_string(), 33344));
    let req = reg.prepare_register(
        &SERVER.to_string(),
        &local_addr(),
        "f".to_string(),
        "c".to_string(),
        None,
    );
    let contact = sip_dialog_core::msg::find_contact(&req.headers).unwrap();
    assert_eq!(contact.uri.host, "203.0.113.7");
    assert_eq!(contact.uri.port, Some(33344));
    // And the Via advertises the discovered address too.
    let via = sip_dialog_core::msg::find_first_via(&req.headers).unwrap();
    assert_eq!(via.host, "203.0.113.7");
    assert_eq!(via.port, Some(33344));
}

#[test]
fn expires_defaults_to_fifty() {
    let reg = registration();
    assert_eq!(reg.expires(), 50);
}

#[test]
fn nat_aware_contact_prefers_the_public_address() {
    let c = Registration::create_nat_aware_contact(
        &"alice".to_string(),
        Some(("203.0.113.1".to_string(), 5060)),
        &local_addr(),
    );
    assert_eq!(c.uri.host, "203.0.113.1");
    assert_eq!(c.uri.port, Some(5060));
    assert_eq!(c.uri.user.as_deref(), Some("alice"));
    assert_eq!(c.uri.params, vec![("ob".to_string(), None)]);

    let l = Registration::create_nat_aware_contact(&"alice".to_string(), None, &local_addr());
    assert_eq!(l.uri.host, "10.0.0.2");
    assert_eq!(l.uri.params, vec![]);
}

#[test]
fn provisional_keeps_waiting() {
    let mut reg = registration();
    let original = reg.prepare_register(
        &SERVER.to_string(),
        &local_addr(),
        "f".to_string(),
        "c".to_string(),
        None,
    );
    let trying = Response { status: 100, headers: vec![], body: vec![] };
    assert!(matches!(
        reg.on_register_response(&original, trying, false, &"c".to_string()),
        RegisterStep::Continue
    ));
    let other = Response { status: 183, headers: vec![], body: vec![] };
    assert!(matches!(
        reg.on_register_response(&original, other, false, &"c".to_string()),
        RegisterStep::Continue
    ));
}
