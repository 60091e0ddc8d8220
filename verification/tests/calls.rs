//! Tests of the dialog state machine: a successful call, a busy peer,
//! cancellation, the server side, mid-dialog handling, and the registry.
use sip_dialog_core::client::InviteStep;
use sip_dialog_core::dialog::{
    route_target, Dialog, DialogInner, DialogState, DoRequestStep, TerminatedReason,
};
use sip_dialog_core::auth::Credential;
use sip_dialog_core::ident::{DialogId, TransactionRole};
use sip_dialog_core::layer::{DialogLayer, InviteOption};
use sip_dialog_core::msg::{
    Algorithm, Challenge, Header, Method, NameAddr, Request, Response, SipAddr, Transport, Uri,
};

fn bare_uri(host: &str) -> Uri {
    Uri { user: None, host: host.to_string(), port: None, params: vec![] }
}

fn user_uri(user: &str, host: &str) -> Uri {
    Uri { user: Some(user.to_string()), host: host.to_string(), port: None, params: vec![] }
}

fn addr(uri: Uri, tag: Option<&str>) -> NameAddr {
    NameAddr { display_name: None, uri, tag: tag.map(|t| t.to_string()), params: vec![] }
}

fn local_addr() -> SipAddr {
    SipAddr { transport: Some(Transport::Udp), host: "10.0.0.2".to_string(), port: Some(5060) }
}

fn layer() -> DialogLayer {
    DialogLayer::new(local_addr(), "test-agent".to_string(), 100)
}

fn invite_option() -> InviteOption {
    InviteOption {
        caller: user_uri("alice", "a.example.com"),
        callee: user_uri("bob", "b.example.com"),
        content_type: None,
        offer: Some(b"v=0".to_vec()),
        contact: user_uri("alice", "10.0.0.2"),
        credential: None,
        headers: None,
    }
}

fn response_for(req: &Request, status: u16, to_tag: Option<&str>) -> Response {
    let mut headers = Vec::new();
    for h in &req.headers {
        match h {
            Header::Via(_) | Header::CallId(_) | Header::CSeq(_, _) => headers.push(h.dup()),
            Header::From(f) => headers.push(Header::From(f.dup())),
            Header::To(t) => {
                let mut t2 = t.dup();
                t2.tag = to_tag.map(|s| s.to_string());
                headers.push(Header::To(t2));
            },
            _ => {},
        }
    }
    Response { status, headers, body: vec![] }
}

fn cseq_of(req: &Request) -> u32 {
    sip_dialog_core::msg::find_cseq(&req.headers).unwrap().0
}

#[test]
fn successful_call_walks_the_states() {
    let mut layer = layer();
    let (id, invite) = layer
        .start_invite(invite_option(), None, "ft1".to_string(), "call-s1".to_string(), None)
        .unwrap();
    assert_eq!(id.to_tag, "");
    let invite_cseq = cseq_of(&invite);
    assert_eq!(invite_cseq, 101);
    assert_eq!(invite.method, Method::Invite);
    assert_eq!(invite.body, b"v=0".to_vec());

    let mut dialog = match layer.take_dialog(&id).unwrap() {
        Dialog::ClientInvite(d) => d,
        _ => panic!("expected a client dialog"),
    };
    assert!(matches!(
        dialog.on_invite_response(response_for(&invite, 100, None), None),
        InviteStep::Proceeding
    ));
    assert!(matches!(
        dialog.on_invite_response(response_for(&invite, 180, Some("xyz")), None),
        InviteStep::Proceeding
    ));
    let mut ok = response_for(&invite, 200, Some("xyz"));
    ok.headers.push(Header::RecordRoute(bare_uri("p1.example.com")));
    ok.headers.push(Header::RecordRoute(bare_uri("p2.example.com")));
    let ack = match dialog.on_invite_response(ok, Some("branch-ack".to_string())) {
        InviteStep::Accepted(ack) => ack,
        _ => panic!("expected the call to be accepted"),
    };
    assert_eq!(ack.method, Method::Ack);
    assert_eq!(cseq_of(&ack), invite_cseq);

    // The route set is the reversed Record-Route order of the 2xx.
    assert_eq!(dialog.inner.route_set.len(), 2);
    assert_eq!(dialog.inner.route_set[0].host, "p2.example.com");
    assert_eq!(dialog.inner.route_set[1].host, "p1.example.com");

    // The peer tag was learned once.
    assert_eq!(dialog.inner.id.to_tag, "xyz");
    assert!(dialog.inner.is_confirmed());

    let events = dialog.inner.take_events();
    let words: Vec<&str> = events
        .iter()
        .map(|e| match e {
            DialogState::Trying(_) => "Trying",
            DialogState::Early(_, _) => "Early",
            DialogState::Confirmed(_) => "Confirmed",
            _ => "other",
        })
        .collect();
    assert_eq!(words, vec!["Trying", "Early", "Confirmed"]);

    // The registry is rekeyed atomically to the full identity.
    let new_id = dialog.inner.id.dup();
    layer.insert_dialog(id.dup(), Dialog::ClientInvite(dialog));
    assert!(layer.rekey_dialog(&id, new_id.dup()));
    assert!(layer.take_dialog(&id).is_none());
    assert!(layer.take_dialog(&new_id).is_some());
}

#[test]
fn busy_peer_terminates_with_uac_busy() {
    let mut layer = layer();
    let (id, invite) = layer
        .start_invite(invite_option(), None, "ft2".to_string(), "call-s2".to_string(), None)
        .unwrap();
    let mut dialog = match layer.take_dialog(&id).unwrap() {
        Dialog::ClientInvite(d) => d,
        _ => panic!("expected a client dialog"),
    };
    match dialog.on_invite_response(response_for(&invite, 486, Some("b")), None) {
        InviteStep::Rejected(TerminatedReason::UacBusy) => {},
        other => panic!("unexpected step: {:?}", other),
    }
    assert!(dialog.inner.state.is_terminated());
    // Terminal absorbance: nothing leaves the terminated state.
    let id2 = dialog.inner.id.dup();
    dialog.inner.transition(DialogState::Confirmed(id2));
    assert!(dialog.inner.state.is_terminated());
}

#[test]
fn other_provisionals_are_waited_through() {
    let mut layer = layer();
    let (id, invite) = layer
        .start_invite(invite_option(), None, "ft9".to_string(), "call-p".to_string(), None)
        .unwrap();
    let mut dialog = match layer.take_dialog(&id).unwrap() {
        Dialog::ClientInvite(d) => d,
        _ => panic!("expected a client dialog"),
    };
    assert!(matches!(
        dialog.on_invite_response(response_for(&invite, 181, Some("f1")), None),
        InviteStep::Proceeding
    ));
    // A non-180/183 provisional changes nothing: no tag learned, no event.
    assert_eq!(dialog.inner.id.to_tag, "");
    assert!(dialog.inner.take_events().is_empty());
    // The same holds for the mid-dialog send loop.
    assert!(matches!(
        dialog.inner.on_request_response(
            &invite,
            response_for(&invite, 182, None),
            false,
            &"cn".to_string()
        ),
        DoRequestStep::Continue
    ));
}

#[test]
fn started_dialog_stores_the_public_address() {
    let mut layer = layer();
    let public = SipAddr {
        transport: Some(Transport::Udp),
        host: "203.0.113.7".to_string(),
        port: Some(33344),
    };
    let (id, invite) = layer
        .start_invite(
            invite_option(),
            Some(public),
            "ftp".to_string(),
            "call-pub".to_string(),
            None,
        )
        .unwrap();
    // The INVITE's Via advertises the public address.
    let via = sip_dialog_core::msg::find_first_via(&invite.headers).unwrap();
    assert_eq!(via.host, "203.0.113.7");
    assert_eq!(via.port, Some(33344));
    // The dialog stores it, so mid-dialog requests advertise it too.
    let mut dialog = match layer.take_dialog(&id).unwrap() {
        Dialog::ClientInvite(d) => d,
        _ => panic!("expected a client dialog"),
    };
    assert_eq!(
        dialog.inner.public_address,
        Some(SipAddr {
            transport: Some(Transport::Udp),
            host: "203.0.113.7".to_string(),
            port: Some(33344),
        })
    );
    let ok = response_for(&invite, 200, Some("pt"));
    assert!(matches!(dialog.on_invite_response(ok, None), InviteStep::Accepted(_)));
    let bye = dialog.bye(None).unwrap();
    let bye_via = sip_dialog_core::msg::find_first_via(&bye.headers).unwrap();
    assert_eq!(bye_via.host, "203.0.113.7");
    assert_eq!(bye_via.port, Some(33344));
}

#[test]
fn decline_maps_to_uas_decline() {
    let mut layer = layer();
    let (id, invite) = layer
        .start_invite(invite_option(), None, "ft0".to_string(), "call-s0".to_string(), None)
        .unwrap();
    let mut dialog = match layer.take_dialog(&id).unwrap() {
        Dialog::ClientInvite(d) => d,
        _ => panic!("expected a client dialog"),
    };
    match dialog.on_invite_response(response_for(&invite, 603, Some("d")), None) {
        InviteStep::Rejected(TerminatedReason::UasDecline) => {},
        other => panic!("unexpected step: {:?}", other),
    }
    match dialog.on_invite_response(response_for(&invite, 500, Some("d")), None) {
        InviteStep::Rejected(TerminatedReason::UacOther(Some(500))) => {},
        other => panic!("unexpected step: {:?}", other),
    }
}

#[test]
fn cancel_reuses_the_invite_cseq() {
    let mut layer = layer();
    let (id, invite) = layer
        .start_invite(invite_option(), None, "ft3".to_string(), "call-s4".to_string(), None)
        .unwrap();
    let invite_cseq = cseq_of(&invite);
    let mut dialog = match layer.take_dialog(&id).unwrap() {
        Dialog::ClientInvite(d) => d,
        _ => panic!("expected a client dialog"),
    };
    assert!(matches!(
        dialog.on_invite_response(response_for(&invite, 180, Some("r")), None),
        InviteStep::Proceeding
    ));
    let cancel = dialog.cancel(None).unwrap();
    assert_eq!(cancel.method, Method::Cancel);
    assert_eq!(cseq_of(&cancel), invite_cseq);
    match &dialog.inner.state {
        DialogState::Terminated(_, TerminatedReason::UacCancel) => {},
        other => panic!("unexpected state: {:?}", other),
    }
    // A CANCEL is refused once the dialog is confirmed.
    assert!(dialog.bye(None).is_err());
}

#[test]
fn bye_needs_a_confirmed_dialog_and_increments_cseq() {
    let mut layer = layer();
    let (id, invite) = layer
        .start_invite(invite_option(), None, "ft4".to_string(), "call-s5".to_string(), None)
        .unwrap();
    let invite_cseq = cseq_of(&invite);
    let mut dialog = match layer.take_dialog(&id).unwrap() {
        Dialog::ClientInvite(d) => d,
        _ => panic!("expected a client dialog"),
    };
    assert!(dialog.bye(None).is_err());
    let ok = response_for(&invite, 200, Some("t5"));
    assert!(matches!(dialog.on_invite_response(ok, None), InviteStep::Accepted(_)));
    let bye = dialog.bye(None).unwrap();
    assert_eq!(bye.method, Method::Bye);
    assert_eq!(cseq_of(&bye), invite_cseq + 1);
    match &dialog.inner.state {
        DialogState::Terminated(_, TerminatedReason::UacBye) => {},
        other => panic!("unexpected state: {:?}", other),
    }
}

fn server_invite() -> Request {
    Request {
        method: Method::Invite,
        uri: user_uri("bob", "10.0.0.9"),
        headers: vec![
            Header::Via(sip_dialog_core::msg::Via {
                transport: Transport::Udp,
                host: "198.51.100.4".to_string(),
                port: Some(5060),
                branch: Some("z9hG4bK-in".to_string()),
                params: vec![],
            }),
            Header::CallId("call-uas".to_string()),
            Header::From(addr(user_uri("alice", "a.example.com"), Some("remote-tag"))),
            Header::To(addr(user_uri("bob", "b.example.com"), None)),
            Header::CSeq(314, Method::Invite),
            Header::Contact(addr(user_uri("alice", "198.51.100.4"), None)),
            Header::RecordRoute(bare_uri("p1.example.com")),
            Header::RecordRoute(bare_uri("p2.example.com")),
        ],
        body: vec![],
    }
}

fn server_dialog() -> sip_dialog_core::server::ServerInviteDialog {
    let req = server_invite();
    let id = DialogId {
        call_id: "call-uas".to_string(),
        from_tag: "local-tag".to_string(),
        to_tag: "remote-tag".to_string(),
    };
    let inner = DialogInner::new(
        TransactionRole::Server,
        id,
        req,
        local_addr(),
        "test-agent".to_string(),
        9000,
        None,
        Some(user_uri("bob", "10.0.0.9")),
    )
    .unwrap();
    sip_dialog_core::server::ServerInviteDialog { inner }
}

#[test]
fn server_dialog_seeds_from_the_invite() {
    let d = server_dialog();
    assert!(matches!(d.inner.state, DialogState::Trying(_)));
    assert_eq!(d.inner.local_seq, 9000);
    assert_eq!(d.inner.remote_seq, 314);
    assert_eq!(d.inner.remote_uri.host, "198.51.100.4");
    // The route set keeps the Record-Route order of the initial request.
    assert_eq!(d.inner.route_set.len(), 2);
    assert_eq!(d.inner.route_set[0].host, "p1.example.com");
    assert_eq!(d.inner.route_set[1].host, "p2.example.com");
}

#[test]
fn uas_response_echoes_record_routes() {
    let mut d = server_dialog();
    let resp = d.accept(None, Some(b"v=0".to_vec()));
    assert_eq!(resp.status, 200);
    let rrs: Vec<&Uri> = resp
        .headers
        .iter()
        .filter_map(|h| match h {
            Header::RecordRoute(u) => Some(u),
            _ => None,
        })
        .collect();
    assert_eq!(rrs.len(), 2);
    assert_eq!(rrs[0].host, "p1.example.com");
    assert_eq!(rrs[1].host, "p2.example.com");
    // A non-100 response carries the local tag in To.
    let to = sip_dialog_core::msg::find_to(&resp.headers).unwrap();
    assert_eq!(to.tag.as_deref(), Some("remote-tag"));
    assert!(matches!(d.inner.state, DialogState::WaitAck(_, _)));
}

#[test]
fn uas_bye_updates_remote_seq_and_terminates() {
    let mut d = server_dialog();
    d.accept(None, None);
    // The ACK confirms the dialog.
    let ack = Request {
        method: Method::Ack,
        uri: user_uri("bob", "10.0.0.9"),
        headers: vec![Header::CSeq(314, Method::Ack)],
        body: vec![],
    };
    assert_eq!(d.inner.handle_inbound(&ack).unwrap(), None);
    assert!(d.inner.is_confirmed());

    // An out-of-order BYE is refused with 500 and changes nothing.
    let mut bye = Request {
        method: Method::Bye,
        uri: user_uri("bob", "10.0.0.9"),
        headers: vec![Header::CSeq(314, Method::Bye)],
        body: vec![],
    };
    let refused = d.inner.handle_inbound(&bye).unwrap().unwrap();
    assert_eq!(refused.status, 500);
    assert_eq!(d.inner.remote_seq, 314);
    assert!(d.inner.is_confirmed());

    // An in-order BYE is answered 200 and terminates the dialog.
    bye.headers = vec![Header::CSeq(315, Method::Bye)];
    let okd = d.inner.handle_inbound(&bye).unwrap().unwrap();
    assert_eq!(okd.status, 200);
    assert_eq!(d.inner.remote_seq, 315);
    match &d.inner.state {
        DialogState::Terminated(_, TerminatedReason::UasBye) => {},
        other => panic!("unexpected state: {:?}", other),
    }
}

#[test]
fn transient_events_do_not_overwrite_the_state() {
    let mut d = server_dialog();
    d.accept(None, None);
    let ack = Request {
        method: Method::Ack,
        uri: user_uri("bob", "10.0.0.9"),
        headers: vec![Header::CSeq(314, Method::Ack)],
        body: vec![],
    };
    d.inner.handle_inbound(&ack).unwrap();
    let info = Request {
        method: Method::Info,
        uri: user_uri("bob", "10.0.0.9"),
        headers: vec![Header::CSeq(400, Method::Info)],
        body: vec![],
    };
    let resp = d.inner.handle_inbound(&info).unwrap().unwrap();
    assert_eq!(resp.status, 200);
    assert!(d.inner.is_confirmed());
    let events = d.inner.take_events();
    assert!(matches!(events.last().unwrap(), DialogState::Info(_, _)));
}

#[test]
fn uas_reject_maps_the_reason() {
    let mut d = server_dialog();
    let resp = d.reject(486, None);
    assert_eq!(resp.status, 486);
    match &d.inner.state {
        DialogState::Terminated(_, TerminatedReason::UasBusy) => {},
        other => panic!("unexpected state: {:?}", other),
    }
}

#[test]
fn route_target_strips_all_but_transport() {
    let route = Uri {
        user: None,
        host: "proxy.example.com".to_string(),
        port: Some(5061),
        params: vec![
            ("lr".to_string(), None),
            ("transport".to_string(), Some("tcp".to_string())),
            ("did".to_string(), Some("8f1".to_string())),
        ],
    };
    let req = Request {
        method: Method::Bye,
        uri: bare_uri("b.example.com"),
        headers: vec![Header::Route(route), Header::Route(bare_uri("other.example.com"))],
        body: vec![],
    };
    let target = route_target(&req).unwrap();
    assert_eq!(target.host, "proxy.example.com");
    assert_eq!(target.port, Some(5061));
    assert_eq!(target.params, vec![("transport".to_string(), Some("tcp".to_string()))]);

    let no_route = Request {
        method: Method::Bye,
        uri: bare_uri("b.example.com"),
        headers: vec![],
        body: vec![],
    };
    assert!(route_target(&no_route).is_none());
}

#[test]
fn challenge_in_dialog_is_answered_once() {
    let req = server_invite();
    let id = DialogId {
        call_id: "call-auth".to_string(),
        from_tag: "f".to_string(),
        to_tag: "".to_string(),
    };
    let mut inner = DialogInner::new(
        TransactionRole::Client,
        id,
        req.dup(),
        local_addr(),
        "test-agent".to_string(),
        0,
        Some(Credential {
            username: "alice".to_string(),
            password: "wonder".to_string(),
            realm: None,
        }),
        None,
    )
    .unwrap();
    let challenge = Response {
        status: 407,
        headers: vec![Header::ProxyAuthenticate(Challenge {
            realm: "example.com".to_string(),
            nonce: "n0".to_string(),
            algorithm: Algorithm::Md5,
            qop: None,
            opaque: None,
        })],
        body: vec![],
    };
    let old_seq = inner.get_local_seq();
    let step = inner.on_request_response(&req, challenge.dup(), false, &"cn".to_string());
    let retry = match step {
        DoRequestStep::Resend(r) => r,
        other => panic!("unexpected step: {:?}", other),
    };
    assert_eq!(cseq_of(&retry), old_seq + 1);
    let auth = retry
        .headers
        .iter()
        .find_map(|h| match h {
            Header::ProxyAuthorization(a) => Some(a),
            _ => None,
        })
        .expect("the retry must carry Proxy-Authorization");
    assert_eq!(auth.username, "alice");
    assert_eq!(auth.realm, "example.com");
    assert_eq!(auth.nonce, "n0");
    assert_eq!(auth.response.len(), 32);

    // A second challenge terminates the dialog.
    let step2 = inner.on_request_response(&req, challenge, true, &"cn".to_string());
    assert!(matches!(step2, DoRequestStep::Stop));
    match &inner.state {
        DialogState::Terminated(_, TerminatedReason::ProxyAuthRequired) => {},
        other => panic!("unexpected state: {:?}", other),
    }
}

#[test]
fn hangup_chooses_cancel_before_and_bye_after() {
    let mut layer = layer();
    let (id, _invite) = layer
        .start_invite(invite_option(), None, "ft6".to_string(), "call-h".to_string(), None)
        .unwrap();
    let mut early = layer.take_dialog(&id).unwrap();
    let req = early.hangup(None).unwrap();
    assert_eq!(req.method, Method::Cancel);

    let (id2, invite2) = layer
        .start_invite(invite_option(), None, "ft7".to_string(), "call-h2".to_string(), None)
        .unwrap();
    let mut confirmed = match layer.take_dialog(&id2).unwrap() {
        Dialog::ClientInvite(d) => d,
        _ => panic!("expected a client dialog"),
    };
    let ok = response_for(&invite2, 200, Some("hz"));
    assert!(matches!(confirmed.on_invite_response(ok, None), InviteStep::Accepted(_)));
    let mut confirmed = Dialog::ClientInvite(confirmed);
    let req2 = confirmed.hangup(None).unwrap();
    assert_eq!(req2.method, Method::Bye);
}

#[test]
fn removed_dialogs_are_cancelled() {
    let mut layer = layer();
    let (id, _invite) = layer
        .start_invite(invite_option(), None, "ft8".to_string(), "call-r".to_string(), None)
        .unwrap();
    let removed = layer.remove_dialog(&id).unwrap();
    match removed {
        Dialog::ClientInvite(d) => assert!(d.inner.cancelled),
        _ => panic!("expected a client dialog"),
    }
    assert!(layer.remove_dialog(&id).is_none());
}

#[test]
fn dispatch_reaches_the_dialog_core() {
    let mut layer = layer();
    let mut d = server_dialog();
    d.accept(None, None);
    let ack = Request {
        method: Method::Ack,
        uri: user_uri("bob", "10.0.0.9"),
        headers: vec![Header::CSeq(314, Method::Ack)],
        body: vec![],
    };
    d.inner.handle_inbound(&ack).unwrap();
    let id = d.inner.id.dup();
    layer.insert_dialog(id.dup(), Dialog::ServerInvite(d));

    let mut dialog = layer.take_dialog(&id).unwrap();
    assert_eq!(dialog.id(), id);
    let bye = Request {
        method: Method::Bye,
        uri: user_uri("bob", "10.0.0.9"),
        headers: vec![Header::CSeq(400, Method::Bye)],
        body: vec![],
    };
    let resp = dialog.handle(&bye).unwrap().unwrap();
    assert_eq!(resp.status, 200);
    layer.insert_dialog(dialog.id(), dialog);
}

#[test]
fn state_text_names_identity_and_state() {
    let id = DialogId {
        call_id: "c".to_string(),
        from_tag: "f".to_string(),
        to_tag: "t".to_string(),
    };
    let s = DialogState::Confirmed(id);
    assert_eq!(s.to_text(), "c-f-t(Confirmed)");
}
