//! The REGISTER client: building REGISTER requests, answering digest
//! challenges, and discovering the public address a NAT maps this agent to
//! from the `received` and `rport` parameters servers stamp into `Via`.
use vstd::prelude::*;
use crate::auth::{handle_client_authenticate, AuthError, Credential, CredentialView};
use crate::msg::{
    spec_challenge, spec_contact, spec_first_via, spec_param_value, spec_unique_push, spec_vias,
    unique_push, Header, HeaderView, Method, NameAddr, NameAddrView, Request, RequestView,
    Response, SipAddr, SipAddrView, Transport, Uri, UriView, Via, ViaView,
};
use crate::parse::{all_digits, dec_val, parse_u16_dec, parse_u32_dec};

verus! {

/// Specification view of a [`Registration`].
pub struct RegistrationView {
    pub last_seq: u32,
    pub credential: Option<CredentialView>,
    pub contact: Option<NameAddrView>,
    pub allow: Seq<Method>,
    pub public_address: Option<(Seq<char>, u16)>,
}

/// A REGISTER client: its sequence space, its credential, the contact it
/// advertises (cached once echoed by the registrar), the methods it allows,
/// and the public address servers have reported for it.
#[derive(Debug)]
pub struct Registration {
    pub last_seq: u32,
    pub credential: Option<Credential>,
    pub contact: Option<NameAddr>,
    pub allow: Vec<Method>,
    pub public_address: Option<(String, u16)>,
}

impl View for Registration {
    type V = RegistrationView;

    open spec fn view(&self) -> RegistrationView {
        RegistrationView {
            last_seq: self.last_seq,
            credential: self.credential.deep_view(),
            contact: self.contact.deep_view(),
            allow: self.allow.deep_view(),
            public_address: match self.public_address {
                Some(p) => Some((p.0@, p.1)),
                None => None,
            },
        }
    }
}

/// The methods a fresh registration allows.
pub open spec fn spec_default_allow() -> Seq<Method> {
    seq![
        Method::Invite,
        Method::Ack,
        Method::Bye,
        Method::Cancel,
        Method::Register,
        Method::Options,
        Method::Info,
        Method::Update,
        Method::Notify,
        Method::Message,
        Method::Subscribe,
        Method::Refer,
    ]
}

/// The public address one `Via` reports: the `received` value and the
/// `rport` value read as a port number, when both are present and the port
/// parses.
pub open spec fn spec_via_public_addr(v: ViaView) -> Option<(Seq<char>, u16)> {
    match (spec_param_value(v.params, "received"@), spec_param_value(v.params, "rport"@)) {
        (Some(Some(ip)), Some(Some(p))) => if p.len() > 0 && all_digits(p) && dec_val(p)
            <= u16::MAX {
            Some((ip, dec_val(p) as u16))
        } else {
            None
        },
        _ => None,
    }
}

/// The public address a response reports: walking its `Via` headers in
/// order, the last one carrying both `received` and a parsable `rport`.
pub open spec fn spec_last_public_addr(vs: Seq<ViaView>) -> Option<(Seq<char>, u16)>
    decreases vs.len(),
{
    if vs.len() == 0 {
        None
    } else {
        match spec_via_public_addr(vs.last()) {
            Some(p) => Some(p),
            None => spec_last_public_addr(vs.drop_last()),
        }
    }
}

/// The public address a response's headers report.
pub open spec fn spec_public_addr_of(hs: Seq<HeaderView>) -> Option<(Seq<char>, u16)> {
    spec_last_public_addr(spec_vias(hs))
}

/// The registration after taking a reported public address in: a new
/// address is stored and the cached contact dropped, so the next REGISTER
/// advertises it; an already-known or missing address changes nothing.
pub open spec fn spec_apply_discovery(
    pre: RegistrationView,
    found: Option<(Seq<char>, u16)>,
) -> RegistrationView {
    match found {
        Some(p) => if pre.public_address == Some(p) {
            pre
        } else {
            RegistrationView { public_address: Some(p), contact: None, ..pre }
        },
        None => pre,
    }
}

/// The public address one `Via` reports, per [`spec_via_public_addr`].
pub fn via_public_addr(v: &Via) -> (r: Option<(String, u16)>)
    ensures
        (match r {
            Some(p) => Some((p.0@, p.1)),
            None => None,
        }) == spec_via_public_addr(v@),
{
    let received = crate::msg::param_value(&v.params, &"received".to_owned());
    let rport = crate::msg::param_value(&v.params, &"rport".to_owned());
    match (received, rport) {
        (Some(Some(ip)), Some(Some(p))) => match parse_u16_dec(&p) {
            Some(port) => Some((ip, port)),
            None => None,
        },
        _ => None,
    }
}

/// The public address a response reports, per [`spec_public_addr_of`].
pub fn extract_public_address(resp: &Response) -> (r: Option<(String, u16)>)
    ensures
        (match r {
            Some(p) => Some((p.0@, p.1)),
            None => None,
        }) == spec_public_addr_of(resp@.headers),
{
    let vias = crate::msg::collect_vias(&resp.headers);
    let ghost vs = vias.deep_view();
    let mut found: Option<(String, u16)> = None;
    let mut i: usize = 0;
    assert(vs.take(0) =~= Seq::<ViaView>::empty());
    while i < vias.len()
        invariant
            i <= vias.len(),
            vs == vias.deep_view(),
            (match found {
                Some(p) => Some((p.0@, p.1)),
                None => None,
            }) == spec_last_public_addr(vs.take(i as int)),
        decreases vias.len() - i,
    {
        assert(vs.take(i + 1).drop_last() =~= vs.take(i as int));
        assert(vs.take(i + 1).last() == vs[i as int]);
        match via_public_addr(&vias[i]) {
            Some(p) => {
                found = Some(p);
            },
            None => {},
        }
        i += 1;
    }
    assert(vs.take(i as int) =~= vs);
    found
}

/// The seconds a registration lives: the `expires` parameter of the cached
/// contact when it is present and parses, else fifty.
pub open spec fn spec_expires(contact: Option<NameAddrView>) -> u32 {
    match contact {
        Some(c) => match spec_param_value(c.params, "expires"@) {
            Some(Some(v)) => if v.len() > 0 && all_digits(v) && dec_val(v) <= u32::MAX {
                dec_val(v) as u32
            } else {
                50
            },
            _ => 50,
        },
        None => 50,
    }
}

/// What the REGISTER send loop should do with a message it received.
#[derive(Debug)]
pub enum RegisterStep {
    /// A provisional answer: keep waiting.
    Continue,
    /// A challenge was answered: send this rebuilt REGISTER and keep
    /// waiting, with the retry noted.
    Retry(Request),
    /// The final answer: return it.
    Done(Response),
    /// The challenge could not be answered.
    Failed(AuthError),
}

/// The REGISTER retry after a challenge: a copy of the original with, when a
/// public address is known, the `Contact` and the first `Via` rewritten to
/// advertise it, and the digest credentials and new `CSeq` attached.
pub open spec fn spec_register_retry_base(
    original: RequestView,
    username: Option<Seq<char>>,
    public_address: Option<(Seq<char>, u16)>,
) -> RequestView {
    match public_address {
        Some((ip, port)) => {
            let contact = NameAddrView {
                display_name: None,
                uri: UriView {
                    user: username,
                    host: ip,
                    port: Some(port),
                    params: Seq::empty(),
                },
                tag: None,
                params: seq![("ob"@, None)],
            };
            let via = match spec_first_via(original.headers) {
                Some(v) => ViaView { host: ip, port: Some(port), ..v },
                None => ViaView {
                    transport: Transport::Udp,
                    host: ip,
                    port: Some(port),
                    branch: None,
                    params: Seq::empty(),
                },
            };
            RequestView {
                headers: spec_unique_push(
                    spec_unique_push(original.headers, HeaderView::Contact(contact)),
                    HeaderView::Via(via),
                ),
                ..original
            }
        },
        None => original,
    }
}

/// Registration public-address discovery: once a challenge has reported
/// `received` and `rport` and they became the client's public address, the
/// authenticated retry REGISTER advertises that address in both its
/// `Contact` URI and its `Via`, whatever digest credentials and sequence
/// number are attached.
pub proof fn lemma_registration_discovery(
    original: RequestView,
    username: Seq<char>,
    ip: Seq<char>,
    port: u16,
    new_seq: u32,
    auth: crate::msg::DigestAuthView,
    proxy: bool,
)
    ensures
        ({
            let base = spec_register_retry_base(original, Some(username), Some((ip, port)));
            let retry = crate::auth::spec_authorized_request(base, new_seq, auth, proxy);
            &&& (spec_contact(retry.headers) matches Some(c) && c.uri.host == ip && c.uri.port
                == Some(port) && c.uri.user == Some(username))
            &&& (spec_first_via(retry.headers) matches Some(v) && v.host == ip && v.port == Some(
                port,
            ))
        }),
{
    let base = spec_register_retry_base(original, Some(username), Some((ip, port)));
    let c0 = NameAddrView {
        display_name: None,
        uri: UriView { user: Some(username), host: ip, port: Some(port), params: Seq::empty() },
        tag: None,
        params: seq![("ob"@, None)],
    };
    let v0 = match spec_first_via(original.headers) {
        Some(v) => ViaView { host: ip, port: Some(port), ..v },
        None => ViaView {
            transport: Transport::Udp,
            host: ip,
            port: Some(port),
            branch: None,
            params: Seq::empty(),
        },
    };
    let h1 = spec_unique_push(original.headers, HeaderView::Contact(c0));
    let h2 = spec_unique_push(h1, HeaderView::Via(v0));
    crate::msg::lemma_unique_push_sets_contact(original.headers, c0);
    crate::msg::lemma_unique_push_keeps_contact(h1, HeaderView::Via(v0));
    crate::msg::lemma_unique_push_sets_via(h1, v0);
    let h3 = spec_unique_push(h2, HeaderView::CSeq(new_seq, base.method));
    crate::msg::lemma_unique_push_keeps_contact(h2, HeaderView::CSeq(new_seq, base.method));
    crate::msg::lemma_unique_push_keeps_via(h2, HeaderView::CSeq(new_seq, base.method));
    let ah = if proxy {
        HeaderView::ProxyAuthorization(auth)
    } else {
        HeaderView::Authorization(auth)
    };
    crate::msg::lemma_unique_push_keeps_contact(h3, ah);
    crate::msg::lemma_unique_push_keeps_via(h3, ah);
}

impl Registration {
    /// A new REGISTER client; `seq_seed` starts its sequence space (a fresh
    /// random number chosen by the caller).
    pub fn new(credential: Option<Credential>, seq_seed: u32) -> (r: Registration)
        ensures
            r@.last_seq == seq_seed,
            r@.credential == credential.deep_view(),
            r@.contact is None,
            r@.public_address is None,
            r@.allow == spec_default_allow(),
    {
        let allow = vec![
            Method::Invite,
            Method::Ack,
            Method::Bye,
            Method::Cancel,
            Method::Register,
            Method::Options,
            Method::Info,
            Method::Update,
            Method::Notify,
            Method::Message,
            Method::Subscribe,
            Method::Refer,
        ];
        let r = Registration {
            last_seq: seq_seed,
            credential,
            contact: None,
            allow,
            public_address: None,
        };
        assert(r.allow.deep_view() =~= spec_default_allow());
        r
    }

    /// The public address discovered during registration, if any.
    pub fn discovered_public_address(&self) -> (r: Option<(String, u16)>)
        ensures
            (match r {
                Some(p) => Some((p.0@, p.1)),
                None => None,
            }) == self@.public_address,
    {
        match &self.public_address {
            Some(p) => Some((p.0.clone(), p.1)),
            None => None,
        }
    }

    /// The seconds this registration lives, per [`spec_expires`].
    pub fn expires(&self) -> (r: u32)
        ensures
            r == spec_expires(self@.contact),
    {
        match &self.contact {
            Some(c) => match crate::msg::param_value(&c.params, &"expires".to_owned()) {
                Some(Some(v)) => match parse_u32_dec(&v) {
                    Some(n) => n,
                    None => 50,
                },
                _ => 50,
            },
            None => 50,
        }
    }

    /// The contact a REGISTER advertises: a fresh one at the discovered
    /// public address when one is known, else the cached one when present,
    /// else a fresh one at the local address; fresh contacts carry the
    /// credential's user and the `ob` parameter.
    pub open spec fn spec_register_contact(
        pre: RegistrationView,
        local_addr: SipAddrView,
    ) -> NameAddrView {
        match pre.public_address {
            Some((ip, p)) => NameAddrView {
                display_name: None,
                uri: UriView {
                    user: match pre.credential {
                        Some(c) => Some(c.username),
                        None => None,
                    },
                    host: ip,
                    port: Some(p),
                    params: Seq::empty(),
                },
                tag: None,
                params: seq![("ob"@, None)],
            },
            None => match pre.contact {
                Some(c) => c,
                None => NameAddrView {
                    display_name: None,
                    uri: UriView {
                        user: match pre.credential {
                            Some(c) => Some(c.username),
                            None => None,
                        },
                        host: local_addr.host,
                        port: local_addr.port,
                        params: Seq::empty(),
                    },
                    tag: None,
                    params: seq![("ob"@, None)],
                },
            },
        }
    }

    /// The generated headers of a REGISTER, before the contact and allow
    /// list are pushed.
    pub open spec fn spec_register_base(
        pre: RegistrationView,
        server: Seq<char>,
        local_addr: SipAddrView,
        tag: Seq<char>,
        call_id: Seq<char>,
        branch: Option<Seq<char>>,
    ) -> Seq<HeaderView> {
        let user = match pre.credential {
            Some(c) => Some(c.username),
            None => None,
        };
        let reg_uri = UriView { user: user, host: server, port: None, params: Seq::empty() };
        let from = NameAddrView {
            display_name: None,
            uri: reg_uri,
            tag: Some(tag),
            params: Seq::empty(),
        };
        let to = NameAddrView { display_name: None, uri: reg_uri, tag: None, params: Seq::empty() };
        let via = ViaView {
            transport: match local_addr.transport {
                Some(t) => t,
                None => Transport::Udp,
            },
            host: (match pre.public_address {
                Some((ip, p)) => ip,
                None => local_addr.host,
            }),
            port: (match pre.public_address {
                Some((ip, p)) => Some(p),
                None => local_addr.port,
            }),
            branch: branch,
            params: Seq::empty(),
        };
        seq![
            HeaderView::Via(via),
            HeaderView::CallId(call_id),
            HeaderView::From(from),
            HeaderView::To(to),
            HeaderView::CSeq((pre.last_seq + 1) as u32, Method::Register),
            HeaderView::MaxForwards(70),
        ]
    }

    /// The REGISTER built for `server`: `From` and `To` both address the
    /// credential's user at the registrar, `From` carrying the fresh tag;
    /// the `Via` advertises the public address when one is known, else the
    /// local address; then the contact of [`Self::spec_register_contact`]
    /// (the discovered public address first) and the `Allow` list, pushed
    /// with replacement.
    pub open spec fn spec_prepare_register(
        pre: RegistrationView,
        server: Seq<char>,
        local_addr: SipAddrView,
        tag: Seq<char>,
        call_id: Seq<char>,
        branch: Option<Seq<char>>,
    ) -> RequestView {
        let h1 = spec_unique_push(
            Self::spec_register_base(pre, server, local_addr, tag, call_id, branch),
            HeaderView::Contact(Self::spec_register_contact(pre, local_addr)),
        );
        let h2 = spec_unique_push(h1, HeaderView::Allow(pre.allow));
        RequestView {
            method: Method::Register,
            uri: UriView { user: None, host: server, port: None, params: Seq::empty() },
            headers: h2,
            body: Seq::empty(),
        }
    }

    /// Builds the next REGISTER for `server` per
    /// [`Self::spec_prepare_register`], advancing the sequence space. The
    /// caller resolves the registrar (DNS is the transport layer's job) and
    /// supplies the local address, a fresh tag, `Call-ID` and branch.
    pub fn prepare_register(
        &mut self,
        server: &String,
        local_addr: &SipAddr,
        tag: String,
        call_id: String,
        branch: Option<String>,
    ) -> (r: Request)
        requires
            old(self)@.last_seq < u32::MAX,
        ensures
            r@ == Self::spec_prepare_register(
                old(self)@,
                server@,
                local_addr@,
                tag@,
                call_id@,
                branch.deep_view(),
            ),
            final(self)@ == (RegistrationView {
                last_seq: (old(self)@.last_seq + 1) as u32,
                ..old(self)@
            }),
    {
        let ghost pre = old(self)@;
        self.last_seq = self.last_seq + 1;
        let seq_num = self.last_seq;
        let user: Option<String> = match &self.credential {
            Some(c) => Some(c.username.clone()),
            None => None,
        };
        let reg_uri = Uri {
            user: crate::msg::dup_opt_string(&user),
            host: server.clone(),
            port: None,
            params: Vec::new(),
        };
        assert(reg_uri@.params =~= Seq::<(Seq<char>, Option<Seq<char>>)>::empty());
        let from = NameAddr {
            display_name: None,
            uri: reg_uri.dup(),
            tag: Some(tag),
            params: Vec::new(),
        };
        assert(from@.params =~= Seq::<(Seq<char>, Option<Seq<char>>)>::empty());
        let to = NameAddr { display_name: None, uri: reg_uri, tag: None, params: Vec::new() };
        assert(to@.params =~= Seq::<(Seq<char>, Option<Seq<char>>)>::empty());
        let (via_host, via_port) = match &self.public_address {
            Some(p) => (p.0.clone(), Some(p.1)),
            None => (local_addr.host.clone(), local_addr.port),
        };
        let via = Via {
            transport: match local_addr.transport {
                Some(t) => t,
                None => Transport::Udp,
            },
            host: via_host,
            port: via_port,
            branch,
            params: Vec::new(),
        };
        assert(via@.params =~= Seq::<(Seq<char>, Option<Seq<char>>)>::empty());
        let contact = match &self.public_address {
            Some(p) => {
                let mut params: Vec<(String, Option<String>)> = Vec::new();
                params.push(("ob".to_owned(), None));
                let c = NameAddr {
                    display_name: None,
                    uri: Uri {
                        user: crate::msg::dup_opt_string(&user),
                        host: p.0.clone(),
                        port: Some(p.1),
                        params: Vec::new(),
                    },
                    tag: None,
                    params,
                };
                assert(c@.params =~= seq![("ob"@, None::<Seq<char>>)]);
                assert(c@.uri.params =~= Seq::<(Seq<char>, Option<Seq<char>>)>::empty());
                c
            },
            None => match &self.contact {
                Some(c) => c.dup(),
                None => {
                    let mut params: Vec<(String, Option<String>)> = Vec::new();
                    params.push(("ob".to_owned(), None));
                    let c = NameAddr {
                        display_name: None,
                        uri: Uri {
                            user: crate::msg::dup_opt_string(&user),
                            host: local_addr.host.clone(),
                            port: local_addr.port,
                            params: Vec::new(),
                        },
                        tag: None,
                        params,
                    };
                    assert(c@.params =~= seq![("ob"@, None::<Seq<char>>)]);
                    assert(c@.uri.params =~= Seq::<(Seq<char>, Option<Seq<char>>)>::empty());
                    c
                },
            },
        };
        assert(contact@ == Self::spec_register_contact(pre, local_addr@));
        let mut hs: Vec<Header> = Vec::new();
        hs.push(Header::Via(via));
        hs.push(Header::CallId(call_id));
        hs.push(Header::From(from));
        hs.push(Header::To(to));
        hs.push(Header::CSeq(seq_num, Method::Register));
        hs.push(Header::MaxForwards(70));
        assert(hs.deep_view() =~= Self::spec_register_base(
            pre,
            server@,
            local_addr@,
            tag@,
            call_id@,
            branch.deep_view(),
        ));
        let ghost g_base = hs.deep_view();
        unique_push(&mut hs, Header::Contact(contact));
        assert(hs.deep_view() == spec_unique_push(
            g_base,
            HeaderView::Contact(Self::spec_register_contact(pre, local_addr@)),
        ));
        let ghost g1 = hs.deep_view();
        let allow_copy = crate::msg::dup_methods(&self.allow);
        assert(allow_copy.deep_view() == pre.allow);
        unique_push(&mut hs, Header::Allow(allow_copy));
        assert(hs.deep_view() == spec_unique_push(g1, HeaderView::Allow(pre.allow)));
        assert(hs.deep_view() == Self::spec_prepare_register(
            pre,
            server@,
            local_addr@,
            tag@,
            call_id@,
            branch.deep_view(),
        ).headers);
        let r = Request {
            method: Method::Register,
            uri: Uri { user: None, host: server.clone(), port: None, params: Vec::new() },
            headers: hs,
            body: Vec::new(),
        };
        assert(r@.uri.params =~= Seq::<(Seq<char>, Option<Seq<char>>)>::empty());
        assert(r@.body =~= Seq::<u8>::empty());
        r
    }

    /// The contact [`Self::create_nat_aware_contact`] builds: the username
    /// at the public address when one is given (marked with the `ob`
    /// outbound parameter), else at the local address.
    pub open spec fn spec_nat_aware_contact(
        username: Seq<char>,
        public_address: Option<(Seq<char>, u16)>,
        local_address: SipAddrView,
    ) -> NameAddrView {
        let (host, port) = match public_address {
            Some((ip, p)) => (ip, Some(p)),
            None => (local_address.host, local_address.port),
        };
        NameAddrView {
            display_name: None,
            uri: UriView {
                user: Some(username),
                host: host,
                port: port,
                params: (match public_address {
                    Some(_) => seq![("ob"@, None)],
                    None => Seq::empty(),
                }),
            },
            tag: None,
            params: Seq::empty(),
        }
    }

    /// Builds a contact for dialogs that takes the discovered public address
    /// into account, per [`Self::spec_nat_aware_contact`].
    pub fn create_nat_aware_contact(
        username: &String,
        public_address: Option<(String, u16)>,
        local_address: &SipAddr,
    ) -> (r: NameAddr)
        ensures
            r@ == Self::spec_nat_aware_contact(
                username@,
                match public_address {
                    Some(p) => Some((p.0@, p.1)),
                    None => None,
                },
                local_address@,
            ),
    {
        let mut uparams: Vec<(String, Option<String>)> = Vec::new();
        let (host, port) = match &public_address {
            Some(p) => {
                uparams.push(("ob".to_owned(), None));
                (p.0.clone(), Some(p.1))
            },
            None => (local_address.host.clone(), local_address.port),
        };
        let r = NameAddr {
            display_name: None,
            uri: Uri { user: Some(username.clone()), host, port, params: uparams },
            tag: None,
            params: Vec::new(),
        };
        assert(r@.params =~= Seq::<(Seq<char>, Option<Seq<char>>)>::empty());
        assert(r@.uri.params =~= (match public_address {
            Some(_) => seq![("ob"@, None::<Seq<char>>)],
            None => Seq::<(Seq<char>, Option<Seq<char>>)>::empty(),
        }));
        r
    }

    /// Takes a reported public address in, per [`spec_apply_discovery`].
    fn apply_discovery(&mut self, found: Option<(String, u16)>)
        ensures
            final(self)@ == spec_apply_discovery(
                old(self)@,
                match found {
                    Some(p) => Some((p.0@, p.1)),
                    None => None,
                },
            ),
    {
        match found {
            Some(p) => {
                let same = match &self.public_address {
                    Some(q) => q.0.eq(&p.0) && q.1 == p.1,
                    None => false,
                };
                if !same {
                    self.public_address = Some(p);
                    self.contact = None;
                }
            },
            None => {},
        }
    }

    /// Decides one step of the REGISTER send loop. Provisional answers are
    /// waited through. A first `401`/`407` takes any reported public address
    /// in, rewrites `Contact` and `Via` to advertise it, and answers the
    /// challenge with a digest retry under the next sequence number; a
    /// repeated challenge, or one without a credential, is returned as the
    /// final answer. A `200` takes any reported public address in and caches
    /// the echoed contact. The caller marks `auth_sent` once it has sent a
    /// retry, and supplies the client nonce for the digest.
    pub fn on_register_response(
        &mut self,
        original: &Request,
        resp: Response,
        auth_sent: bool,
        cnonce: &String,
    ) -> (r: RegisterStep)
        requires
            old(self)@.last_seq < u32::MAX,
        ensures
            resp@.status < 200 ==> r is Continue && final(self)@ == old(self)@,
            (resp@.status == 401 || resp@.status == 407) ==> {
                let seen = spec_apply_discovery(old(self)@, spec_public_addr_of(resp@.headers));
                &&& (auth_sent ==> (r matches RegisterStep::Done(x) && x@ == resp@)
                    && final(self)@ == seen)
                &&& (!auth_sent && old(self)@.credential is None ==> (r matches
                    RegisterStep::Done(x) && x@ == resp@) && final(self)@ == seen)
                &&& (!auth_sent && old(self)@.credential is Some ==> {
                    let bumped = RegistrationView {
                        last_seq: (seen.last_seq + 1) as u32,
                        ..seen
                    };
                    let base = spec_register_retry_base(
                        original@,
                        Some(old(self)@.credential->0.username),
                        bumped.public_address,
                    );
                    &&& final(self)@ == bumped
                    &&& (r is Retry <==> (match spec_challenge(resp@.headers) {
                        Some((_, c)) => c.algorithm == crate::msg::Algorithm::Md5
                            && crate::auth::spec_digest_accepts(
                            original@.method.spec_name(),
                            crate::fmt::spec_uri_str(original@.uri),
                        ),
                        None => false,
                    }))
                    &&& (match spec_challenge(resp@.headers) {
                        Some((_, c)) => c.algorithm != crate::msg::Algorithm::Md5,
                        None => false,
                    } ==> (r matches RegisterStep::Failed(e) && e
                        == AuthError::UnsupportedAlgorithm))
                    &&& (match spec_challenge(resp@.headers) {
                        Some((_, c)) => c.algorithm == crate::msg::Algorithm::Md5
                            && !crate::auth::spec_digest_accepts(
                            original@.method.spec_name(),
                            crate::fmt::spec_uri_str(original@.uri),
                        ),
                        None => false,
                    } ==> (r matches RegisterStep::Failed(e) && e == AuthError::DigestUnavailable))
                    &&& (r matches RegisterStep::Retry(req) ==> {
                        &&& spec_challenge(resp@.headers) is Some
                        &&& {
                            let (proxy, c) = spec_challenge(resp@.headers)->0;
                            req@ == crate::auth::spec_authorized_request(
                                base,
                                bumped.last_seq,
                                crate::auth::spec_digest_auth(
                                    old(self)@.credential->0,
                                    c,
                                    base.method,
                                    crate::fmt::spec_uri_str(base.uri),
                                    cnonce@,
                                ),
                                proxy,
                            )
                        }
                    })
                    &&& (spec_challenge(resp@.headers) is None ==> (r matches
                        RegisterStep::Failed(e) && e == AuthError::NoChallenge))
                })
            },
            resp@.status == 200 ==> (r matches RegisterStep::Done(x) && x@ == resp@)
                && final(self)@ == (RegistrationView {
                contact: (match spec_contact(resp@.headers) {
                    Some(c) => Some(c),
                    None => spec_apply_discovery(
                        old(self)@,
                        spec_public_addr_of(resp@.headers),
                    ).contact,
                }),
                ..spec_apply_discovery(old(self)@, spec_public_addr_of(resp@.headers))
            }),
            resp@.status > 200 && resp@.status != 401 && resp@.status != 407 ==> (r matches
                RegisterStep::Done(x) && x@ == resp@) && final(self)@ == old(self)@,
    {
        if resp.status < 200 {
            return RegisterStep::Continue;
        }
        if resp.status == 401 || resp.status == 407 {
            let found = extract_public_address(&resp);
            self.apply_discovery(found);
            if auth_sent {
                return RegisterStep::Done(resp);
            }
            let cred = match &self.credential {
                Some(c) => c.dup(),
                None => {
                    return RegisterStep::Done(resp);
                },
            };
            self.last_seq = self.last_seq + 1;
            let mut base = original.dup();
            match &self.public_address {
                Some(p) => {
                    let mut cparams: Vec<(String, Option<String>)> = Vec::new();
                    cparams.push(("ob".to_owned(), None));
                    let contact = NameAddr {
                        display_name: None,
                        uri: Uri {
                            user: Some(cred.username.clone()),
                            host: p.0.clone(),
                            port: Some(p.1),
                            params: Vec::new(),
                        },
                        tag: None,
                        params: cparams,
                    };
                    assert(contact@.params =~= seq![("ob"@, None::<Seq<char>>)]);
                    assert(contact@.uri.params =~= Seq::<(Seq<char>, Option<Seq<char>>)>::empty());
                    unique_push(&mut base.headers, Header::Contact(contact));
                    let via = match crate::msg::find_first_via(&original.headers) {
                        Some(v) => Via {
                            transport: v.transport,
                            host: p.0.clone(),
                            port: Some(p.1),
                            branch: v.branch,
                            params: v.params,
                        },
                        None => Via {
                            transport: Transport::Udp,
                            host: p.0.clone(),
                            port: Some(p.1),
                            branch: None,
                            params: Vec::new(),
                        },
                    };
                    unique_push(&mut base.headers, Header::Via(via));
                },
                None => {},
            }
            assert(base@ == spec_register_retry_base(
                original@,
                Some(old(self)@.credential->0.username),
                self@.public_address,
            ));
            return match handle_client_authenticate(self.last_seq, &base, &resp, &cred, cnonce) {
                Ok(req) => RegisterStep::Retry(req),
                Err(e) => RegisterStep::Failed(e),
            };
        }
        if resp.status == 200 {
            let found = extract_public_address(&resp);
            self.apply_discovery(found);
            match crate::msg::find_contact(&resp.headers) {
                Some(c) => {
                    self.contact = Some(c);
                },
                None => {},
            }
            return RegisterStep::Done(resp);
        }
        RegisterStep::Done(resp)
    }
}

} // verus!
