//! Plain model of the SIP messages that the dialog core reads and builds:
//! methods, URIs, headers, requests and responses, together with their
//! specification-level views.
//!
//! Message parsing and serialization are the job of a typed message library
//! outside this crate; the dialog core works on these structured values.
use vstd::prelude::*;

verus! {

/// A SIP request method.
#[derive(Clone, Copy, Debug, PartialEq, Eq, Structural)]
pub enum Method {
    Invite,
    Ack,
    Bye,
    Cancel,
    Register,
    Options,
    Info,
    Update,
    Notify,
    Message,
    Subscribe,
    Refer,
}

impl Method {
    /// The canonical upper-case name of the method on the wire.
    pub open spec fn spec_name(self) -> Seq<char> {
        match self {
            Method::Invite => "INVITE"@,
            Method::Ack => "ACK"@,
            Method::Bye => "BYE"@,
            Method::Cancel => "CANCEL"@,
            Method::Register => "REGISTER"@,
            Method::Options => "OPTIONS"@,
            Method::Info => "INFO"@,
            Method::Update => "UPDATE"@,
            Method::Notify => "NOTIFY"@,
            Method::Message => "MESSAGE"@,
            Method::Subscribe => "SUBSCRIBE"@,
            Method::Refer => "REFER"@,
        }
    }

    /// The canonical upper-case name of the method on the wire.
    pub fn name(&self) -> (r: &'static str)
        ensures
            r@ == self.spec_name(),
    {
        match self {
            Method::Invite => "INVITE",
            Method::Ack => "ACK",
            Method::Bye => "BYE",
            Method::Cancel => "CANCEL",
            Method::Register => "REGISTER",
            Method::Options => "OPTIONS",
            Method::Info => "INFO",
            Method::Update => "UPDATE",
            Method::Notify => "NOTIFY",
            Method::Message => "MESSAGE",
            Method::Subscribe => "SUBSCRIBE",
            Method::Refer => "REFER",
        }
    }
}

/// A transport that a SIP address may be bound to.
#[derive(Clone, Copy, Debug, PartialEq, Eq, Structural)]
pub enum Transport {
    Udp,
    Tcp,
    Tls,
    Ws,
}

/// Specification view of a [`Uri`].
pub struct UriView {
    pub user: Option<Seq<char>>,
    pub host: Seq<char>,
    pub port: Option<u16>,
    pub params: Seq<(Seq<char>, Option<Seq<char>>)>,
}

/// A SIP URI reduced to the fields the dialog core reads: an optional user,
/// a host, an optional port, and the URI parameters in order.
#[derive(Debug, PartialEq, Eq)]
pub struct Uri {
    pub user: Option<String>,
    pub host: String,
    pub port: Option<u16>,
    pub params: Vec<(String, Option<String>)>,
}

impl View for Uri {
    type V = UriView;

    open spec fn view(&self) -> UriView {
        UriView {
            user: match self.user {
                Some(u) => Some(u@),
                None => None,
            },
            host: self.host@,
            port: self.port,
            params: self.params.deep_view(),
        }
    }
}

impl DeepView for Uri {
    type V = UriView;

    open spec fn deep_view(&self) -> UriView {
        self.view()
    }
}

/// Copies an optional string, preserving its view.
pub fn dup_opt_string(s: &Option<String>) -> (r: Option<String>)
    ensures
        r.deep_view() == s.deep_view(),
{
    match s {
        Some(v) => Some(v.clone()),
        None => None,
    }
}

/// Copies a parameter list, preserving its view.
pub fn dup_params(ps: &Vec<(String, Option<String>)>) -> (r: Vec<(String, Option<String>)>)
    ensures
        r.deep_view() == ps.deep_view(),
{
    let mut r: Vec<(String, Option<String>)> = Vec::new();
    let mut i: usize = 0;
    while i < ps.len()
        invariant
            i <= ps.len(),
            r.deep_view() =~= ps.deep_view().take(i as int),
        decreases ps.len() - i,
    {
        let name = ps[i].0.clone();
        let value = dup_opt_string(&ps[i].1);
        assert((name, value).deep_view() == ps.deep_view()[i as int]);
        r.push((name, value));
        assert(ps.deep_view().take(i + 1) =~= ps.deep_view().take(i as int).push(
            ps.deep_view()[i as int],
        ));
        i += 1;
    }
    assert(r.deep_view() =~= ps.deep_view());
    r
}

impl Uri {
    /// Copies the URI, preserving its view.
    pub fn dup(&self) -> (r: Uri)
        ensures
            r@ == self@,
    {
        let r = Uri {
            user: dup_opt_string(&self.user),
            host: self.host.clone(),
            port: self.port,
            params: dup_params(&self.params),
        };
        r
    }
}

/// The first value bound to `name` in a parameter list: `None` when the name
/// does not occur, `Some(None)` for a bare parameter, `Some(Some(v))` for
/// `name=v`.
pub open spec fn spec_param_value(
    params: Seq<(Seq<char>, Option<Seq<char>>)>,
    name: Seq<char>,
) -> Option<Option<Seq<char>>>
    decreases params.len(),
{
    if params.len() == 0 {
        None
    } else if params[0].0 == name {
        Some(params[0].1)
    } else {
        spec_param_value(params.drop_first(), name)
    }
}

/// Looks up the first value bound to `name` in a parameter list.
pub fn param_value(params: &Vec<(String, Option<String>)>, name: &String) -> (r: Option<
    Option<String>,
>)
    ensures
        r.deep_view() == spec_param_value(params.deep_view(), name@),
{
    let mut i: usize = 0;
    assert(params.deep_view().skip(0) =~= params.deep_view());
    while i < params.len()
        invariant
            i <= params.len(),
            spec_param_value(params.deep_view(), name@) == spec_param_value(
                params.deep_view().skip(i as int),
                name@,
            ),
        decreases params.len() - i,
    {
        let ghost rest = params.deep_view().skip(i as int);
        assert(rest[0] == params.deep_view()[i as int]);
        let found = params[i].0.eq(name);
        if found {
            let r = Some(dup_opt_string(&params[i].1));
            assert(spec_param_value(rest, name@) == Some(params.deep_view()[i as int].1));
            return r;
        }
        assert(rest.drop_first() =~= params.deep_view().skip(i as int + 1));
        i += 1;
    }
    assert(params.deep_view().skip(i as int) =~= Seq::<
        (Seq<char>, Option<Seq<char>>),
    >::empty());
    None
}

/// Specification view of a [`NameAddr`].
pub struct NameAddrView {
    pub display_name: Option<Seq<char>>,
    pub uri: UriView,
    pub tag: Option<Seq<char>>,
    pub params: Seq<(Seq<char>, Option<Seq<char>>)>,
}

/// The value of a `From`, `To` or `Contact` header: an optional display name,
/// a URI, the `tag` parameter when present, and any further header parameters
/// (such as `expires` or `ob` on a `Contact`) in order.
#[derive(Debug, PartialEq, Eq)]
pub struct NameAddr {
    pub display_name: Option<String>,
    pub uri: Uri,
    pub tag: Option<String>,
    pub params: Vec<(String, Option<String>)>,
}

impl View for NameAddr {
    type V = NameAddrView;

    open spec fn view(&self) -> NameAddrView {
        NameAddrView {
            display_name: self.display_name.deep_view(),
            uri: self.uri@,
            tag: self.tag.deep_view(),
            params: self.params.deep_view(),
        }
    }
}

impl DeepView for NameAddr {
    type V = NameAddrView;

    open spec fn deep_view(&self) -> NameAddrView {
        self.view()
    }
}

impl NameAddr {
    /// Copies the address, preserving its view.
    pub fn dup(&self) -> (r: NameAddr)
        ensures
            r@ == self@,
    {
        NameAddr {
            display_name: dup_opt_string(&self.display_name),
            uri: self.uri.dup(),
            tag: dup_opt_string(&self.tag),
            params: dup_params(&self.params),
        }
    }
}

/// Specification view of a [`Via`].
pub struct ViaView {
    pub transport: Transport,
    pub host: Seq<char>,
    pub port: Option<u16>,
    pub branch: Option<Seq<char>>,
    pub params: Seq<(Seq<char>, Option<Seq<char>>)>,
}

/// A `Via` header: the transport and address this user agent advertised, the
/// transaction branch, and any further parameters (such as `received` and
/// `rport` stamped by a server) in order.
#[derive(Debug, PartialEq, Eq)]
pub struct Via {
    pub transport: Transport,
    pub host: String,
    pub port: Option<u16>,
    pub branch: Option<String>,
    pub params: Vec<(String, Option<String>)>,
}

impl View for Via {
    type V = ViaView;

    open spec fn view(&self) -> ViaView {
        ViaView {
            transport: self.transport,
            host: self.host@,
            port: self.port,
            branch: self.branch.deep_view(),
            params: self.params.deep_view(),
        }
    }
}

impl DeepView for Via {
    type V = ViaView;

    open spec fn deep_view(&self) -> ViaView {
        self.view()
    }
}

impl Via {
    /// Copies the header, preserving its view.
    pub fn dup(&self) -> (r: Via)
        ensures
            r@ == self@,
    {
        Via {
            transport: self.transport,
            host: self.host.clone(),
            port: self.port,
            branch: dup_opt_string(&self.branch),
            params: dup_params(&self.params),
        }
    }
}

/// Specification view of a [`SipAddr`].
pub struct SipAddrView {
    pub transport: Option<Transport>,
    pub host: Seq<char>,
    pub port: Option<u16>,
}

/// A transport-level SIP address: an optional transport, a host, and an
/// optional port.
#[derive(Debug, PartialEq, Eq)]
pub struct SipAddr {
    pub transport: Option<Transport>,
    pub host: String,
    pub port: Option<u16>,
}

impl View for SipAddr {
    type V = SipAddrView;

    open spec fn view(&self) -> SipAddrView {
        SipAddrView { transport: self.transport, host: self.host@, port: self.port }
    }
}

impl DeepView for SipAddr {
    type V = SipAddrView;

    open spec fn deep_view(&self) -> SipAddrView {
        self.view()
    }
}

impl SipAddr {
    /// Copies the address, preserving its view.
    pub fn dup(&self) -> (r: SipAddr)
        ensures
            r@ == self@,
    {
        SipAddr { transport: self.transport, host: self.host.clone(), port: self.port }
    }
}

impl View for Method {
    type V = Method;

    open spec fn view(&self) -> Method {
        *self
    }
}

impl DeepView for Method {
    type V = Method;

    open spec fn deep_view(&self) -> Method {
        *self
    }
}

/// A digest algorithm named by a challenge.
#[derive(Clone, Copy, Debug, PartialEq, Eq, Structural)]
pub enum Algorithm {
    Md5,
    Sha256,
    Sha512,
}

/// A quality-of-protection level named by a challenge.
#[derive(Clone, Copy, Debug, PartialEq, Eq, Structural)]
pub enum Qop {
    Auth,
    AuthInt,
}

/// Specification view of a [`Challenge`].
pub struct ChallengeView {
    pub realm: Seq<char>,
    pub nonce: Seq<char>,
    pub algorithm: Algorithm,
    pub qop: Option<Qop>,
    pub opaque: Option<Seq<char>>,
}

/// A digest challenge carried by a `WWW-Authenticate` or `Proxy-Authenticate`
/// header.
#[derive(Debug, PartialEq, Eq)]
pub struct Challenge {
    pub realm: String,
    pub nonce: String,
    pub algorithm: Algorithm,
    pub qop: Option<Qop>,
    pub opaque: Option<String>,
}

impl View for Challenge {
    type V = ChallengeView;

    open spec fn view(&self) -> ChallengeView {
        ChallengeView {
            realm: self.realm@,
            nonce: self.nonce@,
            algorithm: self.algorithm,
            qop: self.qop,
            opaque: self.opaque.deep_view(),
        }
    }
}

impl DeepView for Challenge {
    type V = ChallengeView;

    open spec fn deep_view(&self) -> ChallengeView {
        self.view()
    }
}

impl Challenge {
    /// Copies the challenge, preserving its view.
    pub fn dup(&self) -> (r: Challenge)
        ensures
            r@ == self@,
    {
        Challenge {
            realm: self.realm.clone(),
            nonce: self.nonce.clone(),
            algorithm: self.algorithm,
            qop: self.qop,
            opaque: dup_opt_string(&self.opaque),
        }
    }
}

/// Specification view of a [`DigestAuth`].
pub struct DigestAuthView {
    pub username: Seq<char>,
    pub realm: Seq<char>,
    pub nonce: Seq<char>,
    pub uri: Seq<char>,
    pub response: Seq<char>,
    pub algorithm: Algorithm,
    pub qop: Option<(Qop, Seq<char>, u8)>,
    pub opaque: Option<Seq<char>>,
}

/// The credentials carried by an `Authorization` or `Proxy-Authorization`
/// header: the digest response together with the parameters it was computed
/// over. The `qop` triple is the level, the client nonce, and the nonce count.
#[derive(Debug, PartialEq, Eq)]
pub struct DigestAuth {
    pub username: String,
    pub realm: String,
    pub nonce: String,
    pub uri: String,
    pub response: String,
    pub algorithm: Algorithm,
    pub qop: Option<(Qop, String, u8)>,
    pub opaque: Option<String>,
}

impl View for DigestAuth {
    type V = DigestAuthView;

    open spec fn view(&self) -> DigestAuthView {
        DigestAuthView {
            username: self.username@,
            realm: self.realm@,
            nonce: self.nonce@,
            uri: self.uri@,
            response: self.response@,
            algorithm: self.algorithm,
            qop: match self.qop {
                Some(q) => Some((q.0, q.1@, q.2)),
                None => None,
            },
            opaque: self.opaque.deep_view(),
        }
    }
}

impl DeepView for DigestAuth {
    type V = DigestAuthView;

    open spec fn deep_view(&self) -> DigestAuthView {
        self.view()
    }
}

impl DigestAuth {
    /// Copies the credentials, preserving their view.
    pub fn dup(&self) -> (r: DigestAuth)
        ensures
            r@ == self@,
    {
        DigestAuth {
            username: self.username.clone(),
            realm: self.realm.clone(),
            nonce: self.nonce.clone(),
            uri: self.uri.clone(),
            response: self.response.clone(),
            algorithm: self.algorithm,
            qop: match &self.qop {
                Some(q) => Some((q.0, q.1.clone(), q.2)),
                None => None,
            },
            opaque: dup_opt_string(&self.opaque),
        }
    }
}

/// Specification view of a [`Header`].
pub enum HeaderView {
    Via(ViaView),
    From(NameAddrView),
    To(NameAddrView),
    Contact(NameAddrView),
    CallId(Seq<char>),
    CSeq(u32, Method),
    MaxForwards(u32),
    ContentLength(u32),
    ContentType(Seq<char>),
    UserAgent(Seq<char>),
    Expires(u32),
    Allow(Seq<Method>),
    Route(UriView),
    RecordRoute(UriView),
    WwwAuthenticate(ChallengeView),
    ProxyAuthenticate(ChallengeView),
    Authorization(DigestAuthView),
    ProxyAuthorization(DigestAuthView),
    Other(Seq<char>, Seq<char>),
}

/// A SIP header, reduced to the variants the dialog core reads or writes.
#[derive(Debug, PartialEq, Eq)]
pub enum Header {
    Via(Via),
    From(NameAddr),
    To(NameAddr),
    Contact(NameAddr),
    CallId(String),
    CSeq(u32, Method),
    MaxForwards(u32),
    ContentLength(u32),
    ContentType(String),
    UserAgent(String),
    Expires(u32),
    Allow(Vec<Method>),
    Route(Uri),
    RecordRoute(Uri),
    WwwAuthenticate(Challenge),
    ProxyAuthenticate(Challenge),
    Authorization(DigestAuth),
    ProxyAuthorization(DigestAuth),
    Other(String, String),
}

impl View for Header {
    type V = HeaderView;

    open spec fn view(&self) -> HeaderView {
        match self {
            Header::Via(v) => HeaderView::Via(v@),
            Header::From(n) => HeaderView::From(n@),
            Header::To(n) => HeaderView::To(n@),
            Header::Contact(n) => HeaderView::Contact(n@),
            Header::CallId(s) => HeaderView::CallId(s@),
            Header::CSeq(n, m) => HeaderView::CSeq(*n, *m),
            Header::MaxForwards(n) => HeaderView::MaxForwards(*n),
            Header::ContentLength(n) => HeaderView::ContentLength(*n),
            Header::ContentType(s) => HeaderView::ContentType(s@),
            Header::UserAgent(s) => HeaderView::UserAgent(s@),
            Header::Expires(n) => HeaderView::Expires(*n),
            Header::Allow(ms) => HeaderView::Allow(ms.deep_view()),
            Header::Route(u) => HeaderView::Route(u@),
            Header::RecordRoute(u) => HeaderView::RecordRoute(u@),
            Header::WwwAuthenticate(c) => HeaderView::WwwAuthenticate(c@),
            Header::ProxyAuthenticate(c) => HeaderView::ProxyAuthenticate(c@),
            Header::Authorization(a) => HeaderView::Authorization(a@),
            Header::ProxyAuthorization(a) => HeaderView::ProxyAuthorization(a@),
            Header::Other(n, v) => HeaderView::Other(n@, v@),
        }
    }
}

impl DeepView for Header {
    type V = HeaderView;

    open spec fn deep_view(&self) -> HeaderView {
        self.view()
    }
}

/// Copies a method list, preserving its view.
pub fn dup_methods(ms: &Vec<Method>) -> (r: Vec<Method>)
    ensures
        r.deep_view() == ms.deep_view(),
{
    let mut r: Vec<Method> = Vec::new();
    let mut i: usize = 0;
    while i < ms.len()
        invariant
            i <= ms.len(),
            r.deep_view() =~= ms.deep_view().take(i as int),
        decreases ms.len() - i,
    {
        r.push(ms[i]);
        assert(ms.deep_view().take(i + 1) =~= ms.deep_view().take(i as int).push(
            ms.deep_view()[i as int],
        ));
        i += 1;
    }
    assert(r.deep_view() =~= ms.deep_view());
    r
}

impl Header {
    /// Copies the header, preserving its view.
    pub fn dup(&self) -> (r: Header)
        ensures
            r@ == self@,
    {
        match self {
            Header::Via(v) => Header::Via(v.dup()),
            Header::From(n) => Header::From(n.dup()),
            Header::To(n) => Header::To(n.dup()),
            Header::Contact(n) => Header::Contact(n.dup()),
            Header::CallId(s) => Header::CallId(s.clone()),
            Header::CSeq(n, m) => Header::CSeq(*n, *m),
            Header::MaxForwards(n) => Header::MaxForwards(*n),
            Header::ContentLength(n) => Header::ContentLength(*n),
            Header::ContentType(s) => Header::ContentType(s.clone()),
            Header::UserAgent(s) => Header::UserAgent(s.clone()),
            Header::Expires(n) => Header::Expires(*n),
            Header::Allow(ms) => Header::Allow(dup_methods(ms)),
            Header::Route(u) => Header::Route(u.dup()),
            Header::RecordRoute(u) => Header::RecordRoute(u.dup()),
            Header::WwwAuthenticate(c) => Header::WwwAuthenticate(c.dup()),
            Header::ProxyAuthenticate(c) => Header::ProxyAuthenticate(c.dup()),
            Header::Authorization(a) => Header::Authorization(a.dup()),
            Header::ProxyAuthorization(a) => Header::ProxyAuthorization(a.dup()),
            Header::Other(n, v) => Header::Other(n.clone(), v.clone()),
        }
    }
}

/// Copies a header list, preserving its view.
pub fn dup_headers(hs: &Vec<Header>) -> (r: Vec<Header>)
    ensures
        r.deep_view() == hs.deep_view(),
{
    let mut r: Vec<Header> = Vec::new();
    let mut i: usize = 0;
    while i < hs.len()
        invariant
            i <= hs.len(),
            r.deep_view() =~= hs.deep_view().take(i as int),
        decreases hs.len() - i,
    {
        r.push(hs[i].dup());
        assert(hs.deep_view().take(i + 1) =~= hs.deep_view().take(i as int).push(
            hs.deep_view()[i as int],
        ));
        i += 1;
    }
    assert(r.deep_view() =~= hs.deep_view());
    r
}

/// Copies a byte body, preserving its view.
pub fn dup_body(b: &Vec<u8>) -> (r: Vec<u8>)
    ensures
        r@ == b@,
{
    let r = b.clone();
    assert(r@ =~= b@);
    r
}

/// Specification view of a [`Request`].
pub struct RequestView {
    pub method: Method,
    pub uri: UriView,
    pub headers: Seq<HeaderView>,
    pub body: Seq<u8>,
}

/// A SIP request: the method, the request URI, the headers in order, and the
/// body.
#[derive(Debug, PartialEq, Eq)]
pub struct Request {
    pub method: Method,
    pub uri: Uri,
    pub headers: Vec<Header>,
    pub body: Vec<u8>,
}

impl View for Request {
    type V = RequestView;

    open spec fn view(&self) -> RequestView {
        RequestView {
            method: self.method,
            uri: self.uri@,
            headers: self.headers.deep_view(),
            body: self.body@,
        }
    }
}

/// Specification view of a [`Response`].
pub struct ResponseView {
    pub status: u16,
    pub headers: Seq<HeaderView>,
    pub body: Seq<u8>,
}

/// A SIP response: the status code, the headers in order, and the body.
#[derive(Debug, PartialEq, Eq)]
pub struct Response {
    pub status: u16,
    pub headers: Vec<Header>,
    pub body: Vec<u8>,
}

impl View for Response {
    type V = ResponseView;

    open spec fn view(&self) -> ResponseView {
        ResponseView { status: self.status, headers: self.headers.deep_view(), body: self.body@ }
    }
}

impl Request {
    /// Copies the request, preserving its view.
    pub fn dup(&self) -> (r: Request)
        ensures
            r@ == self@,
    {
        Request {
            method: self.method,
            uri: self.uri.dup(),
            headers: dup_headers(&self.headers),
            body: dup_body(&self.body),
        }
    }
}

impl Response {
    /// Copies the response, preserving its view.
    pub fn dup(&self) -> (r: Response)
        ensures
            r@ == self@,
    {
        Response {
            status: self.status,
            headers: dup_headers(&self.headers),
            body: dup_body(&self.body),
        }
    }
}

/// The `CSeq` number and method of the first `CSeq` header, if any.
pub open spec fn spec_cseq(hs: Seq<HeaderView>) -> Option<(u32, Method)>
    decreases hs.len(),
{
    if hs.len() == 0 {
        None
    } else {
        match hs[0] {
            HeaderView::CSeq(n, m) => Some((n, m)),
            _ => spec_cseq(hs.drop_first()),
        }
    }
}

/// The value of the first `Call-ID` header, if any.
pub open spec fn spec_call_id(hs: Seq<HeaderView>) -> Option<Seq<char>>
    decreases hs.len(),
{
    if hs.len() == 0 {
        None
    } else {
        match hs[0] {
            HeaderView::CallId(s) => Some(s),
            _ => spec_call_id(hs.drop_first()),
        }
    }
}

/// The value of the first `From` header, if any.
pub open spec fn spec_from(hs: Seq<HeaderView>) -> Option<NameAddrView>
    decreases hs.len(),
{
    if hs.len() == 0 {
        None
    } else {
        match hs[0] {
            HeaderView::From(n) => Some(n),
            _ => spec_from(hs.drop_first()),
        }
    }
}

/// The value of the first `To` header, if any.
pub open spec fn spec_to(hs: Seq<HeaderView>) -> Option<NameAddrView>
    decreases hs.len(),
{
    if hs.len() == 0 {
        None
    } else {
        match hs[0] {
            HeaderView::To(n) => Some(n),
            _ => spec_to(hs.drop_first()),
        }
    }
}

/// The value of the first `Contact` header, if any.
pub open spec fn spec_contact(hs: Seq<HeaderView>) -> Option<NameAddrView>
    decreases hs.len(),
{
    if hs.len() == 0 {
        None
    } else {
        match hs[0] {
            HeaderView::Contact(n) => Some(n),
            _ => spec_contact(hs.drop_first()),
        }
    }
}

/// The URI of the first `Route` header, if any.
pub open spec fn spec_first_route(hs: Seq<HeaderView>) -> Option<UriView>
    decreases hs.len(),
{
    if hs.len() == 0 {
        None
    } else {
        match hs[0] {
            HeaderView::Route(u) => Some(u),
            _ => spec_first_route(hs.drop_first()),
        }
    }
}

/// The challenge of the first `WWW-Authenticate` or `Proxy-Authenticate`
/// header, if any, paired with whether it came from a proxy challenge.
pub open spec fn spec_challenge(hs: Seq<HeaderView>) -> Option<(bool, ChallengeView)>
    decreases hs.len(),
{
    if hs.len() == 0 {
        None
    } else {
        match hs[0] {
            HeaderView::WwwAuthenticate(c) => Some((false, c)),
            HeaderView::ProxyAuthenticate(c) => Some((true, c)),
            _ => spec_challenge(hs.drop_first()),
        }
    }
}

/// The value of the first `Via` header, if any.
pub open spec fn spec_first_via(hs: Seq<HeaderView>) -> Option<ViaView>
    decreases hs.len(),
{
    if hs.len() == 0 {
        None
    } else {
        match hs[0] {
            HeaderView::Via(v) => Some(v),
            _ => spec_first_via(hs.drop_first()),
        }
    }
}

/// The URIs of all `Record-Route` headers, in header order.
pub open spec fn spec_record_routes(hs: Seq<HeaderView>) -> Seq<UriView>
    decreases hs.len(),
{
    if hs.len() == 0 {
        Seq::empty()
    } else {
        let init = spec_record_routes(hs.drop_last());
        match hs.last() {
            HeaderView::RecordRoute(u) => init.push(u),
            _ => init,
        }
    }
}

/// The URIs of all `Route` headers, in header order.
pub open spec fn spec_routes(hs: Seq<HeaderView>) -> Seq<UriView>
    decreases hs.len(),
{
    if hs.len() == 0 {
        Seq::empty()
    } else {
        let init = spec_routes(hs.drop_last());
        match hs.last() {
            HeaderView::Route(u) => init.push(u),
            _ => init,
        }
    }
}

/// The views of all `Via` headers, in header order.
pub open spec fn spec_vias(hs: Seq<HeaderView>) -> Seq<ViaView>
    decreases hs.len(),
{
    if hs.len() == 0 {
        Seq::empty()
    } else {
        let init = spec_vias(hs.drop_last());
        match hs.last() {
            HeaderView::Via(v) => init.push(v),
            _ => init,
        }
    }
}

/// The `CSeq` number and method of the first `CSeq` header, if any.
pub fn find_cseq(hs: &Vec<Header>) -> (r: Option<(u32, Method)>)
    ensures
        r == spec_cseq(hs.deep_view()),
{
    let ghost all = hs.deep_view();
    let mut i: usize = 0;
    assert(all.skip(0) =~= all);
    while i < hs.len()
        invariant
            i <= hs.len(),
            all == hs.deep_view(),
            spec_cseq(all) == spec_cseq(all.skip(i as int)),
        decreases hs.len() - i,
    {
        let ghost rest = all.skip(i as int);
        assert(rest[0] == all[i as int]);
        if let Header::CSeq(n, m) = &hs[i] {
            return Some((*n, *m));
        }
        assert(rest.drop_first() =~= all.skip(i as int + 1));
        i += 1;
    }
    assert(all.skip(i as int) =~= Seq::<HeaderView>::empty());
    None
}

/// The value of the first `Call-ID` header, if any.
pub fn find_call_id(hs: &Vec<Header>) -> (r: Option<String>)
    ensures
        r.deep_view() == spec_call_id(hs.deep_view()),
{
    let ghost all = hs.deep_view();
    let mut i: usize = 0;
    assert(all.skip(0) =~= all);
    while i < hs.len()
        invariant
            i <= hs.len(),
            all == hs.deep_view(),
            spec_call_id(all) == spec_call_id(all.skip(i as int)),
        decreases hs.len() - i,
    {
        let ghost rest = all.skip(i as int);
        assert(rest[0] == all[i as int]);
        if let Header::CallId(s) = &hs[i] {
            return Some(s.clone());
        }
        assert(rest.drop_first() =~= all.skip(i as int + 1));
        i += 1;
    }
    assert(all.skip(i as int) =~= Seq::<HeaderView>::empty());
    None
}

/// The value of the first `From` header, if any.
pub fn find_from(hs: &Vec<Header>) -> (r: Option<NameAddr>)
    ensures
        r.deep_view() == spec_from(hs.deep_view()),
{
    let ghost all = hs.deep_view();
    let mut i: usize = 0;
    assert(all.skip(0) =~= all);
    while i < hs.len()
        invariant
            i <= hs.len(),
            all == hs.deep_view(),
            spec_from(all) == spec_from(all.skip(i as int)),
        decreases hs.len() - i,
    {
        let ghost rest = all.skip(i as int);
        assert(rest[0] == all[i as int]);
        if let Header::From(n) = &hs[i] {
            return Some(n.dup());
        }
        assert(rest.drop_first() =~= all.skip(i as int + 1));
        i += 1;
    }
    assert(all.skip(i as int) =~= Seq::<HeaderView>::empty());
    None
}

/// The value of the first `To` header, if any.
pub fn find_to(hs: &Vec<Header>) -> (r: Option<NameAddr>)
    ensures
        r.deep_view() == spec_to(hs.deep_view()),
{
    let ghost all = hs.deep_view();
    let mut i: usize = 0;
    assert(all.skip(0) =~= all);
    while i < hs.len()
        invariant
            i <= hs.len(),
            all == hs.deep_view(),
            spec_to(all) == spec_to(all.skip(i as int)),
        decreases hs.len() - i,
    {
        let ghost rest = all.skip(i as int);
        assert(rest[0] == all[i as int]);
        if let Header::To(n) = &hs[i] {
            return Some(n.dup());
        }
        assert(rest.drop_first() =~= all.skip(i as int + 1));
        i += 1;
    }
    assert(all.skip(i as int) =~= Seq::<HeaderView>::empty());
    None
}

/// The value of the first `Contact` header, if any.
pub fn find_contact(hs: &Vec<Header>) -> (r: Option<NameAddr>)
    ensures
        r.deep_view() == spec_contact(hs.deep_view()),
{
    let ghost all = hs.deep_view();
    let mut i: usize = 0;
    assert(all.skip(0) =~= all);
    while i < hs.len()
        invariant
            i <= hs.len(),
            all == hs.deep_view(),
            spec_contact(all) == spec_contact(all.skip(i as int)),
        decreases hs.len() - i,
    {
        let ghost rest = all.skip(i as int);
        assert(rest[0] == all[i as int]);
        if let Header::Contact(n) = &hs[i] {
            return Some(n.dup());
        }
        assert(rest.drop_first() =~= all.skip(i as int + 1));
        i += 1;
    }
    assert(all.skip(i as int) =~= Seq::<HeaderView>::empty());
    None
}

/// The URI of the first `Route` header, if any.
pub fn find_first_route(hs: &Vec<Header>) -> (r: Option<Uri>)
    ensures
        r.deep_view() == spec_first_route(hs.deep_view()),
{
    let ghost all = hs.deep_view();
    let mut i: usize = 0;
    assert(all.skip(0) =~= all);
    while i < hs.len()
        invariant
            i <= hs.len(),
            all == hs.deep_view(),
            spec_first_route(all) == spec_first_route(all.skip(i as int)),
        decreases hs.len() - i,
    {
        let ghost rest = all.skip(i as int);
        assert(rest[0] == all[i as int]);
        if let Header::Route(u) = &hs[i] {
            return Some(u.dup());
        }
        assert(rest.drop_first() =~= all.skip(i as int + 1));
        i += 1;
    }
    assert(all.skip(i as int) =~= Seq::<HeaderView>::empty());
    None
}

/// The challenge of the first `WWW-Authenticate` or `Proxy-Authenticate`
/// header, if any, paired with whether it came from a proxy challenge.
pub fn find_challenge(hs: &Vec<Header>) -> (r: Option<(bool, Challenge)>)
    ensures
        r.deep_view() == spec_challenge(hs.deep_view()),
{
    let ghost all = hs.deep_view();
    let mut i: usize = 0;
    assert(all.skip(0) =~= all);
    while i < hs.len()
        invariant
            i <= hs.len(),
            all == hs.deep_view(),
            spec_challenge(all) == spec_challenge(all.skip(i as int)),
        decreases hs.len() - i,
    {
        let ghost rest = all.skip(i as int);
        assert(rest[0] == all[i as int]);
        match &hs[i] {
            Header::WwwAuthenticate(c) => {
                return Some((false, c.dup()));
            },
            Header::ProxyAuthenticate(c) => {
                return Some((true, c.dup()));
            },
            _ => {},
        }
        assert(rest.drop_first() =~= all.skip(i as int + 1));
        i += 1;
    }
    assert(all.skip(i as int) =~= Seq::<HeaderView>::empty());
    None
}

/// The value of the first `Via` header, if any.
pub fn find_first_via(hs: &Vec<Header>) -> (r: Option<Via>)
    ensures
        r.deep_view() == spec_first_via(hs.deep_view()),
{
    let ghost all = hs.deep_view();
    let mut i: usize = 0;
    assert(all.skip(0) =~= all);
    while i < hs.len()
        invariant
            i <= hs.len(),
            all == hs.deep_view(),
            spec_first_via(all) == spec_first_via(all.skip(i as int)),
        decreases hs.len() - i,
    {
        let ghost rest = all.skip(i as int);
        assert(rest[0] == all[i as int]);
        if let Header::Via(v) = &hs[i] {
            return Some(v.dup());
        }
        assert(rest.drop_first() =~= all.skip(i as int + 1));
        i += 1;
    }
    assert(all.skip(i as int) =~= Seq::<HeaderView>::empty());
    None
}

/// The URIs of all `Record-Route` headers, in header order.
pub fn collect_record_routes(hs: &Vec<Header>) -> (r: Vec<Uri>)
    ensures
        r.deep_view() == spec_record_routes(hs.deep_view()),
{
    let ghost all = hs.deep_view();
    let mut r: Vec<Uri> = Vec::new();
    let mut i: usize = 0;
    assert(all.take(0) =~= Seq::<HeaderView>::empty());
    while i < hs.len()
        invariant
            i <= hs.len(),
            all == hs.deep_view(),
            r.deep_view() == spec_record_routes(all.take(i as int)),
        decreases hs.len() - i,
    {
        assert(all.take(i + 1).drop_last() =~= all.take(i as int));
        assert(all.take(i + 1).last() == all[i as int]);
        if let Header::RecordRoute(u) = &hs[i] {
            r.push(u.dup());
        }
        i += 1;
    }
    assert(all.take(i as int) =~= all);
    r
}

/// The views of all `Via` headers, in header order.
pub fn collect_vias(hs: &Vec<Header>) -> (r: Vec<Via>)
    ensures
        r.deep_view() == spec_vias(hs.deep_view()),
{
    let ghost all = hs.deep_view();
    let mut r: Vec<Via> = Vec::new();
    let mut i: usize = 0;
    assert(all.take(0) =~= Seq::<HeaderView>::empty());
    while i < hs.len()
        invariant
            i <= hs.len(),
            all == hs.deep_view(),
            r.deep_view() == spec_vias(all.take(i as int)),
        decreases hs.len() - i,
    {
        assert(all.take(i + 1).drop_last() =~= all.take(i as int));
        assert(all.take(i + 1).last() == all[i as int]);
        if let Header::Via(v) = &hs[i] {
            r.push(v.dup());
        }
        i += 1;
    }
    assert(all.take(i as int) =~= all);
    r
}

/// A code telling header kinds apart; two headers of one kind replace each
/// other under [`unique_push`].
pub open spec fn spec_kind(h: HeaderView) -> int {
    match h {
        HeaderView::Via(_) => 0,
        HeaderView::From(_) => 1,
        HeaderView::To(_) => 2,
        HeaderView::Contact(_) => 3,
        HeaderView::CallId(_) => 4,
        HeaderView::CSeq(_, _) => 5,
        HeaderView::MaxForwards(_) => 6,
        HeaderView::ContentLength(_) => 7,
        HeaderView::ContentType(_) => 8,
        HeaderView::UserAgent(_) => 9,
        HeaderView::Expires(_) => 10,
        HeaderView::Allow(_) => 11,
        HeaderView::Route(_) => 12,
        HeaderView::RecordRoute(_) => 13,
        HeaderView::WwwAuthenticate(_) => 14,
        HeaderView::ProxyAuthenticate(_) => 15,
        HeaderView::Authorization(_) => 16,
        HeaderView::ProxyAuthorization(_) => 17,
        HeaderView::Other(_, _) => 18,
    }
}

/// The kind code of a header.
pub fn kind_code(h: &Header) -> (n: u8)
    ensures
        n as int == spec_kind(h@),
{
    match h {
        Header::Via(_) => 0,
        Header::From(_) => 1,
        Header::To(_) => 2,
        Header::Contact(_) => 3,
        Header::CallId(_) => 4,
        Header::CSeq(_, _) => 5,
        Header::MaxForwards(_) => 6,
        Header::ContentLength(_) => 7,
        Header::ContentType(_) => 8,
        Header::UserAgent(_) => 9,
        Header::Expires(_) => 10,
        Header::Allow(_) => 11,
        Header::Route(_) => 12,
        Header::RecordRoute(_) => 13,
        Header::WwwAuthenticate(_) => 14,
        Header::ProxyAuthenticate(_) => 15,
        Header::Authorization(_) => 16,
        Header::ProxyAuthorization(_) => 17,
        Header::Other(_, _) => 18,
    }
}

/// The header list after pushing `h` with replacement: the first header of
/// `h`'s kind is overwritten, and `h` is appended when no header of its kind
/// is present.
pub open spec fn spec_unique_push(hs: Seq<HeaderView>, h: HeaderView) -> Seq<HeaderView>
    decreases hs.len(),
{
    if hs.len() == 0 {
        seq![h]
    } else if spec_kind(hs[0]) == spec_kind(h) {
        seq![h] + hs.drop_first()
    } else {
        seq![hs[0]] + spec_unique_push(hs.drop_first(), h)
    }
}

proof fn lemma_unique_push_update(hs: Seq<HeaderView>, h: HeaderView, j: int)
    requires
        0 <= j < hs.len(),
        spec_kind(hs[j]) == spec_kind(h),
        forall|l: int| 0 <= l < j ==> spec_kind(hs[l]) != spec_kind(h),
    ensures
        spec_unique_push(hs, h) == hs.update(j, h),
    decreases j,
{
    if j == 0 {
        assert(seq![h] + hs.drop_first() =~= hs.update(0, h));
    } else {
        assert(hs.drop_first()[j - 1] == hs[j]);
        assert(forall|l: int| 0 <= l < j - 1 ==> hs.drop_first()[l] == hs[l + 1]);
        lemma_unique_push_update(hs.drop_first(), h, j - 1);
        assert(seq![hs[0]] + hs.drop_first().update(j - 1, h) =~= hs.update(j, h));
    }
}

proof fn lemma_unique_push_absent(hs: Seq<HeaderView>, h: HeaderView)
    requires
        forall|l: int| 0 <= l < hs.len() ==> spec_kind(hs[l]) != spec_kind(h),
    ensures
        spec_unique_push(hs, h) == hs.push(h),
    decreases hs.len(),
{
    if hs.len() == 0 {
        assert(seq![h] =~= hs.push(h));
    } else {
        assert(forall|l: int| 0 <= l < hs.drop_first().len() ==> hs.drop_first()[l] == hs[l + 1]);
        lemma_unique_push_absent(hs.drop_first(), h);
        assert(seq![hs[0]] + hs.drop_first().push(h) =~= hs.push(h));
    }
}

/// The header list after pushing each of `added` in order with replacement.
pub open spec fn spec_unique_push_all(hs: Seq<HeaderView>, added: Seq<HeaderView>) -> Seq<
    HeaderView,
>
    decreases added.len(),
{
    if added.len() == 0 {
        hs
    } else {
        spec_unique_push_all(spec_unique_push(hs, added[0]), added.drop_first())
    }
}

/// The `Record-Route` sequence of a concatenation is the concatenation of
/// the `Record-Route` sequences.
pub proof fn lemma_record_routes_concat(a: Seq<HeaderView>, b: Seq<HeaderView>)
    ensures
        spec_record_routes(a + b) == spec_record_routes(a) + spec_record_routes(b),
    decreases b.len(),
{
    if b.len() == 0 {
        assert(a + b =~= a);
        assert(spec_record_routes(a) + spec_record_routes(b) =~= spec_record_routes(a));
    } else {
        assert((a + b).drop_last() =~= a + b.drop_last());
        assert((a + b).last() == b.last());
        lemma_record_routes_concat(a, b.drop_last());
        match b.last() {
            HeaderView::RecordRoute(u) => {
                assert(spec_record_routes(a) + spec_record_routes(b) =~= spec_record_routes(a)
                    + spec_record_routes(b.drop_last()).push(u));
                assert(spec_record_routes(a) + spec_record_routes(b.drop_last()).push(u) =~= (
                spec_record_routes(a) + spec_record_routes(b.drop_last())).push(u));
            },
            _ => {},
        }
    }
}

/// A push with replacement of a header that is not a `Record-Route` leaves
/// the `Record-Route` sequence as it was.
pub proof fn lemma_unique_push_preserves_record_routes(hs: Seq<HeaderView>, h: HeaderView)
    requires
        !(h is RecordRoute),
    ensures
        spec_record_routes(spec_unique_push(hs, h)) == spec_record_routes(hs),
    decreases hs.len(),
{
    let one = seq![h];
    assert(one.drop_last() =~= Seq::<HeaderView>::empty());
    assert(spec_record_routes(Seq::<HeaderView>::empty()) =~= Seq::<UriView>::empty());
    assert(spec_record_routes(one) =~= Seq::<UriView>::empty());
    if hs.len() == 0 {
    } else {
        let first = seq![hs[0]];
        assert(first.drop_last() =~= Seq::<HeaderView>::empty());
        assert(hs =~= first + hs.drop_first());
        lemma_record_routes_concat(first, hs.drop_first());
        if spec_kind(hs[0]) == spec_kind(h) {
            assert(!(hs[0] is RecordRoute));
            assert(spec_record_routes(first) =~= Seq::<UriView>::empty());
            lemma_record_routes_concat(one, hs.drop_first());
            assert(spec_record_routes(spec_unique_push(hs, h)) =~= spec_record_routes(
                hs.drop_first(),
            ));
            assert(spec_record_routes(hs) =~= spec_record_routes(hs.drop_first()));
        } else {
            lemma_unique_push_preserves_record_routes(hs.drop_first(), h);
            lemma_record_routes_concat(first, spec_unique_push(hs.drop_first(), h));
            assert(spec_record_routes(spec_unique_push(hs, h)) =~= spec_record_routes(first)
                + spec_record_routes(hs.drop_first()));
            assert(spec_record_routes(hs) =~= spec_record_routes(first) + spec_record_routes(
                hs.drop_first(),
            ));
        }
    }
}

/// Pushes with replacement of headers that are not `Record-Route` leave the
/// `Record-Route` sequence as it was.
pub proof fn lemma_unique_push_all_preserves_record_routes(
    hs: Seq<HeaderView>,
    added: Seq<HeaderView>,
)
    requires
        forall|i: int| 0 <= i < added.len() ==> !(#[trigger] added[i] is RecordRoute),
    ensures
        spec_record_routes(spec_unique_push_all(hs, added)) == spec_record_routes(hs),
    decreases added.len(),
{
    if added.len() == 0 {
    } else {
        lemma_unique_push_preserves_record_routes(hs, added[0]);
        assert(forall|i: int|
            0 <= i < added.drop_first().len() ==> !(#[trigger] added.drop_first()[i]
                is RecordRoute));
        lemma_unique_push_all_preserves_record_routes(
            spec_unique_push(hs, added[0]),
            added.drop_first(),
        );
    }
}

/// A plain push of a header that is not a `Record-Route` leaves the
/// `Record-Route` sequence as it was.
pub proof fn lemma_push_preserves_record_routes(hs: Seq<HeaderView>, h: HeaderView)
    requires
        !(h is RecordRoute),
    ensures
        spec_record_routes(hs.push(h)) == spec_record_routes(hs),
{
    assert(hs.push(h).drop_last() =~= hs);
    assert(hs.push(h).last() == h);
}

/// The `Route` sequence of a concatenation is the concatenation of the
/// `Route` sequences.
pub proof fn lemma_routes_concat(a: Seq<HeaderView>, b: Seq<HeaderView>)
    ensures
        spec_routes(a + b) == spec_routes(a) + spec_routes(b),
    decreases b.len(),
{
    if b.len() == 0 {
        assert(a + b =~= a);
        assert(spec_routes(a) + spec_routes(b) =~= spec_routes(a));
    } else {
        assert((a + b).drop_last() =~= a + b.drop_last());
        assert((a + b).last() == b.last());
        lemma_routes_concat(a, b.drop_last());
        match b.last() {
            HeaderView::Route(u) => {
                assert(spec_routes(a) + spec_routes(b) =~= spec_routes(a) + spec_routes(
                    b.drop_last(),
                ).push(u));
                assert(spec_routes(a) + spec_routes(b.drop_last()).push(u) =~= (spec_routes(a)
                    + spec_routes(b.drop_last())).push(u));
            },
            _ => {},
        }
    }
}

/// A plain push of a header that is not a `Route` leaves the `Route`
/// sequence as it was.
pub proof fn lemma_push_preserves_routes(hs: Seq<HeaderView>, h: HeaderView)
    requires
        !(h is Route),
    ensures
        spec_routes(hs.push(h)) == spec_routes(hs),
{
    assert(hs.push(h).drop_last() =~= hs);
    assert(hs.push(h).last() == h);
}

/// After pushing a `Contact` with replacement, that contact is the one the
/// header list answers with.
pub proof fn lemma_unique_push_sets_contact(hs: Seq<HeaderView>, c: NameAddrView)
    ensures
        spec_contact(spec_unique_push(hs, HeaderView::Contact(c))) == Some(c),
    decreases hs.len(),
{
    let h = HeaderView::Contact(c);
    if hs.len() == 0 {
        assert(seq![h][0] == h);
    } else if spec_kind(hs[0]) == spec_kind(h) {
        assert((seq![h] + hs.drop_first())[0] == h);
    } else {
        assert((seq![hs[0]] + spec_unique_push(hs.drop_first(), h))[0] == hs[0]);
        assert((seq![hs[0]] + spec_unique_push(hs.drop_first(), h)).drop_first()
            =~= spec_unique_push(hs.drop_first(), h));
        lemma_unique_push_sets_contact(hs.drop_first(), c);
    }
}

/// A push with replacement of a header that is no `Contact` leaves the
/// answered contact as it was.
pub proof fn lemma_unique_push_keeps_contact(hs: Seq<HeaderView>, h: HeaderView)
    requires
        !(h is Contact),
    ensures
        spec_contact(spec_unique_push(hs, h)) == spec_contact(hs),
    decreases hs.len(),
{
    if hs.len() == 0 {
        assert(seq![h][0] == h);
        assert(seq![h].drop_first() =~= Seq::<HeaderView>::empty());
        assert(spec_contact(Seq::<HeaderView>::empty()) is None);
    } else if spec_kind(hs[0]) == spec_kind(h) {
        assert(!(hs[0] is Contact));
        assert((seq![h] + hs.drop_first())[0] == h);
        assert((seq![h] + hs.drop_first()).drop_first() =~= hs.drop_first());
    } else {
        assert((seq![hs[0]] + spec_unique_push(hs.drop_first(), h))[0] == hs[0]);
        assert((seq![hs[0]] + spec_unique_push(hs.drop_first(), h)).drop_first()
            =~= spec_unique_push(hs.drop_first(), h));
        lemma_unique_push_keeps_contact(hs.drop_first(), h);
    }
}

/// After pushing a `Via` with replacement, that via is the first one the
/// header list answers with.
pub proof fn lemma_unique_push_sets_via(hs: Seq<HeaderView>, v: ViaView)
    ensures
        spec_first_via(spec_unique_push(hs, HeaderView::Via(v))) == Some(v),
    decreases hs.len(),
{
    let h = HeaderView::Via(v);
    if hs.len() == 0 {
        assert(seq![h][0] == h);
    } else if spec_kind(hs[0]) == spec_kind(h) {
        assert((seq![h] + hs.drop_first())[0] == h);
    } else {
        assert((seq![hs[0]] + spec_unique_push(hs.drop_first(), h))[0] == hs[0]);
        assert((seq![hs[0]] + spec_unique_push(hs.drop_first(), h)).drop_first()
            =~= spec_unique_push(hs.drop_first(), h));
        lemma_unique_push_sets_via(hs.drop_first(), v);
    }
}

/// A push with replacement of a header that is no `Via` leaves the first
/// answered via as it was.
pub proof fn lemma_unique_push_keeps_via(hs: Seq<HeaderView>, h: HeaderView)
    requires
        !(h is Via),
    ensures
        spec_first_via(spec_unique_push(hs, h)) == spec_first_via(hs),
    decreases hs.len(),
{
    if hs.len() == 0 {
        assert(seq![h][0] == h);
        assert(seq![h].drop_first() =~= Seq::<HeaderView>::empty());
        assert(spec_first_via(Seq::<HeaderView>::empty()) is None);
    } else if spec_kind(hs[0]) == spec_kind(h) {
        assert(!(hs[0] is Via));
        assert((seq![h] + hs.drop_first())[0] == h);
        assert((seq![h] + hs.drop_first()).drop_first() =~= hs.drop_first());
    } else {
        assert((seq![hs[0]] + spec_unique_push(hs.drop_first(), h))[0] == hs[0]);
        assert((seq![hs[0]] + spec_unique_push(hs.drop_first(), h)).drop_first()
            =~= spec_unique_push(hs.drop_first(), h));
        lemma_unique_push_keeps_via(hs.drop_first(), h);
    }
}

/// Pushes `h`, overwriting the first header of the same kind if one is
/// present.
pub fn unique_push(hs: &mut Vec<Header>, h: Header)
    ensures
        final(hs).deep_view() == spec_unique_push(old(hs).deep_view(), h@),
{
    let code = kind_code(&h);
    let mut idx: Option<usize> = None;
    let mut i: usize = 0;
    while i < hs.len()
        invariant
            i <= hs.len(),
            code as int == spec_kind(h@),
            match idx {
                Some(j) => j < i && spec_kind(hs.deep_view()[j as int]) == spec_kind(h@)
                    && forall|l: int| 0 <= l < j ==> spec_kind(hs.deep_view()[l]) != spec_kind(h@),
                None => forall|l: int| 0 <= l < i ==> spec_kind(hs.deep_view()[l]) != spec_kind(
                    h@,
                ),
            },
        decreases hs.len() - i,
    {
        if idx.is_none() && kind_code(&hs[i]) == code {
            idx = Some(i);
        }
        i += 1;
    }
    let ghost all = hs.deep_view();
    let ghost hv = h@;
    match idx {
        Some(j) => {
            proof {
                lemma_unique_push_update(all, hv, j as int);
            }
            hs.set(j, h);
            assert(hs.deep_view() =~= all.update(j as int, hv));
        },
        None => {
            proof {
                lemma_unique_push_absent(all, hv);
            }
            hs.push(h);
            assert(hs.deep_view() =~= all.push(hv));
        },
    }
}

} // verus!



