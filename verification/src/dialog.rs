//! The dialog core: the state machine, the per-dialog counters and routing
//! data, and the construction of mid-dialog requests and responses.
//!
//! A dialog is a plain value owned by one task: the sequence counters and
//! routing data are fields, published state events accumulate in a log the
//! owner drains in order, and cancellation is a flag the owner observes at
//! its suspension points.
use vstd::prelude::*;
use crate::auth::{handle_client_authenticate, AuthError, Credential, CredentialView};
use crate::ident::{DialogId, DialogIdView, TransactionRole};
use crate::msg::{
    collect_record_routes, spec_cseq, spec_contact, spec_from, spec_record_routes, spec_to,
    Header, HeaderView, Method, NameAddr, NameAddrView, Request, RequestView, Response,
    ResponseView, SipAddr, SipAddrView, Transport, Uri, UriView, Via, ViaView,
};

verus! {

/// Why a dialog ended.
#[derive(Clone, Copy, Debug, PartialEq, Eq)]
pub enum TerminatedReason {
    Timeout,
    UacCancel,
    UacBye,
    UasBye,
    UacBusy,
    UasBusy,
    UasDecline,
    ProxyError(u16),
    ProxyAuthRequired,
    UacOther(Option<u16>),
    UasOther(Option<u16>),
}

/// Specification view of a [`DialogState`].
pub enum DialogStateView {
    Calling(DialogIdView),
    Trying(DialogIdView),
    Early(DialogIdView, ResponseView),
    WaitAck(DialogIdView, ResponseView),
    Confirmed(DialogIdView),
    Updated(DialogIdView, RequestView),
    Notify(DialogIdView, RequestView),
    Info(DialogIdView, RequestView),
    Options(DialogIdView, RequestView),
    Terminated(DialogIdView, TerminatedReason),
}

/// The state of a dialog. `Updated`, `Notify`, `Info` and `Options` are
/// transient events published to observers; they never become the persistent
/// state.
#[derive(Debug, PartialEq, Eq)]
pub enum DialogState {
    Calling(DialogId),
    Trying(DialogId),
    Early(DialogId, Response),
    WaitAck(DialogId, Response),
    Confirmed(DialogId),
    Updated(DialogId, Request),
    Notify(DialogId, Request),
    Info(DialogId, Request),
    Options(DialogId, Request),
    Terminated(DialogId, TerminatedReason),
}

impl View for DialogState {
    type V = DialogStateView;

    open spec fn view(&self) -> DialogStateView {
        match self {
            DialogState::Calling(id) => DialogStateView::Calling(id@),
            DialogState::Trying(id) => DialogStateView::Trying(id@),
            DialogState::Early(id, r) => DialogStateView::Early(id@, r@),
            DialogState::WaitAck(id, r) => DialogStateView::WaitAck(id@, r@),
            DialogState::Confirmed(id) => DialogStateView::Confirmed(id@),
            DialogState::Updated(id, r) => DialogStateView::Updated(id@, r@),
            DialogState::Notify(id, r) => DialogStateView::Notify(id@, r@),
            DialogState::Info(id, r) => DialogStateView::Info(id@, r@),
            DialogState::Options(id, r) => DialogStateView::Options(id@, r@),
            DialogState::Terminated(id, why) => DialogStateView::Terminated(id@, *why),
        }
    }
}

impl DeepView for DialogState {
    type V = DialogStateView;

    open spec fn deep_view(&self) -> DialogStateView {
        self.view()
    }
}

/// Whether a state is the established `Confirmed` state.
pub open spec fn spec_is_confirmed(s: DialogStateView) -> bool {
    s is Confirmed
}

/// Whether a state is terminal.
pub open spec fn spec_is_terminated(s: DialogStateView) -> bool {
    s is Terminated
}

/// Whether a state is one of the transient mid-dialog events, which are
/// published but never stored.
pub open spec fn spec_is_transient(s: DialogStateView) -> bool {
    s is Updated || s is Notify || s is Info || s is Options
}

impl DialogState {
    /// Whether the dialog is established.
    pub fn is_confirmed(&self) -> (r: bool)
        ensures
            r == spec_is_confirmed(self@),
    {
        matches!(self, DialogState::Confirmed(_))
    }

    /// Whether the dialog has ended.
    pub fn is_terminated(&self) -> (r: bool)
        ensures
            r == spec_is_terminated(self@),
    {
        matches!(self, DialogState::Terminated(_, _))
    }

    /// The word naming the state.
    pub open spec fn spec_state_word(s: DialogStateView) -> Seq<char> {
        match s {
            DialogStateView::Calling(_) => "Calling"@,
            DialogStateView::Trying(_) => "Trying"@,
            DialogStateView::Early(_, _) => "Early"@,
            DialogStateView::WaitAck(_, _) => "WaitAck"@,
            DialogStateView::Confirmed(_) => "Confirmed"@,
            DialogStateView::Updated(_, _) => "Updated"@,
            DialogStateView::Notify(_, _) => "Notify"@,
            DialogStateView::Info(_, _) => "Info"@,
            DialogStateView::Options(_, _) => "Options"@,
            DialogStateView::Terminated(_, _) => "Terminated"@,
        }
    }

    /// The identity the state speaks of.
    pub open spec fn spec_state_id(s: DialogStateView) -> DialogIdView {
        match s {
            DialogStateView::Calling(id) => id,
            DialogStateView::Trying(id) => id,
            DialogStateView::Early(id, _) => id,
            DialogStateView::WaitAck(id, _) => id,
            DialogStateView::Confirmed(id) => id,
            DialogStateView::Updated(id, _) => id,
            DialogStateView::Notify(id, _) => id,
            DialogStateView::Info(id, _) => id,
            DialogStateView::Options(id, _) => id,
            DialogStateView::Terminated(id, _) => id,
        }
    }

    /// Renders the state as `identity(Word)`.
    pub fn to_text(&self) -> (r: String)
        ensures
            r@ == Self::spec_state_id(self@).call_id + "-"@ + Self::spec_state_id(self@).from_tag
                + "-"@ + Self::spec_state_id(self@).to_tag + "("@ + Self::spec_state_word(self@)
                + ")"@,
    {
        let id = match self {
            DialogState::Calling(id) => id,
            DialogState::Trying(id) => id,
            DialogState::Early(id, _) => id,
            DialogState::WaitAck(id, _) => id,
            DialogState::Confirmed(id) => id,
            DialogState::Updated(id, _) => id,
            DialogState::Notify(id, _) => id,
            DialogState::Info(id, _) => id,
            DialogState::Options(id, _) => id,
            DialogState::Terminated(id, _) => id,
        };
        let word = match self {
            DialogState::Calling(_) => "Calling",
            DialogState::Trying(_) => "Trying",
            DialogState::Early(_, _) => "Early",
            DialogState::WaitAck(_, _) => "WaitAck",
            DialogState::Confirmed(_) => "Confirmed",
            DialogState::Updated(_, _) => "Updated",
            DialogState::Notify(_, _) => "Notify",
            DialogState::Info(_, _) => "Info",
            DialogState::Options(_, _) => "Options",
            DialogState::Terminated(_, _) => "Terminated",
        };
        let r = id.to_text().concat("(").concat(word).concat(")");
        assert(r@ =~= Self::spec_state_id(self@).call_id + "-"@ + Self::spec_state_id(self@)
            .from_tag + "-"@ + Self::spec_state_id(self@).to_tag + "("@ + Self::spec_state_word(
            self@,
        ) + ")"@);
        r
    }

    /// Copies the state, preserving its view.
    pub fn dup(&self) -> (r: DialogState)
        ensures
            r@ == self@,
    {
        match self {
            DialogState::Calling(id) => DialogState::Calling(id.dup()),
            DialogState::Trying(id) => DialogState::Trying(id.dup()),
            DialogState::Early(id, r) => DialogState::Early(id.dup(), r.dup()),
            DialogState::WaitAck(id, r) => DialogState::WaitAck(id.dup(), r.dup()),
            DialogState::Confirmed(id) => DialogState::Confirmed(id.dup()),
            DialogState::Updated(id, r) => DialogState::Updated(id.dup(), r.dup()),
            DialogState::Notify(id, r) => DialogState::Notify(id.dup(), r.dup()),
            DialogState::Info(id, r) => DialogState::Info(id.dup(), r.dup()),
            DialogState::Options(id, r) => DialogState::Options(id.dup(), r.dup()),
            DialogState::Terminated(id, why) => DialogState::Terminated(id.dup(), *why),
        }
    }
}

/// What went wrong inside the dialog core.
#[derive(Clone, Copy, Debug, PartialEq, Eq, Structural)]
pub enum DialogError {
    /// A message lacked its `CSeq` header.
    MissingCSeq,
    /// An initial server-side INVITE lacked its `Contact` header.
    MissingContact,
    /// A message lacked its `From` header.
    MissingFrom,
    /// A message lacked its `To` header.
    MissingTo,
    /// An operation needed an established dialog.
    NotConfirmed,
    /// An operation needed a dialog not yet established.
    AlreadyConfirmed,
    /// A message named no dialog identity (no `Call-ID`, `From` or `To`).
    BadIdentity,
    /// The digest retry could not be built.
    Auth(AuthError),
}

/// Specification view of a [`DialogInner`].
pub struct DialogInnerView {
    pub role: TransactionRole,
    pub cancelled: bool,
    pub id: DialogIdView,
    pub state: DialogStateView,
    pub local_seq: u32,
    pub local_contact: Option<UriView>,
    pub remote_seq: u32,
    pub remote_uri: UriView,
    pub from: NameAddrView,
    pub to: NameAddrView,
    pub credential: Option<CredentialView>,
    pub route_set: Seq<UriView>,
    pub initial_request: RequestView,
    pub public_address: Option<SipAddrView>,
    pub local_addr: SipAddrView,
    pub user_agent: Seq<char>,
    pub events: Seq<DialogStateView>,
}

/// The shared core of a dialog: its identity and state, the two sequence
/// spaces, the parties and routing data, the initial request, and the log of
/// published state events, which the owning task drains in order.
#[derive(Debug)]
pub struct DialogInner {
    pub role: TransactionRole,
    pub cancelled: bool,
    pub id: DialogId,
    pub state: DialogState,
    pub local_seq: u32,
    pub local_contact: Option<Uri>,
    pub remote_seq: u32,
    pub remote_uri: Uri,
    pub from: NameAddr,
    pub to: NameAddr,
    pub credential: Option<Credential>,
    pub route_set: Vec<Uri>,
    pub initial_request: Request,
    pub public_address: Option<SipAddr>,
    pub local_addr: SipAddr,
    pub user_agent: String,
    pub events: Vec<DialogState>,
}

impl View for DialogInner {
    type V = DialogInnerView;

    open spec fn view(&self) -> DialogInnerView {
        DialogInnerView {
            role: self.role,
            cancelled: self.cancelled,
            id: self.id@,
            state: self.state@,
            local_seq: self.local_seq,
            local_contact: self.local_contact.deep_view(),
            remote_seq: self.remote_seq,
            remote_uri: self.remote_uri@,
            from: self.from@,
            to: self.to@,
            credential: self.credential.deep_view(),
            route_set: self.route_set.deep_view(),
            initial_request: self.initial_request@,
            public_address: self.public_address.deep_view(),
            local_addr: self.local_addr@,
            user_agent: self.user_agent@,
            events: self.events.deep_view(),
        }
    }
}

/// The fields a new dialog is created with, per the role: the local and
/// remote sequence numbers, and the remote target URI. `None` when the
/// request lacks what the role needs.
pub open spec fn spec_new_dialog(
    role: TransactionRole,
    id: DialogIdView,
    req: RequestView,
    local_addr: SipAddrView,
    user_agent: Seq<char>,
    server_seq_seed: u32,
    credential: Option<CredentialView>,
    local_contact: Option<UriView>,
) -> Result<DialogInnerView, DialogError> {
    if spec_cseq(req.headers) is None {
        Err(DialogError::MissingCSeq)
    } else if role is Server && spec_contact(req.headers) is None {
        Err(DialogError::MissingContact)
    } else if spec_from(req.headers) is None {
        Err(DialogError::MissingFrom)
    } else if spec_to(req.headers) is None {
        Err(DialogError::MissingTo)
    } else {
        let initial_cseq = (spec_cseq(req.headers)->0).0;
        let from_h = spec_from(req.headers)->0;
        let to_raw = spec_to(req.headers)->0;
        let to_h = NameAddrView {
            tag: match to_raw.tag {
                Some(t) => Some(t),
                None => Some(id.to_tag),
            },
            ..to_raw
        };
        Ok(
            DialogInnerView {
                role: role,
                cancelled: false,
                id: id,
                state: if role is Server {
                    DialogStateView::Trying(id)
                } else {
                    DialogStateView::Calling(id)
                },
                local_seq: if role is Client {
                    initial_cseq
                } else {
                    server_seq_seed
                },
                local_contact: local_contact,
                remote_seq: initial_cseq,
                remote_uri: if role is Client {
                    req.uri
                } else {
                    spec_contact(req.headers)->0.uri
                },
                from: if role is Client {
                    from_h
                } else {
                    to_h
                },
                to: if role is Client {
                    to_h
                } else {
                    from_h
                },
                credential: credential,
                route_set: if role is Server {
                    spec_record_routes(req.headers)
                } else {
                    Seq::empty()
                },
                initial_request: req,
                public_address: None,
                local_addr: local_addr,
                user_agent: user_agent,
                events: Seq::empty(),
            },
        )
    }
}

impl DialogInner {
    /// Creates the core of a dialog from its initial request.
    ///
    /// A client dialog starts in `Calling`, seeds both sequence spaces from
    /// the request's `CSeq` and targets the request URI; a server dialog
    /// starts in `Trying`, seeds its own space from `server_seq_seed` (a
    /// fresh random number chosen by the caller), takes the peer's `CSeq`,
    /// and targets the request's `Contact`. The `To` value
    /// is given the dialog's `to_tag` when it carries none. A server dialog
    /// stores the request's `Record-Route` set in original order; a client
    /// dialog starts with an empty route set, filled from the 2xx response.
    pub fn new(
        role: TransactionRole,
        id: DialogId,
        initial_request: Request,
        local_addr: SipAddr,
        user_agent: String,
        server_seq_seed: u32,
        credential: Option<Credential>,
        local_contact: Option<Uri>,
    ) -> (r: Result<DialogInner, DialogError>)
        ensures
            match spec_new_dialog(
                role,
                id@,
                initial_request@,
                local_addr@,
                user_agent@,
                server_seq_seed,
                credential.deep_view(),
                local_contact.deep_view(),
            ) {
                Ok(v) => r is Ok && r->Ok_0@ == v,
                Err(e) => r == Err::<DialogInner, DialogError>(e),
            },
    {
        let cseq = crate::msg::find_cseq(&initial_request.headers);
        let initial_cseq = match cseq {
            Some((n, _)) => n,
            None => {
                return Err(DialogError::MissingCSeq);
            },
        };
        let contact = crate::msg::find_contact(&initial_request.headers);
        let remote_uri = match role {
            TransactionRole::Client => initial_request.uri.dup(),
            TransactionRole::Server => match &contact {
                Some(c) => c.uri.dup(),
                None => {
                    return Err(DialogError::MissingContact);
                },
            },
        };
        let from_h = match crate::msg::find_from(&initial_request.headers) {
            Some(f) => f,
            None => {
                return Err(DialogError::MissingFrom);
            },
        };
        let mut to_h = match crate::msg::find_to(&initial_request.headers) {
            Some(t) => t,
            None => {
                return Err(DialogError::MissingTo);
            },
        };
        if to_h.tag.is_none() {
            to_h.tag = Some(id.to_tag.clone());
        }
        let (from, to) = match role {
            TransactionRole::Client => (from_h, to_h),
            TransactionRole::Server => (to_h, from_h),
        };
        let local_seq = match role {
            TransactionRole::Client => initial_cseq,
            TransactionRole::Server => server_seq_seed,
        };
        let route_set = match role {
            TransactionRole::Server => collect_record_routes(&initial_request.headers),
            TransactionRole::Client => Vec::new(),
        };
        let state = match role {
            TransactionRole::Server => DialogState::Trying(id.dup()),
            TransactionRole::Client => DialogState::Calling(id.dup()),
        };
        let r = DialogInner {
            role,
            cancelled: false,
            id,
            state,
            local_seq,
            local_contact,
            remote_seq: initial_cseq,
            remote_uri,
            from,
            to,
            credential,
            route_set,
            initial_request,
            public_address: None,
            local_addr,
            user_agent,
            events: Vec::new(),
        };
        assert(r.route_set.deep_view() =~= (if role is Server {
            spec_record_routes(r.initial_request@.headers)
        } else {
            Seq::<UriView>::empty()
        }));
        assert(r.events.deep_view() =~= Seq::<DialogStateView>::empty());
        Ok(r)
    }

    /// Whether the dialog is established.
    pub fn is_confirmed(&self) -> (r: bool)
        ensures
            r == spec_is_confirmed(self@.state),
    {
        self.state.is_confirmed()
    }

    /// The current local sequence number.
    pub fn get_local_seq(&self) -> (r: u32)
        ensures
            r == self@.local_seq,
    {
        self.local_seq
    }

    /// Advances the local sequence space and returns its new value.
    pub fn increment_local_seq(&mut self) -> (r: u32)
        requires
            old(self)@.local_seq < u32::MAX,
        ensures
            r == old(self)@.local_seq + 1,
            final(self)@ == (DialogInnerView { local_seq: r, ..old(self)@ }),
    {
        self.local_seq = self.local_seq + 1;
        self.local_seq
    }

    /// Advances the remote sequence space and returns its new value.
    pub fn increment_remote_seq(&mut self) -> (r: u32)
        requires
            old(self)@.remote_seq < u32::MAX,
        ensures
            r == old(self)@.remote_seq + 1,
            final(self)@ == (DialogInnerView { remote_seq: r, ..old(self)@ }),
    {
        self.remote_seq = self.remote_seq + 1;
        self.remote_seq
    }

    /// Installs the peer's tag once. A tag is learned at most once: a dialog
    /// that already carries a non-empty `to_tag` is left unchanged (the first
    /// fork wins), as is the dialog when the offered tag is empty.
    pub fn update_remote_tag(&mut self, tag: &String)
        ensures
            old(self)@.id.to_tag.len() != 0 || tag@.len() == 0 ==> final(self)@ == old(self)@,
            old(self)@.id.to_tag.len() == 0 && tag@.len() > 0 ==> final(self)@ == (DialogInnerView {
                id: DialogIdView { to_tag: tag@, ..old(self)@.id },
                to: NameAddrView { tag: Some(tag@), ..old(self)@.to },
                ..old(self)@
            }),
    {
        if !self.id.to_tag.as_str().is_empty() || tag.as_str().is_empty() {
            return ;
        }
        self.id.to_tag = tag.clone();
        self.to.tag = Some(tag.clone());
    }

    /// Records the public address that later `Via` headers should advertise.
    pub fn set_public_address(&mut self, addr: SipAddr)
        ensures
            final(self)@ == (DialogInnerView { public_address: Some(addr@), ..old(self)@ }),
    {
        self.public_address = Some(addr);
    }

    /// The dialog after a state transition: unchanged when already terminal
    /// (a terminal state is absorbing); the event published but the
    /// persistent state kept for a transient event; the event published and
    /// the state replaced otherwise.
    pub open spec fn spec_transition(pre: DialogInnerView, s: DialogStateView) -> DialogInnerView {
        if spec_is_terminated(pre.state) {
            pre
        } else if spec_is_transient(s) {
            DialogInnerView { events: pre.events.push(s), ..pre }
        } else {
            DialogInnerView { events: pre.events.push(s), state: s, ..pre }
        }
    }

    /// Publishes a state to observers and, unless the state is a transient
    /// event or the dialog has already terminated, makes it the persistent
    /// state. A terminal state is absorbing: nothing leaves it.
    pub fn transition(&mut self, state: DialogState)
        ensures
            final(self)@ == Self::spec_transition(old(self)@, state@),
    {
        if self.state.is_terminated() {
            return ;
        }
        let transient = matches!(
            state,
            DialogState::Updated(_, _) | DialogState::Notify(_, _) | DialogState::Info(_, _)
                | DialogState::Options(_, _)
        );
        if transient {
            self.events.push(state);
            assert(self.events.deep_view() =~= old(self)@.events.push(state@));
        } else {
            let stored = state.dup();
            self.events.push(state);
            self.state = stored;
            assert(self.events.deep_view() =~= old(self)@.events.push(state@));
        }
    }

    /// The sequence number an outgoing request will carry: the caller's when
    /// one is supplied (CANCEL passes the INVITE's), else the next value of
    /// the local sequence space.
    pub open spec fn spec_request_cseq(pre: DialogInnerView, cseq: Option<u32>) -> u32 {
        match cseq {
            Some(n) => n,
            None => (pre.local_seq + 1) as u32,
        }
    }

    /// The address an outgoing `Via` advertises: a caller-supplied address
    /// first, then the discovered public address, else the local default.
    pub open spec fn spec_via_addr(pre: DialogInnerView, addr: Option<SipAddrView>) -> SipAddrView {
        match addr {
            Some(a) => a,
            None => match pre.public_address {
                Some(p) => p,
                None => pre.local_addr,
            },
        }
    }

    /// The `Via` header of an outgoing request.
    pub open spec fn spec_via(
        pre: DialogInnerView,
        addr: Option<SipAddrView>,
        branch: Option<Seq<char>>,
    ) -> ViaView {
        let a = Self::spec_via_addr(pre, addr);
        ViaView {
            transport: match a.transport {
                Some(t) => t,
                None => Transport::Udp,
            },
            host: a.host,
            port: a.port,
            branch: branch,
            params: Seq::empty(),
        }
    }

    /// One `Route` header per stored route, in stored order.
    pub open spec fn spec_route_headers(rs: Seq<UriView>) -> Seq<HeaderView> {
        rs.map_values(|u: UriView| HeaderView::Route(u))
    }

    /// A bare `Contact` value around a URI.
    pub open spec fn spec_contact_addr(u: UriView) -> NameAddrView {
        NameAddrView { display_name: None, uri: u, tag: None, params: Seq::empty() }
    }

    /// An outgoing request, assembled in order: the caller's headers, then
    /// `Via`, `Call-ID`, `From`, `To`, `CSeq`, `User-Agent`, the `Contact`
    /// when one is set, the stored routes in stored order, `Max-Forwards`,
    /// and `Content-Length` when a body is present. The request URI is the
    /// dialog's remote target.
    pub open spec fn spec_make_request(
        pre: DialogInnerView,
        method: Method,
        cseq: Option<u32>,
        addr: Option<SipAddrView>,
        branch: Option<Seq<char>>,
        custom: Seq<HeaderView>,
        body: Option<Seq<u8>>,
    ) -> RequestView {
        let hs0 = custom.push(HeaderView::Via(Self::spec_via(pre, addr, branch))).push(
            HeaderView::CallId(pre.id.call_id),
        ).push(HeaderView::From(pre.from)).push(HeaderView::To(pre.to)).push(
            HeaderView::CSeq(Self::spec_request_cseq(pre, cseq), method),
        ).push(HeaderView::UserAgent(pre.user_agent));
        let hs1 = match pre.local_contact {
            Some(c) => hs0.push(HeaderView::Contact(Self::spec_contact_addr(c))),
            None => hs0,
        };
        let hs2 = hs1 + Self::spec_route_headers(pre.route_set);
        let hs3 = hs2.push(HeaderView::MaxForwards(70));
        let hs4 = match body {
            Some(b) => hs3.push(HeaderView::ContentLength(b.len() as u32)),
            None => hs3,
        };
        RequestView {
            method: method,
            uri: pre.remote_uri,
            headers: hs4,
            body: match body {
                Some(b) => b,
                None => Seq::empty(),
            },
        }
    }

    /// Assembles an outgoing request per [`Self::spec_make_request`]. When no
    /// sequence number is supplied the local sequence space advances; the
    /// stored route set and every other field stay as they were.
    pub fn make_request(
        &mut self,
        method: Method,
        cseq: Option<u32>,
        addr: Option<SipAddr>,
        branch: Option<String>,
        headers: Option<Vec<Header>>,
        body: Option<Vec<u8>>,
    ) -> (r: Request)
        requires
            cseq is None ==> old(self)@.local_seq < u32::MAX,
            body matches Some(b) ==> b@.len() <= u32::MAX,
        ensures
            r@ == Self::spec_make_request(
                old(self)@,
                method,
                cseq,
                addr.deep_view(),
                branch.deep_view(),
                match headers {
                    Some(h) => h.deep_view(),
                    None => Seq::empty(),
                },
                body.deep_view(),
            ),
            final(self)@ == (DialogInnerView {
                local_seq: if cseq is None {
                    (old(self)@.local_seq + 1) as u32
                } else {
                    old(self)@.local_seq
                },
                ..old(self)@
            }),
    {
        let ghost pre = old(self)@;
        let ghost custom: Seq<HeaderView> = match headers.deep_view() {
            Some(h) => h,
            None => Seq::empty(),
        };
        let cseq_num = match cseq {
            Some(n) => n,
            None => self.increment_local_seq(),
        };
        assert(cseq_num == Self::spec_request_cseq(pre, cseq));
        let mut hs = match headers {
            Some(h) => h,
            None => Vec::new(),
        };
        assert(hs.deep_view() =~= custom);
        let via_addr = match addr {
            Some(a) => a,
            None => match &self.public_address {
                Some(p) => p.dup(),
                None => self.local_addr.dup(),
            },
        };
        assert(via_addr@ == Self::spec_via_addr(pre, addr.deep_view()));
        let transport = match via_addr.transport {
            Some(t) => t,
            None => Transport::Udp,
        };
        let via = Via {
            transport,
            host: via_addr.host,
            port: via_addr.port,
            branch,
            params: Vec::new(),
        };
        assert(via@.params =~= Seq::<(Seq<char>, Option<Seq<char>>)>::empty());
        hs.push(Header::Via(via));
        hs.push(Header::CallId(self.id.call_id.clone()));
        hs.push(Header::From(self.from.dup()));
        hs.push(Header::To(self.to.dup()));
        hs.push(Header::CSeq(cseq_num, method));
        hs.push(Header::UserAgent(self.user_agent.clone()));
        let ghost hs0 = custom.push(
            HeaderView::Via(Self::spec_via(pre, addr.deep_view(), branch.deep_view())),
        ).push(HeaderView::CallId(pre.id.call_id)).push(HeaderView::From(pre.from)).push(
            HeaderView::To(pre.to),
        ).push(HeaderView::CSeq(Self::spec_request_cseq(pre, cseq), method)).push(
            HeaderView::UserAgent(pre.user_agent),
        );
        assert(hs.deep_view() =~= hs0);
        match &self.local_contact {
            Some(c) => {
                let contact = NameAddr {
                    display_name: None,
                    uri: c.dup(),
                    tag: None,
                    params: Vec::new(),
                };
                assert(contact@.params =~= Seq::<(Seq<char>, Option<Seq<char>>)>::empty());
                hs.push(Header::Contact(contact));
            },
            None => {},
        }
        let ghost hs1 = match pre.local_contact {
            Some(c) => hs0.push(HeaderView::Contact(Self::spec_contact_addr(c))),
            None => hs0,
        };
        assert(hs.deep_view() =~= hs1);
        let ghost routes = pre.route_set;
        assert(self.route_set.deep_view() == routes);
        let mut i: usize = 0;
        assert(hs1 + Self::spec_route_headers(routes.take(0)) =~= hs1);
        while i < self.route_set.len()
            invariant
                i <= self.route_set.len(),
                self.route_set.deep_view() == routes,
                hs.deep_view() =~= hs1 + Self::spec_route_headers(routes.take(i as int)),
            decreases self.route_set.len() - i,
        {
            let ghost hs_before = hs.deep_view();
            hs.push(Header::Route(self.route_set[i].dup()));
            assert(hs.deep_view() =~= hs_before.push(HeaderView::Route(routes[i as int])));
            assert(Self::spec_route_headers(routes.take(i + 1)) =~= Self::spec_route_headers(
                routes.take(i as int),
            ).push(HeaderView::Route(routes[i as int])));
            assert(hs.deep_view() =~= hs1 + Self::spec_route_headers(routes.take(i + 1)));
            i += 1;
        }
        assert(routes.take(i as int) =~= routes);
        let ghost hs2 = hs1 + Self::spec_route_headers(routes);
        assert(hs.deep_view() =~= hs2);
        hs.push(Header::MaxForwards(70));
        let body_vec = match body {
            Some(b) => {
                hs.push(Header::ContentLength(b.len() as u32));
                b
            },
            None => Vec::new(),
        };
        assert(match body.deep_view() {
            Some(b) => body_vec@ =~= b,
            None => body_vec@ =~= Seq::<u8>::empty(),
        });
        let r = Request { method, uri: self.remote_uri.dup(), headers: hs, body: body_vec };
        assert(r@.headers =~= Self::spec_make_request(
            pre,
            method,
            cseq,
            addr.deep_view(),
            branch.deep_view(),
            custom,
            body.deep_view(),
        ).headers);
        r
    }

    /// The `To` value a response carries: the request's, given the local tag
    /// for any non-100 status when it carries none.
    pub open spec fn spec_to_with_tag(n: NameAddrView, to_tag: Seq<char>, status: u16) -> NameAddrView {
        if status != 100 && n.tag is None {
            NameAddrView { tag: Some(to_tag), ..n }
        } else {
            n
        }
    }

    /// The headers a response copies from its request, in request order:
    /// `Via`, `From`, `To` (tagged per [`Self::spec_to_with_tag`]), `CSeq`,
    /// `Call-ID`, and every `Record-Route`.
    pub open spec fn spec_response_copy(
        hs: Seq<HeaderView>,
        to_tag: Seq<char>,
        status: u16,
    ) -> Seq<HeaderView>
        decreases hs.len(),
    {
        if hs.len() == 0 {
            Seq::empty()
        } else {
            let init = Self::spec_response_copy(hs.drop_last(), to_tag, status);
            match hs.last() {
                HeaderView::Via(v) => init.push(HeaderView::Via(v)),
                HeaderView::From(f) => init.push(HeaderView::From(f)),
                HeaderView::To(t) => init.push(
                    HeaderView::To(Self::spec_to_with_tag(t, to_tag, status)),
                ),
                HeaderView::CSeq(n, m) => init.push(HeaderView::CSeq(n, m)),
                HeaderView::CallId(c) => init.push(HeaderView::CallId(c)),
                HeaderView::RecordRoute(u) => init.push(HeaderView::RecordRoute(u)),
                _ => init,
            }
        }
    }

    /// An outgoing response: the local `Contact` when one is set, then the
    /// headers copied from the request per [`Self::spec_response_copy`], the
    /// caller's headers pushed with replacement, `Content-Length` when a body
    /// is present, and the user agent pushed with replacement.
    pub open spec fn spec_make_response(
        pre: DialogInnerView,
        req: RequestView,
        status: u16,
        extra: Option<Seq<HeaderView>>,
        body: Option<Seq<u8>>,
    ) -> ResponseView {
        let base = match pre.local_contact {
            Some(c) => seq![HeaderView::Contact(Self::spec_contact_addr(c))],
            None => Seq::empty(),
        };
        let copied = base + Self::spec_response_copy(req.headers, pre.id.to_tag, status);
        let with_extra = crate::msg::spec_unique_push_all(
            copied,
            match extra {
                Some(e) => e,
                None => Seq::empty(),
            },
        );
        let with_len = match body {
            Some(b) => with_extra.push(HeaderView::ContentLength(b.len() as u32)),
            None => with_extra,
        };
        let hs = crate::msg::spec_unique_push(with_len, HeaderView::UserAgent(pre.user_agent));
        ResponseView {
            status: status,
            headers: hs,
            body: match body {
                Some(b) => b,
                None => Seq::empty(),
            },
        }
    }

    /// Assembles an outgoing response per [`Self::spec_make_response`].
    pub fn make_response(
        &self,
        request: &Request,
        status: u16,
        headers: Option<Vec<Header>>,
        body: Option<Vec<u8>>,
    ) -> (r: Response)
        requires
            body matches Some(b) ==> b@.len() <= u32::MAX,
        ensures
            r@ == Self::spec_make_response(
                self@,
                request@,
                status,
                headers.deep_view(),
                body.deep_view(),
            ),
    {
        let ghost pre = self@;
        let mut hs: Vec<Header> = Vec::new();
        match &self.local_contact {
            Some(c) => {
                let contact = NameAddr {
                    display_name: None,
                    uri: c.dup(),
                    tag: None,
                    params: Vec::new(),
                };
                assert(contact@.params =~= Seq::<(Seq<char>, Option<Seq<char>>)>::empty());
                hs.push(Header::Contact(contact));
            },
            None => {},
        }
        let ghost base: Seq<HeaderView> = match pre.local_contact {
            Some(c) => seq![HeaderView::Contact(Self::spec_contact_addr(c))],
            None => Seq::empty(),
        };
        assert(hs.deep_view() =~= base);
        let ghost reqh = request@.headers;
        let mut i: usize = 0;
        assert(reqh.take(0) =~= Seq::<HeaderView>::empty());
        while i < request.headers.len()
            invariant
                i <= request.headers.len(),
                reqh == request@.headers,
                pre == self@,
                hs.deep_view() =~= base + Self::spec_response_copy(
                    reqh.take(i as int),
                    pre.id.to_tag,
                    status,
                ),
            decreases request.headers.len() - i,
        {
            assert(reqh.take(i + 1).drop_last() =~= reqh.take(i as int));
            assert(reqh.take(i + 1).last() == reqh[i as int]);
            let ghost hs_before = hs.deep_view();
            match &request.headers[i] {
                Header::Via(v) => {
                    hs.push(Header::Via(v.dup()));
                },
                Header::From(f) => {
                    hs.push(Header::From(f.dup()));
                },
                Header::To(t) => {
                    let mut t2 = t.dup();
                    if status != 100 && t2.tag.is_none() {
                        t2.tag = Some(self.id.to_tag.clone());
                    }
                    assert(t2@ == Self::spec_to_with_tag(t@, pre.id.to_tag, status));
                    hs.push(Header::To(t2));
                },
                Header::CSeq(n, m) => {
                    hs.push(Header::CSeq(*n, *m));
                },
                Header::CallId(c) => {
                    hs.push(Header::CallId(c.clone()));
                },
                Header::RecordRoute(u) => {
                    hs.push(Header::RecordRoute(u.dup()));
                },
                _ => {},
            }
            assert(hs.deep_view() =~= (match reqh[i as int] {
                HeaderView::Via(v) => hs_before.push(HeaderView::Via(v)),
                HeaderView::From(f) => hs_before.push(HeaderView::From(f)),
                HeaderView::To(t) => hs_before.push(
                    HeaderView::To(Self::spec_to_with_tag(t, pre.id.to_tag, status)),
                ),
                HeaderView::CSeq(n, m) => hs_before.push(HeaderView::CSeq(n, m)),
                HeaderView::CallId(c) => hs_before.push(HeaderView::CallId(c)),
                HeaderView::RecordRoute(u) => hs_before.push(HeaderView::RecordRoute(u)),
                _ => hs_before,
            }));
            assert(hs.deep_view() =~= base + Self::spec_response_copy(
                reqh.take(i + 1),
                pre.id.to_tag,
                status,
            ));
            i += 1;
        }
        assert(reqh.take(i as int) =~= reqh);
        let ghost copied = base + Self::spec_response_copy(reqh, pre.id.to_tag, status);
        assert(hs.deep_view() =~= copied);
        let ghost extra: Seq<HeaderView> = match headers.deep_view() {
            Some(e) => e,
            None => Seq::empty(),
        };
        match headers {
            Some(mut ex) => {
                while ex.len() > 0
                    invariant
                        pre == self@,
                        crate::msg::spec_unique_push_all(hs.deep_view(), ex.deep_view()) == crate::msg::spec_unique_push_all
(copied, extra),
                    decreases ex.len(),
                {
                    let ghost exv = ex.deep_view();
                    let h = ex.remove(0);
                    assert(ex.deep_view() =~= exv.drop_first());
                    assert(h@ == exv[0]);
                    crate::msg::unique_push(&mut hs, h);
                }
                assert(ex.deep_view() =~= Seq::<HeaderView>::empty());
            },
            None => {},
        }
        assert(hs.deep_view() == crate::msg::spec_unique_push_all(copied, extra));
        let ghost with_extra = crate::msg::spec_unique_push_all(copied, extra);
        let body_vec = match body {
            Some(b) => {
                hs.push(Header::ContentLength(b.len() as u32));
                b
            },
            None => Vec::new(),
        };
        assert(match body.deep_view() {
            Some(b) => hs.deep_view() =~= with_extra.push(HeaderView::ContentLength(b.len() as u32))
                && body_vec@ =~= b,
            None => hs.deep_view() =~= with_extra && body_vec@ =~= Seq::<u8>::empty(),
        });
        crate::msg::unique_push(&mut hs, Header::UserAgent(self.user_agent.clone()));
        let r = Response { status, headers: hs, body: body_vec };
        assert(r@.headers == Self::spec_make_response(
            pre,
            request@,
            status,
            headers.deep_view(),
            body.deep_view(),
        ).headers);
        r
    }

    /// The headers copied into a response carry the `Record-Route` sequence
    /// of the request unchanged.
    pub proof fn lemma_response_copy_preserves_record_routes(
        hs: Seq<HeaderView>,
        to_tag: Seq<char>,
        status: u16,
    )
        ensures
            spec_record_routes(Self::spec_response_copy(hs, to_tag, status))
                == spec_record_routes(hs),
        decreases hs.len(),
    {
        if hs.len() == 0 {
        } else {
            Self::lemma_response_copy_preserves_record_routes(hs.drop_last(), to_tag, status);
            let init = Self::spec_response_copy(hs.drop_last(), to_tag, status);
            match hs.last() {
                HeaderView::Via(v) => {
                    crate::msg::lemma_push_preserves_record_routes(init, HeaderView::Via(v));
                },
                HeaderView::From(f) => {
                    crate::msg::lemma_push_preserves_record_routes(init, HeaderView::From(f));
                },
                HeaderView::To(t) => {
                    crate::msg::lemma_push_preserves_record_routes(
                        init,
                        HeaderView::To(Self::spec_to_with_tag(t, to_tag, status)),
                    );
                },
                HeaderView::CSeq(n, m) => {
                    crate::msg::lemma_push_preserves_record_routes(init, HeaderView::CSeq(n, m));
                },
                HeaderView::CallId(c) => {
                    crate::msg::lemma_push_preserves_record_routes(init, HeaderView::CallId(c));
                },
                HeaderView::RecordRoute(u) => {
                    assert(init.push(HeaderView::RecordRoute(u)).drop_last() =~= init);
                },
                _ => {},
            }
        }
    }

    /// Record-Route echo: a response built by [`Self::make_response`] carries
    /// the ordered `Record-Route` sequence of the triggering request, as long
    /// as the caller's extra headers hold no `Record-Route` of their own.
    pub proof fn lemma_response_echoes_record_routes(
        pre: DialogInnerView,
        req: RequestView,
        status: u16,
        extra: Option<Seq<HeaderView>>,
        body: Option<Seq<u8>>,
    )
        requires
            match extra {
                Some(e) => forall|i: int| 0 <= i < e.len() ==> !(#[trigger] e[i] is RecordRoute),
                None => true,
            },
        ensures
            spec_record_routes(Self::spec_make_response(pre, req, status, extra, body).headers)
                == spec_record_routes(req.headers),
    {
        let base: Seq<HeaderView> = match pre.local_contact {
            Some(c) => seq![HeaderView::Contact(Self::spec_contact_addr(c))],
            None => Seq::empty(),
        };
        let copied = base + Self::spec_response_copy(req.headers, pre.id.to_tag, status);
        match pre.local_contact {
            Some(c) => {
                assert(base.drop_last() =~= Seq::<HeaderView>::empty());
                assert(spec_record_routes(Seq::<HeaderView>::empty()) =~= Seq::<UriView>::empty());
                assert(spec_record_routes(base) =~= Seq::<UriView>::empty());
            },
            None => {},
        }
        crate::msg::lemma_record_routes_concat(
            base,
            Self::spec_response_copy(req.headers, pre.id.to_tag, status),
        );
        Self::lemma_response_copy_preserves_record_routes(req.headers, pre.id.to_tag, status);
        assert(spec_record_routes(copied) =~= spec_record_routes(req.headers));
        let added: Seq<HeaderView> = match extra {
            Some(e) => e,
            None => Seq::empty(),
        };
        crate::msg::lemma_unique_push_all_preserves_record_routes(copied, added);
        let with_extra = crate::msg::spec_unique_push_all(copied, added);
        let with_len = match body {
            Some(b) => with_extra.push(HeaderView::ContentLength(b.len() as u32)),
            None => with_extra,
        };
        match body {
            Some(b) => {
                crate::msg::lemma_push_preserves_record_routes(
                    with_extra,
                    HeaderView::ContentLength(b.len() as u32),
                );
            },
            None => {},
        }
        crate::msg::lemma_unique_push_preserves_record_routes(
            with_len,
            HeaderView::UserAgent(pre.user_agent),
        );
    }

    /// Hands the published state events to the owning task, oldest first, and
    /// empties the log.
    pub fn take_events(&mut self) -> (r: Vec<DialogState>)
        ensures
            r.deep_view() == old(self)@.events,
            final(self)@ == (DialogInnerView { events: Seq::empty(), ..old(self)@ }),
    {
        let mut drained: Vec<DialogState> = Vec::new();
        core::mem::swap(&mut drained, &mut self.events);
        assert(self.events.deep_view() =~= Seq::<DialogStateView>::empty());
        drained
    }
}

/// The parameters of a route URI that survive into its routing target: the
/// `transport` parameter alone.
pub open spec fn spec_transport_params(
    ps: Seq<(Seq<char>, Option<Seq<char>>)>,
) -> Seq<(Seq<char>, Option<Seq<char>>)>
    decreases ps.len(),
{
    if ps.len() == 0 {
        Seq::empty()
    } else {
        spec_transport_params(ps.drop_last()) + (if ps.last().0 == "transport"@ {
            seq![ps.last()]
        } else {
            Seq::empty()
        })
    }
}

/// Where loose routing sends a request: the URI of its first `Route` header,
/// stripped of every parameter but `transport`; `None` when the request
/// carries no `Route`, in which case it goes to its request URI.
pub open spec fn spec_route_target(req: RequestView) -> Option<UriView> {
    match crate::msg::spec_first_route(req.headers) {
        Some(u) => Some(UriView { params: spec_transport_params(u.params), ..u }),
        None => None,
    }
}

/// Computes the loose-routing target of a request per
/// [`spec_route_target`].
pub fn route_target(req: &Request) -> (r: Option<Uri>)
    ensures
        r.deep_view() == spec_route_target(req@),
{
    match crate::msg::find_first_route(&req.headers) {
        Some(u) => {
            let ghost all = u@.params;
            let key: String = "transport".to_owned();
            let mut kept: Vec<(String, Option<String>)> = Vec::new();
            let mut i: usize = 0;
            assert(all.take(0) =~= Seq::<(Seq<char>, Option<Seq<char>>)>::empty());
            assert(spec_transport_params(all.take(0)) =~= Seq::<
                (Seq<char>, Option<Seq<char>>),
            >::empty());
            while i < u.params.len()
                invariant
                    i <= u.params.len(),
                    all == u@.params,
                    key@ == "transport"@,
                    kept.deep_view() =~= spec_transport_params(all.take(i as int)),
                decreases u.params.len() - i,
            {
                assert(all.take(i + 1).drop_last() =~= all.take(i as int));
                assert(all.take(i + 1).last() == all[i as int]);
                let ghost kept_before = kept.deep_view();
                if u.params[i].0.eq(&key) {
                    let name = u.params[i].0.clone();
                    let value = crate::msg::dup_opt_string(&u.params[i].1);
                    assert((name, value).deep_view() == all[i as int]);
                    kept.push((name, value));
                    assert(kept.deep_view() =~= kept_before.push(all[i as int]));
                }
                assert(kept.deep_view() =~= spec_transport_params(all.take(i + 1)));
                i += 1;
            }
            assert(all.take(i as int) =~= all);
            let r = Uri { user: crate::msg::dup_opt_string(&u.user), host: u.host.clone(), port: u.port, params: kept };
            Some(r)
        },
        None => None,
    }
}

/// What the mid-dialog send loop should do with a message it received.
#[derive(Debug)]
pub enum DoRequestStep {
    /// A provisional answer: keep waiting.
    Continue,
    /// An early answer was published: keep waiting.
    EmitEarly,
    /// A challenge was answered: send this rebuilt request and keep waiting,
    /// with the retry noted.
    Resend(Request),
    /// The dialog gave up on the request: stop with nothing.
    Stop,
    /// The final answer: return it.
    Done(Response),
    /// The challenge could not be answered.
    Failed(AuthError),
}

impl DialogInner {
    /// Decides one step of the mid-dialog send loop of
    /// [`Self::make_request`]'s requests: `180`/`183` publish an early
    /// answer; any other provisional status is waited through; a first
    /// `401`/`407` is answered with a digest retry whose `CSeq` advances
    /// except for CANCEL, while a repeated one, or one without a credential,
    /// terminates the dialog; any other final status is the final answer.
    /// The caller marks `auth_sent` once it has sent a retry, and supplies
    /// the client nonce for the digest.
    pub fn on_request_response(
        &mut self,
        original: &Request,
        resp: Response,
        auth_sent: bool,
        cnonce: &String,
    ) -> (r: DoRequestStep)
        requires
            old(self)@.local_seq < u32::MAX,
        ensures
            resp@.status < 200 && resp@.status != 180 && resp@.status != 183 ==> r is Continue
                && final(self)@ == old(self)@,
            resp@.status == 180 || resp@.status == 183 ==> r is EmitEarly && final(self)@ == Self
                ::spec_transition(
                old(self)@,
                DialogStateView::Early(old(self)@.id, resp@),
            ),
            (resp@.status == 401 || resp@.status == 407) && auth_sent ==> r is Stop && final(self)@
                == Self::spec_transition(
                old(self)@,
                DialogStateView::Terminated(old(self)@.id, TerminatedReason::ProxyAuthRequired),
            ),
            (resp@.status == 401 || resp@.status == 407) && !auth_sent && old(self)@.credential
                is None ==> r is Stop && final(self)@ == Self::spec_transition(
                old(self)@,
                DialogStateView::Terminated(old(self)@.id, TerminatedReason::ProxyAuthRequired),
            ),
            (resp@.status == 401 || resp@.status == 407) && !auth_sent && old(self)@.credential
                is Some ==> {
                let new_seq = if original@.method is Cancel {
                    old(self)@.local_seq
                } else {
                    (old(self)@.local_seq + 1) as u32
                };
                &&& final(self)@ == (DialogInnerView { local_seq: new_seq, ..old(self)@ })
                &&& (crate::msg::spec_challenge(resp@.headers) is None ==> (r matches
                    DoRequestStep::Failed(e) && e == AuthError::NoChallenge))
                &&& (match crate::msg::spec_challenge(resp@.headers) {
                    Some((_, c)) => c.algorithm != crate::msg::Algorithm::Md5,
                    None => false,
                } ==> (r matches DoRequestStep::Failed(e) && e == AuthError::UnsupportedAlgorithm))
                &&& (match crate::msg::spec_challenge(resp@.headers) {
                    Some((_, c)) => c.algorithm == crate::msg::Algorithm::Md5
                        && !crate::auth::spec_digest_accepts(
                        original@.method.spec_name(),
                        crate::fmt::spec_uri_str(original@.uri),
                    ),
                    None => false,
                } ==> (r matches DoRequestStep::Failed(e) && e == AuthError::DigestUnavailable))
                &&& (r is Resend <==> (match crate::msg::spec_challenge(resp@.headers) {
                    Some((_, c)) => c.algorithm == crate::msg::Algorithm::Md5
                        && crate::auth::spec_digest_accepts(
                        original@.method.spec_name(),
                        crate::fmt::spec_uri_str(original@.uri),
                    ),
                    None => false,
                }))
                &&& (r matches DoRequestStep::Resend(req) ==> {
                    &&& crate::msg::spec_challenge(resp@.headers) is Some
                    &&& {
                        let (proxy, c) = crate::msg::spec_challenge(resp@.headers)->0;
                        req@ == crate::auth::spec_authorized_request(
                            original@,
                            new_seq,
                            crate::auth::spec_digest_auth(
                                old(self)@.credential->0,
                                c,
                                original@.method,
                                crate::fmt::spec_uri_str(original@.uri),
                                cnonce@,
                            ),
                            proxy,
                        )
                    }
                })
                &&& (r is Resend || r is Failed)
            },
            resp@.status >= 200 && !(resp@.status == 401 || resp@.status == 407) ==> (r matches
                DoRequestStep::Done(x) && x@ == resp@ && final(self)@ == old(self)@),
    {
        if resp.status == 180 || resp.status == 183 {
            let id = self.id.dup();
            self.transition(DialogState::Early(id, resp));
            return DoRequestStep::EmitEarly;
        }
        if resp.status < 200 {
            return DoRequestStep::Continue;
        }
        if resp.status == 401 || resp.status == 407 {
            if auth_sent {
                let id = self.id.dup();
                self.transition(
                    DialogState::Terminated(id, TerminatedReason::ProxyAuthRequired),
                );
                return DoRequestStep::Stop;
            }
            let cred = match &self.credential {
                Some(c) => c.dup(),
                None => {
                    let id = self.id.dup();
                    self.transition(
                        DialogState::Terminated(id, TerminatedReason::ProxyAuthRequired),
                    );
                    return DoRequestStep::Stop;
                },
            };
            let new_seq = match original.method {
                Method::Cancel => self.get_local_seq(),
                _ => self.increment_local_seq(),
            };
            return match handle_client_authenticate(new_seq, original, &resp, &cred, cnonce) {
                Ok(req) => DoRequestStep::Resend(req),
                Err(e) => DoRequestStep::Failed(e),
            };
        }
        DoRequestStep::Done(resp)
    }
}

/// Specification view of a [`Dialog`].
pub enum DialogView {
    ServerInvite(DialogInnerView),
    ClientInvite(DialogInnerView),
}

/// The core of either side of a dialog.
pub open spec fn spec_dialog_inner(d: DialogView) -> DialogInnerView {
    match d {
        DialogView::ServerInvite(v) => v,
        DialogView::ClientInvite(v) => v,
    }
}

/// A dialog of either side: a server (UAS) or client (UAC) INVITE dialog.
#[derive(Debug)]
pub enum Dialog {
    ServerInvite(crate::server::ServerInviteDialog),
    ClientInvite(crate::client::ClientInviteDialog),
}

impl View for Dialog {
    type V = DialogView;

    open spec fn view(&self) -> DialogView {
        match self {
            Dialog::ServerInvite(d) => DialogView::ServerInvite(d.inner@),
            Dialog::ClientInvite(d) => DialogView::ClientInvite(d.inner@),
        }
    }
}

impl DeepView for Dialog {
    type V = DialogView;

    open spec fn deep_view(&self) -> DialogView {
        self.view()
    }
}

impl Dialog {
    /// The dialog's identity.
    pub fn id(&self) -> (r: DialogId)
        ensures
            r@ == spec_dialog_inner(self@).id,
    {
        match self {
            Dialog::ServerInvite(d) => d.inner.id.dup(),
            Dialog::ClientInvite(d) => d.inner.id.dup(),
        }
    }

    /// Marks the dialog cancelled when it leaves the registry, so that its
    /// owning task unwinds at its next suspension point.
    pub fn on_remove(&mut self)
        ensures
            final(self)@ == (match old(self)@ {
                DialogView::ServerInvite(v) => DialogView::ServerInvite(
                    DialogInnerView { cancelled: true, ..v },
                ),
                DialogView::ClientInvite(v) => DialogView::ClientInvite(
                    DialogInnerView { cancelled: true, ..v },
                ),
            }),
    {
        match self {
            Dialog::ServerInvite(d) => {
                d.inner.cancelled = true;
            },
            Dialog::ClientInvite(d) => {
                d.inner.cancelled = true;
            },
        }
    }

    /// Dispatches a mid-dialog inbound request to the dialog's core, per
    /// [`crate::server::spec_handle_inbound_post`].
    pub fn handle(&mut self, req: &Request) -> (r: Result<Option<Response>, DialogError>)
        ensures
            old(self)@ is ServerInvite <==> final(self)@ is ServerInvite,
            crate::server::spec_handle_inbound_post(
                spec_dialog_inner(old(self)@),
                req@,
                spec_dialog_inner(final(self)@),
                r,
            ),
    {
        match self {
            Dialog::ServerInvite(d) => d.inner.handle_inbound(req),
            Dialog::ClientInvite(d) => d.inner.handle_inbound(req),
        }
    }

    /// Ends the call: a server dialog sends BYE; a client dialog sends BYE
    /// once confirmed and CANCEL before.
    pub fn hangup(&mut self, branch: Option<String>) -> (r: Result<Request, DialogError>)
        requires
            spec_dialog_inner(old(self)@).local_seq < u32::MAX,
        ensures
            old(self)@ is ServerInvite <==> final(self)@ is ServerInvite,
            old(self)@ is ServerInvite ==> spec_bye_post(
                spec_dialog_inner(old(self)@),
                spec_dialog_inner(final(self)@),
                r,
                branch.deep_view(),
                TerminatedReason::UasBye,
            ),
            old(self)@ is ClientInvite && spec_is_confirmed(
                spec_dialog_inner(old(self)@).state,
            ) ==> spec_bye_post(
                spec_dialog_inner(old(self)@),
                spec_dialog_inner(final(self)@),
                r,
                branch.deep_view(),
                TerminatedReason::UacBye,
            ),
            old(self)@ is ClientInvite && !spec_is_confirmed(
                spec_dialog_inner(old(self)@).state,
            ) ==> spec_cancel_post(
                spec_dialog_inner(old(self)@),
                spec_dialog_inner(final(self)@),
                r,
                branch.deep_view(),
            ),
    {
        match self {
            Dialog::ServerInvite(d) => {
                let srv = crate::server::ServerInviteDialog { inner: take_inner(&mut d.inner) };
                let mut srv = srv;
                let r = srv.bye(branch);
                d.inner = srv.inner;
                r
            },
            Dialog::ClientInvite(d) => {
                if d.inner.is_confirmed() {
                    d.bye(branch)
                } else {
                    d.cancel(branch)
                }
            },
        }
    }
}

/// Takes a dialog core out of its slot, leaving a placeholder that is never
/// read.
fn take_inner(slot: &mut DialogInner) -> (r: DialogInner)
    ensures
        r@ == old(slot)@,
{
    let mut placeholder = DialogInner {
        role: TransactionRole::Client,
        cancelled: true,
        id: DialogId { call_id: String::new(), from_tag: String::new(), to_tag: String::new() },
        state: DialogState::Terminated(
            DialogId { call_id: String::new(), from_tag: String::new(), to_tag: String::new() },
            TerminatedReason::Timeout,
        ),
        local_seq: 0,
        local_contact: None,
        remote_seq: 0,
        remote_uri: Uri { user: None, host: String::new(), port: None, params: Vec::new() },
        from: NameAddr { display_name: None, uri: Uri { user: None, host: String::new(), port: None, params: Vec::new() }, tag: None, params: Vec::new() },
        to: NameAddr { display_name: None, uri: Uri { user: None, host: String::new(), port: None, params: Vec::new() }, tag: None, params: Vec::new() },
        credential: None,
        route_set: Vec::new(),
        initial_request: Request { method: Method::Invite, uri: Uri { user: None, host: String::new(), port: None, params: Vec::new() }, headers: Vec::new(), body: Vec::new() },
        public_address: None,
        local_addr: SipAddr { transport: None, host: String::new(), port: None },
        user_agent: String::new(),
        events: Vec::new(),
    };
    core::mem::swap(&mut placeholder, slot);
    placeholder
}

/// What sending a BYE leaves behind and returns: an unconfirmed dialog is
/// refused unchanged; a confirmed one hands back the BYE built under the
/// next local sequence number and terminates with the given reason.
pub open spec fn spec_bye_post(
    pre: DialogInnerView,
    post: DialogInnerView,
    r: Result<Request, DialogError>,
    branch: Option<Seq<char>>,
    why: TerminatedReason,
) -> bool {
    &&& (!spec_is_confirmed(pre.state) ==> r == Err::<Request, DialogError>(
        DialogError::NotConfirmed,
    ) && post == pre)
    &&& (spec_is_confirmed(pre.state) ==> {
        let sent = DialogInnerView { local_seq: (pre.local_seq + 1) as u32, ..pre };
        &&& (r matches Ok(req) && req@ == DialogInner::spec_make_request(
            pre,
            Method::Bye,
            None,
            None,
            branch,
            Seq::empty(),
            None,
        ))
        &&& post == DialogInner::spec_transition(
            sent,
            DialogStateView::Terminated(sent.id, why),
        )
    })
}

/// What sending a CANCEL leaves behind and returns: a confirmed dialog is
/// refused unchanged, as is one whose initial request carries no `CSeq`;
/// otherwise the CANCEL reuses the initial request's own `CSeq` number and
/// the dialog terminates with `UacCancel`.
pub open spec fn spec_cancel_post(
    pre: DialogInnerView,
    post: DialogInnerView,
    r: Result<Request, DialogError>,
    branch: Option<Seq<char>>,
) -> bool {
    &&& (spec_is_confirmed(pre.state) ==> r == Err::<Request, DialogError>(
        DialogError::AlreadyConfirmed,
    ) && post == pre)
    &&& (!spec_is_confirmed(pre.state) && spec_cseq(pre.initial_request.headers) is None ==> r
        == Err::<Request, DialogError>(DialogError::MissingCSeq) && post == pre)
    &&& (!spec_is_confirmed(pre.state) && spec_cseq(pre.initial_request.headers) is Some ==> {
        let n = (spec_cseq(pre.initial_request.headers)->0).0;
        &&& (r matches Ok(req) && req@ == DialogInner::spec_make_request(
            pre,
            Method::Cancel,
            Some(n),
            None,
            branch,
            Seq::empty(),
            None,
        ))
        &&& post == DialogInner::spec_transition(
            pre,
            DialogStateView::Terminated(pre.id, TerminatedReason::UacCancel),
        )
    })
}

/// Terminal absorbance: no transition leaves a terminated dialog; whatever
/// state is offered, the dialog is unchanged.
pub proof fn lemma_terminal_absorbing(pre: DialogInnerView, s: DialogStateView)
    requires
        spec_is_terminated(pre.state),
    ensures
        DialogInner::spec_transition(pre, s) == pre,
{
}

/// A transition never touches the stored route set.
pub proof fn lemma_transition_preserves_route_set(pre: DialogInnerView, s: DialogStateView)
    ensures
        DialogInner::spec_transition(pre, s).route_set == pre.route_set,
{
}

/// A `CSeq` prefix-free header list can be skipped when looking for the
/// `CSeq` header.
proof fn lemma_cseq_skip_prefix(prefix: Seq<HeaderView>, rest: Seq<HeaderView>)
    requires
        forall|i: int| 0 <= i < prefix.len() ==> !(#[trigger] prefix[i] is CSeq),
    ensures
        spec_cseq(prefix + rest) == spec_cseq(rest),
    decreases prefix.len(),
{
    if prefix.len() == 0 {
        assert(prefix + rest =~= rest);
    } else {
        assert((prefix + rest)[0] == prefix[0]);
        assert((prefix + rest).drop_first() =~= prefix.drop_first() + rest);
        assert(forall|i: int|
            0 <= i < prefix.drop_first().len() ==> !(#[trigger] prefix.drop_first()[i] is CSeq));
        lemma_cseq_skip_prefix(prefix.drop_first(), rest);
    }
}

/// The `CSeq` header of a request [`DialogInner::spec_make_request`] builds:
/// exactly the number [`DialogInner::spec_request_cseq`] chooses, with the
/// request's method, as long as the caller's custom headers carry no `CSeq`
/// of their own.
pub proof fn lemma_request_cseq_header(
    pre: DialogInnerView,
    method: Method,
    cseq: Option<u32>,
    addr: Option<SipAddrView>,
    branch: Option<Seq<char>>,
    custom: Seq<HeaderView>,
    body: Option<Seq<u8>>,
)
    requires
        forall|i: int| 0 <= i < custom.len() ==> !(#[trigger] custom[i] is CSeq),
    ensures
        spec_cseq(DialogInner::spec_make_request(pre, method, cseq, addr, branch, custom, body).headers)
            == Some((DialogInner::spec_request_cseq(pre, cseq), method)),
{
    let n = DialogInner::spec_request_cseq(pre, cseq);
    let via = HeaderView::Via(DialogInner::spec_via(pre, addr, branch));
    let head = seq![
        via,
        HeaderView::CallId(pre.id.call_id),
        HeaderView::From(pre.from),
        HeaderView::To(pre.to),
        HeaderView::CSeq(n, method),
        HeaderView::UserAgent(pre.user_agent),
    ];
    let hs0 = custom.push(via).push(HeaderView::CallId(pre.id.call_id)).push(
        HeaderView::From(pre.from),
    ).push(HeaderView::To(pre.to)).push(HeaderView::CSeq(n, method)).push(
        HeaderView::UserAgent(pre.user_agent),
    );
    let hs1 = match pre.local_contact {
        Some(c) => hs0.push(HeaderView::Contact(DialogInner::spec_contact_addr(c))),
        None => hs0,
    };
    let hs2 = hs1 + DialogInner::spec_route_headers(pre.route_set);
    let hs3 = hs2.push(HeaderView::MaxForwards(70));
    let hs4 = match body {
        Some(b) => hs3.push(HeaderView::ContentLength(b.len() as u32)),
        None => hs3,
    };
    let tail = hs4.skip(custom.len() as int);
    assert(hs4 =~= custom + tail);
    lemma_cseq_skip_prefix(custom, tail);
    let t1 = tail.drop_first();
    let t2 = t1.drop_first();
    let t3 = t2.drop_first();
    let t4 = t3.drop_first();
    assert(tail[0] == via);
    assert(spec_cseq(tail) == spec_cseq(t1));
    assert(t1[0] == HeaderView::CallId(pre.id.call_id));
    assert(spec_cseq(t1) == spec_cseq(t2));
    assert(t2[0] == HeaderView::From(pre.from));
    assert(spec_cseq(t2) == spec_cseq(t3));
    assert(t3[0] == HeaderView::To(pre.to));
    assert(spec_cseq(t3) == spec_cseq(t4));
    assert(t4[0] == HeaderView::CSeq(n, method));
    assert(spec_cseq(t4) == Some((n, method)));
}

/// One `Route` header per route: the `Route` sequence of the headers
/// [`DialogInner::spec_route_headers`] builds is the route list itself.
proof fn lemma_routes_of_route_headers(rs: Seq<UriView>)
    ensures
        crate::msg::spec_routes(DialogInner::spec_route_headers(rs)) == rs,
    decreases rs.len(),
{
    let m = DialogInner::spec_route_headers(rs);
    if rs.len() == 0 {
        assert(m =~= Seq::<HeaderView>::empty());
        assert(crate::msg::spec_routes(m) =~= Seq::<UriView>::empty());
    } else {
        lemma_routes_of_route_headers(rs.drop_last());
        assert(m.drop_last() =~= DialogInner::spec_route_headers(rs.drop_last()));
        assert(m.last() == HeaderView::Route(rs.last()));
        assert(crate::msg::spec_routes(m) =~= rs.drop_last().push(rs.last()));
        assert(rs.drop_last().push(rs.last()) =~= rs);
    }
}

/// Route-set order on the wire: a request [`DialogInner::spec_make_request`]
/// builds carries, besides any `Route` headers among the caller's custom
/// headers, exactly one `Route` header per stored route, in stored order —
/// the UAS-original or UAC-reversed order fixed at establishment. With
/// route-free custom headers the request's `Route` sequence is exactly the
/// stored route set.
pub proof fn lemma_request_routes_in_stored_order(
    pre: DialogInnerView,
    method: Method,
    cseq: Option<u32>,
    addr: Option<SipAddrView>,
    branch: Option<Seq<char>>,
    custom: Seq<HeaderView>,
    body: Option<Seq<u8>>,
)
    ensures
        ({
            let req = DialogInner::spec_make_request(pre, method, cseq, addr, branch, custom, body);
            &&& crate::msg::spec_routes(req.headers) == crate::msg::spec_routes(custom)
                + pre.route_set
            &&& (forall|i: int| 0 <= i < custom.len() ==> !(#[trigger] custom[i] is Route))
                ==> crate::msg::spec_routes(req.headers) == pre.route_set
        }),
{
    let n = DialogInner::spec_request_cseq(pre, cseq);
    let via = HeaderView::Via(DialogInner::spec_via(pre, addr, branch));
    let hs0 = custom.push(via).push(HeaderView::CallId(pre.id.call_id)).push(
        HeaderView::From(pre.from),
    ).push(HeaderView::To(pre.to)).push(HeaderView::CSeq(n, method)).push(
        HeaderView::UserAgent(pre.user_agent),
    );
    crate::msg::lemma_push_preserves_routes(custom, via);
    crate::msg::lemma_push_preserves_routes(custom.push(via), HeaderView::CallId(pre.id.call_id));
    crate::msg::lemma_push_preserves_routes(
        custom.push(via).push(HeaderView::CallId(pre.id.call_id)),
        HeaderView::From(pre.from),
    );
    crate::msg::lemma_push_preserves_routes(
        custom.push(via).push(HeaderView::CallId(pre.id.call_id)).push(HeaderView::From(pre.from)),
        HeaderView::To(pre.to),
    );
    crate::msg::lemma_push_preserves_routes(
        custom.push(via).push(HeaderView::CallId(pre.id.call_id)).push(HeaderView::From(pre.from))
            .push(HeaderView::To(pre.to)),
        HeaderView::CSeq(n, method),
    );
    crate::msg::lemma_push_preserves_routes(
        custom.push(via).push(HeaderView::CallId(pre.id.call_id)).push(HeaderView::From(pre.from))
            .push(HeaderView::To(pre.to)).push(HeaderView::CSeq(n, method)),
        HeaderView::UserAgent(pre.user_agent),
    );
    assert(crate::msg::spec_routes(hs0) == crate::msg::spec_routes(custom));
    let hs1 = match pre.local_contact {
        Some(c) => hs0.push(HeaderView::Contact(DialogInner::spec_contact_addr(c))),
        None => hs0,
    };
    match pre.local_contact {
        Some(c) => {
            crate::msg::lemma_push_preserves_routes(
                hs0,
                HeaderView::Contact(DialogInner::spec_contact_addr(c)),
            );
        },
        None => {},
    }
    assert(crate::msg::spec_routes(hs1) == crate::msg::spec_routes(custom));
    let hs2 = hs1 + DialogInner::spec_route_headers(pre.route_set);
    crate::msg::lemma_routes_concat(hs1, DialogInner::spec_route_headers(pre.route_set));
    lemma_routes_of_route_headers(pre.route_set);
    assert(crate::msg::spec_routes(hs2) == crate::msg::spec_routes(custom) + pre.route_set);
    let hs3 = hs2.push(HeaderView::MaxForwards(70));
    crate::msg::lemma_push_preserves_routes(hs2, HeaderView::MaxForwards(70));
    match body {
        Some(b) => {
            crate::msg::lemma_push_preserves_routes(hs3, HeaderView::ContentLength(b.len() as u32));
        },
        None => {},
    }
    if forall|i: int| 0 <= i < custom.len() ==> !(#[trigger] custom[i] is Route) {
        lemma_routes_all_other(custom);
        assert(crate::msg::spec_routes(custom) + pre.route_set =~= pre.route_set);
    }
}

/// A header list without `Route` headers has an empty `Route` sequence.
proof fn lemma_routes_all_other(hs: Seq<HeaderView>)
    requires
        forall|i: int| 0 <= i < hs.len() ==> !(#[trigger] hs[i] is Route),
    ensures
        crate::msg::spec_routes(hs) == Seq::<UriView>::empty(),
    decreases hs.len(),
{
    if hs.len() == 0 {
    } else {
        assert(forall|i: int|
            0 <= i < hs.drop_last().len() ==> !(#[trigger] hs.drop_last()[i] is Route));
        lemma_routes_all_other(hs.drop_last());
        assert(!(hs.last() is Route));
    }
}

/// CSeq monotonicity: an auto-numbered request is numbered strictly above
/// the dialog's counter, and leaves the counter at that number, so two
/// successive auto-numbered requests (every outbound request but CANCEL)
/// carry strictly increasing `CSeq` numbers.
pub proof fn lemma_cseq_monotonic(pre: DialogInnerView)
    requires
        pre.local_seq + 1 < u32::MAX,
    ensures
        ({
            let n1 = DialogInner::spec_request_cseq(pre, None);
            let mid = DialogInnerView { local_seq: (pre.local_seq + 1) as u32, ..pre };
            let n2 = DialogInner::spec_request_cseq(mid, None);
            n1 > pre.local_seq && n2 > n1
        }),
{
}

/// CANCEL reuses the INVITE `CSeq`: the CANCEL built from the number of the
/// dialog's initial request carries exactly that number.
pub proof fn lemma_cancel_reuses_invite_cseq(pre: DialogInnerView, branch: Option<Seq<char>>)
    requires
        spec_cseq(pre.initial_request.headers) is Some,
    ensures
        ({
            let n = (spec_cseq(pre.initial_request.headers)->0).0;
            spec_cseq(
                DialogInner::spec_make_request(
                    pre,
                    Method::Cancel,
                    Some(n),
                    None,
                    branch,
                    Seq::empty(),
                    None,
                ).headers,
            ) == Some((n, Method::Cancel))
        }),
{
    let n = (spec_cseq(pre.initial_request.headers)->0).0;
    lemma_request_cseq_header(
        pre,
        Method::Cancel,
        Some(n),
        None,
        branch,
        Seq::empty(),
        None,
    );
}

} // verus!
