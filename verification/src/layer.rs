//! The dialog layer: the registry mapping dialog identities to dialogs, the
//! INVITE factory, and the atomic rekeying performed when a dialog learns
//! its peer tag.
use vstd::prelude::*;
use crate::auth::{Credential, CredentialView};
use crate::client::ClientInviteDialog;
use crate::dialog::{spec_dialog_inner, Dialog, DialogError, DialogInner, DialogView};
use crate::ident::{DialogId, DialogIdView, TransactionRole};
use crate::msg::{
    spec_unique_push, spec_unique_push_all, unique_push, Header, HeaderView, Method, NameAddr,
    NameAddrView, Request, RequestView, SipAddr, SipAddrView, Transport, Uri, UriView, Via,
};

verus! {

/// Specification view of an [`InviteOption`].
pub struct InviteOptionView {
    pub caller: UriView,
    pub callee: UriView,
    pub content_type: Option<Seq<char>>,
    pub offer: Option<Seq<u8>>,
    pub contact: UriView,
    pub credential: Option<CredentialView>,
    pub headers: Option<Seq<HeaderView>>,
}

/// What an outbound call is made of: the parties, the optional body and its
/// type, the contact to advertise, the credential for challenges, and extra
/// headers that may override the generated ones.
#[derive(Debug)]
pub struct InviteOption {
    pub caller: Uri,
    pub callee: Uri,
    pub content_type: Option<String>,
    pub offer: Option<Vec<u8>>,
    pub contact: Uri,
    pub credential: Option<Credential>,
    pub headers: Option<Vec<Header>>,
}

impl View for InviteOption {
    type V = InviteOptionView;

    open spec fn view(&self) -> InviteOptionView {
        InviteOptionView {
            caller: self.caller@,
            callee: self.callee@,
            content_type: self.content_type.deep_view(),
            offer: match self.offer {
                Some(o) => Some(o@),
                None => None,
            },
            contact: self.contact@,
            credential: self.credential.deep_view(),
            headers: self.headers.deep_view(),
        }
    }
}

/// Specification view of a [`DialogLayer`].
pub struct DialogLayerView {
    pub dialogs: Seq<(DialogIdView, DialogView)>,
    pub last_seq: u32,
    pub local_addr: SipAddrView,
    pub user_agent: Seq<char>,
}

/// The registry of live dialogs, the process-wide sequence seed for outbound
/// INVITEs, and the endpoint data every dialog shares.
#[derive(Debug)]
pub struct DialogLayer {
    pub dialogs: Vec<(DialogId, Dialog)>,
    pub last_seq: u32,
    pub local_addr: SipAddr,
    pub user_agent: String,
}

impl View for DialogLayer {
    type V = DialogLayerView;

    open spec fn view(&self) -> DialogLayerView {
        DialogLayerView {
            dialogs: self.dialogs.deep_view(),
            last_seq: self.last_seq,
            local_addr: self.local_addr@,
            user_agent: self.user_agent@,
        }
    }
}

/// The dialog registered under `id`: the first entry with that key.
pub open spec fn spec_lookup(ds: Seq<(DialogIdView, DialogView)>, id: DialogIdView) -> Option<
    DialogView,
>
    decreases ds.len(),
{
    if ds.len() == 0 {
        None
    } else if ds[0].0 == id {
        Some(ds[0].1)
    } else {
        spec_lookup(ds.drop_first(), id)
    }
}

/// The registry without any entry keyed `id`.
pub open spec fn spec_remove_all(
    ds: Seq<(DialogIdView, DialogView)>,
    id: DialogIdView,
) -> Seq<(DialogIdView, DialogView)>
    decreases ds.len(),
{
    if ds.len() == 0 {
        Seq::empty()
    } else {
        let rest = spec_remove_all(ds.drop_first(), id);
        if ds[0].0 == id {
            rest
        } else {
            seq![ds[0]] + rest
        }
    }
}

/// The registry with `d` registered under `id`, displacing whatever was
/// there.
pub open spec fn spec_insert(
    ds: Seq<(DialogIdView, DialogView)>,
    id: DialogIdView,
    d: DialogView,
) -> Seq<(DialogIdView, DialogView)> {
    spec_remove_all(ds, id).push((id, d))
}

/// What a removal leaves answers every later lookup: nothing under the
/// removed key, the old answer under every other.
pub proof fn lemma_lookup_remove_all(
    ds: Seq<(DialogIdView, DialogView)>,
    id: DialogIdView,
    k: DialogIdView,
)
    ensures
        spec_lookup(spec_remove_all(ds, id), k) == (if k == id {
            None
        } else {
            spec_lookup(ds, k)
        }),
    decreases ds.len(),
{
    if ds.len() == 0 {
    } else {
        lemma_lookup_remove_all(ds.drop_first(), id, k);
        if ds[0].0 == id {
        } else {
            let rest = spec_remove_all(ds.drop_first(), id);
            let whole = seq![ds[0]] + rest;
            assert(whole[0] == ds[0]);
            assert(whole.drop_first() =~= rest);
        }
    }
}

/// What an insertion leaves answers every later lookup: the new dialog under
/// its key, the old answer under every other.
pub proof fn lemma_lookup_insert(
    ds: Seq<(DialogIdView, DialogView)>,
    id: DialogIdView,
    d: DialogView,
    k: DialogIdView,
)
    ensures
        spec_lookup(spec_insert(ds, id, d), k) == (if k == id {
            Some(d)
        } else {
            spec_lookup(ds, k)
        }),
    decreases ds.len(),
{
    lemma_lookup_remove_all(ds, id, k);
    lemma_lookup_push(spec_remove_all(ds, id), id, d, k);
}

/// What appending an entry answers every later lookup: earlier entries win,
/// the appended one answers only what nothing else did.
pub proof fn lemma_lookup_push(
    ds: Seq<(DialogIdView, DialogView)>,
    id: DialogIdView,
    d: DialogView,
    k: DialogIdView,
)
    ensures
        spec_lookup(ds.push((id, d)), k) == (match spec_lookup(ds, k) {
            Some(x) => Some(x),
            None => if k == id {
                Some(d)
            } else {
                None
            },
        }),
    decreases ds.len(),
{
    if ds.len() == 0 {
        assert(ds.push((id, d))[0] == (id, d));
        assert(ds.push((id, d)).drop_first() =~= Seq::<(DialogIdView, DialogView)>::empty());
    } else {
        assert(ds.push((id, d))[0] == ds[0]);
        assert(ds.push((id, d)).drop_first() =~= ds.drop_first().push((id, d)));
        lemma_lookup_push(ds.drop_first(), id, d, k);
    }
}

/// Id rekeying atomicity: one registry operation moves a dialog from its old
/// key to its new one. After it, the dialog answers under the new key, the
/// old key answers nothing, and every other key answers exactly as before:
/// no observer sees the dialog under both keys, or under neither.
pub proof fn lemma_rekey_atomic(
    ds: Seq<(DialogIdView, DialogView)>,
    old_id: DialogIdView,
    new_id: DialogIdView,
)
    requires
        spec_lookup(ds, old_id) is Some,
        old_id != new_id,
    ensures
        ({
            let moved = spec_lookup(ds, old_id)->0;
            let ds2 = spec_insert(spec_remove_all(ds, old_id), new_id, moved);
            &&& spec_lookup(ds2, new_id) == spec_lookup(ds, old_id)
            &&& spec_lookup(ds2, old_id) is None
            &&& forall|k: DialogIdView|
                k != old_id && k != new_id ==> spec_lookup(ds2, k) == spec_lookup(ds, k)
        }),
{
    let moved = spec_lookup(ds, old_id)->0;
    let removed = spec_remove_all(ds, old_id);
    lemma_lookup_insert(removed, new_id, moved, new_id);
    lemma_lookup_remove_all(ds, old_id, new_id);
    lemma_lookup_insert(removed, new_id, moved, old_id);
    lemma_lookup_remove_all(ds, old_id, old_id);
    assert forall|k: DialogIdView| k != old_id && k != new_id implies spec_lookup(
        spec_insert(removed, new_id, moved),
        k,
    ) == spec_lookup(ds, k) by {
        lemma_lookup_insert(removed, new_id, moved, k);
        lemma_lookup_remove_all(ds, old_id, k);
    }
}

impl DialogLayer {
    /// A new layer around the given endpoint data; `seq_seed` starts the
    /// process-wide sequence space for outbound INVITEs.
    pub fn new(local_addr: SipAddr, user_agent: String, seq_seed: u32) -> (r: DialogLayer)
        ensures
            r@.dialogs == Seq::<(DialogIdView, DialogView)>::empty(),
            r@.last_seq == seq_seed,
            r@.local_addr == local_addr@,
            r@.user_agent == user_agent@,
    {
        let r = DialogLayer { dialogs: Vec::new(), last_seq: seq_seed, local_addr, user_agent };
        assert(r.dialogs.deep_view() =~= Seq::<(DialogIdView, DialogView)>::empty());
        r
    }

    /// Advances the process-wide sequence space and returns its new value.
    pub fn increment_last_seq(&mut self) -> (r: u32)
        requires
            old(self)@.last_seq < u32::MAX,
        ensures
            r == old(self)@.last_seq + 1,
            final(self)@ == (DialogLayerView { last_seq: r, ..old(self)@ }),
    {
        self.last_seq = self.last_seq + 1;
        self.last_seq
    }

    /// Registers `d` under `id`, displacing whatever was there.
    pub fn insert_dialog(&mut self, id: DialogId, d: Dialog)
        ensures
            final(self)@ == (DialogLayerView {
                dialogs: spec_insert(old(self)@.dialogs, id@, d@),
                ..old(self)@
            }),
    {
        let ghost pre = self.dialogs.deep_view();
        let mut kept: Vec<(DialogId, Dialog)> = Vec::new();
        let mut rest = core_take_entries(&mut self.dialogs);
        while rest.len() > 0
            invariant
                spec_remove_all(pre, id@) =~= kept.deep_view() + spec_remove_all(
                    rest.deep_view(),
                    id@,
                ),
            decreases rest.len(),
        {
            let ghost restv = rest.deep_view();
            let (k, dd) = rest.remove(0);
            assert(rest.deep_view() =~= restv.drop_first());
            assert((k@, dd@) == restv[0]);
            if !k.same_as(&id) {
                let ghost keptv = kept.deep_view();
                kept.push((k, dd));
                assert(kept.deep_view() =~= keptv.push(restv[0]));
                assert(seq![restv[0]] + spec_remove_all(restv.drop_first(), id@)
                    =~= spec_remove_all(restv, id@));
            }
        }
        assert(rest.deep_view() =~= Seq::<(DialogIdView, DialogView)>::empty());
        assert(spec_remove_all(rest.deep_view(), id@) =~= Seq::<
            (DialogIdView, DialogView),
        >::empty());
        assert(kept.deep_view() =~= spec_remove_all(pre, id@));
        let ghost keptv = kept.deep_view();
        kept.push((id, d));
        assert(kept.deep_view() =~= keptv.push((id@, d@)));
        self.dialogs = kept;
    }

    /// Removes the dialog registered under `id` and marks it cancelled, so
    /// its owning task unwinds. Returns it, or `None` when nothing was
    /// registered under `id`.
    pub fn remove_dialog(&mut self, id: &DialogId) -> (r: Option<Dialog>)
        ensures
            final(self)@ == (DialogLayerView {
                dialogs: spec_remove_all(old(self)@.dialogs, id@),
                ..old(self)@
            }),
            r is Some <==> spec_lookup(old(self)@.dialogs, id@) is Some,
            r matches Some(d) ==> d@ == (match spec_lookup(old(self)@.dialogs, id@)->0 {
                DialogView::ServerInvite(v) => DialogView::ServerInvite(
                    crate::dialog::DialogInnerView { cancelled: true, ..v },
                ),
                DialogView::ClientInvite(v) => DialogView::ClientInvite(
                    crate::dialog::DialogInnerView { cancelled: true, ..v },
                ),
            }),
    {
        match self.take_dialog(id) {
            Some(mut d) => {
                d.on_remove();
                Some(d)
            },
            None => None,
        }
    }

    /// Takes the dialog registered under `id` out of the registry without
    /// cancelling it, so its owner can drive it and put it back.
    pub fn take_dialog(&mut self, id: &DialogId) -> (r: Option<Dialog>)
        ensures
            final(self)@ == (DialogLayerView {
                dialogs: spec_remove_all(old(self)@.dialogs, id@),
                ..old(self)@
            }),
            r.deep_view() == spec_lookup(old(self)@.dialogs, id@),
    {
        let ghost pre = self.dialogs.deep_view();
        let mut kept: Vec<(DialogId, Dialog)> = Vec::new();
        let mut found: Option<Dialog> = None;
        let mut rest = core_take_entries(&mut self.dialogs);
        while rest.len() > 0
            invariant
                spec_remove_all(pre, id@) =~= kept.deep_view() + spec_remove_all(
                    rest.deep_view(),
                    id@,
                ),
                spec_lookup(pre, id@) == (match found {
                    Some(d) => Some(d@),
                    None => spec_lookup(rest.deep_view(), id@),
                }),
            decreases rest.len(),
        {
            let ghost restv = rest.deep_view();
            let (k, dd) = rest.remove(0);
            assert(rest.deep_view() =~= restv.drop_first());
            assert((k@, dd@) == restv[0]);
            if !k.same_as(id) {
                let ghost keptv = kept.deep_view();
                kept.push((k, dd));
                assert(kept.deep_view() =~= keptv.push(restv[0]));
                assert(seq![restv[0]] + spec_remove_all(restv.drop_first(), id@)
                    =~= spec_remove_all(restv, id@));
            } else {
                if found.is_none() {
                    found = Some(dd);
                }
            }
        }
        assert(rest.deep_view() =~= Seq::<(DialogIdView, DialogView)>::empty());
        assert(spec_remove_all(rest.deep_view(), id@) =~= Seq::<
            (DialogIdView, DialogView),
        >::empty());
        assert(kept.deep_view() =~= spec_remove_all(pre, id@));
        self.dialogs = kept;
        found
    }

    /// Rekeys a dialog in one registry operation: the dialog registered
    /// under `old_id` answers under `new_id` afterwards, and under `old_id`
    /// no longer. No observer sees an intermediate registry. Returns whether
    /// a dialog was registered under `old_id`.
    pub fn rekey_dialog(&mut self, old_id: &DialogId, new_id: DialogId) -> (r: bool)
        ensures
            spec_lookup(old(self)@.dialogs, old_id@) is None ==> !r && final(self)@ == (
            DialogLayerView { dialogs: spec_remove_all(old(self)@.dialogs, old_id@), ..old(self)@ }),
            spec_lookup(old(self)@.dialogs, old_id@) is Some ==> r && final(self)@ == (
            DialogLayerView {
                dialogs: spec_insert(
                    spec_remove_all(old(self)@.dialogs, old_id@),
                    new_id@,
                    spec_lookup(old(self)@.dialogs, old_id@)->0,
                ),
                ..old(self)@
            }),
    {
        match self.take_dialog(old_id) {
            Some(d) => {
                self.insert_dialog(new_id, d);
                true
            },
            None => false,
        }
    }
}

impl DialogLayer {
    /// The initial INVITE built for an outbound call: `Via` (from the public
    /// address when one is supplied, else the local default), `Call-ID`,
    /// `From` (the caller, carrying the fresh tag), `To` (the callee, no tag
    /// yet), `CSeq` from the advanced process-wide space, `Max-Forwards`;
    /// then, pushed with replacement, the `Contact`, the `Content-Type`
    /// (`application/sdp` unless named), and the caller's extra headers,
    /// which may override the generated ones.
    pub open spec fn spec_make_invite_request(
        pre: DialogLayerView,
        opt: InviteOptionView,
        public_address: Option<SipAddrView>,
        tag: Seq<char>,
        call_id: Seq<char>,
        branch: Option<Seq<char>>,
    ) -> RequestView {
        let seq_num = (pre.last_seq + 1) as u32;
        let a = match public_address {
            Some(p) => p,
            None => pre.local_addr,
        };
        let via = crate::msg::ViaView {
            transport: match a.transport {
                Some(t) => t,
                None => Transport::Udp,
            },
            host: a.host,
            port: a.port,
            branch: branch,
            params: Seq::empty(),
        };
        let from = NameAddrView {
            display_name: None,
            uri: opt.caller,
            tag: Some(tag),
            params: Seq::empty(),
        };
        let to = NameAddrView {
            display_name: None,
            uri: opt.callee,
            tag: None,
            params: Seq::empty(),
        };
        let contact = NameAddrView {
            display_name: None,
            uri: opt.contact,
            tag: None,
            params: Seq::empty(),
        };
        let base = seq![
            HeaderView::Via(via),
            HeaderView::CallId(call_id),
            HeaderView::From(from),
            HeaderView::To(to),
            HeaderView::CSeq(seq_num, Method::Invite),
            HeaderView::MaxForwards(70),
        ];
        let h1 = spec_unique_push(base, HeaderView::Contact(contact));
        let h2 = spec_unique_push(
            h1,
            HeaderView::ContentType(
                match opt.content_type {
                    Some(t) => t,
                    None => "application/sdp"@,
                },
            ),
        );
        let h3 = spec_unique_push_all(
            h2,
            match opt.headers {
                Some(e) => e,
                None => Seq::empty(),
            },
        );
        RequestView { method: Method::Invite, uri: opt.callee, headers: h3, body: Seq::empty() }
    }

    /// Assembles an initial INVITE per [`Self::spec_make_invite_request`],
    /// advancing the process-wide sequence space. The caller supplies the
    /// fresh `From` tag, `Call-ID` and `Via` branch.
    pub fn make_invite_request(
        &mut self,
        opt: &InviteOption,
        public_address: Option<SipAddr>,
        tag: String,
        call_id: String,
        branch: Option<String>,
    ) -> (r: Request)
        requires
            old(self)@.last_seq < u32::MAX,
        ensures
            r@ == Self::spec_make_invite_request(
                old(self)@,
                opt@,
                public_address.deep_view(),
                tag@,
                call_id@,
                branch.deep_view(),
            ),
            final(self)@ == (DialogLayerView {
                last_seq: (old(self)@.last_seq + 1) as u32,
                ..old(self)@
            }),
    {
        let ghost pre = self@;
        let seq_num = self.increment_last_seq();
        let a = match public_address {
            Some(p) => p,
            None => self.local_addr.dup(),
        };
        let via = Via {
            transport: match a.transport {
                Some(t) => t,
                None => Transport::Udp,
            },
            host: a.host,
            port: a.port,
            branch,
            params: Vec::new(),
        };
        assert(via@.params =~= Seq::<(Seq<char>, Option<Seq<char>>)>::empty());
        let from = NameAddr {
            display_name: None,
            uri: opt.caller.dup(),
            tag: Some(tag),
            params: Vec::new(),
        };
        assert(from@.params =~= Seq::<(Seq<char>, Option<Seq<char>>)>::empty());
        let to = NameAddr { display_name: None, uri: opt.callee.dup(), tag: None, params: Vec::new() };
        assert(to@.params =~= Seq::<(Seq<char>, Option<Seq<char>>)>::empty());
        let contact = NameAddr {
            display_name: None,
            uri: opt.contact.dup(),
            tag: None,
            params: Vec::new(),
        };
        assert(contact@.params =~= Seq::<(Seq<char>, Option<Seq<char>>)>::empty());
        let mut hs: Vec<Header> = Vec::new();
        hs.push(Header::Via(via));
        hs.push(Header::CallId(call_id));
        hs.push(Header::From(from));
        hs.push(Header::To(to));
        hs.push(Header::CSeq(seq_num, Method::Invite));
        hs.push(Header::MaxForwards(70));
        let ghost base = seq![
            HeaderView::Via(Self::spec_make_invite_request_via(pre, public_address.deep_view(), branch.deep_view())),
            HeaderView::CallId(call_id@),
            HeaderView::From(NameAddrView { display_name: None, uri: opt@.caller, tag: Some(tag@), params: Seq::empty() }),
            HeaderView::To(NameAddrView { display_name: None, uri: opt@.callee, tag: None, params: Seq::empty() }),
            HeaderView::CSeq((pre.last_seq + 1) as u32, Method::Invite),
            HeaderView::MaxForwards(70),
        ];
        assert(hs.deep_view() =~= base);
        unique_push(&mut hs, Header::Contact(contact));
        let ct = match &opt.content_type {
            Some(t) => t.clone(),
            None => "application/sdp".to_owned(),
        };
        unique_push(&mut hs, Header::ContentType(ct));
        let ghost h2 = hs.deep_view();
        match &opt.headers {
            Some(ex) => {
                let mut i: usize = 0;
                let ghost exv = ex.deep_view();
                assert(exv.skip(0) =~= exv);
                while i < ex.len()
                    invariant
                        i <= ex.len(),
                        exv == ex.deep_view(),
                        spec_unique_push_all(hs.deep_view(), exv.skip(i as int))
                            == spec_unique_push_all(h2, exv),
                    decreases ex.len() - i,
                {
                    let ghost hsv = hs.deep_view();
                    let ghost rest = exv.skip(i as int);
                    assert(rest[0] == exv[i as int]);
                    assert(rest.drop_first() =~= exv.skip(i as int + 1));
                    unique_push(&mut hs, ex[i].dup());
                    i += 1;
                }
                assert(exv.skip(i as int) =~= Seq::<HeaderView>::empty());
            },
            None => {},
        }
        assert(hs.deep_view() == spec_unique_push_all(h2, match opt@.headers {
            Some(e) => e,
            None => Seq::<HeaderView>::empty(),
        }));
        let r = Request { method: Method::Invite, uri: opt.callee.dup(), headers: hs, body: Vec::new() };
        assert(r@.body =~= Seq::<u8>::empty());
        r
    }

    /// The initial INVITE with its offer attached: the body and a
    /// `Content-Length` pushed with replacement.
    pub open spec fn spec_with_offer(req: RequestView, offer: Option<Seq<u8>>) -> RequestView {
        let body = match offer {
            Some(o) => o,
            None => Seq::empty(),
        };
        RequestView {
            headers: spec_unique_push(req.headers, HeaderView::ContentLength(body.len() as u32)),
            body: body,
            ..req
        }
    }

    /// Begins an outbound call: builds the INVITE with its offer, creates
    /// the client dialog under the provisional identity the request names
    /// (its `to_tag` still empty), stores the supplied public address on it
    /// so every later in-dialog `Via` advertises it, and registers it.
    /// Returns that identity and the request for the caller to send; the
    /// registry is rekeyed by [`Self::rekey_dialog`] once the peer tag is
    /// learned.
    pub fn start_invite(
        &mut self,
        opt: InviteOption,
        public_address: Option<SipAddr>,
        tag: String,
        call_id: String,
        branch: Option<String>,
    ) -> (r: Result<(DialogId, Request), DialogError>)
        requires
            old(self)@.last_seq < u32::MAX,
            (match opt@.offer {
                Some(o) => o.len(),
                None => 0,
            }) <= u32::MAX,
        ensures
            ({
                let built = Self::spec_with_offer(
                    Self::spec_make_invite_request(
                        old(self)@,
                        opt@,
                        public_address.deep_view(),
                        tag@,
                        call_id@,
                        branch.deep_view(),
                    ),
                    opt@.offer,
                );
                let bumped = DialogLayerView {
                    last_seq: (old(self)@.last_seq + 1) as u32,
                    ..old(self)@
                };
                match crate::ident::spec_id_from_request(built) {
                    None => r == Err::<(DialogId, Request), DialogError>(DialogError::BadIdentity)
                        && final(self)@ == bumped,
                    Some(idv) => match crate::dialog::spec_new_dialog(
                        TransactionRole::Client,
                        idv,
                        built,
                        old(self)@.local_addr,
                        old(self)@.user_agent,
                        0,
                        opt@.credential,
                        Some(opt@.contact),
                    ) {
                        Err(e) => r == Err::<(DialogId, Request), DialogError>(e) && final(self)@
                            == bumped,
                        Ok(v) => r matches Ok(pair) && pair.0@ == idv && pair.1@ == built
                            && final(self)@ == (DialogLayerView {
                            dialogs: spec_insert(
                                bumped.dialogs,
                                idv,
                                DialogView::ClientInvite(
                                    crate::dialog::DialogInnerView {
                                        public_address: public_address.deep_view(),
                                        ..v
                                    },
                                ),
                            ),
                            ..bumped
                        }),
                    },
                }
            }),
    {
        let via_address = match &public_address {
            Some(p) => Some(p.dup()),
            None => None,
        };
        let mut req = self.make_invite_request(
            &opt,
            via_address,
            tag,
            call_id,
            branch,
        );
        let body: Vec<u8> = match &opt.offer {
            Some(o) => crate::msg::dup_body(o),
            None => Vec::new(),
        };
        assert(body@ =~= (match opt@.offer {
            Some(o) => o,
            None => Seq::<u8>::empty(),
        }));
        unique_push(&mut req.headers, Header::ContentLength(body.len() as u32));
        req.body = body;
        let id = match DialogId::from_request(&req) {
            Some(id) => id,
            None => {
                return Err(DialogError::BadIdentity);
            },
        };
        let inner = match DialogInner::new(
            TransactionRole::Client,
            id.dup(),
            req.dup(),
            self.local_addr.dup(),
            self.user_agent.clone(),
            0,
            opt.credential,
            Some(opt.contact),
        ) {
            Ok(inner) => inner,
            Err(e) => {
                return Err(e);
            },
        };
        let mut inner = inner;
        match public_address {
            Some(p) => {
                inner.set_public_address(p);
            },
            None => {},
        }
        let dialog = Dialog::ClientInvite(ClientInviteDialog { inner });
        self.insert_dialog(id.dup(), dialog);
        Ok((id, req))
    }

    /// The `Via` an outbound INVITE advertises.
    pub open spec fn spec_make_invite_request_via(
        pre: DialogLayerView,
        public_address: Option<SipAddrView>,
        branch: Option<Seq<char>>,
    ) -> crate::msg::ViaView {
        let a = match public_address {
            Some(p) => p,
            None => pre.local_addr,
        };
        crate::msg::ViaView {
            transport: match a.transport {
                Some(t) => t,
                None => Transport::Udp,
            },
            host: a.host,
            port: a.port,
            branch: branch,
            params: Seq::empty(),
        }
    }
}

/// Takes the registry entries out of their slot, leaving it empty.
fn core_take_entries(slot: &mut Vec<(DialogId, Dialog)>) -> (r: Vec<(DialogId, Dialog)>)
    ensures
        r.deep_view() == old(slot).deep_view(),
        final(slot).deep_view() == Seq::<(DialogIdView, DialogView)>::empty(),
{
    let mut out: Vec<(DialogId, Dialog)> = Vec::new();
    core::mem::swap(&mut out, slot);
    assert(slot.deep_view() =~= Seq::<(DialogIdView, DialogView)>::empty());
    out
}

} // verus!
