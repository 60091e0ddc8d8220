//! Dialog identity: the `(Call-ID, from-tag, to-tag)` triple that names a
//! dialog, and its derivation from requests and responses.
use vstd::prelude::*;
use crate::msg::{spec_call_id, spec_from, spec_to, find_call_id, find_from, find_to};
use crate::msg::{NameAddrView, Request, RequestView, Response, ResponseView};

verus! {

/// Which side of a transaction this user agent plays.
#[derive(Clone, Copy, Debug, PartialEq, Eq, Structural)]
pub enum TransactionRole {
    Client,
    Server,
}

/// Specification view of a [`DialogId`].
pub struct DialogIdView {
    pub call_id: Seq<char>,
    pub from_tag: Seq<char>,
    pub to_tag: Seq<char>,
}

/// The identity of a dialog. `to_tag` is empty until the peer provides it;
/// equality is over all three fields.
#[derive(Debug, PartialEq, Eq)]
pub struct DialogId {
    pub call_id: String,
    pub from_tag: String,
    pub to_tag: String,
}

impl View for DialogId {
    type V = DialogIdView;

    open spec fn view(&self) -> DialogIdView {
        DialogIdView { call_id: self.call_id@, from_tag: self.from_tag@, to_tag: self.to_tag@ }
    }
}

/// The tag of an optional address, or the empty string when the address or
/// its tag is missing.
pub open spec fn spec_tag_or_empty(n: Option<NameAddrView>) -> Seq<char> {
    match n {
        Some(a) => match a.tag {
            Some(t) => t,
            None => Seq::empty(),
        },
        None => Seq::empty(),
    }
}

/// The identity a request names: its `Call-ID`, its `From` tag and its `To`
/// tag, the missing tags read as empty. `None` when the request has no
/// `Call-ID`, `From` or `To` header.
pub open spec fn spec_id_from_request(req: RequestView) -> Option<DialogIdView> {
    match (spec_call_id(req.headers), spec_from(req.headers), spec_to(req.headers)) {
        (Some(cid), Some(f), Some(t)) => Some(
            DialogIdView {
                call_id: cid,
                from_tag: spec_tag_or_empty(Some(f)),
                to_tag: spec_tag_or_empty(Some(t)),
            },
        ),
        _ => None,
    }
}

/// The identity a response names for the given role. For a client the `From`
/// tag is this agent's tag; for a server the positions swap. `None` when the
/// response has no `Call-ID`, `From` or `To` header.
pub open spec fn spec_id_from_response(resp: ResponseView, role: TransactionRole) -> Option<
    DialogIdView,
> {
    match (spec_call_id(resp.headers), spec_from(resp.headers), spec_to(resp.headers)) {
        (Some(cid), Some(f), Some(t)) => {
            let ft = spec_tag_or_empty(Some(f));
            let tt = spec_tag_or_empty(Some(t));
            match role {
                TransactionRole::Client => Some(
                    DialogIdView { call_id: cid, from_tag: ft, to_tag: tt },
                ),
                TransactionRole::Server => Some(
                    DialogIdView { call_id: cid, from_tag: tt, to_tag: ft },
                ),
            }
        },
        _ => None,
    }
}

/// Extracts the tag of an optional address, the missing tag read as empty.
fn tag_or_empty(n: &Option<crate::msg::NameAddr>) -> (r: String)
    ensures
        r@ == spec_tag_or_empty(n.deep_view()),
{
    match n {
        Some(a) => match &a.tag {
            Some(t) => t.clone(),
            None => String::new(),
        },
        None => String::new(),
    }
}

impl DialogId {
    /// Copies the identity, preserving its view.
    pub fn dup(&self) -> (r: DialogId)
        ensures
            r@ == self@,
    {
        DialogId {
            call_id: self.call_id.clone(),
            from_tag: self.from_tag.clone(),
            to_tag: self.to_tag.clone(),
        }
    }

    /// Whether two identities are equal, field for field.
    pub fn same_as(&self, other: &DialogId) -> (r: bool)
        ensures
            r == (self@ == other@),
    {
        let r = self.call_id.eq(&other.call_id) && self.from_tag.eq(&other.from_tag)
            && self.to_tag.eq(&other.to_tag);
        r
    }

    /// The identity named by a request, per [`spec_id_from_request`].
    pub fn from_request(req: &Request) -> (r: Option<DialogId>)
        ensures
            r.deep_view() == spec_id_from_request(req@),
    {
        let cid = find_call_id(&req.headers);
        let f = find_from(&req.headers);
        let t = find_to(&req.headers);
        match (cid, f, t) {
            (Some(cid), Some(f), Some(t)) => Some(
                DialogId {
                    call_id: cid,
                    from_tag: tag_or_empty(&Some(f)),
                    to_tag: tag_or_empty(&Some(t)),
                },
            ),
            _ => None,
        }
    }

    /// The identity named by a response for the given role, per
    /// [`spec_id_from_response`].
    pub fn from_response(resp: &Response, role: TransactionRole) -> (r: Option<DialogId>)
        ensures
            r.deep_view() == spec_id_from_response(resp@, role),
    {
        let cid = find_call_id(&resp.headers);
        let f = find_to(&resp.headers);
        let t = find_from(&resp.headers);
        match (cid, f, t) {
            (Some(cid), Some(to_addr), Some(from_addr)) => {
                let ft = tag_or_empty(&Some(from_addr));
                let tt = tag_or_empty(&Some(to_addr));
                match role {
                    TransactionRole::Client => Some(
                        DialogId { call_id: cid, from_tag: ft, to_tag: tt },
                    ),
                    TransactionRole::Server => Some(
                        DialogId { call_id: cid, from_tag: tt, to_tag: ft },
                    ),
                }
            },
            _ => None,
        }
    }

    /// The canonical `call-id-from-tag-to-tag` rendering of the identity.
    pub fn to_text(&self) -> (r: String)
        ensures
            r@ == self@.call_id + "-"@ + self@.from_tag + "-"@ + self@.to_tag,
    {
        let r = self.call_id.clone().concat("-").concat(self.from_tag.as_str()).concat(
            "-",
        ).concat(self.to_tag.as_str());
        assert(r@ =~= self@.call_id + "-"@ + self@.from_tag + "-"@ + self@.to_tag);
        r
    }
}

impl DeepView for DialogId {
    type V = DialogIdView;

    open spec fn deep_view(&self) -> DialogIdView {
        self.view()
    }
}

} // verus!
