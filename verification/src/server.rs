//! The server (UAS) side of an INVITE dialog: answering the initial INVITE,
//! waiting for its ACK, and handling mid-dialog requests.
use vstd::prelude::*;
use crate::dialog::{
    DialogError, DialogInner, DialogInnerView, DialogState, DialogStateView, TerminatedReason,
};
use crate::msg::{spec_cseq, Header, Method, Request, RequestView, Response};

verus! {

/// A server INVITE dialog around the shared core.
#[derive(Debug)]
pub struct ServerInviteDialog {
    pub inner: DialogInner,
}

/// The terminal reason a server dialog records for a final non-2xx answer it
/// sends: `486` is this side busy, `603` this side declining, anything else
/// the catch-all with the status code.
pub open spec fn spec_uas_reject_reason(status: u16) -> TerminatedReason {
    if status == 486 {
        TerminatedReason::UasBusy
    } else if status == 603 {
        TerminatedReason::UasDecline
    } else {
        TerminatedReason::UasOther(Some(status))
    }
}

impl ServerInviteDialog {
    /// Answers the initial INVITE with `180 Ringing` and moves the dialog to
    /// `Early`.
    pub fn ringing(&mut self, headers: Option<Vec<Header>>) -> (r: Response)
        ensures
            r@ == DialogInner::spec_make_response(
                old(self).inner@,
                old(self).inner@.initial_request,
                180,
                headers.deep_view(),
                None,
            ),
            final(self).inner@ == DialogInner::spec_transition(
                old(self).inner@,
                DialogStateView::Early(old(self).inner@.id, r@),
            ),
    {
        let resp = self.inner.make_response(&self.inner.initial_request.dup(), 180, headers, None);
        let id = self.inner.id.dup();
        let stored = resp.dup();
        self.inner.transition(DialogState::Early(id, stored));
        resp
    }

    /// Answers the initial INVITE with `183 Session Progress` and moves the
    /// dialog to `Early`.
    pub fn progress(&mut self, headers: Option<Vec<Header>>, body: Option<Vec<u8>>) -> (r:
        Response)
        requires
            body matches Some(b) ==> b@.len() <= u32::MAX,
        ensures
            r@ == DialogInner::spec_make_response(
                old(self).inner@,
                old(self).inner@.initial_request,
                183,
                headers.deep_view(),
                body.deep_view(),
            ),
            final(self).inner@ == DialogInner::spec_transition(
                old(self).inner@,
                DialogStateView::Early(old(self).inner@.id, r@),
            ),
    {
        let resp = self.inner.make_response(&self.inner.initial_request.dup(), 183, headers, body);
        let id = self.inner.id.dup();
        let stored = resp.dup();
        self.inner.transition(DialogState::Early(id, stored));
        resp
    }

    /// Accepts the call: answers the initial INVITE with `200 OK` and moves
    /// the dialog to `WaitAck`, where it stays until the peer's ACK arrives.
    pub fn accept(&mut self, headers: Option<Vec<Header>>, body: Option<Vec<u8>>) -> (r: Response)
        requires
            body matches Some(b) ==> b@.len() <= u32::MAX,
        ensures
            r@ == DialogInner::spec_make_response(
                old(self).inner@,
                old(self).inner@.initial_request,
                200,
                headers.deep_view(),
                body.deep_view(),
            ),
            final(self).inner@ == DialogInner::spec_transition(
                old(self).inner@,
                DialogStateView::WaitAck(old(self).inner@.id, r@),
            ),
    {
        let resp = self.inner.make_response(&self.inner.initial_request.dup(), 200, headers, body);
        let id = self.inner.id.dup();
        let stored = resp.dup();
        self.inner.transition(DialogState::WaitAck(id, stored));
        resp
    }

    /// Rejects the call: answers the initial INVITE with the given final
    /// status and terminates the dialog with the reason
    /// [`spec_uas_reject_reason`] gives.
    pub fn reject(&mut self, status: u16, headers: Option<Vec<Header>>) -> (r: Response)
        requires
            300 <= status,
        ensures
            r@ == DialogInner::spec_make_response(
                old(self).inner@,
                old(self).inner@.initial_request,
                status,
                headers.deep_view(),
                None,
            ),
            final(self).inner@ == DialogInner::spec_transition(
                old(self).inner@,
                DialogStateView::Terminated(old(self).inner@.id, spec_uas_reject_reason(status)),
            ),
    {
        let resp = self.inner.make_response(
            &self.inner.initial_request.dup(),
            status,
            headers,
            None,
        );
        let why = if status == 486 {
            TerminatedReason::UasBusy
        } else if status == 603 {
            TerminatedReason::UasDecline
        } else {
            TerminatedReason::UasOther(Some(status))
        };
        let id = self.inner.id.dup();
        self.inner.transition(DialogState::Terminated(id, why));
        resp
    }

    /// Builds the BYE for an established dialog and terminates it with
    /// `UasBye`. Permitted only once the dialog is confirmed; the BYE
    /// advances the local sequence space.
    pub fn bye(&mut self, branch: Option<String>) -> (r: Result<Request, DialogError>)
        requires
            old(self).inner@.local_seq < u32::MAX,
        ensures
            crate::dialog::spec_bye_post(
                old(self).inner@,
                final(self).inner@,
                r,
                branch.deep_view(),
                TerminatedReason::UasBye,
            ),
    {
        if !self.inner.is_confirmed() {
            return Err(DialogError::NotConfirmed);
        }
        let req = self.inner.make_request(Method::Bye, None, None, branch, None, None);
        let id = self.inner.id.dup();
        self.inner.transition(DialogState::Terminated(id, TerminatedReason::UasBye));
        Ok(req)
    }
}

/// The transient event a mid-dialog request publishes, when its method has
/// one.
pub open spec fn spec_transient_event(
    id: crate::ident::DialogIdView,
    method: Method,
    req: RequestView,
) -> Option<DialogStateView> {
    match method {
        Method::Update => Some(DialogStateView::Updated(id, req)),
        Method::Notify => Some(DialogStateView::Notify(id, req)),
        Method::Info => Some(DialogStateView::Info(id, req)),
        Method::Options => Some(DialogStateView::Options(id, req)),
        _ => None,
    }
}

/// What [`DialogInner::handle_inbound`] leaves behind and returns: an ACK
/// confirms a dialog waiting for one and gets no reply; any other request
/// without a `CSeq` is an error; one whose `CSeq` is not strictly above the
/// stored remote sequence number is answered `500` with the dialog
/// unchanged; in order, the remote sequence number is updated, a BYE
/// terminates the dialog with `UasBye`, an UPDATE, NOTIFY, INFO or OPTIONS
/// publishes its transient event, and the reply is `200 OK`.
pub open spec fn spec_handle_inbound_post(
    pre: DialogInnerView,
    req: RequestView,
    post: DialogInnerView,
    r: Result<Option<Response>, DialogError>,
) -> bool {
    &&& (req.method is Ack ==> r == Ok::<Option<Response>, DialogError>(None) && post == (
    if pre.state is WaitAck {
        DialogInner::spec_transition(pre, DialogStateView::Confirmed(pre.id))
    } else {
        pre
    }))
    &&& (!(req.method is Ack) && spec_cseq(req.headers) is None ==> r == Err::<
        Option<Response>,
        DialogError,
    >(DialogError::MissingCSeq) && post == pre)
    &&& (!(req.method is Ack) && (match spec_cseq(req.headers) {
        Some((n, _)) => n <= pre.remote_seq,
        None => false,
    }) ==> (r matches Ok(rr) && rr matches Some(resp) && resp@ == DialogInner::spec_make_response(
        pre,
        req,
        500,
        None,
        None,
    ) && post == pre))
    &&& (!(req.method is Ack) && (match spec_cseq(req.headers) {
        Some((n, _)) => n > pre.remote_seq,
        None => false,
    }) ==> {
        let n = (spec_cseq(req.headers)->0).0;
        let bumped = DialogInnerView { remote_seq: n, ..pre };
        let stepped = if req.method is Bye {
            DialogInner::spec_transition(
                bumped,
                DialogStateView::Terminated(bumped.id, TerminatedReason::UasBye),
            )
        } else {
            match spec_transient_event(bumped.id, req.method, req) {
                Some(ev) => DialogInner::spec_transition(bumped, ev),
                None => bumped,
            }
        };
        &&& post == stepped
        &&& (r matches Ok(rr) && rr matches Some(resp) && resp@ == DialogInner
            ::spec_make_response(pre, req, 200, None, None))
    })
}

impl DialogInner {
    /// Handles a mid-dialog inbound request, per
    /// [`spec_handle_inbound_post`].
    pub fn handle_inbound(&mut self, req: &Request) -> (r: Result<Option<Response>, DialogError>)
        ensures
            spec_handle_inbound_post(old(self)@, req@, final(self)@, r),
    {
        if matches!(req.method, Method::Ack) {
            if matches!(self.state, DialogState::WaitAck(_, _)) {
                let id = self.id.dup();
                self.transition(DialogState::Confirmed(id));
            }
            return Ok(None);
        }
        let n = match crate::msg::find_cseq(&req.headers) {
            Some((n, _)) => n,
            None => {
                return Err(DialogError::MissingCSeq);
            },
        };
        if n <= self.remote_seq {
            let resp = self.make_response(req, 500, None, None);
            return Ok(Some(resp));
        }
        self.remote_seq = n;
        let resp = self.make_response(req, 200, None, None);
        let id = self.id.dup();
        match req.method {
            Method::Bye => {
                self.transition(DialogState::Terminated(id, TerminatedReason::UasBye));
            },
            Method::Update => {
                self.transition(DialogState::Updated(id, req.dup()));
            },
            Method::Notify => {
                self.transition(DialogState::Notify(id, req.dup()));
            },
            Method::Info => {
                self.transition(DialogState::Info(id, req.dup()));
            },
            Method::Options => {
                self.transition(DialogState::Options(id, req.dup()));
            },
            _ => {},
        }
        Ok(Some(resp))
    }
}

} // verus!
