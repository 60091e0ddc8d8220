//! The client (UAC) side of an INVITE dialog: driving the initial INVITE
//! through its states, learning the peer tag, acknowledging a 2xx, and the
//! CANCEL and BYE operations.
use vstd::prelude::*;
use crate::dialog::{
    spec_is_confirmed, DialogError, DialogInner, DialogInnerView, DialogState, DialogStateView,
    TerminatedReason,
};
use crate::ident::DialogIdView;
use crate::msg::{
    spec_cseq, spec_record_routes, spec_to, Method, NameAddrView, Request, Response, ResponseView,
    Uri,
};

verus! {

/// A client INVITE dialog around the shared core.
#[derive(Debug)]
pub struct ClientInviteDialog {
    pub inner: DialogInner,
}

/// What the INVITE drive loop should do after a non-challenge response.
#[derive(Debug)]
pub enum InviteStep {
    /// A provisional answer was handled: keep waiting.
    Proceeding,
    /// The call was answered: send this ACK, the dialog is confirmed.
    Accepted(Request),
    /// A final non-2xx answer ended the dialog.
    Rejected(TerminatedReason),
    /// The answer lacked a header the dialog needs.
    Errored(DialogError),
}

/// The terminal reason a client dialog records for a final non-2xx answer:
/// `486` is the peer busy, `603` the peer declining, anything else the
/// catch-all with the status code.
pub open spec fn spec_uac_reject_reason(status: u16) -> TerminatedReason {
    if status == 486 {
        TerminatedReason::UacBusy
    } else if status == 603 {
        TerminatedReason::UasDecline
    } else {
        TerminatedReason::UacOther(Some(status))
    }
}

/// The tag the peer offers in a response's `To` header, if any.
pub open spec fn spec_response_to_tag(resp: ResponseView) -> Option<Seq<char>> {
    match spec_to(resp.headers) {
        Some(t) => t.tag,
        None => None,
    }
}

/// Tag learning is monotonic: once a non-empty `to_tag` is installed, no
/// later learning replaces it — a response carrying a different tag leaves
/// the dialog untouched (the first fork wins). The first non-empty tag
/// offered to a dialog without one is installed in its identity and its `To`
/// value.
pub proof fn lemma_tag_learning_monotonic(pre: DialogInnerView, t: Option<Seq<char>>)
    ensures
        pre.id.to_tag.len() > 0 ==> ClientInviteDialog::spec_learn_tag(pre, t) == pre,
        pre.id.to_tag.len() == 0 && (t matches Some(tag) && tag.len() > 0) ==> {
            let learned = ClientInviteDialog::spec_learn_tag(pre, t);
            learned.id.to_tag == t->0 && learned.to.tag == Some(t->0)
        },
{
}

impl ClientInviteDialog {
    /// The dialog core after learning the peer tag `t` (empty or already
    /// learned tags change nothing).
    pub open spec fn spec_learn_tag(pre: DialogInnerView, t: Option<Seq<char>>) -> DialogInnerView {
        match t {
            Some(tag) => if pre.id.to_tag.len() == 0 && tag.len() > 0 {
                DialogInnerView {
                    id: DialogIdView { to_tag: tag, ..pre.id },
                    to: NameAddrView { tag: Some(tag), ..pre.to },
                    ..pre
                }
            } else {
                pre
            },
            None => pre,
        }
    }

    /// Learns the peer tag carried by a response, if any.
    fn learn_tag_from(&mut self, resp: &Response)
        ensures
            final(self).inner@ == Self::spec_learn_tag(
                old(self).inner@,
                spec_response_to_tag(resp@),
            ),
    {
        match crate::msg::find_to(&resp.headers) {
            Some(t) => match &t.tag {
                Some(tag) => {
                    self.inner.update_remote_tag(tag);
                },
                None => {},
            },
            None => {},
        }
    }

    /// Drives the initial INVITE one step for a response that is not a
    /// challenge (the send loop answers `401`/`407` through
    /// [`DialogInner::on_request_response`]).
    ///
    /// `100` moves the dialog to `Trying`; `180`/`183` learn the peer tag and
    /// move it to `Early`; any other provisional answer is waited through
    /// unchanged; a 2xx learns the tag, installs the route set from the
    /// response's `Record-Route` headers in reverse order, moves the dialog
    /// to `Confirmed`, and returns the ACK to send, carrying the INVITE's
    /// own `CSeq` number; any other final answer terminates the dialog with
    /// the reason [`spec_uac_reject_reason`] gives.
    pub fn on_invite_response(&mut self, resp: Response, ack_branch: Option<String>) -> (r:
        InviteStep)
        requires
            old(self).inner@.local_seq < u32::MAX,
        ensures
            resp@.status == 100 ==> r is Proceeding && final(self).inner@ == DialogInner
                ::spec_transition(
                old(self).inner@,
                DialogStateView::Trying(old(self).inner@.id),
            ),
            resp@.status != 100 && resp@.status != 180 && resp@.status != 183 && resp@.status < 200
                ==> r is Proceeding && final(self).inner@ == old(self).inner@,
            resp@.status == 180 || resp@.status == 183 ==> r is Proceeding && final(self).inner@
                == {
                let learned = Self::spec_learn_tag(old(self).inner@, spec_response_to_tag(resp@));
                DialogInner::spec_transition(learned, DialogStateView::Early(learned.id, resp@))
            },
            200 <= resp@.status < 300 ==> {
                let learned = Self::spec_learn_tag(old(self).inner@, spec_response_to_tag(resp@));
                let routed = DialogInnerView {
                    route_set: spec_record_routes(resp@.headers).reverse(),
                    ..learned
                };
                let confirmed = DialogInner::spec_transition(
                    routed,
                    DialogStateView::Confirmed(routed.id),
                );
                match spec_cseq(old(self).inner@.initial_request.headers) {
                    Some((n, _)) => r matches InviteStep::Accepted(ack) && final(self).inner@
                        == confirmed && ack@ == DialogInner::spec_make_request(
                        confirmed,
                        Method::Ack,
                        Some(n),
                        None,
                        ack_branch.deep_view(),
                        Seq::empty(),
                        None,
                    ),
                    None => r matches InviteStep::Errored(e) && e == DialogError::MissingCSeq
                        && final(self).inner@ == confirmed,
                }
            },
            300 <= resp@.status ==> (r matches InviteStep::Rejected(why) && why
                == spec_uac_reject_reason(resp@.status) && final(self).inner@ == DialogInner
                ::spec_transition(
                old(self).inner@,
                DialogStateView::Terminated(old(self).inner@.id, spec_uac_reject_reason(
                    resp@.status,
                )),
            )),
    {
        if resp.status == 100 {
            let id = self.inner.id.dup();
            self.inner.transition(DialogState::Trying(id));
            return InviteStep::Proceeding;
        }
        if resp.status == 180 || resp.status == 183 {
            self.learn_tag_from(&resp);
            let id = self.inner.id.dup();
            self.inner.transition(DialogState::Early(id, resp));
            return InviteStep::Proceeding;
        }
        if resp.status < 200 {
            return InviteStep::Proceeding;
        }
        if 200 <= resp.status && resp.status < 300 {
            self.learn_tag_from(&resp);
            let routes = crate::msg::collect_record_routes(&resp.headers);
            let mut reversed: Vec<Uri> = Vec::new();
            let mut i: usize = routes.len();
            while i > 0
                invariant
                    i <= routes.len(),
                    reversed.deep_view() =~= routes.deep_view().skip(i as int).reverse(),
                decreases i,
            {
                i -= 1;
                let ghost before = reversed.deep_view();
                reversed.push(routes[i].dup());
                assert(reversed.deep_view() =~= before.push(routes.deep_view()[i as int]));
                assert(routes.deep_view().skip(i as int).reverse() =~= routes.deep_view().skip(
                    i as int + 1,
                ).reverse().push(routes.deep_view()[i as int]));
            }
            assert(routes.deep_view().skip(0) =~= routes.deep_view());
            self.inner.route_set = reversed;
            assert(self.inner@ == (DialogInnerView {
                route_set: spec_record_routes(resp@.headers).reverse(),
                ..Self::spec_learn_tag(old(self).inner@, spec_response_to_tag(resp@))
            }));
            let id = self.inner.id.dup();
            self.inner.transition(DialogState::Confirmed(id));
            let invite_cseq = match crate::msg::find_cseq(&self.inner.initial_request.headers) {
                Some((n, _)) => n,
                None => {
                    return InviteStep::Errored(DialogError::MissingCSeq);
                },
            };
            let ack = self.inner.make_request(
                Method::Ack,
                Some(invite_cseq),
                None,
                ack_branch,
                None,
                None,
            );
            return InviteStep::Accepted(ack);
        }
        let why = if resp.status == 486 {
            TerminatedReason::UacBusy
        } else if resp.status == 603 {
            TerminatedReason::UasDecline
        } else {
            TerminatedReason::UacOther(Some(resp.status))
        };
        let id = self.inner.id.dup();
        self.inner.transition(DialogState::Terminated(id, why));
        InviteStep::Rejected(why)
    }

    /// Builds the CANCEL for the initial INVITE and terminates the dialog
    /// with `UacCancel`. Permitted only before the dialog is confirmed; the
    /// CANCEL reuses the INVITE's own `CSeq` number.
    pub fn cancel(&mut self, branch: Option<String>) -> (r: Result<Request, DialogError>)
        ensures
            crate::dialog::spec_cancel_post(
                old(self).inner@,
                final(self).inner@,
                r,
                branch.deep_view(),
            ),
    {
        if self.inner.is_confirmed() {
            return Err(DialogError::AlreadyConfirmed);
        }
        let invite_cseq = match crate::msg::find_cseq(&self.inner.initial_request.headers) {
            Some((n, _)) => n,
            None => {
                return Err(DialogError::MissingCSeq);
            },
        };
        let req = self.inner.make_request(
            Method::Cancel,
            Some(invite_cseq),
            None,
            branch,
            None,
            None,
        );
        let id = self.inner.id.dup();
        self.inner.transition(DialogState::Terminated(id, TerminatedReason::UacCancel));
        Ok(req)
    }

    /// Builds the BYE for an established dialog and terminates it with
    /// `UacBye`. Permitted only once the dialog is confirmed; the BYE
    /// advances the local sequence space.
    pub fn bye(&mut self, branch: Option<String>) -> (r: Result<Request, DialogError>)
        requires
            old(self).inner@.local_seq < u32::MAX,
        ensures
            crate::dialog::spec_bye_post(
                old(self).inner@,
                final(self).inner@,
                r,
                branch.deep_view(),
                TerminatedReason::UacBye,
            ),
    {
        if !self.inner.is_confirmed() {
            return Err(DialogError::NotConfirmed);
        }
        let req = self.inner.make_request(Method::Bye, None, None, branch, None, None);
        let id = self.inner.id.dup();
        self.inner.transition(DialogState::Terminated(id, TerminatedReason::UacBye));
        Ok(req)
    }

    /// Ends the call whatever its progress: BYE once confirmed, CANCEL
    /// before.
    pub fn hangup(&mut self, branch: Option<String>) -> (r: Result<Request, DialogError>)
        requires
            old(self).inner@.local_seq < u32::MAX,
        ensures
            spec_is_confirmed(old(self).inner@.state) ==> crate::dialog::spec_bye_post(
                old(self).inner@,
                final(self).inner@,
                r,
                branch.deep_view(),
                TerminatedReason::UacBye,
            ),
            !spec_is_confirmed(old(self).inner@.state) ==> crate::dialog::spec_cancel_post(
                old(self).inner@,
                final(self).inner@,
                r,
                branch.deep_view(),
            ),
    {
        if self.inner.is_confirmed() {
            self.bye(branch)
        } else {
            self.cancel(branch)
        }
    }
}

} // verus!
