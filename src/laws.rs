//! Properties of the push controller that span several steps.

use crate::credential::CredentialView;
use crate::progress::{projection, snapshot_wf, PushProgress};
use crate::push::{
    failure_message, ActionView, AsyncNotification, PushView, DEFAULT_REMOTE_NAME,
};
use vstd::prelude::*;

verus! {

/// A notification changes nothing and asks for nothing unless it is a push
/// notification arriving while the controller is shown.
pub proof fn lemma_notification_filtered(s: PushView, ev: AsyncNotification)
    requires
        !s.visible || ev != AsyncNotification::Push,
    ensures
        s.on_notification(ev) == ActionView::Wait,
{
}

/// When the remote needs authentication and the stored credential is
/// incomplete, a push shows the prompt holding that credential and submits
/// nothing.
pub proof fn lemma_credential_gate(s: PushView, branch: Seq<char>, stored: CredentialView)
    requires
        s.wf(),
        !stored.complete(),
    ensures
        ({
            let s1 = s.started(branch);
            let (s2, a2) = s1.on_authentication(true);
            let (s3, a3) = s2.on_stored_credential(Some(stored));
            &&& a2 == ActionView::ExtractCredential
            &&& a3 == ActionView::Wait
            &&& s3.visible
            &&& !s3.pending
            &&& s3.prompt.visible
            &&& s3.prompt.cred == stored
            &&& s3.wf()
        }),
{
}

/// When the credential store fails, the prompt is shown empty.
pub proof fn lemma_store_failure_prompts_empty(s: PushView, branch: Seq<char>)
    requires
        s.wf(),
    ensures
        ({
            let (s2, _) = s.started(branch).on_authentication(true);
            let (s3, a3) = s2.on_stored_credential(None);
            &&& a3 == ActionView::Wait
            &&& s3.visible
            &&& !s3.pending
            &&& s3.prompt.visible
            &&& s3.prompt.cred == CredentialView::empty()
        }),
{
}

/// Without authentication a push submits the target branch to the default
/// remote with no credential, and the transfer is tracked.
pub proof fn lemma_direct_path(s: PushView, branch: Seq<char>)
    requires
        s.wf(),
    ensures
        ({
            let (s2, a2) = s.started(branch).on_authentication(false);
            &&& s2.pending
            &&& s2.visible
            &&& s2.wf()
            &&& a2 == ActionView::Submit(
                crate::push::RequestView {
                    remote: DEFAULT_REMOTE_NAME@,
                    branch: branch,
                    credential: None,
                },
            )
        }),
{
}

/// After a rejected submission no transfer is tracked, whatever came before,
/// and in particular right after a request was marked as submitted.
pub proof fn lemma_submission_rollback(s: PushView)
    ensures
        !s.on_submit_result(false).pending,
        !s.requested().on_submit_result(false).pending,
        s.wf() ==> s.on_submit_result(false).wf(),
{
}

/// A push whose authentication check fails leaves the controller shown with
/// the new branch recorded, and everything else as it was: a transfer it
/// tracked is still tracked.
pub proof fn lemma_failed_check_changes_little(s: PushView, branch: Seq<char>)
    requires
        s.wf(),
    ensures
        s.started(branch) == (PushView { visible: true, branch, ..s }),
        s.started(branch).pending == s.pending,
        s.started(branch).progress == s.progress,
        s.started(branch).events == s.events,
        s.started(branch).wf(),
{
}

/// A push that gets past the authentication check clears what was tracked
/// before: asking for the stored credential leaves no transfer pending and
/// no progress, and submitting directly starts afresh.
pub proof fn lemma_push_resets_tracking(s: PushView, branch: Seq<char>, needed: bool)
    requires
        s.wf(),
    ensures
        ({
            let (s2, _) = s.started(branch).on_authentication(needed);
            &&& s2.progress is None
            &&& s2.pending == !needed
            &&& s2.branch == branch
        }),
{
}

/// A transfer that finishes without error, seen on the poll that a
/// notification asks for, closes the controller and queues nothing. A
/// notification that asks for no poll changes nothing.
pub proof fn lemma_success_is_silent(
    s: PushView,
    ev: AsyncNotification,
    progress: Option<PushProgress>,
)
    requires
        s.wf(),
        snapshot_wf(progress),
    ensures
        s.on_notification(ev) == ActionView::Poll ==> ({
            let (s1, a1) = s.on_poll(false, progress);
            let s2 = s1.on_last_result(None);
            &&& a1 == ActionView::FetchLastResult
            &&& s2.events == s.events
            &&& !s2.visible
            &&& s2.wf()
        }),
        s.on_notification(ev) != ActionView::Poll ==> s.on_notification(ev) == ActionView::Wait,
{
}

/// A transfer that finishes with an error, seen on the poll that a
/// notification asks for, closes the controller and queues exactly one
/// failure, whose message ends with the error's text.
pub proof fn lemma_failure_is_reported(
    s: PushView,
    ev: AsyncNotification,
    progress: Option<PushProgress>,
    err: Seq<char>,
)
    requires
        s.wf(),
        snapshot_wf(progress),
    ensures
        s.on_notification(ev) == ActionView::Poll ==> ({
            let (s1, a1) = s.on_poll(false, progress);
            let s2 = s1.on_last_result(Some(err));
            let m = s2.events.last();
            &&& a1 == ActionView::FetchLastResult
            &&& s2.events == s.events.push(failure_message(err))
            &&& s2.events.len() == s.events.len() + 1
            &&& m.subrange(m.len() - err.len(), m.len() as int) == err
            &&& !s2.visible
            &&& s2.wf()
        }),
{
    let m = failure_message(err);
    assert(m.subrange(m.len() - err.len(), m.len() as int) =~= err);
}

/// Every snapshot, and its absence, is shown with a percentage of at most
/// 100; a present snapshot's percentage is shown unchanged.
pub proof fn lemma_projection_in_range(p: Option<PushProgress>)
    requires
        snapshot_wf(p),
    ensures
        projection(p).1 <= 100,
        p matches Some(s) ==> projection(p).1 == s.progress,
        p is None ==> projection(p).1 == 0,
{
}

} // verus!
