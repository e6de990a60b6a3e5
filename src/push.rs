//! The push controller: it tracks one transfer at a time, from the user's
//! request through credential entry to the engine's final result.
//!
//! Every step that needs the outside world returns an [`Action`]. The caller
//! carries it out and hands the outcome back through the matching method:
//!
//! | action                 | outcome handed back to      |
//! |------------------------|-----------------------------|
//! | `CheckAuthentication`  | `on_authentication`         |
//! | `ExtractCredential`    | `on_stored_credential`      |
//! | `Submit(request)`      | `on_submit_result`          |
//! | `Poll`                 | `on_poll`                   |
//! | `FetchLastResult`      | `on_last_result`            |
//!
//! A failed query is the caller's own error and is returned to its caller;
//! only a rejected submission is handed back, so that the controller stops
//! believing a transfer is running.
//!
//! The controller tracks at most one transfer. A new push rebinds it to the
//! new branch and clears what it knew; it does not tell apart notifications
//! of an earlier transfer that is still running in the engine. Closing the
//! controller stops the tracking but not the engine.

use crate::credential::{CredComponent, CredView, Credential, CredentialView};
use crate::input::{
    visibility_blocking, Command, CommandBlocking, CommandInfo, InputEvent, Key,
};
use crate::progress::{snapshot_wf, PushProgress};
use vstd::prelude::*;

verus! {

/// The remote every push goes to.
pub const DEFAULT_REMOTE_NAME: &'static str = "origin";

/// A wake-up from background work, tagged by the subsystem that advanced.
#[derive(Clone, Copy, Debug, PartialEq, Eq, Structural)]
pub enum AsyncNotification {
    FinishUnchanged,
    Status,
    Diff,
    Log,
    CommitFiles,
    Tags,
    Push,
}

/// What the transfer engine is asked to do.
#[derive(Clone, Debug, PartialEq, Eq)]
pub struct PushRequest {
    pub remote: String,
    pub branch: String,
    pub basic_credential: Option<Credential>,
}

pub struct RequestView {
    pub remote: Seq<char>,
    pub branch: Seq<char>,
    pub credential: Option<CredentialView>,
}

impl View for PushRequest {
    type V = RequestView;

    open spec fn view(&self) -> RequestView {
        RequestView {
            remote: self.remote@,
            branch: self.branch@,
            credential: match self.basic_credential {
                Some(c) => Some(c@),
                None => None,
            },
        }
    }
}

/// An event for the application's shared queue.
#[derive(Clone, Debug, PartialEq, Eq)]
pub enum InternalEvent {
    /// A transfer ended in an error; the message is shown to the user.
    TransferFailure(String),
}

impl View for InternalEvent {
    type V = Seq<char>;

    open spec fn view(&self) -> Seq<char> {
        match self {
            InternalEvent::TransferFailure(m) => m@,
        }
    }
}

pub const FAILURE_PREFIX: &'static str = "push failed:\n";

/// The message reported for a transfer that failed with `err`.
pub open spec fn failure_message(err: Seq<char>) -> Seq<char> {
    FAILURE_PREFIX@ + err
}

/// What the caller has to do next.
#[derive(Clone, Debug, PartialEq, Eq)]
pub enum Action {
    /// Nothing until the next input or notification.
    Wait,
    /// Ask whether the default remote needs a username and password.
    CheckAuthentication,
    /// Ask the credential store for the default remote's credential.
    ExtractCredential,
    /// Submit this request to the transfer engine.
    Submit(PushRequest),
    /// Ask the engine whether it is still busy, and for its progress.
    Poll,
    /// Ask the engine for the outcome of the finished transfer.
    FetchLastResult,
}

pub enum ActionView {
    Wait,
    CheckAuthentication,
    ExtractCredential,
    Submit(RequestView),
    Poll,
    FetchLastResult,
}

impl View for Action {
    type V = ActionView;

    open spec fn view(&self) -> ActionView {
        match self {
            Action::Wait => ActionView::Wait,
            Action::CheckAuthentication => ActionView::CheckAuthentication,
            Action::ExtractCredential => ActionView::ExtractCredential,
            Action::Submit(r) => ActionView::Submit(r@),
            Action::Poll => ActionView::Poll,
            Action::FetchLastResult => ActionView::FetchLastResult,
        }
    }
}

/// The state of a [`PushComponent`].
pub struct PushView {
    /// The controller holds the user's attention (prompt or progress).
    pub visible: bool,
    /// A request was submitted and no final result has been seen.
    pub pending: bool,
    /// The branch of the current or coming request.
    pub branch: Seq<char>,
    /// The latest snapshot from the engine.
    pub progress: Option<PushProgress>,
    /// The credential prompt.
    pub prompt: CredView,
    /// Messages of the failure events not yet taken by the application.
    pub events: Seq<Seq<char>>,
}

impl PushView {
    /// A hidden controller tracks no transfer, and a snapshot's percentage
    /// is at most 100.
    pub open spec fn wf(self) -> bool {
        (!self.visible ==> !self.pending) && snapshot_wf(self.progress)
    }

    /// The request for the current branch on the default remote.
    pub open spec fn request(self, cred: Option<CredentialView>) -> RequestView {
        RequestView { remote: DEFAULT_REMOTE_NAME@, branch: self.branch, credential: cred }
    }

    /// Marked as waiting for a just-submitted request.
    pub open spec fn requested(self) -> PushView {
        PushView { pending: true, progress: None, ..self }
    }

    /// Hidden, and so no longer tracking a transfer.
    pub open spec fn closed(self) -> PushView {
        PushView { visible: false, pending: false, ..self }
    }

    /// Shown, with the branch recorded; nothing else changes until the
    /// authentication check has answered.
    pub open spec fn started(self, branch: Seq<char>) -> PushView {
        PushView { visible: true, branch, ..self }
    }

    /// No transfer tracked and no progress known.
    pub open spec fn reset(self) -> PushView {
        PushView { pending: false, progress: None, ..self }
    }

    pub open spec fn on_authentication(self, needed: bool) -> (PushView, ActionView) {
        if !self.visible {
            (self, ActionView::Wait)
        } else if needed {
            (self.reset(), ActionView::ExtractCredential)
        } else {
            (self.requested(), ActionView::Submit(self.request(None)))
        }
    }

    /// `stored` is `None` when the credential store failed; that counts as
    /// an empty credential.
    pub open spec fn on_stored_credential(self, stored: Option<CredentialView>) -> (
        PushView,
        ActionView,
    ) {
        let cred = match stored {
            Some(c) => c,
            None => CredentialView::empty(),
        };
        if !self.visible {
            (self, ActionView::Wait)
        } else if cred.complete() {
            (self.requested(), ActionView::Submit(self.request(Some(cred))))
        } else {
            (PushView { prompt: CredView { cred, ..self.prompt }.shown(), ..self }, ActionView::Wait)
        }
    }

    pub open spec fn on_submit_result(self, accepted: bool) -> PushView {
        if accepted {
            self
        } else {
            PushView { pending: false, ..self }
        }
    }

    pub open spec fn on_notification(self, ev: AsyncNotification) -> ActionView {
        if self.visible && ev == AsyncNotification::Push {
            ActionView::Poll
        } else {
            ActionView::Wait
        }
    }

    pub open spec fn on_poll(self, pending: bool, progress: Option<PushProgress>) -> (
        PushView,
        ActionView,
    ) {
        if !self.visible {
            (self, ActionView::Wait)
        } else if pending {
            (PushView { pending, progress, ..self }, ActionView::Wait)
        } else {
            (PushView { pending, progress, ..self }, ActionView::FetchLastResult)
        }
    }

    /// A finished transfer: a failure is queued, and the controller closes
    /// either way. Ignored unless a finished transfer is being shown.
    pub open spec fn on_last_result(self, err: Option<Seq<char>>) -> PushView {
        if !self.visible || self.pending {
            self
        } else {
            match err {
                Some(e) => PushView { events: self.events.push(failure_message(e)), ..self }.closed(),
                None => self.closed(),
            }
        }
    }

    /// The controller after an input event, whether it consumed the event,
    /// and what the caller has to do.
    pub open spec fn on_input(self, ev: InputEvent) -> (PushView, bool, ActionView) {
        if !self.visible {
            (self, false, ActionView::Wait)
        } else {
            match ev {
                InputEvent::Key(k) => {
                    let s1 = if k == Key::Exit {
                        self.closed()
                    } else {
                        self
                    };
                    let (p, consumed) = s1.prompt.on_input(ev);
                    let s2 = PushView { prompt: p, ..s1 };
                    if consumed {
                        (s2, true, ActionView::Wait)
                    } else if k == Key::Enter && s2.prompt.visible && s2.prompt.cred.complete() {
                        let s3 = s2.requested();
                        (
                            PushView { prompt: s3.prompt.hidden(), ..s3 },
                            true,
                            ActionView::Submit(s2.request(Some(s2.prompt.cred))),
                        )
                    } else if k == Key::Enter {
                        (s2.closed(), true, ActionView::Wait)
                    } else {
                        (s2, true, ActionView::Wait)
                    }
                },
                InputEvent::Other => (self, true, ActionView::Wait),
            }
        }
    }

    /// The affordances after they were collected into `out`.
    pub open spec fn commands(self, out: Seq<CommandInfo>) -> Seq<CommandInfo> {
        let base = if self.visible {
            Seq::empty()
        } else {
            out
        };
        if self.prompt.visible {
            base.push(CommandInfo { command: Command::Validate, enabled: true, available: true }).push(
                CommandInfo { command: Command::Close, enabled: true, available: true },
            )
        } else {
            base.push(
                CommandInfo { command: Command::Close, enabled: !self.pending, available: self.visible },
            )
        }
    }

    pub open spec fn blocking(self) -> CommandBlocking {
        if (self.prompt.visible || self.visible) {
            CommandBlocking::Blocking
        } else {
            CommandBlocking::PassingOn
        }
    }
}

/// The controller of a push.
pub struct PushComponent {
    visible: bool,
    pending: bool,
    branch: String,
    progress: Option<PushProgress>,
    input_cred: CredComponent,
    queue: Vec<InternalEvent>,
}

pub open spec fn event_view(e: InternalEvent) -> Seq<char> {
    e@
}

impl View for PushComponent {
    type V = PushView;

    closed spec fn view(&self) -> PushView {
        PushView {
            visible: self.visible,
            pending: self.pending,
            branch: self.branch@,
            progress: self.progress,
            prompt: self.input_cred@,
            events: self.queue@.map_values(|e: InternalEvent| event_view(e)),
        }
    }
}

impl PushComponent {
    /// An idle, hidden controller.
    pub fn new() -> (r: Self)
        ensures
            r@.wf(),
            !r@.visible,
            !r@.pending,
            r@.branch.len() == 0,
            r@.progress is None,
            !r@.prompt.visible,
            r@.prompt.cred == CredentialView::empty(),
            r@.events.len() == 0,
    {
        let r = PushComponent {
            visible: false,
            pending: false,
            branch: String::new(),
            progress: None,
            input_cred: CredComponent::new(),
            queue: Vec::new(),
        };
        proof {
            assert(r@.events =~= Seq::<Seq<char>>::empty());
        }
        r
    }

    pub fn is_visible(&self) -> (r: bool)
        ensures
            r == self@.visible,
    {
        self.visible
    }

    pub fn is_pending(&self) -> (r: bool)
        ensures
            r == self@.pending,
    {
        self.pending
    }

    pub fn branch(&self) -> (r: &String)
        ensures
            r@ == self@.branch,
    {
        &self.branch
    }

    pub fn progress(&self) -> (r: Option<PushProgress>)
        ensures
            r == self@.progress,
    {
        self.progress
    }

    pub fn input_cred(&self) -> (r: &CredComponent)
        ensures
            r@ == self@.prompt,
    {
        &self.input_cred
    }
    /// The request for the current branch, marked as submitted: pending,
    /// with no progress yet. The caller submits it and reports a rejection
    /// through `on_submit_result`.
    fn push_to_remote(&mut self, cred: Option<Credential>) -> (r: PushRequest)
        ensures
            final(self)@ == old(self)@.requested(),
            r@ == old(self)@.request(
                match cred {
                    Some(c) => Some(c@),
                    None => None,
                },
            ),
    {
        self.pending = true;
        self.progress = None;
        PushRequest {
            remote: String::from_str(DEFAULT_REMOTE_NAME),
            branch: self.branch.clone(),
            basic_credential: cred,
        }
    }

    /// Starts a push of `branch`: the controller is shown, records the
    /// branch and asks whether the remote needs authentication. What it
    /// tracked so far is kept until that check has answered, so a failed
    /// check changes nothing else.
    pub fn push(&mut self, branch: String) -> (r: Action)
        requires
            old(self)@.wf(),
        ensures
            final(self)@ == old(self)@.started(branch@),
            final(self)@.wf(),
            r == Action::CheckAuthentication,
    {
        self.branch = branch;
        self.show();
        Action::CheckAuthentication
    }

    /// Whether the default remote needs a username and password. If not,
    /// the request goes out without a credential; if so, the controller
    /// stops tracking what came before and asks for the stored credential.
    pub fn on_authentication(&mut self, needed: bool) -> (r: Action)
        requires
            old(self)@.wf(),
        ensures
            (final(self)@, r@) == old(self)@.on_authentication(needed),
            final(self)@.wf(),
    {
        if !self.visible {
            Action::Wait
        } else if needed {
            self.pending = false;
            self.progress = None;
            Action::ExtractCredential
        } else {
            Action::Submit(self.push_to_remote(None))
        }
    }

    /// The stored credential, or `None` when the store failed. A complete
    /// credential is submitted; otherwise the prompt is shown with what was
    /// found and the user is asked for the rest.
    pub fn on_stored_credential(&mut self, stored: Option<Credential>) -> (r: Action)
        requires
            old(self)@.wf(),
        ensures
            (final(self)@, r@) == old(self)@.on_stored_credential(
                match stored {
                    Some(c) => Some(c@),
                    None => None,
                },
            ),
            final(self)@.wf(),
    {
        let cred = match stored {
            Some(c) => c,
            None => Credential::new(None, None),
        };
        if !self.visible {
            Action::Wait
        } else if cred.is_complete() {
            Action::Submit(self.push_to_remote(Some(cred)))
        } else {
            self.input_cred.set_cred(cred);
            self.input_cred.show();
            Action::Wait
        }
    }

    /// Whether the engine accepted the submitted request. After a rejection
    /// no transfer is tracked.
    pub fn on_submit_result(&mut self, accepted: bool)
        requires
            old(self)@.wf(),
        ensures
            final(self)@ == old(self)@.on_submit_result(accepted),
            final(self)@.wf(),
    {
        if !accepted {
            self.pending = false;
        }
    }

    /// A notification from background work. Only a push notification while
    /// the controller is shown asks for a poll; nothing changes here.
    pub fn update_git(&self, ev: AsyncNotification) -> (r: Action)
        ensures
            r@ == self@.on_notification(ev),
    {
        if self.visible && ev == AsyncNotification::Push {
            Action::Poll
        } else {
            Action::Wait
        }
    }

    /// What the engine reported when polled. A finished transfer asks for
    /// its outcome. Like every reply, it is dropped while the controller is
    /// hidden.
    pub fn on_poll(&mut self, pending: bool, progress: Option<PushProgress>) -> (r: Action)
        requires
            old(self)@.wf(),
            snapshot_wf(progress),
        ensures
            (final(self)@, r@) == old(self)@.on_poll(pending, progress),
            final(self)@.wf(),
    {
        if !self.visible {
            return Action::Wait;
        }
        self.pending = pending;
        self.progress = progress;
        if pending {
            Action::Wait
        } else {
            Action::FetchLastResult
        }
    }

    /// The outcome of the finished transfer: `Some` holds the engine's
    /// error. A failure is queued for the user; either way the controller
    /// closes.
    pub fn on_last_result(&mut self, err: Option<String>)
        requires
            old(self)@.wf(),
        ensures
            final(self)@ == old(self)@.on_last_result(
                match err {
                    Some(e) => Some(e@),
                    None => None,
                },
            ),
            final(self)@.wf(),
    {
        if !self.visible || self.pending {
            return;
        }
        match err {
            Some(e) => {
                let message = String::from_str(FAILURE_PREFIX).concat(e.as_str());
                let ghost before = self.queue@;
                let ev = InternalEvent::TransferFailure(message);
                self.queue.push(ev);
                proof {
                    assert(self.queue@.map_values(|e: InternalEvent| event_view(e)) =~= before.map_values(
                        |e: InternalEvent| event_view(e),
                    ).push(failure_message(e@)));
                }
            },
            None => {},
        }
        self.dismiss();
    }

    /// Hands over the queued events, oldest first, and empties the queue.
    pub fn take_events(&mut self) -> (r: Vec<InternalEvent>)
        ensures
            r@.map_values(|e: InternalEvent| event_view(e)) == old(self)@.events,
            final(self)@ == (PushView { events: Seq::empty(), ..old(self)@ }),
    {
        let mut r = Vec::new();
        std::mem::swap(&mut r, &mut self.queue);
        proof {
            assert(self.queue@.map_values(|e: InternalEvent| event_view(e)) =~= Seq::<Seq<char>>::empty());
        }
        r
    }

    /// Handles an input event while shown: the close key closes the
    /// controller, the prompt takes what it handles, and confirming a
    /// complete credential submits it and hides the prompt; any other
    /// confirmation closes the controller. Returns whether the event was
    /// consumed (always, while shown) and what the caller has to do.
    pub fn event(&mut self, ev: InputEvent) -> (r: (bool, Action))
        requires
            old(self)@.wf(),
        ensures
            ({
                let (s, consumed, a) = old(self)@.on_input(ev);
                final(self)@ == s && r.0 == consumed && r.1@ == a
            }),
            final(self)@.wf(),
    {
        if !self.visible {
            return (false, Action::Wait);
        }
        match ev {
            InputEvent::Key(k) => {
                if k == Key::Exit {
                    self.dismiss();
                }
                if self.input_cred.event(ev) {
                    return (true, Action::Wait);
                }
                if k == Key::Enter && self.input_cred.is_visible()
                    && self.input_cred.get_cred().is_complete() {
                    let cred = self.input_cred.get_cred().duplicate();
                    let req = self.push_to_remote(Some(cred));
                    self.input_cred.dismiss();
                    return (true, Action::Submit(req));
                } else if k == Key::Enter {
                    self.dismiss();
                }
                (true, Action::Wait)
            },
            InputEvent::Other => (true, Action::Wait),
        }
    }

    /// Collects the affordances on offer. While shown, those of components
    /// below are dropped. The prompt's own take precedence; otherwise a
    /// close affordance is offered, usable only while no transfer runs.
    pub fn commands(&self, out: &mut Vec<CommandInfo>, force_all: bool) -> (r: CommandBlocking)
        ensures
            final(out)@ == self@.commands(old(out)@),
            r == self@.blocking(),
    {
        if self.visible {
            out.clear();
        }
        if self.input_cred.is_visible() {
            self.input_cred.commands(out, force_all)
        } else {
            out.push(CommandInfo::new(Command::Close, !self.pending, self.visible));
            visibility_blocking(self.visible)
        }
    }

    /// Shows the controller.
    pub fn show(&mut self)
        ensures
            final(self)@ == (PushView { visible: true, ..old(self)@ }),
    {
        self.visible = true;
    }

    /// Hides the controller; a transfer still running in the engine is no
    /// longer tracked.
    pub fn dismiss(&mut self)
        ensures
            final(self)@ == old(self)@.closed(),
    {
        self.visible = false;
        self.pending = false;
    }
}

} // verus!
