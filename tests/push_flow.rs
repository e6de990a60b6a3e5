use push_flow::{
    get_progress, progress_state_name, Action, AsyncNotification, Command, CommandBlocking,
    CommandInfo, CredComponent, CredField, Credential, InputEvent, InternalEvent, Key,
    PushComponent, PushProgress, PushProgressState, PushRequest, DEFAULT_REMOTE_NAME,
};

fn cred(u: Option<&str>, p: Option<&str>) -> Credential {
    Credential::new(u.map(String::from), p.map(String::from))
}

fn shown_active(branch: &str) -> PushComponent {
    let mut c = PushComponent::new();
    c.push(branch.to_string());
    match c.on_authentication(false) {
        Action::Submit(_) => {}
        other => panic!("unexpected action {:?}", other),
    }
    c
}

fn failure_message(e: &InternalEvent) -> String {
    match e {
        InternalEvent::TransferFailure(m) => m.clone(),
    }
}

#[test]
fn new_component_is_idle() {
    let c = PushComponent::new();
    assert!(!c.is_visible());
    assert!(!c.is_pending());
    assert_eq!(c.progress(), None);
    assert_eq!(c.branch(), "");
    assert!(!c.input_cred().is_visible());
}

#[test]
fn scenario_direct_push_without_authentication() {
    let mut c = PushComponent::new();
    assert_eq!(c.push("main".to_string()), Action::CheckAuthentication);
    assert!(c.is_visible());
    let a = c.on_authentication(false);
    assert_eq!(
        a,
        Action::Submit(PushRequest {
            remote: "origin".to_string(),
            branch: "main".to_string(),
            basic_credential: None,
        })
    );
    assert_eq!(DEFAULT_REMOTE_NAME, "origin");
    assert!(c.is_pending());
    assert!(c.is_visible());
}

#[test]
fn scenario_store_failure_shows_empty_prompt() {
    let mut c = PushComponent::new();
    c.push("main".to_string());
    assert_eq!(c.on_authentication(true), Action::ExtractCredential);
    assert_eq!(c.on_stored_credential(None), Action::Wait);
    assert!(c.is_visible());
    assert!(!c.is_pending());
    assert!(c.input_cred().is_visible());
    assert_eq!(c.input_cred().get_cred(), &cred(None, None));
}

#[test]
fn incomplete_stored_credential_primes_prompt() {
    for stored in [
        cred(Some("alice"), None),
        cred(None, Some("pw")),
        cred(Some(""), Some("pw")),
        cred(Some("alice"), Some("")),
    ] {
        let mut c = PushComponent::new();
        c.push("dev".to_string());
        c.on_authentication(true);
        assert_eq!(c.on_stored_credential(Some(stored.clone())), Action::Wait);
        assert!(c.is_visible());
        assert!(!c.is_pending());
        assert!(c.input_cred().is_visible());
        assert_eq!(c.input_cred().get_cred(), &stored);
    }
}

#[test]
fn complete_stored_credential_is_submitted() {
    let mut c = PushComponent::new();
    c.push("dev".to_string());
    c.on_authentication(true);
    let a = c.on_stored_credential(Some(cred(Some("alice"), Some("pw"))));
    assert_eq!(
        a,
        Action::Submit(PushRequest {
            remote: "origin".to_string(),
            branch: "dev".to_string(),
            basic_credential: Some(cred(Some("alice"), Some("pw"))),
        })
    );
    assert!(c.is_pending());
    assert!(!c.input_cred().is_visible());
}

#[test]
fn scenario_confirm_filled_credential() {
    let mut c = PushComponent::new();
    c.push("main".to_string());
    c.on_authentication(true);
    c.on_stored_credential(None);
    for ch in "bob".chars() {
        assert_eq!(c.event(InputEvent::Key(Key::Char(ch))), (true, Action::Wait));
    }
    assert_eq!(c.event(InputEvent::Key(Key::Enter)), (true, Action::Wait));
    assert_eq!(c.input_cred().focus(), CredField::Password);
    for ch in "s3x".chars() {
        c.event(InputEvent::Key(Key::Char(ch)));
    }
    assert!(c.input_cred().get_cred().is_complete());
    let (consumed, a) = c.event(InputEvent::Key(Key::Enter));
    assert!(consumed);
    assert_eq!(
        a,
        Action::Submit(PushRequest {
            remote: "origin".to_string(),
            branch: "main".to_string(),
            basic_credential: Some(cred(Some("bob"), Some("s3x"))),
        })
    );
    assert!(!c.input_cred().is_visible());
    assert!(c.is_visible());
    assert!(c.is_pending());
}

#[test]
fn confirm_with_incomplete_credential_closes() {
    let mut c = PushComponent::new();
    c.push("main".to_string());
    c.on_authentication(true);
    c.on_stored_credential(Some(cred(Some("bob"), None)));
    c.event(InputEvent::Key(Key::Enter));
    let (consumed, a) = c.event(InputEvent::Key(Key::Enter));
    assert!(consumed);
    assert_eq!(a, Action::Wait);
    assert!(!c.is_visible());
    assert!(!c.is_pending());
}

#[test]
fn backspace_erases_last_character() {
    let mut p = CredComponent::new();
    p.set_cred(cred(Some("ab"), None));
    p.show();
    assert!(p.event(InputEvent::Key(Key::Backspace)));
    assert_eq!(p.get_cred(), &cred(Some("a"), None));
    assert!(p.event(InputEvent::Key(Key::Backspace)));
    assert!(p.event(InputEvent::Key(Key::Backspace)));
    assert_eq!(p.get_cred(), &cred(Some(""), None));
    assert!(p.event(InputEvent::Key(Key::Enter)));
    assert!(p.event(InputEvent::Key(Key::Backspace)));
    assert_eq!(p.get_cred(), &cred(Some(""), None));
}

#[test]
fn hidden_prompt_passes_events() {
    let mut p = CredComponent::new();
    assert!(!p.event(InputEvent::Key(Key::Char('x'))));
    assert_eq!(p.get_cred(), &cred(None, None));
    p.show();
    assert!(p.event(InputEvent::Key(Key::Exit)));
    assert!(!p.is_visible());
}

#[test]
fn credential_completeness() {
    assert!(cred(Some("u"), Some("p")).is_complete());
    assert!(!cred(Some("u"), None).is_complete());
    assert!(!cred(None, Some("p")).is_complete());
    assert!(!cred(Some(""), Some("p")).is_complete());
    assert!(!cred(None, None).is_complete());
    let c = cred(Some("u"), Some("p"));
    assert_eq!(c.duplicate(), c);
}

#[test]
fn scenario_progress_while_pending() {
    let mut c = shown_active("main");
    assert_eq!(c.update_git(AsyncNotification::Push), Action::Poll);
    let snap = PushProgress { state: PushProgressState::PackingDeltafiction, progress: 42 };
    assert_eq!(c.on_poll(true, Some(snap)), Action::Wait);
    assert!(c.is_visible());
    assert!(c.is_pending());
    assert_eq!(c.progress(), Some(snap));
    assert_eq!(get_progress(&c.progress()), ("deltas (2/3)".to_string(), 42));
}

#[test]
fn scenario_failure_is_reported() {
    let mut c = shown_active("main");
    assert_eq!(c.on_poll(false, None), Action::FetchLastResult);
    c.on_last_result(Some("connection reset".to_string()));
    assert!(!c.is_visible());
    assert!(!c.is_pending());
    let events = c.take_events();
    assert_eq!(events.len(), 1);
    let m = failure_message(&events[0]);
    assert!(m.contains("connection reset"));
    assert_eq!(m, "push failed:\nconnection reset");
    assert!(c.take_events().is_empty());
}

#[test]
fn success_is_silent() {
    let mut c = shown_active("main");
    assert_eq!(c.on_poll(false, None), Action::FetchLastResult);
    c.on_last_result(None);
    assert!(!c.is_visible());
    assert!(!c.is_pending());
    assert!(c.take_events().is_empty());
}

#[test]
fn result_ignored_while_still_pending() {
    let mut c = shown_active("main");
    c.on_last_result(Some("late".to_string()));
    assert!(c.is_visible());
    assert!(c.is_pending());
    assert!(c.take_events().is_empty());
}

#[test]
fn unrelated_notification_is_ignored() {
    let idle = PushComponent::new();
    for ev in [
        AsyncNotification::FinishUnchanged,
        AsyncNotification::Status,
        AsyncNotification::Diff,
        AsyncNotification::Log,
        AsyncNotification::CommitFiles,
        AsyncNotification::Tags,
        AsyncNotification::Push,
    ] {
        assert_eq!(idle.update_git(ev), Action::Wait);
    }
    assert!(!idle.is_visible());
    assert!(!idle.is_pending());
    assert_eq!(idle.progress(), None);
    let active = shown_active("main");
    assert_eq!(active.update_git(AsyncNotification::Status), Action::Wait);
}

#[test]
fn submission_rollback() {
    let mut c = shown_active("main");
    assert!(c.is_pending());
    c.on_submit_result(false);
    assert!(!c.is_pending());
    assert!(c.is_visible());
    let mut idle = PushComponent::new();
    idle.on_submit_result(false);
    assert!(!idle.is_pending());
    let mut ok = shown_active("main");
    ok.on_submit_result(true);
    assert!(ok.is_pending());
}

#[test]
fn projection_labels_and_bounds() {
    assert_eq!(get_progress(&None), ("preparing...".to_string(), 0));
    let at = |state, progress| get_progress(&Some(PushProgress { state, progress }));
    assert_eq!(at(PushProgressState::PackingAddingObject, 0), ("adding objects (1/3)".to_string(), 0));
    assert_eq!(at(PushProgressState::Pushing, 100), ("pushing (3/3)".to_string(), 100));
    assert_eq!(at(PushProgressState::PackingDeltafiction, 100).1, 100);
    assert_eq!(progress_state_name(&PushProgressState::Pushing), "pushing (3/3)");
}

#[test]
fn close_key_stops_tracking() {
    let mut c = shown_active("main");
    assert_eq!(c.event(InputEvent::Key(Key::Exit)), (true, Action::Wait));
    assert!(!c.is_visible());
    assert!(!c.is_pending());
    assert_eq!(c.update_git(AsyncNotification::Push), Action::Wait);
    assert_eq!(c.event(InputEvent::Key(Key::Enter)), (false, Action::Wait));
}

#[test]
fn every_event_consumed_while_shown() {
    let mut c = shown_active("main");
    assert_eq!(c.event(InputEvent::Other), (true, Action::Wait));
    assert_eq!(c.event(InputEvent::Key(Key::Char('q'))), (true, Action::Wait));
    assert!(c.is_visible());
    assert_eq!(c.event(InputEvent::Key(Key::Enter)), (true, Action::Wait));
    assert!(!c.is_visible());
}

#[test]
fn commands_offered() {
    let c = shown_active("main");
    let mut out = vec![CommandInfo::new(Command::Validate, true, true)];
    assert_eq!(c.commands(&mut out, false), CommandBlocking::Blocking);
    assert_eq!(out, vec![CommandInfo::new(Command::Close, false, true)]);

    let idle = PushComponent::new();
    let mut out = vec![CommandInfo::new(Command::Validate, true, true)];
    assert_eq!(idle.commands(&mut out, false), CommandBlocking::PassingOn);
    assert_eq!(
        out,
        vec![CommandInfo::new(Command::Validate, true, true), CommandInfo::new(Command::Close, true, false)]
    );

    let mut prompting = PushComponent::new();
    prompting.push("main".to_string());
    prompting.on_authentication(true);
    prompting.on_stored_credential(None);
    let mut out = Vec::new();
    assert_eq!(prompting.commands(&mut out, false), CommandBlocking::Blocking);
    assert_eq!(
        out,
        vec![CommandInfo::new(Command::Validate, true, true), CommandInfo::new(Command::Close, true, true)]
    );
}

#[test]
fn new_push_resets_tracking_once_checked() {
    let mut c = shown_active("main");
    let snap = PushProgress { state: PushProgressState::Pushing, progress: 7 };
    c.on_poll(true, Some(snap));
    assert_eq!(c.push("other".to_string()), Action::CheckAuthentication);
    assert_eq!(c.branch(), "other");
    assert!(c.is_pending());
    assert_eq!(c.progress(), Some(snap));
    assert_eq!(c.on_authentication(true), Action::ExtractCredential);
    assert!(!c.is_pending());
    assert_eq!(c.progress(), None);
    assert_eq!(c.branch(), "other");
}

#[test]
fn failed_check_keeps_tracking() {
    let mut c = shown_active("main");
    let snap = PushProgress { state: PushProgressState::PackingAddingObject, progress: 30 };
    c.on_poll(true, Some(snap));
    c.push("next".to_string());
    // the authentication check failed: the caller hands nothing back
    assert!(c.is_visible());
    assert!(c.is_pending());
    assert_eq!(c.progress(), Some(snap));
    assert_eq!(c.branch(), "next");
    assert!(!c.input_cred().is_visible());
    assert!(c.take_events().is_empty());
}

#[test]
fn direct_push_after_tracking_starts_afresh() {
    let mut c = shown_active("main");
    c.on_poll(true, Some(PushProgress { state: PushProgressState::Pushing, progress: 90 }));
    c.push("next".to_string());
    match c.on_authentication(false) {
        Action::Submit(r) => assert_eq!(r.branch, "next"),
        other => panic!("unexpected action {:?}", other),
    }
    assert!(c.is_pending());
    assert_eq!(c.progress(), None);
}
