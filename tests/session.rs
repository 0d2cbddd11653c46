use fprintui::{Action, Event, FingerName, OperationKind, Outcome, Phase, Session};

fn status(code: &str, done: bool) -> Event {
    Event::Status { code: code.to_string(), done }
}

fn drive(session: &mut Session, events: Vec<Event>) -> Vec<Action> {
    let mut actions = vec![session.begin()];
    for ev in events {
        actions.push(session.handle(ev));
    }
    actions
}

fn count(actions: &[Action], pred: fn(&Action) -> bool) -> usize {
    actions.iter().filter(|a| pred(a)).count()
}

fn is_stop(a: &Action) -> bool {
    matches!(a, Action::Stop(_))
}

fn is_release(a: &Action) -> bool {
    matches!(a, Action::Release)
}

fn is_deliver(a: &Action) -> bool {
    matches!(a, Action::Deliver(_))
}

#[test]
fn enroll_stage_then_completed_succeeds() {
    let mut s = Session::new(OperationKind::Enroll, FingerName::RightIndexFinger);
    let actions = drive(
        &mut s,
        vec![
            Event::ClaimOk,
            Event::StartOk,
            status("enroll-stage-passed", true),
            status("enroll-completed", true),
            Event::StopFinished,
            Event::ReleaseFinished,
        ],
    );
    assert_eq!(
        actions,
        vec![
            Action::Claim,
            Action::Start(OperationKind::Enroll, FingerName::RightIndexFinger),
            Action::Listen,
            Action::Listen,
            Action::Stop(OperationKind::Enroll),
            Action::Release,
            Action::Deliver(Outcome::Success),
        ]
    );
    assert_eq!(s.phase(), Phase::Done);
    assert_eq!(s.outcome(), Some(Outcome::Success));
    assert!(!s.is_claimed());
    assert!(!s.is_started());
}

#[test]
fn verify_retries_then_match_succeeds() {
    let mut s = Session::new(OperationKind::Verify, FingerName::LeftThumb);
    let actions = drive(
        &mut s,
        vec![
            Event::ClaimOk,
            Event::StartOk,
            status("verify-retry-scan", true),
            status("verify-swipe-too-short", true),
            status("verify-match", true),
            Event::StopFinished,
            Event::ReleaseFinished,
        ],
    );
    assert_eq!(actions[3], Action::Listen);
    assert_eq!(actions[4], Action::Listen);
    assert_eq!(actions[5], Action::Stop(OperationKind::Verify));
    assert_eq!(actions.last(), Some(&Action::Deliver(Outcome::Success)));
    assert_eq!(count(&actions, is_deliver), 1);
}

#[test]
fn verify_disconnected_fails_with_code() {
    let mut s = Session::new(OperationKind::Verify, FingerName::LeftThumb);
    let actions = drive(
        &mut s,
        vec![
            Event::ClaimOk,
            Event::StartOk,
            status("verify-disconnected", true),
            Event::StopFinished,
            Event::ReleaseFinished,
        ],
    );
    assert_eq!(actions[3], Action::Stop(OperationKind::Verify));
    assert_eq!(
        actions.last(),
        Some(&Action::Deliver(Outcome::Failure("verify-disconnected".to_string())))
    );
}

#[test]
fn claim_refused_fails_without_cleanup() {
    let mut s = Session::new(OperationKind::Enroll, FingerName::LeftThumb);
    let actions = drive(&mut s, vec![Event::ClaimFailed("AlreadyClaimed".to_string())]);
    assert_eq!(
        actions,
        vec![Action::Claim, Action::Deliver(Outcome::Failure("AlreadyClaimed".to_string()))]
    );
    assert_eq!(s.phase(), Phase::Done);
    // Nothing that arrives later asks for a call.
    assert_eq!(s.handle(Event::StartOk), Action::Nothing);
    assert_eq!(s.handle(status("enroll-completed", true)), Action::Nothing);
    assert_eq!(s.handle(Event::ReleaseFinished), Action::Nothing);
}

#[test]
fn cancel_while_listening_stops_and_releases_once() {
    let mut s = Session::new(OperationKind::Verify, FingerName::RightThumb);
    let actions = drive(
        &mut s,
        vec![
            Event::ClaimOk,
            Event::StartOk,
            status("verify-finger-not-centered", false),
            Event::Cancel,
            status("verify-match", true),
            Event::Cancel,
            Event::StopFinished,
            Event::Cancel,
            Event::ReleaseFinished,
            Event::Cancel,
        ],
    );
    assert_eq!(actions[4], Action::Stop(OperationKind::Verify));
    assert_eq!(actions[5], Action::Nothing);
    assert_eq!(count(&actions, is_stop), 1);
    assert_eq!(count(&actions, is_release), 1);
    assert_eq!(count(&actions, is_deliver), 1);
    assert_eq!(actions[9], Action::Deliver(Outcome::Cancelled));
    assert_eq!(actions[10], Action::Nothing);
    assert_eq!(s.outcome(), Some(Outcome::Cancelled));
}

#[test]
fn start_failure_releases_without_stop() {
    let mut s = Session::new(OperationKind::Enroll, FingerName::LeftRingFinger);
    let actions = drive(
        &mut s,
        vec![Event::ClaimOk, Event::StartFailed("DeviceBusy".to_string()), Event::ReleaseFinished],
    );
    assert_eq!(actions[2], Action::Release);
    assert_eq!(count(&actions, is_stop), 0);
    assert_eq!(count(&actions, is_release), 1);
    assert_eq!(actions[3], Action::Deliver(Outcome::Failure("DeviceBusy".to_string())));
}

#[test]
fn cancel_while_claiming_then_claim_succeeds() {
    let mut s = Session::new(OperationKind::Enroll, FingerName::LeftThumb);
    let actions = drive(&mut s, vec![Event::Cancel, Event::ClaimOk, Event::ReleaseFinished]);
    assert_eq!(
        actions,
        vec![
            Action::Claim,
            Action::Nothing,
            Action::Release,
            Action::Deliver(Outcome::Cancelled),
        ]
    );
}

#[test]
fn cancel_while_claiming_then_claim_fails() {
    let mut s = Session::new(OperationKind::Verify, FingerName::LeftThumb);
    let actions = drive(&mut s, vec![Event::Cancel, Event::ClaimFailed("ServiceUnavailable".to_string())]);
    assert_eq!(
        actions,
        vec![Action::Claim, Action::Nothing, Action::Deliver(Outcome::Cancelled)]
    );
}

#[test]
fn cancel_while_starting_then_start_succeeds() {
    let mut s = Session::new(OperationKind::Verify, FingerName::LeftThumb);
    let actions = drive(
        &mut s,
        vec![Event::ClaimOk, Event::Cancel, Event::StartOk, Event::StopFinished, Event::ReleaseFinished],
    );
    assert_eq!(actions[2], Action::Nothing);
    assert_eq!(actions[3], Action::Stop(OperationKind::Verify));
    assert_eq!(actions[4], Action::Release);
    assert_eq!(actions[5], Action::Deliver(Outcome::Cancelled));
}

#[test]
fn cancel_while_starting_then_start_fails() {
    let mut s = Session::new(OperationKind::Enroll, FingerName::LeftThumb);
    let actions = drive(
        &mut s,
        vec![Event::ClaimOk, Event::Cancel, Event::StartFailed("InvalidFinger".to_string()), Event::ReleaseFinished],
    );
    assert_eq!(actions[3], Action::Release);
    assert_eq!(actions[4], Action::Deliver(Outcome::Cancelled));
    assert_eq!(count(&actions, is_stop), 0);
}

#[test]
fn many_progress_and_retry_events_then_success() {
    let mut events = vec![Event::ClaimOk, Event::StartOk];
    for _ in 0..50 {
        events.push(status("enroll-finger-not-centered", false));
        events.push(status("enroll-remove-and-retry", true));
        events.push(status("enroll-stage-passed", true));
    }
    events.push(status("enroll-completed", true));
    events.push(status("enroll-disconnected", true));
    events.push(Event::Cancel);
    events.push(Event::StopFinished);
    events.push(Event::ReleaseFinished);
    let mut s = Session::new(OperationKind::Enroll, FingerName::RightLittleFinger);
    let actions = drive(&mut s, events);
    assert_eq!(actions.last(), Some(&Action::Deliver(Outcome::Success)));
    assert_eq!(count(&actions, is_stop), 1);
    assert_eq!(count(&actions, is_release), 1);
}

#[test]
fn failure_stops_consuming_status_events() {
    let mut s = Session::new(OperationKind::Verify, FingerName::LeftIndexFinger);
    drive(&mut s, vec![Event::ClaimOk, Event::StartOk]);
    assert_eq!(s.phase(), Phase::Listening);
    assert_eq!(s.handle(status("verify-no-match", true)), Action::Stop(OperationKind::Verify));
    assert_eq!(s.phase(), Phase::Stopping);
    assert_eq!(s.handle(status("verify-match", true)), Action::Nothing);
    assert_eq!(s.outcome(), Some(Outcome::Failure("verify-no-match".to_string())));
}

#[test]
fn retry_keeps_listening_unchanged() {
    let mut s = Session::new(OperationKind::Verify, FingerName::LeftIndexFinger);
    drive(&mut s, vec![Event::ClaimOk, Event::StartOk]);
    for code in ["verify-retry-scan", "verify-swipe-too-short", "verify-finger-not-centered", "verify-remove-and-retry"] {
        assert_eq!(s.handle(status(code, true)), Action::Listen);
        assert_eq!(s.phase(), Phase::Listening);
        assert_eq!(s.outcome(), None);
    }
}

#[test]
fn events_out_of_phase_are_ignored() {
    let mut s = Session::new(OperationKind::Enroll, FingerName::LeftThumb);
    assert_eq!(s.handle(Event::ClaimOk), Action::Nothing);
    assert_eq!(s.phase(), Phase::Idle);
    assert_eq!(s.begin(), Action::Claim);
    assert_eq!(s.begin(), Action::Nothing);
    assert_eq!(s.handle(status("enroll-completed", true)), Action::Nothing);
    assert_eq!(s.handle(Event::StartOk), Action::Nothing);
    assert_eq!(s.phase(), Phase::Claiming);
    assert_eq!(s.handle(Event::ClaimOk), Action::Start(OperationKind::Enroll, FingerName::LeftThumb));
    assert!(s.is_claimed());
    assert_eq!(s.handle(Event::ClaimOk), Action::Nothing);
    assert_eq!(s.handle(Event::StartOk), Action::Listen);
    assert!(s.is_started());
}

#[test]
fn open_validates_the_finger() {
    assert!(Session::open(OperationKind::Enroll, "left-pinky").is_none());
    let s = Session::open(OperationKind::Verify, "right-middle-finger").unwrap();
    assert_eq!(s.finger(), FingerName::RightMiddleFinger);
    assert_eq!(s.kind(), OperationKind::Verify);
    assert_eq!(s.phase(), Phase::Idle);
    assert_eq!(s.outcome(), None);
}

#[test]
fn outcome_duplicate_keeps_reason() {
    let o = Outcome::Failure("enroll-data-full".to_string());
    assert_eq!(o.duplicate(), o);
    assert_eq!(Outcome::Cancelled.duplicate(), Outcome::Cancelled);
}
