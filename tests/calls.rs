use kj::call::{step, CallAction, CallEvent, CallState, ErrorKind, HttpError, Outcome, UNDESCRIBED_FAILURE};
use kj::own::OwnOrRef;
use kj::service::{HttpConnectSettings, TlsStarterCallback};

fn failure(code: u32, text: &str) -> Outcome {
    Err(HttpError::from_engine(code, text.to_string()))
}

fn drive(events: Vec<CallEvent>) -> Vec<CallAction> {
    let mut state = CallState::InFlight;
    let mut actions = Vec::new();
    for e in events {
        let (s, a) = step(state, e);
        state = s;
        actions.push(a);
    }
    actions
}

fn resumes(actions: &[CallAction]) -> usize {
    actions.iter().filter(|a| matches!(a, CallAction::Resume(_))).count()
}

fn give_backs(actions: &[CallAction]) -> usize {
    actions
        .iter()
        .filter(|a| matches!(a, CallAction::Resume(_) | CallAction::Release))
        .count()
}

#[test]
fn success_resolves_once() {
    let acts = drive(vec![
        CallEvent::Acknowledged,
        CallEvent::Finished(Ok(())),
        CallEvent::Finished(failure(0, "late")),
        CallEvent::Abandon,
    ]);
    assert_eq!(resumes(&acts), 1);
    assert_eq!(give_backs(&acts), 1);
    assert!(matches!(acts[1], CallAction::Resume(Ok(()))));
    assert!(matches!(acts[2], CallAction::Idle));
    assert!(matches!(acts[3], CallAction::Idle));
}

#[test]
fn failure_resolves_once_with_description() {
    let acts = drive(vec![CallEvent::Finished(failure(2, "peer disconnected")), CallEvent::Finished(Ok(()))]);
    assert_eq!(resumes(&acts), 1);
    match &acts[0] {
        CallAction::Resume(Err(e)) => {
            assert_eq!(e.description, "peer disconnected");
            assert_eq!(e.kind, Some(ErrorKind::Disconnected));
        }
        _ => panic!("expected a failure"),
    }
}

#[test]
fn abandoned_call_waits_for_engine() {
    let acts = drive(vec![
        CallEvent::Abandon,
        CallEvent::Abandon,
        CallEvent::Finished(Ok(())),
        CallEvent::Acknowledged,
    ]);
    assert!(matches!(acts[0], CallAction::Cancel));
    assert!(matches!(acts[1], CallAction::Idle));
    assert!(matches!(acts[2], CallAction::Release));
    assert!(matches!(acts[3], CallAction::Idle));
    assert_eq!(resumes(&acts), 0);
    assert_eq!(give_backs(&acts), 1);
}

#[test]
fn abandoned_call_released_on_acknowledgement() {
    let acts = drive(vec![CallEvent::Abandon, CallEvent::Acknowledged, CallEvent::Finished(Ok(()))]);
    assert!(matches!(acts[1], CallAction::Release));
    assert!(matches!(acts[2], CallAction::Idle));
    assert_eq!(resumes(&acts), 0);
}

#[test]
fn step_from_settled_states_is_idle() {
    let (s, a) = step(CallState::Resolved, CallEvent::Finished(Ok(())));
    assert!(matches!(s, CallState::Resolved));
    assert!(matches!(a, CallAction::Idle));
    let (s, a) = step(CallState::Released, CallEvent::Acknowledged);
    assert!(matches!(s, CallState::Released));
    assert!(matches!(a, CallAction::Idle));
}

#[test]
fn engine_error_codes_translate() {
    assert_eq!(ErrorKind::from_code(0), Some(ErrorKind::Failed));
    assert_eq!(ErrorKind::from_code(1), Some(ErrorKind::Overloaded));
    assert_eq!(ErrorKind::from_code(2), Some(ErrorKind::Disconnected));
    assert_eq!(ErrorKind::from_code(3), Some(ErrorKind::Unimplemented));
    assert_eq!(ErrorKind::from_code(4), None);
    let e = HttpError::from_engine(9, "odd".to_string());
    assert_eq!(e.kind, None);
    assert_eq!(e.description, "odd");
}

#[test]
fn tls_starter_only_with_tls() {
    let starter = TlsStarterCallback { handle: 7 };
    let with = HttpConnectSettings::with_tls(&starter);
    assert!(with.use_tls);
    assert_eq!(with.starter_to_invoke(), Some(&starter));
    let no_tls = HttpConnectSettings { use_tls: false, tls_starter: Some(&starter) };
    assert_eq!(no_tls.starter_to_invoke(), None);
    assert_eq!(no_tls.tls_starter, Some(&starter));
    let plain = HttpConnectSettings::plain();
    assert!(!plain.use_tls);
    assert_eq!(plain.starter_to_invoke(), None);
    let tls_without = HttpConnectSettings { use_tls: true, tls_starter: None };
    assert_eq!(tls_without.starter_to_invoke(), None);
}

#[test]
fn ownership_cell_reads_and_writes() {
    let mut owned: OwnOrRef<'_, u32> = OwnOrRef::own(5);
    assert!(owned.is_owned());
    *owned.as_mut() = 6;
    assert_eq!(*owned.as_ref(), 6);
    let value = 9u32;
    let borrowed = OwnOrRef::borrow(&value);
    assert!(!borrowed.is_owned());
    assert_eq!(*borrowed.as_ref(), 9);
}

#[test]
fn ownership_cell_writes_through_mutable_borrow() {
    let mut value = 3u32;
    {
        let mut cell = OwnOrRef::borrow_mut(&mut value);
        assert!(!cell.is_owned());
        assert_eq!(*cell.as_ref(), 3);
        *cell.as_mut() = 4;
        assert_eq!(*cell.as_ref(), 4);
    }
    assert_eq!(value, 4);
}

#[test]
fn empty_engine_description_is_replaced() {
    let e = HttpError::from_engine(1, String::new());
    assert_eq!(e.kind, Some(ErrorKind::Overloaded));
    assert_eq!(e.description, UNDESCRIBED_FAILURE);
    assert!(!e.description.is_empty());
    let acts = drive(vec![CallEvent::Finished(failure(0, ""))]);
    match &acts[0] {
        CallAction::Resume(Err(f)) => assert_eq!(f.description, UNDESCRIBED_FAILURE),
        _ => panic!("expected a failure"),
    }
}

#[test]
fn ownership_cell_writability() {
    let value = 1u32;
    assert!(!OwnOrRef::borrow(&value).is_writable());
    assert!(OwnOrRef::own(2u32).is_writable());
    let mut other = 3u32;
    assert!(OwnOrRef::borrow_mut(&mut other).is_writable());
}
