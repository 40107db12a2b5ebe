use sdp_bridge::cell::CompletionCell;
use sdp_bridge::dispatch::BridgeTable;
use sdp_bridge::error::BridgeError;
use sdp_bridge::observer::{
    create_csd_observer, create_ssd_observer, CreateSessionDescriptionObserver,
    RffiCreateSessionDescriptionObserver, RffiSetSessionDescriptionObserver,
    SetSessionDescriptionObserver,
};
use sdp_bridge::sdp::{is_transferable_text, Direction, RffiSessionDescriptionInterface, SessionDescriptionInterface};

fn failed(message: &str, code: i32) -> BridgeError {
    BridgeError::OperationFailed { message: message.to_string(), code }
}

#[test]
fn cell_starts_pending_and_reads_nothing() {
    let mut cell: CompletionCell<u32> = CompletionCell::new();
    assert!(!cell.is_complete());
    assert_eq!(cell.read_result(), None);
    assert!(!cell.is_complete());
}

#[test]
fn cell_second_complete_is_ignored() {
    let mut cell: CompletionCell<u32> = CompletionCell::new();
    assert!(cell.complete(Ok(5)));
    assert!(!cell.complete(Ok(9)));
    assert!(!cell.complete(Err(BridgeError::LockPoisoned)));
    assert_eq!(cell.read_result(), Some(Ok(5)));
}

#[test]
fn cell_result_is_stable_across_reads() {
    let mut cell: CompletionCell<u32> = CompletionCell::new();
    cell.complete(Ok(3));
    assert_eq!(cell.read_result(), Some(Ok(3)));
    assert_eq!(cell.read_result(), Some(Ok(3)));
    cell.complete(Ok(4));
    assert_eq!(cell.read_result(), Some(Ok(3)));
    assert!(cell.is_complete());

    let mut cell: CompletionCell<u32> = CompletionCell::new();
    cell.complete(Err(failed("negotiation timeout", 7)));
    assert_eq!(cell.read_result(), Some(Err(failed("negotiation timeout", 7))));
    assert_eq!(cell.read_result(), Some(Err(failed("negotiation timeout", 7))));
}

#[test]
fn create_fails_without_counterpart() {
    let r = create_csd_observer(None);
    assert_eq!(r.err(), Some(BridgeError::CounterpartCreationFailed));
    let r = create_ssd_observer(None);
    assert_eq!(r.err(), Some(BridgeError::CounterpartCreationFailed));
}

#[test]
fn create_records_counterpart() {
    let obs = create_csd_observer(Some(RffiCreateSessionDescriptionObserver { id: 42 })).unwrap();
    assert_eq!(obs.get_rffi_observer(), Some(RffiCreateSessionDescriptionObserver { id: 42 }));
    assert!(!obs.is_complete());
    let obs = create_ssd_observer(Some(RffiSetSessionDescriptionObserver { id: 7 })).unwrap();
    assert_eq!(obs.get_rffi_observer(), Some(RffiSetSessionDescriptionObserver { id: 7 }));
    assert!(!obs.is_complete());
}

#[test]
fn create_observer_failure_reaches_result() {
    let mut obs = create_csd_observer(Some(RffiCreateSessionDescriptionObserver { id: 1 })).unwrap();
    assert!(obs.get_result().is_none());
    obs.on_create_failure("negotiation timeout".to_string(), 7);
    assert!(obs.is_complete());
    let r = obs.get_result().unwrap();
    assert_eq!(r.err(), Some(failed("negotiation timeout", 7)));
    assert_eq!(obs.get_result().unwrap().err(), Some(failed("negotiation timeout", 7)));
}

#[test]
fn create_observer_success_reaches_result() {
    let mut obs = CreateSessionDescriptionObserver::new();
    assert_eq!(obs.get_rffi_observer(), None);
    obs.set_rffi_observer(RffiCreateSessionDescriptionObserver { id: 2 });
    obs.on_create_success(RffiSessionDescriptionInterface { id: 77 });
    obs.on_create_failure("late".to_string(), 1);
    let desc = obs.get_result().unwrap().unwrap();
    assert_eq!(desc.get_rffi_interface(), RffiSessionDescriptionInterface { id: 77 });
    assert_eq!(desc.direction(), None);
    let again = obs.get_result().unwrap().unwrap();
    assert_eq!(again.get_rffi_interface(), RffiSessionDescriptionInterface { id: 77 });
}

#[test]
fn set_observer_outcomes() {
    let mut obs = SetSessionDescriptionObserver::new();
    assert_eq!(obs.get_result(), None);
    obs.on_set_success();
    obs.on_set_failure("ignored".to_string(), 3);
    assert_eq!(obs.get_result(), Some(Ok(())));
    assert_eq!(obs.get_result(), Some(Ok(())));

    let mut obs = SetSessionDescriptionObserver::new();
    obs.on_set_failure("bad answer".to_string(), -2);
    assert_eq!(obs.get_result(), Some(Err(failed("bad answer", -2))));
}

#[test]
fn offer_from_rejected_text_is_malformed() {
    let r = SessionDescriptionInterface::create_sdp_offer("v=0 garbage".to_string(), None);
    assert_eq!(r.err(), Some(BridgeError::MalformedDescription));
    let r = SessionDescriptionInterface::create_sdp_answer("v=0 garbage".to_string(), None);
    assert_eq!(r.err(), Some(BridgeError::MalformedDescription));
}

#[test]
fn text_with_zero_byte_is_malformed() {
    assert!(!is_transferable_text("v=0\0o=-"));
    assert!(is_transferable_text("v=0\r\no=- 1 2 IN IP4 127.0.0.1\r\n"));
    assert!(is_transferable_text(""));
    let parsed = Some(RffiSessionDescriptionInterface { id: 5 });
    let r = SessionDescriptionInterface::create_sdp_offer("v=0\0".to_string(), parsed);
    assert_eq!(r.err(), Some(BridgeError::MalformedDescription));
}

#[test]
fn offer_and_answer_keep_parsed_object() {
    let parsed = Some(RffiSessionDescriptionInterface { id: 11 });
    let offer = SessionDescriptionInterface::create_sdp_offer("v=0\r\n".to_string(), parsed).unwrap();
    assert_eq!(offer.get_rffi_interface(), RffiSessionDescriptionInterface { id: 11 });
    assert_eq!(offer.direction(), Some(Direction::Offer));
    let answer = SessionDescriptionInterface::create_sdp_answer("v=0\r\n".to_string(), Some(RffiSessionDescriptionInterface { id: 12 })).unwrap();
    assert_eq!(answer.get_rffi_interface(), RffiSessionDescriptionInterface { id: 12 });
    assert_eq!(answer.direction(), Some(Direction::Answer));
}

#[test]
fn description_text_round_trip_through_pass_through_engine() {
    let text = "v=0\r\no=- 4611731400430051336 2 IN IP4 127.0.0.1\r\ns=-\r\n".to_string();
    let handle = SessionDescriptionInterface::create_sdp_offer(text.clone(), Some(RffiSessionDescriptionInterface { id: 1 })).unwrap();
    assert_eq!(handle.get_description(Some(text.clone())), Ok(text));
    assert_eq!(handle.get_description(None), Err(BridgeError::DescriptionUnavailable));
}

fn desc(id: u64) -> RffiSessionDescriptionInterface {
    RffiSessionDescriptionInterface { id }
}

#[test]
fn table_outcomes_stay_with_their_token() {
    let mut table: BridgeTable<CreateSessionDescriptionObserver> = BridgeTable::new();
    let tokens: Vec<u64> = (0..8).map(|_| table.register()).collect();
    assert_eq!(tokens, vec![0, 1, 2, 3, 4, 5, 6, 7]);
    assert_eq!(table.len(), 8);
    for &t in tokens.iter() {
        assert_eq!(table.attach(t, Some(RffiCreateSessionDescriptionObserver { id: 1000 + t })), Ok(()));
    }
    for &t in tokens.iter().rev() {
        if t % 3 == 0 {
            assert!(table.on_failure(t, format!("fail {}", t), t as i32));
        } else {
            assert!(table.on_success(t, desc(t * 100)));
        }
    }
    for &t in tokens.iter() {
        assert!(table.is_complete(t));
        let r = table.read_result(t).unwrap();
        if t % 3 == 0 {
            assert_eq!(r, Err(failed(&format!("fail {}", t), t as i32)));
        } else {
            assert_eq!(r, Ok(desc(t * 100)));
        }
        let obs = table.observer(t).unwrap();
        assert_eq!(obs.get_rffi_observer(), Some(RffiCreateSessionDescriptionObserver { id: 1000 + t }));
        let through_observer = obs.get_result().unwrap();
        if t % 3 == 0 {
            assert_eq!(through_observer.err(), Some(failed(&format!("fail {}", t), t as i32)));
        } else {
            assert_eq!(through_observer.unwrap().get_rffi_interface(), desc(t * 100));
        }
    }
}

#[test]
fn table_ignores_unknown_and_repeated_tokens() {
    let mut table: BridgeTable<SetSessionDescriptionObserver> = BridgeTable::new();
    let a = table.register();
    let b = table.register();
    assert!(!table.on_success(99, ()));
    assert!(!table.is_complete(99));
    assert!(table.observer(99).is_none());
    assert_eq!(table.read_result(99), Some(Err(BridgeError::BridgeFailure)));
    assert!(table.on_success(b, ()));
    assert!(!table.on_failure(b, "late".to_string(), 1));
    assert!(!table.is_complete(a));
    assert_eq!(table.read_result(a), None);
    assert_eq!(table.read_result(b), Some(Ok(())));
    assert_eq!(table.read_result(b), Some(Ok(())));
    assert!(table.on_failure(a, "negotiation timeout".to_string(), 7));
    assert_eq!(table.read_result(a), Some(Err(failed("negotiation timeout", 7))));
    assert_eq!(table.observer(a).unwrap().get_result(), Some(Err(failed("negotiation timeout", 7))));
}

#[test]
fn table_attach_failures() {
    let mut table: BridgeTable<SetSessionDescriptionObserver> = BridgeTable::new();
    let a = table.register();
    assert_eq!(table.attach(a, None), Err(BridgeError::CounterpartCreationFailed));
    assert_eq!(table.observer(a).unwrap().get_rffi_observer(), None);
    assert_eq!(table.attach(5, Some(RffiSetSessionDescriptionObserver { id: 1 })), Err(BridgeError::BridgeFailure));
    assert_eq!(table.attach(a, Some(RffiSetSessionDescriptionObserver { id: 9 })), Ok(()));
    assert_eq!(table.observer(a).unwrap().get_rffi_observer(), Some(RffiSetSessionDescriptionObserver { id: 9 }));
}
