use ton_core::engine::Broadcast;
use ton_core::engine::OutgoingMessage;
use ton_core::engine::RawContractState;
use ton_core::engine::TonCore;
use ton_core::engine::BASE_WORKCHAIN_ID;
use ton_core::error::Failure;
use ton_core::error::TonCoreError;
use ton_core::listener::Listener;
use ton_core::listener::ListenerAction;
use ton_core::listener::ListenerEvent;
use ton_core::message::CommonMsgInfo;
use ton_core::message::EncodedMessage;
use ton_core::message::InMessage;
use ton_core::models::ReceiveTransaction;
use ton_core::models::UpdateSendTransaction;
use ton_core::pending::PendingMessageStatus;
use ton_core::uint256::UInt256;

type Update = ReceiveTransaction<u8, u8>;

fn id(byte: u8) -> UInt256 {
    UInt256 { bytes: [byte; 32] }
}

fn new_core() -> TonCore<u64> {
    TonCore::new(77)
}

fn external(hash: Option<UInt256>) -> Option<InMessage> {
    Some(InMessage { header: CommonMsgInfo::ExtInMsgInfo(id(1), ()), hash })
}

fn encoded(hash: UInt256) -> Result<EncodedMessage<u32>, String> {
    Ok(EncodedMessage { to: 5, serialized: vec![1, 2, 3], message_hash: hash })
}

fn outgoing(account: UInt256) -> OutgoingMessage<()> {
    new_core().send_ton_message(CommonMsgInfo::ExtInMsgInfo(account, ())).unwrap()
}

fn text<E>(failure: Failure<E>) -> String {
    match failure {
        Failure::Core(error) => error.message(),
        Failure::Service(_) => panic!("the core should have refused"),
    }
}

#[test]
fn start_goes_through_engine_and_subscriber() {
    let mut core = new_core();
    let start = core.start().unwrap();
    let start = core.engine_started(start, Ok::<(), String>(())).unwrap();
    assert!(core.subscriber_started(start, Ok::<(), String>(())).is_ok());
}

#[test]
fn started_core_is_not_started_again() {
    let mut core = new_core();
    let start = core.start().unwrap();
    let start = core.engine_started(start, Ok::<(), String>(())).unwrap();
    core.subscriber_started(start, Ok::<(), String>(())).unwrap();
    let error = core.start().err().unwrap();
    assert!(matches!(error, TonCoreError::AlreadyInitialized));
    assert_eq!(error.message(), "Already initialized");
}

#[test]
fn failed_start_can_be_tried_again() {
    let mut core = new_core();
    let start = core.start().unwrap();
    let error = core.engine_started(start, Err("engine".to_string())).err().unwrap();
    assert_eq!(error, "engine");

    let start = core.start().unwrap();
    let start = core.engine_started(start, Ok::<(), String>(())).unwrap();
    let result = core.subscriber_started(start, Err("subscriber".to_string()));
    assert_eq!(result, Err("subscriber".to_string()));

    assert!(!core.is_starting());
    assert!(core.start().is_ok());
}

#[test]
fn start_is_under_way_until_it_ends() {
    let mut core = new_core();
    assert!(!core.is_starting());
    let start = core.start().unwrap();
    assert!(core.is_starting());
    let start = core.engine_started(start, Ok::<(), String>(())).unwrap();
    assert!(core.is_starting());
    core.subscriber_started(start, Ok::<(), String>(())).unwrap();
    assert!(!core.is_starting());
    core.abandon_start();
    assert!(core.start().is_err());
    assert!(!core.is_starting());
}

#[test]
fn abandoned_start_can_be_tried_again() {
    let mut core = new_core();
    let start = core.start().unwrap();
    core.engine_started(start, Ok::<(), String>(())).unwrap();
    core.abandon_start();
    assert!(!core.is_starting());
    assert!(core.start().is_ok());
}

#[test]
fn existing_contract_is_returned() {
    let result: Result<u8, Failure<String>> =
        new_core().get_contract_state(id(1), Ok(RawContractState::Exists(9)));
    assert_eq!(result.unwrap(), 9);
}

#[test]
fn missing_account_is_named() {
    let result: Result<u8, Failure<String>> =
        new_core().get_contract_state(id(0xab), Ok(RawContractState::NotExists));
    assert_eq!(text(result.unwrap_err()), format!("Account `{}` not found", "ab".repeat(32)));
}

#[test]
fn failed_state_request_is_passed_on() {
    let result: Result<u8, Failure<String>> =
        new_core().get_contract_state(id(1), Err("timeout".to_string()));
    assert!(matches!(result, Err(Failure::Service(error)) if error == "timeout"));
}

#[test]
fn only_external_messages_are_sent() {
    let header = CommonMsgInfo::ExtInMsgInfo(id(4), "address");
    assert_eq!(*new_core().send_ton_message(header).unwrap().address(), "address");
    let error = new_core().send_ton_message(CommonMsgInfo::<()>::Other).unwrap_err();
    assert!(matches!(error, TonCoreError::ExternalTonMessageExpected));
    assert_eq!(error.message(), "External ton message expected");
}

#[test]
fn encoded_message_becomes_pending_and_is_broadcast() {
    let mut core = new_core();
    let broadcast: Broadcast<u32> = core.message_encoded(outgoing(id(1)), encoded(id(2)), 50).unwrap();
    assert_eq!(*broadcast.to(), 5);
    assert_eq!(broadcast.serialized(), [1, 2, 3]);
    assert!(core.broadcast_finished(broadcast, Ok::<(), String>(())).is_ok());
    assert!(core.cancel_pending_message(id(1), id(2)).is_ok());
}

#[test]
fn message_that_cannot_be_encoded_is_not_pending() {
    let mut core = new_core();
    let result: Result<Broadcast<u32>, Failure<String>> =
        core.message_encoded(outgoing(id(1)), Err("cell".to_string()), 50);
    assert!(matches!(result, Err(Failure::Service(error)) if error == "cell"));
    assert!(core.message_encoded(outgoing(id(1)), encoded(id(2)), 50).is_ok());
}

#[test]
fn pending_message_is_not_sent_again() {
    let mut core = new_core();
    core.message_encoded(outgoing(id(0x0a)), encoded(id(0x0b)), 50).unwrap();
    let refused = core.message_encoded(outgoing(id(0x0a)), encoded(id(0x0b)), 60).err().unwrap();
    assert_eq!(
        text(refused),
        format!(
            "Pending message hash `{}` exist for account `{}`",
            "0b".repeat(32),
            "0a".repeat(32)
        )
    );
    // Another account, and another message, are no obstacle.
    assert!(core.message_encoded(outgoing(id(0x0c)), encoded(id(0x0b)), 50).is_ok());
    assert!(core.message_encoded(outgoing(id(0x0a)), encoded(id(0x0c)), 50).is_ok());
}

#[test]
fn failed_broadcast_takes_the_message_back() {
    let mut core = new_core();
    let broadcast = core.message_encoded(outgoing(id(1)), encoded(id(2)), 50).unwrap();
    let result = core.broadcast_finished(broadcast, Err("network".to_string()));
    assert!(matches!(result, Err(Failure::Service(error)) if error == "network"));
    assert!(core.message_encoded(outgoing(id(1)), encoded(id(2)), 60).is_ok());
}

#[test]
fn failed_broadcast_of_a_message_that_is_gone() {
    let mut core = new_core();
    let broadcast = core.message_encoded(outgoing(id(1)), encoded(id(2)), 50).unwrap();
    core.cancel_pending_message(id(1), id(2)).unwrap();
    let result = core.broadcast_finished(broadcast, Err("network".to_string()));
    assert_eq!(
        text(result.unwrap_err()),
        format!(
            "Pending message hash `{}` not exist for account `{}`",
            "02".repeat(32),
            "01".repeat(32)
        )
    );
}

#[test]
fn added_message_can_be_cancelled_once() {
    let mut core = new_core();
    assert!(core.add_pending_message(id(1), id(2), 50).is_ok());
    let again = core.add_pending_message(id(1), id(2), 50).unwrap_err();
    assert!(matches!(again, TonCoreError::PendingMessageExist(_, _)));
    assert!(core.cancel_pending_message(id(1), id(2)).is_ok());
    let gone = core.cancel_pending_message(id(1), id(2)).unwrap_err();
    match gone {
        TonCoreError::PendingMessageNotExist(hash, account) => {
            assert_eq!(hash, "02".repeat(32));
            assert_eq!(account, "01".repeat(32));
        }
        other => panic!("unexpected error: {:?}", other),
    }
}

#[test]
fn pending_message_keeps_its_time_limit() {
    let mut core = new_core();
    assert!(core.pending_message(&id(1), &id(2)).is_none());
    core.add_pending_message(id(1), id(2), 50).unwrap();
    assert!(core.add_pending_message(id(1), id(2), 60).is_err());
    let state = core.pending_message(&id(1), &id(2)).unwrap();
    assert_eq!(state.expired_at, 50);
    assert_eq!(state.tx, Some(77));
    core.transaction_received(id(1), external(Some(id(2)))).unwrap();
    let state = core.pending_message(&id(1), &id(2)).unwrap();
    assert_eq!(state.expired_at, 50);
    assert_eq!(state.tx, None);
    core.message_encoded(outgoing(id(1)), encoded(id(3)), 70).unwrap();
    assert_eq!(core.pending_message(&id(1), &id(3)).unwrap().expired_at, 70);
}

#[test]
fn delivery_is_reported_once() {
    let mut core = new_core();
    core.add_pending_message(id(1), id(2), 50).unwrap();
    let report = core.transaction_received(id(1), external(Some(id(2)))).unwrap();
    assert_eq!(report.tx, 77);
    assert_eq!(report.account, id(1));
    assert_eq!(report.hash, id(2));
    assert_eq!(report.status, PendingMessageStatus::Delivered);
    assert!(core.transaction_received(id(1), external(Some(id(2)))).is_none());
    // The message stays pending until its fate is dealt with.
    assert!(core.add_pending_message(id(1), id(2), 50).is_err());
}

#[test]
fn dropped_message_is_reported_again_once_it_is_sent_again() {
    let mut core = new_core();
    core.add_pending_message(id(1), id(2), 50).unwrap();
    assert!(core.transaction_received(id(1), external(Some(id(2)))).is_some());
    core.cancel_pending_message(id(1), id(2)).unwrap();
    assert!(core.transaction_received(id(1), external(Some(id(2)))).is_none());
    core.add_pending_message(id(1), id(2), 50).unwrap();
    assert!(core.transaction_received(id(1), external(Some(id(2)))).is_some());
}

#[test]
fn transactions_without_the_message_report_nothing() {
    let mut core = new_core();
    core.add_pending_message(id(1), id(2), 50).unwrap();
    assert!(core.transaction_received(id(1), None).is_none());
    let internal = Some(InMessage { header: CommonMsgInfo::Other, hash: Some(id(2)) });
    assert!(core.transaction_received(id(1), internal).is_none());
    assert!(core.transaction_received(id(1), external(Some(id(3)))).is_none());
    assert!(core.transaction_received(id(3), external(Some(id(2)))).is_none());
    assert!(core.transaction_received(id(1), external(None)).is_none());
    assert!(core.transaction_received(id(1), external(Some(id(2)))).is_some());
}

#[test]
fn unknown_hash_counts_as_zero() {
    let mut core = new_core();
    core.add_pending_message(id(1), UInt256::default(), 50).unwrap();
    let report = core.transaction_received(id(1), external(None)).unwrap();
    assert_eq!(report.hash, UInt256::default());
}

#[test]
fn delivered_message_is_dropped_in_silence() {
    let mut core = new_core();
    core.add_pending_message(id(1), id(2), 50).unwrap();
    let (update, dropped): (Option<Update>, _) =
        core.pending_message_resolved(id(1), id(2), PendingMessageStatus::Delivered);
    assert!(update.is_none());
    assert!(dropped.is_ok());
    assert!(core.cancel_pending_message(id(1), id(2)).is_err());
}

#[test]
fn expired_message_is_told_to_the_service() {
    let mut core = new_core();
    core.add_pending_message(id(1), id(0x2f), 50).unwrap();
    let (update, dropped): (Option<Update>, _) =
        core.pending_message_resolved(id(1), id(0x2f), PendingMessageStatus::Expired);
    assert!(dropped.is_ok());
    match update {
        Some(ReceiveTransaction::UpdateSent(sent)) => {
            assert_eq!(sent.message_hash, "2f".repeat(32));
            assert_eq!(sent.account_workchain_id, 0);
            assert_eq!(sent.account_workchain_id, BASE_WORKCHAIN_ID);
            assert_eq!(sent.account_hex, "01".repeat(32));
            assert!(matches!(sent.input, UpdateSendTransaction::Error(reason) if reason == "Expired"));
        }
        other => panic!("unexpected update: {:?}", other),
    }
    assert!(core.cancel_pending_message(id(1), id(0x2f)).is_err());
}

#[test]
fn expiry_of_a_message_that_is_gone_is_told_all_the_same() {
    let mut core = new_core();
    let (update, dropped): (Option<Update>, _) =
        core.pending_message_resolved(id(1), id(2), PendingMessageStatus::Expired);
    assert!(update.is_some());
    assert!(matches!(dropped, Err(TonCoreError::PendingMessageNotExist(_, _))));
}

#[test]
fn other_messages_stay_as_they_are() {
    let mut core = new_core();
    core.add_pending_message(id(1), id(2), 50).unwrap();
    core.add_pending_message(id(1), id(3), 50).unwrap();
    core.transaction_received(id(1), external(Some(id(2)))).unwrap();
    core.cancel_pending_message(id(1), id(2)).unwrap();
    assert!(core.transaction_received(id(1), external(Some(id(3)))).is_some());
    assert!(core.cancel_pending_message(id(1), id(3)).is_ok());
}

#[test]
fn pending_messages_can_be_walked() {
    let mut core = new_core();
    assert!(core.pending_keys().is_empty());
    core.add_pending_message(id(1), id(2), 50).unwrap();
    core.add_pending_message(id(3), id(2), 60).unwrap();
    let expired: Vec<_> = core
        .pending_keys()
        .into_iter()
        .filter(|(account, hash)| core.pending_message(account, hash).unwrap().expired_at < 55)
        .collect();
    assert_eq!(expired, vec![(id(1), id(2))]);
    assert_eq!(core.take_pending_tx(&id(1), &id(2)), Some(77));
    assert_eq!(core.take_pending_tx(&id(1), &id(2)), None);
    assert_eq!(core.take_pending_tx(&id(3), &id(3)), None);
    assert_eq!(core.pending_keys().len(), 2);
}

type Action = ListenerAction<&'static str, u8, String>;

#[test]
fn transaction_is_held_against_the_table_before_it_is_handled() {
    let mut core = new_core();
    core.add_pending_message(id(1), id(2), 50).unwrap();
    let mut listener = Listener::new();
    let (report, action): (_, Action) =
        core.receive_transaction(&mut listener, id(1), external(Some(id(2))), "first", true);
    assert_eq!(report.unwrap().hash, id(2));
    assert!(matches!(action, ListenerAction::Handle("first")));
    let action: Action = listener.step(ListenerEvent::Handled(Ok(9)));
    assert!(matches!(action, ListenerAction::Forward(9)));
    let (report, action): (_, Action) =
        core.receive_transaction(&mut listener, id(1), external(Some(id(2))), "second", true);
    assert!(report.is_none());
    assert!(matches!(action, ListenerAction::Handle("second")));
}

#[test]
fn transaction_without_an_engine_is_not_held_against_the_table() {
    let mut core = new_core();
    core.add_pending_message(id(1), id(2), 50).unwrap();
    let mut listener = Listener::new();
    let (report, action): (_, Action) =
        core.receive_transaction(&mut listener, id(1), external(Some(id(2))), "late", false);
    assert!(report.is_none());
    assert!(matches!(action, ListenerAction::Close));
    let (report, action): (_, Action) =
        core.receive_transaction(&mut listener, id(1), external(Some(id(2))), "later", true);
    assert!(report.is_none());
    assert!(matches!(action, ListenerAction::Discard("later")));
    assert_eq!(core.pending_message(&id(1), &id(2)).unwrap().tx, Some(77));
}

#[test]
fn notice_of_expiry_is_passed_on_and_closes_the_message() {
    let mut core = new_core();
    core.add_pending_message(id(1), id(2), 50).unwrap();
    let mut listener = Listener::new();
    let status = PendingMessageStatus::Expired;
    let (update, action): (Option<Update>, _) =
        core.receive_pending_message(&mut listener, id(1), id(2), status, true);
    assert!(update.is_some());
    assert!(matches!(action, ListenerAction::Forward(())));
    assert!(core.pending_message(&id(1), &id(2)).is_none());
    let status = PendingMessageStatus::Delivered;
    let (update, action): (Option<Update>, _) =
        core.receive_pending_message(&mut listener, id(1), id(2), status, true);
    assert!(update.is_none());
    assert!(matches!(
        action,
        ListenerAction::Report(TonCoreError::PendingMessageNotExist(_, _))
    ));
}

#[test]
fn notice_without_an_engine_changes_nothing() {
    let mut core = new_core();
    core.add_pending_message(id(1), id(2), 50).unwrap();
    let mut listener = Listener::new();
    let status = PendingMessageStatus::Expired;
    let (update, action): (Option<Update>, _) =
        core.receive_pending_message(&mut listener, id(1), id(2), status, false);
    assert!(update.is_none());
    assert!(matches!(action, ListenerAction::Close));
    assert!(core.pending_message(&id(1), &id(2)).is_some());
}
