//! What holds of the core over several operations.

use vstd::prelude::*;

use crate::engine::BroadcastView;
use crate::engine::StatusReport;
use crate::message::InMessage;
use crate::models::ReceiveTransaction;
use crate::models::UpdateSendTransaction;
use crate::pending::MessageKey;
use crate::pending::PendingMap;
use crate::pending::PendingMessageStatus;
use crate::uint256::UInt256;

verus! {

/// A message that became pending and is then dropped leaves no trace, whether it
/// was cancelled, could not be broadcast, was delivered or expired.
pub proof fn law_dropped_message_leaves_no_trace<T: Clone>(
    before: PendingMap<T>,
    after: PendingMap<T>,
    key: MessageKey,
    expired_at: u32,
    producer: T,
)
    requires
        !before.contains_key(key),
        crate::engine::became_pending(before, after, key, expired_at, producer),
    ensures
        after.contains_key(key),
        after.remove(key) == before,
        crate::pending::reported(after, key).contains_key(key),
        crate::pending::reported(after, key).remove(key) == before,
{
    assert(after.remove(key) =~= before);
    assert(crate::pending::reported(after, key).remove(key) =~= before);
}

/// A message that was not pending is kept, once it is added or sent, with the
/// deadline it was given and with a clone of the producer to report to. All
/// others stay as they are.
pub proof fn law_new_message_keeps_its_deadline<T: Clone>(
    before: PendingMap<T>,
    after: PendingMap<T>,
    key: MessageKey,
    expired_at: u32,
    producer: T,
)
    requires
        !before.contains_key(key),
        crate::engine::made_pending(before, after, key, expired_at, producer),
    ensures
        after.contains_key(key),
        after[key].expired_at == expired_at,
        after[key].tx matches Some(tx) && cloned(producer, tx),
        after.remove(key) == before,
{
    assert(after.remove(key) =~= before);
}

/// A message can be pending only once: when it is added or sent again, with
/// whatever deadline, what is kept of it stays as it was the first time.
pub proof fn law_second_send_changes_nothing<T: Clone>(
    before: PendingMap<T>,
    after: PendingMap<T>,
    again: PendingMap<T>,
    key: MessageKey,
    expired_at: u32,
    other_expired_at: u32,
    producer: T,
    other_producer: T,
)
    requires
        crate::engine::made_pending(before, after, key, expired_at, producer),
        crate::engine::made_pending(after, again, key, other_expired_at, other_producer),
    ensures
        again == after,
        before.contains_key(key) ==> after == before,
{
}

/// A send whose broadcast fails is undone. The message that the broadcast takes
/// back is the one of its own account and hash, which the send made pending: the
/// table is then what it was before the send, also where the message's fate was
/// reported meanwhile.
pub proof fn law_failed_broadcast_undoes_the_send<T: Clone, P>(
    before: PendingMap<T>,
    after: PendingMap<T>,
    broadcast: BroadcastView<P>,
    expire_at: u32,
    producer: T,
)
    requires
        !before.contains_key((broadcast.account, broadcast.message_hash)),
        crate::engine::made_pending(
            before,
            after,
            (broadcast.account, broadcast.message_hash),
            expire_at,
            producer,
        ),
    ensures
        after.contains_key(broadcast.key()),
        after.remove(broadcast.key()) == before,
        crate::pending::reported(after, broadcast.key()).contains_key(broadcast.key()),
        crate::pending::reported(after, broadcast.key()).remove(broadcast.key()) == before,
{
    law_dropped_message_leaves_no_trace(before, after, broadcast.key(), expire_at, producer);
}

/// Broadcasts take back the same message exactly when they are for the same
/// account and the same message hash.
pub proof fn law_broadcasts_take_back_their_own<P, Q>(
    broadcast: BroadcastView<P>,
    other: BroadcastView<Q>,
)
    ensures
        broadcast.key() == other.key() <==> broadcast.account == other.account
            && broadcast.message_hash == other.message_hash,
        broadcast.key() == (broadcast.account, broadcast.message_hash),
{
}

/// A transaction that took in a message from outside the chain reports it as
/// delivered, by the transaction's account and the message's hash, exactly where
/// that message is pending and nothing has been reported of it. The message then
/// stays pending with its deadline and has nothing more to report. Where nothing
/// is reported, nothing changes. A hash that could not be computed counts as zero.
pub proof fn law_arrival_is_reported_as_delivered<T>(
    before: PendingMap<T>,
    after: PendingMap<T>,
    account: UInt256,
    message: InMessage,
    hash: UInt256,
    report: Option<StatusReport<T>>,
)
    requires
        crate::engine::notes_delivery(before, after, account, Some(message), report),
        message.header is ExtInMsgInfo,
        match message.hash {
            Some(computed) => hash == computed,
            None => forall|i: int| 0 <= i < 32 ==> #[trigger] hash.bytes[i] == 0,
        },
    ensures
        report is Some <==> before.contains_key((account, hash)) && before[(
            account,
            hash,
        )].tx is Some,
        report matches Some(report) ==> {
            &&& report.status is Delivered
            &&& report.account == account
            &&& report.hash == hash
            &&& before[(account, hash)].tx == Some(report.tx)
            &&& after.contains_key((account, hash))
            &&& after[(account, hash)].tx is None
            &&& after[(account, hash)].expired_at == before[(account, hash)].expired_at
            &&& after.remove((account, hash)) == before.remove((account, hash))
        },
        report is None ==> after == before,
{
    let key = (account, hash);
    if message.hash is None {
        assert forall|i: int| 0 <= i < 32 implies hash@[i] == crate::uint256::zero()@[i] by {
            assert(hash.bytes[i] == 0);
        }
        crate::uint256::lemma_same_bytes(hash, crate::uint256::zero());
    }
    assert(after.remove(key) =~= before.remove(key));
    if report is None {
        assert(after =~= before);
    }
}

/// A transaction that took in no message, or one made by a contract, reports
/// nothing and changes nothing.
pub proof fn law_other_transactions_report_nothing<T>(
    before: PendingMap<T>,
    after: PendingMap<T>,
    account: UInt256,
    in_msg: Option<InMessage>,
    report: Option<StatusReport<T>>,
)
    requires
        crate::engine::notes_delivery(before, after, account, in_msg, report),
        in_msg matches Some(message) ==> message.header is Other,
    ensures
        after == before,
        report is None,
{
}

/// A message that was not pending, is sent and then arrives is reported as
/// delivered. When it arrives again, nothing is reported and nothing changes.
pub proof fn law_sent_message_is_delivered_once<T: Clone>(
    before: PendingMap<T>,
    sent: PendingMap<T>,
    first: PendingMap<T>,
    second: PendingMap<T>,
    account: UInt256,
    message: InMessage,
    hash: UInt256,
    expire_at: u32,
    producer: T,
    report: Option<StatusReport<T>>,
    other_report: Option<StatusReport<T>>,
)
    requires
        !before.contains_key((account, hash)),
        crate::engine::made_pending(before, sent, (account, hash), expire_at, producer),
        message.header is ExtInMsgInfo,
        message.hash == Some(hash),
        crate::engine::notes_delivery(sent, first, account, Some(message), report),
        crate::engine::notes_delivery(first, second, account, Some(message), other_report),
    ensures
        report matches Some(report) && {
            &&& report.status is Delivered
            &&& report.account == account
            &&& report.hash == hash
            &&& cloned(producer, report.tx)
        },
        first[(account, hash)].expired_at == expire_at,
        other_report is None,
        second == first,
{
    law_new_message_keeps_its_deadline(before, sent, (account, hash), expire_at, producer);
    law_arrival_is_reported_as_delivered(sent, first, account, message, hash, report);
    law_arrival_is_reported_as_delivered(first, second, account, message, hash, other_report);
}

/// The wallet service is told of every message that expired, and of none that was
/// delivered. What it is told is to mark the sent transaction of that hash and
/// account, in the workchain of ordinary accounts, as failed because it expired.
pub proof fn law_every_expiry_is_told<C, D>(
    status: PendingMessageStatus,
    key: MessageKey,
    update: Option<ReceiveTransaction<C, D>>,
)
    requires
        crate::engine::tells_fate(status, key, update),
    ensures
        update is Some <==> status is Expired,
        update matches Some(update) ==> {
            &&& update matches ReceiveTransaction::UpdateSent(sent)
            &&& sent.message_hash@ == key.1.hex()
            &&& sent.account_workchain_id == 0
            &&& sent.account_hex@ == key.0.hex()
            &&& sent.input matches UpdateSendTransaction::Error(reason)
            &&& reason@ == "Expired"@
        },
{
}

/// A message that arrives once it is pending is reported to a clone of the
/// producer it was sent with, and stays pending with the same time limit. When
/// it arrives again it is not reported, and nothing changes.
pub proof fn law_delivery_is_reported_once<T: Clone>(
    before: PendingMap<T>,
    after: PendingMap<T>,
    key: MessageKey,
    expired_at: u32,
    producer: T,
)
    requires
        crate::engine::became_pending(before, after, key, expired_at, producer),
    ensures
        crate::pending::report_to(after, key) matches Some(tx) && cloned(producer, tx),
        ({
            let reported = crate::pending::reported(after, key);
            &&& reported.contains_key(key)
            &&& reported[key].expired_at == expired_at
            &&& crate::pending::report_to(reported, key) is None
            &&& crate::pending::reported(reported, key) == reported
        }),
{
    let reported = crate::pending::reported(after, key);
    assert(crate::pending::reported(reported, key) =~= reported);
}

/// What happens to the table of pending messages.
pub enum PendingEvent {
    /// The message is sent, and is to be valid until the time given.
    Sent(MessageKey, u32),
    /// The message's fate is reported, if it has not been.
    Reported(MessageKey),
    /// The message is cancelled, or its fate is known.
    Dropped(MessageKey),
}

/// That the event turns `before` into `after`, with reports going to `producer`.
pub open spec fn pending_step<T: Clone>(
    before: PendingMap<T>,
    after: PendingMap<T>,
    event: PendingEvent,
    producer: T,
) -> bool {
    match event {
        PendingEvent::Sent(key, expired_at) => crate::engine::made_pending(
            before,
            after,
            key,
            expired_at,
            producer,
        ),
        PendingEvent::Reported(key) => after == crate::pending::reported(before, key),
        PendingEvent::Dropped(key) => after == before.remove(key),
    }
}

/// What adding or sending a message does to the table is the step of sending it.
pub proof fn law_adding_is_a_step<T: Clone>(
    before: PendingMap<T>,
    after: PendingMap<T>,
    key: MessageKey,
    expired_at: u32,
    producer: T,
)
    requires
        crate::engine::made_pending(before, after, key, expired_at, producer),
    ensures
        pending_step(before, after, PendingEvent::Sent(key, expired_at), producer),
{
}

/// What a transaction does to the table is the step of reporting the message that
/// it took in from outside the chain. A transaction that took in none leaves the
/// table as it is.
pub proof fn law_delivery_is_a_step<T: Clone>(
    before: PendingMap<T>,
    after: PendingMap<T>,
    account: UInt256,
    in_msg: Option<InMessage>,
    report: Option<StatusReport<T>>,
    producer: T,
)
    requires
        crate::engine::notes_delivery(before, after, account, in_msg, report),
    ensures
        match crate::engine::arrived(account, in_msg) {
            Some(key) => {
                &&& pending_step(before, after, PendingEvent::Reported(key), producer)
                &&& report is Some <==> crate::pending::report_to(before, key) is Some
            },
            None => after == before && report is None,
        },
{
}

/// What cancelling a message, a failed broadcast or the closing of a message does
/// to the table is the step of dropping it.
pub proof fn law_dropping_is_a_step<T: Clone>(
    before: PendingMap<T>,
    after: PendingMap<T>,
    key: MessageKey,
    producer: T,
)
    requires
        after == before.remove(key),
    ensures
        pending_step(before, after, PendingEvent::Dropped(key), producer),
{
}

/// That the events turn the empty table into each of `tables` in turn.
pub open spec fn pending_run<T: Clone>(
    tables: Seq<PendingMap<T>>,
    events: Seq<PendingEvent>,
    producer: T,
) -> bool {
    &&& tables.len() == events.len() + 1
    &&& tables[0] == PendingMap::<T>::empty()
    &&& forall|i: int|
        0 <= i < events.len() ==> pending_step(
            tables[i],
            tables[i + 1],
            #[trigger] events[i],
            producer,
        )
}

/// A new core's table is the beginning of a run, and every step that can be taken
/// from where a run has come to carries it on.
pub proof fn law_every_step_carries_a_run_on<T: Clone>(
    tables: Seq<PendingMap<T>>,
    events: Seq<PendingEvent>,
    producer: T,
    event: PendingEvent,
    after: PendingMap<T>,
)
    ensures
        pending_run(seq![PendingMap::<T>::empty()], seq![], producer),
        pending_run(tables, events, producer) && pending_step(tables.last(), after, event, producer)
            ==> pending_run(tables.push(after), events.push(event), producer),
{
    if pending_run(tables, events, producer) && pending_step(
        tables.last(),
        after,
        event,
        producer,
    ) {
        let (longer_tables, longer_events) = (tables.push(after), events.push(event));
        assert forall|i: int| 0 <= i < longer_events.len() implies pending_step(
            longer_tables[i],
            longer_tables[i + 1],
            #[trigger] longer_events[i],
            producer,
        ) by {
            if i < events.len() {
                assert(pending_step(tables[i], tables[i + 1], events[i], producer));
            }
        }
    }
}

/// That no event from `from` up to `to` drops the message.
pub open spec fn not_dropped(
    events: Seq<PendingEvent>,
    key: MessageKey,
    from: int,
    to: int,
) -> bool {
    forall|i: int| from <= i < to ==> #[trigger] events[i] != PendingEvent::Dropped(key)
}

/// That an event sends the message.
pub open spec fn sends(event: PendingEvent, key: MessageKey) -> bool {
    event matches PendingEvent::Sent(sent, _) && sent == key
}

/// A message is pending exactly while it has been sent and not been dropped since.
pub proof fn law_pending_from_sent_to_dropped<T: Clone>(
    tables: Seq<PendingMap<T>>,
    events: Seq<PendingEvent>,
    producer: T,
    key: MessageKey,
    n: int,
)
    requires
        pending_run(tables, events, producer),
        0 <= n < tables.len(),
    ensures
        tables[n].contains_key(key) <==> exists|i: int|
            0 <= i < n && sends(#[trigger] events[i], key) && not_dropped(events, key, i, n),
    decreases n,
{
    if n > 0 {
        let m = n - 1;
        law_pending_from_sent_to_dropped(tables, events, producer, key, m);
        let event = events[m];
        assert(pending_step(tables[m], tables[m + 1], event, producer));
        if tables[n].contains_key(key) {
            assert(event != PendingEvent::Dropped(key));
            if tables[m].contains_key(key) {
                let i = choose|i: int|
                    0 <= i < m && sends(#[trigger] events[i], key) && not_dropped(
                        events,
                        key,
                        i,
                        m,
                    );
                assert(sends(events[i], key) && not_dropped(events, key, i, n));
            } else {
                assert(sends(events[m], key));
                assert(not_dropped(events, key, m, n));
            }
        }
        if exists|i: int|
            0 <= i < n && sends(#[trigger] events[i], key) && not_dropped(events, key, i, n) {
            let i = choose|i: int|
                0 <= i < n && sends(#[trigger] events[i], key) && not_dropped(events, key, i, n);
            assert(events[m] != PendingEvent::Dropped(key));
            if i < m {
                assert(not_dropped(events, key, i, m));
                assert(tables[m].contains_key(key));
            }
            assert(tables[n].contains_key(key));
        }
    }
}

/// Once a message was reported it stays pending with nothing to report, until it
/// is dropped.
proof fn lemma_reported_stays_reported<T: Clone>(
    tables: Seq<PendingMap<T>>,
    events: Seq<PendingEvent>,
    producer: T,
    key: MessageKey,
    from: int,
    to: int,
)
    requires
        pending_run(tables, events, producer),
        0 <= from < to < tables.len(),
        events[from] == PendingEvent::Reported(key),
        tables[from].contains_key(key),
        not_dropped(events, key, from, to),
    ensures
        tables[to].contains_key(key),
        tables[to][key].tx is None,
    decreases to - from,
{
    let m = to - 1;
    assert(pending_step(tables[m], tables[m + 1], events[m], producer));
    if from < m {
        assert(not_dropped(events, key, from, m));
        lemma_reported_stays_reported(tables, events, producer, key, from, m);
    }
}

/// The delivery of a message is reported at most once: between two reports the
/// message was dropped.
pub proof fn law_one_report_until_dropped<T: Clone>(
    tables: Seq<PendingMap<T>>,
    events: Seq<PendingEvent>,
    producer: T,
    key: MessageKey,
    first: int,
    second: int,
)
    requires
        pending_run(tables, events, producer),
        0 <= first < second < events.len(),
        events[first] == PendingEvent::Reported(key),
        events[second] == PendingEvent::Reported(key),
        crate::pending::report_to(tables[first], key) is Some,
        crate::pending::report_to(tables[second], key) is Some,
    ensures
        exists|i: int| first < i < second && #[trigger] events[i] == PendingEvent::Dropped(key),
{
    if forall|i: int| first < i < second ==> #[trigger] events[i] != PendingEvent::Dropped(key) {
        assert(not_dropped(events, key, first, second));
        lemma_reported_stays_reported(tables, events, producer, key, first, second);
    }
}

/// Every report that is still to be made goes to a clone of the producer.
pub proof fn law_reports_go_to_the_producer<T: Clone>(
    tables: Seq<PendingMap<T>>,
    events: Seq<PendingEvent>,
    producer: T,
    key: MessageKey,
    n: int,
)
    requires
        pending_run(tables, events, producer),
        0 <= n < tables.len(),
    ensures
        crate::pending::report_to(tables[n], key) matches Some(tx) ==> cloned(producer, tx),
    decreases n,
{
    if n > 0 {
        law_reports_go_to_the_producer(tables, events, producer, key, n - 1);
        assert(pending_step(tables[n - 1], tables[n - 1 + 1], events[n - 1], producer));
    }
}

/// As long as a message is pending, its deadline is the one it was given by the
/// send that made it pending. Sends of it that came later changed nothing.
pub proof fn law_deadline_is_that_of_the_send<T: Clone>(
    tables: Seq<PendingMap<T>>,
    events: Seq<PendingEvent>,
    producer: T,
    key: MessageKey,
    n: int,
)
    requires
        pending_run(tables, events, producer),
        0 <= n < tables.len(),
        tables[n].contains_key(key),
    ensures
        exists|i: int|
            0 <= i < n && #[trigger] events[i] == PendingEvent::Sent(key, tables[n][key].expired_at)
                && !tables[i].contains_key(key) && not_dropped(events, key, i, n),
    decreases n,
{
    if n > 0 {
        let m = n - 1;
        assert(pending_step(tables[m], tables[m + 1], events[m], producer));
        assert(events[m] != PendingEvent::Dropped(key));
        if tables[m].contains_key(key) {
            law_deadline_is_that_of_the_send(tables, events, producer, key, m);
            let i = choose|i: int|
                0 <= i < m && #[trigger] events[i] == PendingEvent::Sent(
                    key,
                    tables[m][key].expired_at,
                ) && !tables[i].contains_key(key) && not_dropped(events, key, i, m);
            assert(tables[n][key].expired_at == tables[m][key].expired_at);
            assert(not_dropped(events, key, i, n));
        } else {
            assert(events[m] == PendingEvent::Sent(key, tables[n][key].expired_at));
            assert(not_dropped(events, key, m, n));
        }
    }
}

/// A transaction gives a report only of a message that was sent and not dropped
/// since, and the report goes to a clone of the producer.
pub proof fn law_report_is_of_a_sent_message<T: Clone>(
    tables: Seq<PendingMap<T>>,
    events: Seq<PendingEvent>,
    producer: T,
    n: int,
    after: PendingMap<T>,
    account: UInt256,
    in_msg: Option<InMessage>,
    report: StatusReport<T>,
)
    requires
        pending_run(tables, events, producer),
        0 <= n < tables.len(),
        crate::engine::notes_delivery(tables[n], after, account, in_msg, Some(report)),
    ensures
        exists|i: int|
            0 <= i < n && sends(#[trigger] events[i], (report.account, report.hash)) && not_dropped(
                events,
                (report.account, report.hash),
                i,
                n,
            ),
        cloned(producer, report.tx),
{
    let key = (report.account, report.hash);
    law_pending_from_sent_to_dropped(tables, events, producer, key, n);
    law_reports_go_to_the_producer(tables, events, producer, key, n);
}

/// An event that concerns one message leaves all others as they are.
pub proof fn law_other_messages_stay_as_they_are<T: Clone>(
    before: PendingMap<T>,
    after: PendingMap<T>,
    event: PendingEvent,
    producer: T,
    other: MessageKey,
)
    requires
        pending_step(before, after, event, producer),
        match event {
            PendingEvent::Sent(key, _) => key != other,
            PendingEvent::Reported(key) => key != other,
            PendingEvent::Dropped(key) => key != other,
        },
    ensures
        after.contains_key(other) == before.contains_key(other),
        after.contains_key(other) ==> after[other] == before[other],
{
}

/// The wallet service can tell from an expiry which message it is about.
pub proof fn law_expiry_names_its_message<C, D>(
    update: ReceiveTransaction<C, D>,
    key: MessageKey,
    other: MessageKey,
)
    requires
        crate::engine::is_expiry_of(update, key),
        crate::engine::is_expiry_of(update, other),
    ensures
        key == other,
{
    crate::uint256::law_hex_is_injective(key.0, other.0);
    crate::uint256::law_hex_is_injective(key.1, other.1);
}

} // verus!
