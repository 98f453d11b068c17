//! The core itself: what it keeps, and what it decides on each event.
//!
//! The core calls no service. An operation that needs one is cut where the
//! service is called: the first part says what is to be done, and the next part
//! takes what came of it.

use vstd::prelude::*;

use crate::error::ErrorView;
use crate::error::Failure;
use crate::error::FailureView;
use crate::error::TonCoreError;
use crate::listener::Listener;
use crate::listener::ListenerAction;
use crate::listener::ListenerEvent;
use crate::listener::ListenerState;
use crate::message::CommonMsgInfo;
use crate::message::EncodedMessage;
use crate::message::InMessage;
use crate::models::ReceiveTransaction;
use crate::models::UpdateSendTransaction;
use crate::models::UpdateSentTransaction;
use crate::pending::MessageKey;
use crate::pending::PendingMap;
use crate::pending::PendingMessageState;
use crate::pending::PendingMessageStatus;
use crate::pending::PendingMessagesCache;
use crate::pending::PendingNotice;
use crate::start::StartEvent;
use crate::start::StartPhase;
use crate::uint256::UInt256;

verus! {

/// The workchain of ordinary accounts.
pub const BASE_WORKCHAIN_ID: i32 = 0;

/// The state of an account's contract. `C` is the contract.
#[derive(Debug)]
pub enum RawContractState<C> {
    NotExists,
    Exists(C),
}

/// The core's leave to start the engine.
pub struct EngineStart {
    granted: (),
}

/// The core's leave to start the subscriber, once the engine runs.
pub struct SubscriberStart {
    granted: (),
}

/// A message that the core lets through: it comes from outside the chain, and is
/// to be encoded for the address `A`.
#[derive(Debug)]
pub struct OutgoingMessage<A> {
    account: UInt256,
    address: A,
}

impl<A> View for OutgoingMessage<A> {
    /// The account and the address that the message is for.
    type V = (UInt256, A);

    closed spec fn view(&self) -> (UInt256, A) {
        (self.account, self.address)
    }
}

impl<A> OutgoingMessage<A> {
    /// The address that the message is for.
    pub fn address(&self) -> (address: &A)
        ensures
            *address == self@.1,
    {
        &self.address
    }
}

/// A message that a send has made pending, and that is now to be broadcast. `P`
/// is the prefix of its destination.
#[derive(Debug)]
pub struct Broadcast<P> {
    account: UInt256,
    message_hash: UInt256,
    to: P,
    serialized: Vec<u8>,
}

/// A [`Broadcast`] with its bytes as a sequence.
pub struct BroadcastView<P> {
    pub account: UInt256,
    pub message_hash: UInt256,
    pub to: P,
    pub serialized: Seq<u8>,
}

impl<P> View for Broadcast<P> {
    type V = BroadcastView<P>;

    closed spec fn view(&self) -> BroadcastView<P> {
        BroadcastView {
            account: self.account,
            message_hash: self.message_hash,
            to: self.to,
            serialized: self.serialized@,
        }
    }
}

impl<P> BroadcastView<P> {
    /// The message's name among the pending messages.
    pub open spec fn key(self) -> MessageKey {
        (self.account, self.message_hash)
    }
}

impl<P> Broadcast<P> {
    /// The prefix of the message's destination.
    pub fn to(&self) -> (to: &P)
        ensures
            *to == self@.to,
    {
        &self.to
    }

    /// The bytes to be broadcast.
    pub fn serialized(&self) -> (serialized: &[u8])
        ensures
            serialized@ == self@.serialized,
    {
        self.serialized.as_slice()
    }
}

/// A report of what became of a pending message, and where it is to be sent.
#[derive(Debug)]
pub struct StatusReport<T> {
    pub tx: T,
    pub account: UInt256,
    pub hash: UInt256,
    pub status: PendingMessageStatus,
}

/// The state of the core. `T` is the place where reports of pending messages
/// are sent.
#[verifier::reject_recursive_types(T)]
pub struct TonCore<T> {
    pending_messages_producer: T,
    pending_messages: PendingMessagesCache<T>,
    phase: StartPhase,
}

impl<T> TonCore<T> {
    /// How far the core's start has come.
    pub closed spec fn phase(&self) -> StartPhase {
        self.phase
    }

    /// The pending messages, by account and message hash.
    pub closed spec fn pending(&self) -> PendingMap<T> {
        self.pending_messages@
    }

    /// The place where reports of pending messages are sent.
    pub closed spec fn producer(&self) -> T {
        self.pending_messages_producer
    }

    /// A core that is not started and has no pending messages.
    pub fn new(pending_messages_producer: T) -> (core: Self)
        ensures
            core.producer() == pending_messages_producer,
            core.pending() == PendingMap::<T>::empty(),
            core.phase() == StartPhase::Stopped,
    {
        TonCore {
            pending_messages_producer,
            pending_messages: PendingMessagesCache::new(),
            phase: StartPhase::Stopped,
        }
    }

    /// What is kept of a message, if it is pending.
    pub fn pending_message(&self, account: &UInt256, hash: &UInt256) -> (state: Option<
        &PendingMessageState<T>,
    >)
        ensures
            match state {
                Some(state) => {
                    &&& self.pending().contains_key((*account, *hash))
                    &&& *state == self.pending()[(*account, *hash)]
                },
                None => !self.pending().contains_key((*account, *hash)),
            },
    {
        self.pending_messages.get(account, hash)
    }

    /// The pending messages, each once, in no particular order.
    pub fn pending_keys(&self) -> (keys: Vec<MessageKey>)
        ensures
            keys@.no_duplicates(),
            forall|key: MessageKey| keys@.contains(key) <==> self.pending().contains_key(key),
    {
        self.pending_messages.keys()
    }

    /// Takes the place where a message's fate is to be reported, if the message
    /// is pending and nothing has been reported of it. The message stays pending.
    pub fn take_pending_tx(&mut self, account: &UInt256, hash: &UInt256) -> (tx: Option<T>)
        ensures
            final(self).producer() == old(self).producer(),
            final(self).phase() == old(self).phase(),
            final(self).pending() == crate::pending::reported(
                old(self).pending(),
                (*account, *hash),
            ),
            tx == crate::pending::report_to(old(self).pending(), (*account, *hash)),
    {
        self.pending_messages.take_tx(account, hash)
    }
}

/// That `after` is `before` with one message more, `key`, which is valid until
/// `expired_at` and whose fate is to be reported to a clone of `producer`.
pub open spec fn became_pending<T: Clone>(
    before: PendingMap<T>,
    after: PendingMap<T>,
    key: MessageKey,
    expired_at: u32,
    producer: T,
) -> bool {
    &&& after == before.insert(key, after[key])
    &&& after[key].expired_at == expired_at
    &&& after[key].tx matches Some(tx) && cloned(producer, tx)
}

/// That asking for the message `key` to be made pending turns `before` into
/// `after`: a message that is pending already stays as it is.
pub open spec fn made_pending<T: Clone>(
    before: PendingMap<T>,
    after: PendingMap<T>,
    key: MessageKey,
    expired_at: u32,
    producer: T,
) -> bool {
    if before.contains_key(key) {
        after == before
    } else {
        became_pending(before, after, key, expired_at, producer)
    }
}

impl<T: Clone> TonCore<T> {
    /// Makes a message pending, unless it is already.
    pub fn add_pending_message(
        &mut self,
        account: UInt256,
        hash: UInt256,
        expired_at: u32,
    ) -> (result: Result<(), TonCoreError>)
        ensures
            final(self).producer() == old(self).producer(),
            final(self).phase() == old(self).phase(),
            made_pending(
                old(self).pending(),
                final(self).pending(),
                (account, hash),
                expired_at,
                old(self).producer(),
            ),
            match result {
                Ok(()) => {
                    &&& !old(self).pending().contains_key((account, hash))
                    &&& final(self).pending()[(account, hash)].expired_at == expired_at
                },
                Err(error) => {
                    &&& old(self).pending().contains_key((account, hash))
                    &&& error@ == ErrorView::PendingMessageExist(hash.hex(), account.hex())
                },
            },
    {
        if self.pending_message(&account, &hash).is_some() {
            return Err(
                TonCoreError::PendingMessageExist(hash.to_hex_string(), account.to_hex_string()),
            );
        }
        let state = PendingMessageState {
            expired_at,
            tx: Some(self.pending_messages_producer.clone()),
        };
        self.pending_messages.insert(account, hash, state);
        Ok(())
    }
}

impl<T> TonCore<T> {
    /// Drops a pending message.
    pub fn cancel_pending_message(&mut self, account: UInt256, hash: UInt256) -> (result: Result<
        (),
        TonCoreError,
    >)
        ensures
            final(self).producer() == old(self).producer(),
            final(self).phase() == old(self).phase(),
            final(self).pending() == old(self).pending().remove((account, hash)),
            match result {
                Ok(()) => old(self).pending().contains_key((account, hash)),
                Err(error) => {
                    &&& !old(self).pending().contains_key((account, hash))
                    &&& error@ == ErrorView::PendingMessageNotExist(hash.hex(), account.hex())
                },
            },
    {
        if self.pending_messages.remove(&account, &hash).is_none() {
            return Err(
                TonCoreError::PendingMessageNotExist(hash.to_hex_string(), account.to_hex_string()),
            );
        }
        Ok(())
    }
}

/// The message that a transaction of `account` shows to have arrived: the one it
/// took in, if that came from outside the chain. A hash that could not be
/// computed counts as zero.
pub open spec fn arrived(account: UInt256, in_msg: Option<InMessage>) -> Option<MessageKey> {
    match in_msg {
        Some(message) => match message.header {
            CommonMsgInfo::ExtInMsgInfo(..) => Some(
                (
                    account,
                    match message.hash {
                        Some(hash) => hash,
                        None => crate::uint256::zero(),
                    },
                ),
            ),
            CommonMsgInfo::Other => None,
        },
        None => None,
    }
}

/// That a transaction of `account`, which took in `in_msg`, turns the pending
/// messages `before` into `after` and gives `report`.
pub open spec fn notes_delivery<T>(
    before: PendingMap<T>,
    after: PendingMap<T>,
    account: UInt256,
    in_msg: Option<InMessage>,
    report: Option<StatusReport<T>>,
) -> bool {
    match arrived(account, in_msg) {
        Some(key) => {
            &&& after == crate::pending::reported(before, key)
            &&& report == match crate::pending::report_to(before, key) {
                Some(tx) => Some(
                    StatusReport {
                        tx,
                        account: key.0,
                        hash: key.1,
                        status: PendingMessageStatus::Delivered,
                    },
                ),
                None => None,
            }
        },
        None => after == before && report is None,
    }
}

/// The update that tells the wallet service that a message expired.
pub open spec fn is_expiry_of<C, D>(update: ReceiveTransaction<C, D>, key: MessageKey) -> bool {
    &&& update matches ReceiveTransaction::UpdateSent(sent)
    &&& sent.message_hash@ == key.1.hex()
    &&& sent.account_workchain_id == BASE_WORKCHAIN_ID
    &&& sent.account_hex@ == key.0.hex()
    &&& sent.input matches UpdateSendTransaction::Error(reason)
    &&& reason@ == "Expired"@
}

/// That `update` is what the wallet service is to be told of the fate of the
/// message `key`: that it expired, if it did, and else nothing.
pub open spec fn tells_fate<C, D>(
    status: PendingMessageStatus,
    key: MessageKey,
    update: Option<ReceiveTransaction<C, D>>,
) -> bool {
    match status {
        PendingMessageStatus::Expired => update matches Some(update) && is_expiry_of(update, key),
        PendingMessageStatus::Delivered => update is None,
    }
}

impl<T> TonCore<T> {
    /// Takes note of a transaction of `account`, which took in `in_msg`. Where
    /// that is a pending message whose fate has not been reported, the result is
    /// the report, which is now to be sent. The message stays pending.
    pub fn transaction_received(
        &mut self,
        account: UInt256,
        in_msg: Option<InMessage>,
    ) -> (report: Option<StatusReport<T>>)
        ensures
            final(self).producer() == old(self).producer(),
            final(self).phase() == old(self).phase(),
            notes_delivery(
                old(self).pending(),
                final(self).pending(),
                account,
                in_msg,
                report,
            ),
            report matches Some(report) ==> report.status is Delivered && report.account == account,
    {
        match in_msg {
            Some(message) => match message.header {
                CommonMsgInfo::ExtInMsgInfo(..) => {
                    let hash = match message.hash {
                        Some(hash) => hash,
                        None => UInt256::default(),
                    };
                    match self.take_pending_tx(&account, &hash) {
                        Some(tx) => Some(
                            StatusReport {
                                tx,
                                account,
                                hash,
                                status: PendingMessageStatus::Delivered,
                            },
                        ),
                        None => None,
                    }
                },
                CommonMsgInfo::Other => None,
            },
            None => None,
        }
    }

    /// Closes a pending message whose fate is known. The first part of the
    /// result is what the wallet service is to be told: that the message
    /// expired, if it did. The second says whether the message was still pending.
    pub fn pending_message_resolved<C, D>(
        &mut self,
        account: UInt256,
        hash: UInt256,
        status: PendingMessageStatus,
    ) -> (result: (Option<ReceiveTransaction<C, D>>, Result<(), TonCoreError>))
        ensures
            final(self).producer() == old(self).producer(),
            final(self).phase() == old(self).phase(),
            final(self).pending() == old(self).pending().remove((account, hash)),
            tells_fate(status, (account, hash), result.0),
            result.0 is Some <==> status is Expired,
            match result.1 {
                Ok(()) => old(self).pending().contains_key((account, hash)),
                Err(error) => {
                    &&& !old(self).pending().contains_key((account, hash))
                    &&& error@ == ErrorView::PendingMessageNotExist(hash.hex(), account.hex())
                },
            },
    {
        let update = if status == PendingMessageStatus::Expired {
            Some(
                ReceiveTransaction::UpdateSent(
                    UpdateSentTransaction {
                        message_hash: hash.to_hex_string(),
                        account_workchain_id: BASE_WORKCHAIN_ID,
                        account_hex: account.to_hex_string(),
                        input: UpdateSendTransaction::error("Expired".to_owned()),
                    },
                ),
            )
        } else {
            None
        };
        let cancelled = self.cancel_pending_message(account, hash);
        (update, cancelled)
    }

    /// Takes a transaction `item` of `account` off the channel of `listener`.
    /// A transaction that is to be handled is first held against the pending
    /// messages: the first part of the result is the report to be sent, as of
    /// [`TonCore::transaction_received`]. Once the engine is gone, a transaction
    /// is neither handled nor held against them.
    pub fn receive_transaction<I, R, E>(
        &mut self,
        listener: &mut Listener,
        account: UInt256,
        in_msg: Option<InMessage>,
        item: I,
        engine_alive: bool,
    ) -> (result: (Option<StatusReport<T>>, ListenerAction<I, R, E>))
        requires
            crate::listener::enabled(
                old(listener)@,
                (ListenerEvent::<I, R, E>::Received { item: Some(item), engine_alive }),
            ),
        ensures
            final(self).producer() == old(self).producer(),
            final(self).phase() == old(self).phase(),
            (final(listener)@, result.1) == crate::listener::next(
                old(listener)@,
                (ListenerEvent::<I, R, E>::Received { item: Some(item), engine_alive }),
            ),
            if result.1 is Handle {
                notes_delivery(
                    old(self).pending(),
                    final(self).pending(),
                    account,
                    in_msg,
                    result.0,
                )
            } else {
                final(self).pending() == old(self).pending() && result.0 is None
            },
    {
        let action = listener.step(ListenerEvent::Received { item: Some(item), engine_alive });
        let report = match &action {
            ListenerAction::Handle(_) => self.transaction_received(account, in_msg),
            _ => None,
        };
        (report, action)
    }

    /// Takes a notice of a message's fate off the channel of `listener`. A notice
    /// that is to be handled closes the message, as of
    /// [`TonCore::pending_message_resolved`]: the first part of the result is what
    /// the wallet service is to be told, and the second passes on that the message
    /// was still pending or reports that it was not. Once the engine is gone, a
    /// notice changes nothing.
    pub fn receive_pending_message<C, D>(
        &mut self,
        listener: &mut Listener,
        account: UInt256,
        hash: UInt256,
        status: PendingMessageStatus,
        engine_alive: bool,
    ) -> (result: (Option<ReceiveTransaction<C, D>>, ListenerAction<PendingNotice, (), TonCoreError>))
        requires
            crate::listener::enabled(
                old(listener)@,
                (ListenerEvent::<PendingNotice, (), TonCoreError>::Received {
                    item: Some((account, hash, status)),
                    engine_alive,
                }),
            ),
        ensures
            final(self).producer() == old(self).producer(),
            final(self).phase() == old(self).phase(),
            ({
                let (state, action) = crate::listener::next(
                    old(listener)@,
                    (ListenerEvent::<PendingNotice, (), TonCoreError>::Received {
                        item: Some((account, hash, status)),
                        engine_alive,
                    }),
                );
                if action is Handle {
                    &&& final(listener)@ == ListenerState::Receiving
                    &&& final(self).pending() == old(self).pending().remove((account, hash))
                    &&& tells_fate(status, (account, hash), result.0)
                    &&& match result.1 {
                        ListenerAction::Forward(()) => {
                            old(self).pending().contains_key((account, hash))
                        },
                        ListenerAction::Report(error) => {
                            &&& !old(self).pending().contains_key((account, hash))
                            &&& error@ == ErrorView::PendingMessageNotExist(
                                hash.hex(),
                                account.hex(),
                            )
                        },
                        _ => false,
                    }
                } else {
                    &&& (final(listener)@, result.1) == (state, action)
                    &&& final(self).pending() == old(self).pending()
                    &&& result.0 is None
                }
            }),
    {
        let action: ListenerAction<PendingNotice, (), TonCoreError> = listener.step(
            ListenerEvent::Received { item: Some((account, hash, status)), engine_alive },
        );
        match action {
            ListenerAction::Handle(_) => {
                let (update, dropped) = self.pending_message_resolved(account, hash, status);
                (update, listener.step(ListenerEvent::Handled(dropped)))
            },
            other => (None, other),
        }
    }

    /// The contract of an account whose state was read.
    pub fn get_contract_state<C, E>(
        &self,
        account: UInt256,
        state: Result<RawContractState<C>, E>,
    ) -> (result: Result<C, Failure<E>>)
        ensures
            match state {
                Ok(RawContractState::Exists(contract)) => result == Ok::<C, Failure<E>>(contract),
                Ok(RawContractState::NotExists) => {
                    &&& result matches Err(failure)
                    &&& failure@ == FailureView::<E>::Core(
                        ErrorView::AccountNotFound(account.hex()),
                    )
                },
                Err(error) => result == Err::<C, Failure<E>>(Failure::Service(error)),
            },
    {
        match state {
            Ok(RawContractState::Exists(contract)) => Ok(contract),
            Ok(RawContractState::NotExists) => Err(
                Failure::Core(TonCoreError::AccountNotFound(account.to_hex_string())),
            ),
            Err(error) => Err(Failure::Service(error)),
        }
    }
}

impl<T> TonCore<T> {
    /// Whether a start is under way.
    pub fn is_starting(&self) -> (starting: bool)
        ensures
            starting == self.phase().under_way(),
    {
        self.phase == StartPhase::EngineStarting || self.phase == StartPhase::SubscriberStarting
    }

    /// Begins a start, unless the core was started before: the engine is to be
    /// started first. Starts do not overlap: while one is under way, the next has
    /// to wait.
    pub fn start(&mut self) -> (result: Result<EngineStart, TonCoreError>)
        requires
            !old(self).phase().under_way(),
        ensures
            final(self).producer() == old(self).producer(),
            final(self).pending() == old(self).pending(),
            final(self).phase() == crate::start::next(
                old(self).phase(),
                StartEvent::<()>::Requested,
            ),
            match result {
                Ok(_) => old(self).phase() is Stopped,
                Err(error) => {
                    &&& old(self).phase() is Started
                    &&& error@ == ErrorView::AlreadyInitialized
                },
            },
    {
        if self.phase == StartPhase::Started {
            return Err(TonCoreError::AlreadyInitialized);
        }
        self.phase = StartPhase::EngineStarting;
        Ok(EngineStart { granted: () })
    }

    /// Goes on with a start once the engine's own start came to `outcome`: the
    /// subscriber is to be started next. Where the engine failed, the start ends.
    pub fn engine_started<E>(
        &mut self,
        start: EngineStart,
        outcome: Result<(), E>,
    ) -> (result: Result<SubscriberStart, E>)
        requires
            old(self).phase() is EngineStarting,
        ensures
            final(self).producer() == old(self).producer(),
            final(self).pending() == old(self).pending(),
            final(self).phase() == crate::start::next(
                old(self).phase(),
                StartEvent::EngineStarted(outcome),
            ),
            match outcome {
                Ok(()) => result is Ok,
                Err(error) => result == Err::<SubscriberStart, E>(error),
            },
    {
        match outcome {
            Ok(()) => {
                self.phase = StartPhase::SubscriberStarting;
                Ok(SubscriberStart { granted: () })
            },
            Err(error) => {
                self.phase = StartPhase::Stopped;
                Err(error)
            },
        }
    }

    /// Ends a start once the subscriber's start came to `outcome`: the core is
    /// started, unless the subscriber failed.
    pub fn subscriber_started<E>(
        &mut self,
        start: SubscriberStart,
        outcome: Result<(), E>,
    ) -> (result: Result<(), E>)
        requires
            old(self).phase() is SubscriberStarting,
        ensures
            final(self).producer() == old(self).producer(),
            final(self).pending() == old(self).pending(),
            final(self).phase() == crate::start::next(
                old(self).phase(),
                StartEvent::SubscriberStarted(outcome),
            ),
            result == outcome,
    {
        if outcome.is_ok() {
            self.phase = StartPhase::Started;
        } else {
            self.phase = StartPhase::Stopped;
        }
        outcome
    }

    /// Ends a start that whoever asked for it has given up. The core can be
    /// started again.
    pub fn abandon_start(&mut self)
        ensures
            final(self).producer() == old(self).producer(),
            final(self).pending() == old(self).pending(),
            final(self).phase() == crate::start::next(
                old(self).phase(),
                StartEvent::<()>::Abandoned,
            ),
    {
        if self.is_starting() {
            self.phase = StartPhase::Stopped;
        }
    }

    /// Begins to send a message, which must come from outside the chain: it is
    /// to be encoded next.
    pub fn send_ton_message<A>(&self, header: CommonMsgInfo<A>) -> (result: Result<
        OutgoingMessage<A>,
        TonCoreError,
    >)
        ensures
            match header {
                CommonMsgInfo::ExtInMsgInfo(account, address) => {
                    result matches Ok(message) && message@ == (account, address)
                },
                CommonMsgInfo::Other => {
                    &&& result matches Err(error)
                    &&& error@ == ErrorView::ExternalTonMessageExpected
                },
            },
    {
        match header {
            CommonMsgInfo::ExtInMsgInfo(account, address) => Ok(
                OutgoingMessage { account, address },
            ),
            CommonMsgInfo::Other => Err(TonCoreError::ExternalTonMessageExpected),
        }
    }

    /// Ends the sending of a message once its broadcast came to `outcome`. A
    /// message that could not be broadcast is no longer pending. Where it was
    /// not pending any more, that is the error, in place of the broadcast's own.
    pub fn broadcast_finished<P, E>(
        &mut self,
        broadcast: Broadcast<P>,
        outcome: Result<(), E>,
    ) -> (result: Result<(), Failure<E>>)
        ensures
            final(self).producer() == old(self).producer(),
            final(self).phase() == old(self).phase(),
            match outcome {
                Ok(()) => {
                    &&& result is Ok
                    &&& final(self).pending() == old(self).pending()
                },
                Err(error) => {
                    &&& final(self).pending() == old(self).pending().remove(broadcast@.key())
                    &&& result matches Err(failure)
                    &&& failure@ == if old(self).pending().contains_key(broadcast@.key()) {
                        FailureView::Service(error)
                    } else {
                        FailureView::Core(
                            ErrorView::PendingMessageNotExist(
                                broadcast@.message_hash.hex(),
                                broadcast@.account.hex(),
                            ),
                        )
                    }
                },
            },
    {
        match outcome {
            Ok(()) => Ok(()),
            Err(error) => {
                match self.cancel_pending_message(broadcast.account, broadcast.message_hash) {
                    Ok(()) => Err(Failure::Service(error)),
                    Err(refused) => Err(Failure::Core(refused)),
                }
            },
        }
    }
}

impl<T: Clone> TonCore<T> {
    /// Goes on with sending `message` once its encoding came to `encoded`: it
    /// becomes pending, until it is delivered or `expire_at` has passed, and is to
    /// be broadcast next.
    pub fn message_encoded<A, P, E>(
        &mut self,
        message: OutgoingMessage<A>,
        encoded: Result<EncodedMessage<P>, E>,
        expire_at: u32,
    ) -> (result: Result<Broadcast<P>, Failure<E>>)
        ensures
            final(self).producer() == old(self).producer(),
            final(self).phase() == old(self).phase(),
            match encoded {
                Ok(encoded) => {
                    let account = message@.0;
                    let key = (account, encoded.message_hash);
                    &&& made_pending(
                        old(self).pending(),
                        final(self).pending(),
                        key,
                        expire_at,
                        old(self).producer(),
                    )
                    &&& if old(self).pending().contains_key(key) {
                        &&& result matches Err(failure)
                        &&& failure@ == FailureView::<E>::Core(
                            ErrorView::PendingMessageExist(
                                encoded.message_hash.hex(),
                                account.hex(),
                            ),
                        )
                    } else {
                        &&& final(self).pending()[key].expired_at == expire_at
                        &&& result matches Ok(broadcast)
                        &&& broadcast@ == (BroadcastView {
                            account,
                            message_hash: encoded.message_hash,
                            to: encoded.to,
                            serialized: encoded.serialized@,
                        })
                    }
                },
                Err(error) => {
                    &&& final(self).pending() == old(self).pending()
                    &&& result == Err::<Broadcast<P>, Failure<E>>(Failure::Service(error))
                },
            },
    {
        match encoded {
            Ok(encoded) => match self.add_pending_message(
                message.account,
                encoded.message_hash,
                expire_at,
            ) {
                Ok(()) => Ok(
                    Broadcast {
                        account: message.account,
                        message_hash: encoded.message_hash,
                        to: encoded.to,
                        serialized: encoded.serialized,
                    },
                ),
                Err(refused) => Err(Failure::Core(refused)),
            },
            Err(error) => Err(Failure::Service(error)),
        }
    }
}

} // verus!
