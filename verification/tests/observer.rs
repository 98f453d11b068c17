use ton_core::observer::TokenTransactionKind;
use ton_core::observer::TokenTransactionObserver;
use ton_core::observer::TransactionObserver;
use ton_core::observer::TxContext;
use ton_core::uint256::UInt256;

const INCOMING: [TokenTransactionKind; 4] = [
    TokenTransactionKind::IncomingTransfer,
    TokenTransactionKind::Accept,
    TokenTransactionKind::TransferBounced,
    TokenTransactionKind::SwapBackBounced,
];

const OUTGOING: [TokenTransactionKind; 2] =
    [TokenTransactionKind::OutgoingTransfer, TokenTransactionKind::SwapBack];

fn id(byte: u8) -> UInt256 {
    UInt256 { bytes: [byte; 32] }
}

struct Seen {
    account: UInt256,
    block: UInt256,
    hash: UInt256,
    transaction: String,
    shard_accounts: Vec<u8>,
    out: Vec<Option<UInt256>>,
}

fn seen(out: Vec<Option<UInt256>>) -> Seen {
    Seen {
        account: id(1),
        block: id(2),
        hash: id(3),
        transaction: "transaction".to_string(),
        shard_accounts: vec![4],
        out,
    }
}

impl Seen {
    fn context(&self, aborted: bool, in_msg: Option<UInt256>) -> TxContext<'_, String, Vec<u8>> {
        TxContext {
            account: &self.account,
            block_hash: &self.block,
            block_utime: 1000,
            transaction_hash: &self.hash,
            transaction: &self.transaction,
            shard_accounts: &self.shard_accounts,
            aborted,
            in_msg_hash: in_msg,
            out_msg_hashes: &self.out,
        }
    }

    fn message_hash(&self, kind: TokenTransactionKind, in_msg: Option<UInt256>) -> UInt256 {
        let context = self.context(false, in_msg);
        TokenTransactionObserver::handle_transaction(&context, Some((kind, ()))).unwrap().0.message_hash
    }
}

#[test]
fn every_account_transaction_is_passed_on() {
    let transaction = "transaction".to_string();
    let passed = TransactionObserver::handle_transaction(&id(1), &id(3), &transaction);
    assert_eq!(passed.account, id(1));
    assert_eq!(passed.transaction_hash, id(3));
    assert_eq!(passed.transaction, "transaction");
}

#[test]
fn token_transaction_is_passed_on_whole() {
    let seen = seen(vec![]);
    let context = seen.context(false, Some(id(9)));
    let parsed = Some((TokenTransactionKind::Accept, 55u32));
    let (passed, details) =
        TokenTransactionObserver::handle_transaction(&context, parsed).unwrap();
    assert_eq!(passed.account, id(1));
    assert_eq!(passed.block_hash, id(2));
    assert_eq!(passed.block_utime, 1000);
    assert_eq!(passed.message_hash, id(9));
    assert_eq!(passed.transaction_hash, id(3));
    assert_eq!(passed.transaction, "transaction");
    assert_eq!(passed.shard_accounts, vec![4]);
    assert_eq!(details, 55);
}

#[test]
fn aborted_token_transaction_is_not_passed_on() {
    let seen = seen(vec![Some(id(8))]);
    let context = seen.context(true, Some(id(9)));
    for kind in INCOMING.into_iter().chain(OUTGOING) {
        assert!(TokenTransactionObserver::handle_transaction(&context, Some((kind, ()))).is_none());
    }
}

#[test]
fn only_aborted_transactions_are_not_looked_at() {
    assert!(TokenTransactionObserver::observes(false));
    assert!(!TokenTransactionObserver::observes(true));
}

#[test]
fn transaction_without_meaning_for_the_wallet_is_not_passed_on() {
    let seen = seen(vec![Some(id(8))]);
    let context = seen.context(false, Some(id(9)));
    let parsed: Option<(TokenTransactionKind, ())> = None;
    assert!(TokenTransactionObserver::handle_transaction(&context, parsed).is_none());
}

#[test]
fn incoming_kinds_are_known_by_the_message_taken_in() {
    let seen = seen(vec![Some(id(8))]);
    for kind in INCOMING {
        assert_eq!(seen.message_hash(kind, Some(id(9))), id(9));
        assert_eq!(seen.message_hash(kind, None), UInt256::default());
    }
}

#[test]
fn outgoing_kinds_are_known_by_the_first_message_sent() {
    for kind in OUTGOING {
        assert_eq!(seen(vec![Some(id(7)), Some(id(8))]).message_hash(kind, Some(id(9))), id(7));
        assert_eq!(seen(vec![None, Some(id(8))]).message_hash(kind, Some(id(9))), UInt256::default());
        assert_eq!(seen(vec![]).message_hash(kind, Some(id(9))), UInt256::default());
    }
}
