//! What is made of the transactions that the subscriber sees on the accounts it
//! watches.

use vstd::prelude::*;

use crate::uint256::UInt256;

verus! {

/// A token wallet's transaction as the subscriber saw it. `X` is the transaction
/// itself, `S` the state of the accounts of its shard.
pub struct TxContext<'a, X, S> {
    pub account: &'a UInt256,
    pub block_hash: &'a UInt256,
    /// When the block was made, in Unix seconds.
    pub block_utime: u32,
    pub transaction_hash: &'a UInt256,
    pub transaction: &'a X,
    pub shard_accounts: &'a S,
    /// Whether the transaction was aborted.
    pub aborted: bool,
    /// The hash of the message that the transaction took in, if it took one in.
    pub in_msg_hash: Option<UInt256>,
    /// The hash of each message that the transaction sent out, in their order,
    /// where it could be computed.
    pub out_msg_hashes: &'a Vec<Option<UInt256>>,
}

/// What is passed on of an account's transaction.
#[derive(Debug)]
pub struct TransactionContext<X> {
    pub account: UInt256,
    pub transaction_hash: UInt256,
    pub transaction: X,
}

/// What is passed on of a token wallet's transaction.
#[derive(Debug)]
pub struct TokenTransactionContext<X, S> {
    pub account: UInt256,
    pub block_hash: UInt256,
    pub block_utime: u32,
    /// The message by which the transaction is known.
    pub message_hash: UInt256,
    pub transaction_hash: UInt256,
    pub transaction: X,
    pub shard_accounts: S,
}

/// What a token wallet's transaction does.
#[derive(Clone, Copy, Debug, PartialEq, Eq, Structural)]
pub enum TokenTransactionKind {
    IncomingTransfer,
    OutgoingTransfer,
    SwapBack,
    Accept,
    TransferBounced,
    SwapBackBounced,
}

impl TokenTransactionKind {
    /// Whether the wallet acts here on its own account: it sends tokens away.
    pub open spec fn sends(self) -> bool {
        self is OutgoingTransfer || self is SwapBack
    }
}

/// The message by which a token wallet's transaction is known: the first that it
/// sent out where the wallet sends tokens away, and else the one it took in. A
/// message that is not there, or whose hash could not be computed, counts as zero.
pub open spec fn message_of(
    kind: TokenTransactionKind,
    in_msg_hash: Option<UInt256>,
    out_msg_hashes: Seq<Option<UInt256>>,
) -> UInt256 {
    let hash = if !kind.sends() {
        in_msg_hash
    } else if out_msg_hashes.len() > 0 {
        out_msg_hashes[0]
    } else {
        None
    };
    match hash {
        Some(hash) => hash,
        None => crate::uint256::zero(),
    }
}

/// Watches the transactions of accounts.
pub struct TransactionObserver;

impl TransactionObserver {
    /// What is to be passed on of a transaction of `account`: every transaction is.
    pub fn handle_transaction<X: Clone>(
        account: &UInt256,
        transaction_hash: &UInt256,
        transaction: &X,
    ) -> (passed_on: TransactionContext<X>)
        ensures
            passed_on.account == *account,
            passed_on.transaction_hash == *transaction_hash,
            cloned(*transaction, passed_on.transaction),
    {
        TransactionContext {
            account: *account,
            transaction_hash: *transaction_hash,
            transaction: transaction.clone(),
        }
    }
}

/// Watches the transactions of token wallets.
pub struct TokenTransactionObserver;

impl TokenTransactionObserver {
    /// Whether a transaction is looked at: an aborted one is not.
    pub fn observes(aborted: bool) -> (observes: bool)
        ensures
            observes == !aborted,
    {
        !aborted
    }

    /// What is to be passed on of a transaction, of which `parsed` says what it
    /// does to the token wallet and how, where that is anything. Nothing is
    /// passed on of an aborted transaction.
    pub fn handle_transaction<X: Clone, S: Clone, P>(
        ctx: &TxContext<'_, X, S>,
        parsed: Option<(TokenTransactionKind, P)>,
    ) -> (passed_on: Option<(TokenTransactionContext<X, S>, P)>)
        ensures
            match parsed {
                Some((kind, details)) if !ctx.aborted => {
                    &&& passed_on matches Some((passed, passed_details))
                    &&& passed.account == *ctx.account
                    &&& passed.block_hash == *ctx.block_hash
                    &&& passed.block_utime == ctx.block_utime
                    &&& passed.message_hash == message_of(
                        kind,
                        ctx.in_msg_hash,
                        ctx.out_msg_hashes@,
                    )
                    &&& passed.transaction_hash == *ctx.transaction_hash
                    &&& cloned(*ctx.transaction, passed.transaction)
                    &&& cloned(*ctx.shard_accounts, passed.shard_accounts)
                    &&& passed_details == details
                },
                _ => passed_on is None,
            },
    {
        if !Self::observes(ctx.aborted) {
            return None;
        }
        match parsed {
            Some((kind, details)) => {
                let hash = match kind {
                    TokenTransactionKind::IncomingTransfer
                    | TokenTransactionKind::Accept
                    | TokenTransactionKind::TransferBounced
                    | TokenTransactionKind::SwapBackBounced => ctx.in_msg_hash,
                    TokenTransactionKind::OutgoingTransfer | TokenTransactionKind::SwapBack => {
                        if ctx.out_msg_hashes.len() > 0 {
                            ctx.out_msg_hashes[0]
                        } else {
                            None
                        }
                    },
                };
                let message_hash = match hash {
                    Some(hash) => hash,
                    None => UInt256::default(),
                };
                Some(
                    (
                        TokenTransactionContext {
                            account: *ctx.account,
                            block_hash: *ctx.block_hash,
                            block_utime: ctx.block_utime,
                            message_hash,
                            transaction_hash: *ctx.transaction_hash,
                            transaction: ctx.transaction.clone(),
                            shard_accounts: ctx.shard_accounts.clone(),
                        },
                        details,
                    ),
                )
            },
            None => None,
        }
    }
}

/// A transfer or a swap that leaves the wallet is known by the first message that
/// it sent out: neither the messages sent out after it nor the one taken in count.
pub proof fn law_sending_is_known_by_the_first_message_out(
    kind: TokenTransactionKind,
    in_msg_hash: Option<UInt256>,
    out_msg_hashes: Seq<Option<UInt256>>,
    hash: UInt256,
)
    requires
        kind is OutgoingTransfer || kind is SwapBack,
        out_msg_hashes.len() >= 1,
        out_msg_hashes[0] == Some(hash),
    ensures
        message_of(kind, in_msg_hash, out_msg_hashes) == hash,
{
}

/// Every other transaction is known by the message that it took in, whatever it
/// sent out.
pub proof fn law_receiving_is_known_by_the_message_in(
    kind: TokenTransactionKind,
    out_msg_hashes: Seq<Option<UInt256>>,
    hash: UInt256,
)
    requires
        !(kind is OutgoingTransfer),
        !(kind is SwapBack),
    ensures
        message_of(kind, Some(hash), out_msg_hashes) == hash,
{
}

/// Where the message by which a transaction is to be known is not there, or its
/// hash could not be computed, the hash passed on is zero in every byte.
pub proof fn law_unknown_message_counts_as_zero(
    kind: TokenTransactionKind,
    in_msg_hash: Option<UInt256>,
    out_msg_hashes: Seq<Option<UInt256>>,
    i: int,
)
    requires
        if kind is OutgoingTransfer || kind is SwapBack {
            out_msg_hashes.len() == 0 || out_msg_hashes[0] is None
        } else {
            in_msg_hash is None
        },
        0 <= i < 32,
    ensures
        message_of(kind, in_msg_hash, out_msg_hashes).bytes[i] == 0,
{
}

} // verus!
