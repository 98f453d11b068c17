//! What the core hands to the wallet service.

use vstd::prelude::*;

verus! {

/// What is to be written over the record of a sent transaction.
#[derive(Debug)]
pub enum UpdateSendTransaction<D> {
    /// What the chain shows of the transaction.
    Executed(D),
    /// The transaction failed, for the reason given.
    Error(String),
}

impl<D> UpdateSendTransaction<D> {
    /// The update that marks a transaction as failed.
    pub fn error(reason: String) -> (update: Self)
        ensures
            update == UpdateSendTransaction::<D>::Error(reason),
    {
        UpdateSendTransaction::Error(reason)
    }
}

/// An update of the record of a sent transaction, which is found by the message
/// and the account.
#[derive(Debug)]
pub struct UpdateSentTransaction<D> {
    pub message_hash: String,
    pub account_workchain_id: i32,
    pub account_hex: String,
    pub input: UpdateSendTransaction<D>,
}

/// What the wallet service is told of an account's transactions. `C` is the
/// record of a transaction that the account received, `D` what the chain shows
/// of one that it sent.
#[derive(Debug)]
pub enum ReceiveTransaction<C, D> {
    Create(C),
    UpdateSent(UpdateSentTransaction<D>),
}

/// What the wallet service is told of a token wallet's transactions. `C` is the
/// record of a transaction that the wallet received, `U` an update of one that
/// it sent.
#[derive(Debug)]
pub enum ReceiveTokenTransaction<C, U> {
    Create(C),
    UpdateSent(U),
}

} // verus!
