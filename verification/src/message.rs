//! What the core reads of a message, and what it hands on of one.

use vstd::prelude::*;

use crate::uint256::UInt256;

verus! {

/// The header of a message, as far as the core tells headers apart. `A` is the
/// address of the message's destination.
#[derive(Debug)]
pub enum CommonMsgInfo<A> {
    /// The message comes from outside the chain, for the account and the address
    /// given.
    ExtInMsgInfo(UInt256, A),
    /// The message was made by a contract.
    Other,
}

/// The message that a transaction took in.
#[derive(Debug)]
pub struct InMessage {
    pub header: CommonMsgInfo<()>,
    /// The message's hash, where it could be computed.
    pub hash: Option<UInt256>,
}

/// A message made ready for the network. `P` is the prefix of its destination.
#[derive(Debug)]
pub struct EncodedMessage<P> {
    pub to: P,
    pub serialized: Vec<u8>,
    pub message_hash: UInt256,
}

} // verus!
