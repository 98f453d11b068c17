//! What the core refuses, and why.

use vstd::prelude::*;

use crate::uint256::UInt256;

verus! {

/// The reason for a refusal. Hashes and accounts are given by their
/// hexadecimal text, the hash before the account.
#[derive(Debug)]
pub enum TonCoreError {
    AlreadyInitialized,
    ExternalTonMessageExpected,
    PendingMessageExist(String, String),
    PendingMessageNotExist(String, String),
    AccountNotFound(String),
}

/// A [`TonCoreError`] with its texts as sequences of characters.
pub enum ErrorView {
    AlreadyInitialized,
    ExternalTonMessageExpected,
    PendingMessageExist(Seq<char>, Seq<char>),
    PendingMessageNotExist(Seq<char>, Seq<char>),
    AccountNotFound(Seq<char>),
}

impl View for TonCoreError {
    type V = ErrorView;

    open spec fn view(&self) -> ErrorView {
        match self {
            TonCoreError::AlreadyInitialized => ErrorView::AlreadyInitialized,
            TonCoreError::ExternalTonMessageExpected => ErrorView::ExternalTonMessageExpected,
            TonCoreError::PendingMessageExist(hash, account) => ErrorView::PendingMessageExist(
                hash@,
                account@,
            ),
            TonCoreError::PendingMessageNotExist(hash, account) => {
                ErrorView::PendingMessageNotExist(hash@, account@)
            },
            TonCoreError::AccountNotFound(account) => ErrorView::AccountNotFound(account@),
        }
    }
}

impl ErrorView {
    /// The sentence that tells a person of the refusal.
    pub open spec fn text(self) -> Seq<char> {
        match self {
            ErrorView::AlreadyInitialized => "Already initialized"@,
            ErrorView::ExternalTonMessageExpected => "External ton message expected"@,
            ErrorView::PendingMessageExist(hash, account) => "Pending message hash `"@ + hash
                + "` exist for account `"@ + account + "`"@,
            ErrorView::PendingMessageNotExist(hash, account) => "Pending message hash `"@ + hash
                + "` not exist for account `"@ + account + "`"@,
            ErrorView::AccountNotFound(account) => "Account `"@ + account + "` not found"@,
        }
    }
}

impl TonCoreError {
    /// The sentence that tells a person of the refusal.
    pub fn message(&self) -> (text: String)
        ensures
            text@ == self@.text(),
            match self {
                TonCoreError::AlreadyInitialized => text@ == "Already initialized"@,
                TonCoreError::ExternalTonMessageExpected => {
                    text@ == "External ton message expected"@
                },
                TonCoreError::PendingMessageExist(hash, account) => {
                    text@ == "Pending message hash `"@ + hash@ + "` exist for account `"@ + account@
                        + "`"@
                },
                TonCoreError::PendingMessageNotExist(hash, account) => {
                    text@ == "Pending message hash `"@ + hash@ + "` not exist for account `"@
                        + account@ + "`"@
                },
                TonCoreError::AccountNotFound(account) => {
                    text@ == "Account `"@ + account@ + "` not found"@
                },
            },
    {
        match self {
            TonCoreError::AlreadyInitialized => "Already initialized".to_owned(),
            TonCoreError::ExternalTonMessageExpected => "External ton message expected".to_owned(),
            TonCoreError::PendingMessageExist(hash, account) => {
                "Pending message hash `".to_owned().concat(hash.as_str()).concat(
                    "` exist for account `",
                ).concat(account.as_str()).concat("`")
            },
            TonCoreError::PendingMessageNotExist(hash, account) => {
                "Pending message hash `".to_owned().concat(hash.as_str()).concat(
                    "` not exist for account `",
                ).concat(account.as_str()).concat("`")
            },
            TonCoreError::AccountNotFound(account) => {
                "Account `".to_owned().concat(account.as_str()).concat("` not found")
            },
        }
    }
}

/// Why an operation failed: the core refused it, or a service that it called
/// for failed with an error of its own.
#[derive(Debug)]
pub enum Failure<E> {
    Core(TonCoreError),
    Service(E),
}

/// A [`Failure`] with the core's reason by its view.
pub enum FailureView<E> {
    Core(ErrorView),
    Service(E),
}

impl<E> View for Failure<E> {
    type V = FailureView<E>;

    open spec fn view(&self) -> FailureView<E> {
        match self {
            Failure::Core(error) => FailureView::Core(error@),
            Failure::Service(error) => FailureView::Service(*error),
        }
    }
}

/// What a refusal is seen as says which refusal it is, and gives its own texts, the
/// hash before the account.
pub proof fn law_refusal_is_seen_as_it_is(error: TonCoreError, hash: Seq<char>, account: Seq<char>)
    ensures
        error@ is AlreadyInitialized <==> error is AlreadyInitialized,
        error@ is ExternalTonMessageExpected <==> error is ExternalTonMessageExpected,
        error@ == ErrorView::PendingMessageExist(hash, account) <==> {
            &&& error matches TonCoreError::PendingMessageExist(hash_text, account_text)
            &&& hash_text@ == hash
            &&& account_text@ == account
        },
        error@ == ErrorView::PendingMessageNotExist(hash, account) <==> {
            &&& error matches TonCoreError::PendingMessageNotExist(hash_text, account_text)
            &&& hash_text@ == hash
            &&& account_text@ == account
        },
        error@ == ErrorView::AccountNotFound(account) <==> {
            &&& error matches TonCoreError::AccountNotFound(account_text)
            &&& account_text@ == account
        },
{
}

/// What a failure is seen as says whether the core refused, and for which reason,
/// or the service failed, and with which error.
pub proof fn law_failure_is_seen_as_it_is<E>(failure: Failure<E>, refusal: ErrorView, error: E)
    ensures
        failure@ == FailureView::<E>::Core(refusal) <==> (failure matches Failure::Core(refused)
            && refused@ == refusal),
        failure@ == FailureView::<E>::Service(error) <==> failure == Failure::<E>::Service(error),
{
}

/// The sentence tells which message a refusal is about, and whether it was that the
/// message is pending or that it is not.
pub proof fn law_sentence_names_the_message(
    hash: UInt256,
    account: UInt256,
    other_hash: UInt256,
    other_account: UInt256,
)
    ensures
        ErrorView::PendingMessageExist(hash.hex(), account.hex()).text()
            == ErrorView::PendingMessageExist(other_hash.hex(), other_account.hex()).text() ==> hash
            == other_hash && account == other_account,
        ErrorView::PendingMessageNotExist(hash.hex(), account.hex()).text()
            == ErrorView::PendingMessageNotExist(other_hash.hex(), other_account.hex()).text()
            ==> hash == other_hash && account == other_account,
        ErrorView::PendingMessageExist(hash.hex(), account.hex()).text()
            != ErrorView::PendingMessageNotExist(other_hash.hex(), other_account.hex()).text(),
        ErrorView::AccountNotFound(account.hex()).text() == ErrorView::AccountNotFound(
            other_account.hex(),
        ).text() ==> account == other_account,
{
    reveal_strlit("Pending message hash `");
    reveal_strlit("` exist for account `");
    reveal_strlit("` not exist for account `");
    reveal_strlit("`");
    reveal_strlit("Account `");
    reveal_strlit("` not found");
    let exist = ErrorView::PendingMessageExist(hash.hex(), account.hex()).text();
    let other_exist = ErrorView::PendingMessageExist(other_hash.hex(), other_account.hex()).text();
    let not_exist = ErrorView::PendingMessageNotExist(hash.hex(), account.hex()).text();
    let other_not_exist = ErrorView::PendingMessageNotExist(
        other_hash.hex(),
        other_account.hex(),
    ).text();
    let not_found = ErrorView::AccountNotFound(account.hex()).text();
    let other_not_found = ErrorView::AccountNotFound(other_account.hex()).text();
    assert(exist.subrange(22, 86) =~= hash.hex());
    assert(exist.subrange(107, 171) =~= account.hex());
    assert(other_exist.subrange(22, 86) =~= other_hash.hex());
    assert(other_exist.subrange(107, 171) =~= other_account.hex());
    assert(not_exist.subrange(22, 86) =~= hash.hex());
    assert(not_exist.subrange(111, 175) =~= account.hex());
    assert(other_not_exist.subrange(22, 86) =~= other_hash.hex());
    assert(other_not_exist.subrange(111, 175) =~= other_account.hex());
    assert(not_found.subrange(9, 73) =~= account.hex());
    assert(other_not_found.subrange(9, 73) =~= other_account.hex());
    assert(exist.len() != other_not_exist.len());
    if hash.hex() == other_hash.hex() {
        crate::uint256::law_hex_is_injective(hash, other_hash);
    }
    if account.hex() == other_account.hex() {
        crate::uint256::law_hex_is_injective(account, other_account);
    }
}

} // verus!
