//! The board token in the native keychain. What the keychain holds is outside
//! state, so the calls below promise nothing of what comes back; the verified
//! functions state what the bridge answers for each outcome.
use crate::error::{AppError, AppErrorView};
use vstd::prelude::*;

verus! {

#[verifier::external_type_specification]
#[verifier::external_body]
pub struct ExKeyringEntry(keyring::Entry);

#[verifier::external_type_specification]
#[verifier::external_body]
pub struct ExKeyringError(keyring::Error);

/// How a keychain read or delete failed: the entry holds no credential, or
/// the store failed in another way.
pub enum KeyringFailure {
    NoEntry,
    Other,
}

/// An opened keychain entry, with the service and account it was opened for.
pub struct KeychainEntry {
    pub service: String,
    pub account: String,
    pub entry: keyring::Entry,
}

/// A password to store in an opened keychain entry.
pub struct PasswordWrite {
    pub slot: KeychainEntry,
    pub password: String,
}

/// Opens the keychain entry of `service` and `account` with
/// `keyring::Entry::new`, keeping the two names beside it. Whether it opens
/// depends on the platform's credential store; the names kept are the ones
/// passed.
#[verifier::external_body]
fn open_entry(service: &str, account: &str) -> (r: Result<KeychainEntry, keyring::Error>)
    ensures
        r matches Ok(e) ==> e.service@ == service@ && e.account@ == account@,
{
    match keyring::Entry::new(service, account) {
        Ok(entry) => Ok(
            KeychainEntry { service: String::from(service), account: String::from(account), entry },
        ),
        Err(error) => Err(error),
    }
}

/// Reads the password of `slot` with `keyring::Entry::get_password`,
/// telling `keyring::Error::NoEntry` apart from every other error. Nothing is
/// promised of the outcome, which depends on the platform's credential store.
#[verifier::external_body]
fn get_password(slot: &KeychainEntry) -> (r: Result<String, KeyringFailure>) {
    match slot.entry.get_password() {
        Ok(password) => Ok(password),
        Err(keyring::Error::NoEntry) => Err(KeyringFailure::NoEntry),
        Err(_) => Err(KeyringFailure::Other),
    }
}

/// Stores the password of `request` in its entry with
/// `keyring::Entry::set_password`. Nothing is promised of the outcome, which
/// depends on the platform's credential store.
#[verifier::external_body]
fn set_password(request: &PasswordWrite) -> (r: Result<(), keyring::Error>) {
    request.slot.entry.set_password(request.password.as_str())
}

/// Deletes the credential of `slot` with `keyring::Entry::delete_credential`,
/// telling `keyring::Error::NoEntry` apart from every other error. Nothing is
/// promised of the outcome, which depends on the platform's credential store.
#[verifier::external_body]
fn delete_credential(slot: &KeychainEntry) -> (r: Result<(), KeyringFailure>) {
    match slot.entry.delete_credential() {
        Ok(()) => Ok(()),
        Err(keyring::Error::NoEntry) => Err(KeyringFailure::NoEntry),
        Err(_) => Err(KeyringFailure::Other),
    }
}

/// The keychain slot of the Paperclip board token: its service and account.
pub open spec fn is_board_token_slot(slot: &KeychainEntry) -> bool {
    &&& slot.service@ == "com.zerologic.agency-agents-app"@
    &&& slot.account@ == "paperclip_board_api_key"@
}

pub open spec fn msg_entry_unavailable() -> Seq<char> {
    "Paperclip Keychain entry is unavailable."@
}

pub open spec fn msg_read_failed() -> Seq<char> {
    "Paperclip credential could not be read from Keychain."@
}

pub open spec fn msg_save_failed() -> Seq<char> {
    "Paperclip credential could not be saved to Keychain."@
}

pub open spec fn msg_remove_failed() -> Seq<char> {
    "Paperclip credential could not be removed from Keychain."@
}

/// `e` is the keychain error that carries `message`.
pub open spec fn is_keychain_error(e: AppErrorView, message: Seq<char>) -> bool {
    e == AppErrorView::KeychainUnavailable(message)
}

/// The keychain entry of the Paperclip board token.
fn keychain_entry() -> (r: Result<KeychainEntry, AppError>)
    ensures
        r matches Ok(slot) ==> is_board_token_slot(&slot),
        r matches Err(e) ==> is_keychain_error(e@, msg_entry_unavailable()),
{
    match open_entry("com.zerologic.agency-agents-app", "paperclip_board_api_key") {
        Ok(entry) => Ok(entry),
        Err(_) => Err(
            AppError::KeychainUnavailable {
                message: "Paperclip Keychain entry is unavailable.".to_owned(),
            },
        ),
    }
}

/// What a read of the keychain means: the token, no token, or a failure.
pub fn password_read_outcome(read: Result<String, KeyringFailure>) -> (r: Result<
    Option<String>,
    AppError,
>)
    ensures
        match read {
            Ok(token) => r == Ok::<Option<String>, AppError>(Some(token)),
            Err(KeyringFailure::NoEntry) => r == Ok::<Option<String>, AppError>(None),
            Err(KeyringFailure::Other) => r matches Err(e) && is_keychain_error(
                e@,
                msg_read_failed(),
            ),
        },
{
    match read {
        Ok(token) => Ok(Some(token)),
        Err(KeyringFailure::NoEntry) => Ok(None),
        Err(KeyringFailure::Other) => Err(
            AppError::KeychainUnavailable {
                message: "Paperclip credential could not be read from Keychain.".to_owned(),
            },
        ),
    }
}

/// What a deletion from the keychain means: a missing credential counts as
/// deleted.
pub fn deletion_outcome(deleted: Result<(), KeyringFailure>) -> (r: Result<(), AppError>)
    ensures
        match deleted {
            Ok(()) => r is Ok,
            Err(KeyringFailure::NoEntry) => r is Ok,
            Err(KeyringFailure::Other) => r matches Err(e) && is_keychain_error(
                e@,
                msg_remove_failed(),
            ),
        },
{
    match deleted {
        Ok(()) => Ok(()),
        Err(KeyringFailure::NoEntry) => Ok(()),
        Err(KeyringFailure::Other) => Err(
            AppError::KeychainUnavailable {
                message: "Paperclip credential could not be removed from Keychain.".to_owned(),
            },
        ),
    }
}

/// What a read of the keychain can answer.
pub open spec fn is_token_read(r: Result<Option<String>, AppError>) -> bool {
    match r {
        Ok(_) => true,
        Err(e) => is_keychain_error(e@, msg_entry_unavailable()) || is_keychain_error(
            e@,
            msg_read_failed(),
        ),
    }
}

/// Reads the board token from the keychain: `None` where the keychain holds
/// none.
pub fn read_keychain_token() -> (r: Result<Option<String>, AppError>)
    ensures
        is_token_read(r),
{
    let entry = keychain_entry()?;
    password_read_outcome(get_password(&entry))
}

/// The request that stores `token` in the opened entry `slot`.
pub fn password_write(slot: KeychainEntry, token: &str) -> (r: PasswordWrite)
    ensures
        r.slot == slot,
        r.password@ == token@,
{
    PasswordWrite { slot, password: token.to_owned() }
}

/// Stores the board token `token` in the keychain.
pub fn write_keychain_token(token: &str) -> (r: Result<(), AppError>)
    ensures
        r matches Err(e) ==> is_keychain_error(e@, msg_entry_unavailable()) || is_keychain_error(
            e@,
            msg_save_failed(),
        ),
{
    let request = password_write(keychain_entry()?, token);
    match set_password(&request) {
        Ok(()) => Ok(()),
        Err(_) => Err(
            AppError::KeychainUnavailable {
                message: "Paperclip credential could not be saved to Keychain.".to_owned(),
            },
        ),
    }
}

/// Removes the board token from the keychain; a keychain that holds none
/// counts as done.
pub fn delete_keychain_token() -> (r: Result<(), AppError>)
    ensures
        r matches Err(e) ==> is_keychain_error(e@, msg_entry_unavailable()) || is_keychain_error(
            e@,
            msg_remove_failed(),
        ),
{
    let entry = keychain_entry()?;
    deletion_outcome(delete_credential(&entry))
}

} // verus!
