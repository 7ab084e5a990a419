//! The credential storage service: write-then-verify semantics over a
//! pluggable secure-storage adapter, with a fixed retry budget and
//! exponential backoff between attempts.
//!
//! The adapter and the backoff sleeper are traits supplied by the caller, so
//! the service itself stays free of any I/O; the retry policy is a pure,
//! independently stated function from attempt number to delay.

use vstd::prelude::*;
use vstd::arithmetic::power2::{lemma2_to64, lemma_pow2_strictly_increases, pow2};
use vstd::bits::{lemma_u64_pow2_no_overflow, lemma_u64_shl_is_mul};
use crate::credentials::AccountCredentials;
use crate::error::{AuthError, SecretStorageError};

verus! {

/// The secure-storage adapter consumed by the service: write, read and
/// delete of one account's credential record, keyed by the account
/// identifier. Implementations live outside this crate (an OS keychain, a
/// credential vault, or an in-memory fake in tests) and may fail or lose a
/// write arbitrarily; nothing is assumed of them.
pub trait CredentialStore {
    fn write_credentials(
        &mut self,
        account: u128,
        credentials: &AccountCredentials,
    ) -> Result<(), SecretStorageError>;

    fn read_credentials(
        &mut self,
        account: u128,
    ) -> Result<Option<AccountCredentials>, SecretStorageError>;

    fn delete_credentials(&mut self, account: u128) -> Result<(), SecretStorageError>;
}

/// The sleeper that spaces retry attempts. Implementations suspend or sleep
/// for the given number of milliseconds; a test fake may simply record it.
pub trait RetryDelay {
    fn delay_ms(&mut self, ms: u64);
}

/// Total write-and-verify attempts before giving up.
pub const MAX_WRITE_ATTEMPTS: u32 = 3;

/// Backoff before attempt k+1 is BASE_DELAY_MS * 2^(k-1) milliseconds.
pub const BASE_DELAY_MS: u64 = 100;

/// The backoff schedule: the delay taken after `attempt` failed attempts,
/// doubling with each failure from a base of 100 ms.
pub fn backoff_delay_ms(attempt: u32) -> (r: u64)
    requires
        1 <= attempt <= 32,
    ensures
        r == BASE_DELAY_MS * pow2((attempt - 1) as nat),
{
    let shift: u64 = (attempt - 1) as u64;
    proof {
        lemma_u64_pow2_no_overflow(shift as nat);
        lemma_u64_shl_is_mul(1u64, shift);
        lemma2_to64();
        if shift < 31 {
            lemma_pow2_strictly_increases(shift as nat, 31);
        }
    }
    let factor: u64 = 1u64 << shift;
    BASE_DELAY_MS * factor
}

/// The verdict of one write-and-verify attempt, fixed for every value the
/// store's read-back can hand over: a record found confirms the write, a
/// missing record is a verification failure of this attempt — never a
/// success — and a backend failure propagates as the storage error it
/// reported.
pub fn check_readback(
    read_back: Result<Option<AccountCredentials>, SecretStorageError>,
) -> (r: Result<(), AuthError>)
    ensures
        r == match read_back {
            Ok(Some(_)) => Ok::<(), AuthError>(()),
            Ok(None) => Err::<(), AuthError>(AuthError::VerificationFailed),
            Err(e) => Err::<(), AuthError>(AuthError::StorageError(e)),
        },
{
    match read_back {
        Ok(Some(_)) => Ok(()),
        Ok(None) => Err(AuthError::VerificationFailed),
        Err(e) => Err(AuthError::StorageError(e)),
    }
}

/// The credential storage service, owning one store adapter and one sleeper.
pub struct CredentialStorage<S: CredentialStore, D: RetryDelay> {
    pub store: S,
    pub delay: D,
}

impl<S: CredentialStore, D: RetryDelay> CredentialStorage<S, D> {
    pub fn new(store: S, delay: D) -> (r: Self)
        ensures
            r.store == store,
            r.delay == delay,
    {
        Self { store, delay }
    }

    /// One write-and-verify cycle: write the record, then read it back to
    /// confirm the backend actually persisted it. What the attempt returns
    /// for each value the store handed back is fixed by `check_readback`'s
    /// contract and the `From` conversion of a write failure; nothing is
    /// assumed of the store itself.
    fn write_and_verify_once(
        &mut self,
        account: u128,
        credentials: &AccountCredentials,
    ) -> (r: Result<(), AuthError>)
        ensures
            r matches Err(e) ==> (e is StorageError || e is VerificationFailed),
    {
        match self.store.write_credentials(account, credentials) {
            Err(e) => return Err(AuthError::from(e)),
            Ok(()) => (),
        }
        let read_back = self.store.read_credentials(account);
        check_readback(read_back)
    }

    /// Repeats the full write-and-verify cycle up to `max_retries` total
    /// attempts, sleeping `backoff_delay_ms(k)` after the k-th failure; the
    /// error of the final attempt is returned unchanged.
    fn retry_with_backoff(
        &mut self,
        account: u128,
        credentials: &AccountCredentials,
        max_retries: u32,
    ) -> (r: Result<(), AuthError>)
        requires
            1 <= max_retries <= 32,
        ensures
            r matches Err(e) ==> (e is StorageError || e is VerificationFailed),
    {
        let mut attempts: u32 = 0;

        loop
            invariant
                attempts < max_retries <= 32,
            decreases max_retries - attempts,
        {
            match self.write_and_verify_once(account, credentials) {
                Ok(()) => return Ok(()),
                Err(e) => {
                    attempts = attempts + 1;
                    if attempts >= max_retries {
                        return Err(e);
                    }
                    let delay = backoff_delay_ms(attempts);
                    self.delay.delay_ms(delay);
                },
            }
        }
    }

    /// Writes the credential record and verifies the write by reading it
    /// back, retrying the full cycle up to three total attempts with 100 ms
    /// then 200 ms of backoff. An error is returned only after the final
    /// attempt has failed, and is the final attempt's own error: a
    /// verification failure when the read-back found nothing, or the
    /// backend's storage error.
    pub fn write_and_verify(
        &mut self,
        account: u128,
        credentials: &AccountCredentials,
    ) -> (r: Result<(), AuthError>)
        ensures
            r matches Err(e) ==> (e is StorageError || e is VerificationFailed),
    {
        self.retry_with_backoff(account, credentials, MAX_WRITE_ATTEMPTS)
    }

    /// A single pass-through read of one account's record, without retry; a
    /// backend failure propagates as a storage error.
    pub fn read(&mut self, account: u128) -> (r: Result<Option<AccountCredentials>, AuthError>)
        ensures
            r matches Err(e) ==> e is StorageError,
    {
        match self.store.read_credentials(account) {
            Ok(v) => Ok(v),
            Err(e) => Err(AuthError::from(e)),
        }
    }

    /// A single pass-through delete of one account's record, without retry;
    /// a backend failure propagates as a storage error.
    pub fn delete(&mut self, account: u128) -> (r: Result<(), AuthError>)
        ensures
            r matches Err(e) ==> e is StorageError,
    {
        match self.store.delete_credentials(account) {
            Ok(()) => Ok(()),
            Err(e) => Err(AuthError::from(e)),
        }
    }
}

} // verus!
