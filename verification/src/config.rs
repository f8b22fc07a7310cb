//! Process-wide configuration, fixed at startup and read-only afterwards.

use vstd::prelude::*;
use crate::stage::Credential;

verus! {

/// How long the readiness wait lasts at most, in milliseconds.
pub const READINESS_TIMEOUT_MS: u64 = 90000;

/// The pause between two readiness polls, in milliseconds.
pub const POLL_INTERVAL_MS: u64 = 1000;

/// The port the server listens on.
pub const LISTEN_PORT: u16 = 8000;

/// What a pipeline run needs to know of the configuration.
#[derive(Clone, Debug)]
pub struct Settings {
    /// Upper bound of the readiness wait, in milliseconds.
    pub readiness_timeout_ms: u64,
    /// Pause between two readiness polls, in milliseconds.
    pub poll_interval_ms: u64,
    /// The local directory that the export operation fills.
    pub export_dir: String,
    /// The storage credential that is not configured, if one is missing.
    pub missing_credential: Option<Credential>,
}

/// The two keys that authenticate against the object store.
#[derive(Clone, Debug)]
pub struct StorageKeys {
    pub access_key: String,
    pub secret_key: String,
}

/// Picks the value of a setting that has a primary and a fallback source: the
/// primary where it is present, the fallback otherwise.
pub fn first_present(primary: Option<String>, fallback: Option<String>) -> (r: Option<String>)
    ensures
        r == if primary.is_some() {
            primary
        } else {
            fallback
        },
{
    match primary {
        Some(value) => Some(value),
        None => fallback,
    }
}

/// Which credential is missing among the resolved ones, the access key first.
pub open spec fn missing_of(access: Option<String>, secret: Option<String>) -> Option<
    Credential,
> {
    if access.is_none() {
        Some(Credential::AccessKey)
    } else if secret.is_none() {
        Some(Credential::SecretKey)
    } else {
        None
    }
}

/// Resolves the storage keys from their primary and fallback sources. Fails
/// with the credential that neither source provides, the access key first.
pub fn resolve_keys(
    access_primary: Option<String>,
    access_fallback: Option<String>,
    secret_primary: Option<String>,
    secret_fallback: Option<String>,
) -> (r: Result<StorageKeys, Credential>)
    ensures
        ({
            let access = if access_primary.is_some() {
                access_primary
            } else {
                access_fallback
            };
            let secret = if secret_primary.is_some() {
                secret_primary
            } else {
                secret_fallback
            };
            match missing_of(access, secret) {
                Some(credential) => r == Err::<StorageKeys, Credential>(credential),
                None => r == Ok::<StorageKeys, Credential>(
                    StorageKeys { access_key: access.unwrap(), secret_key: secret.unwrap() },
                ),
            }
        }),
{
    let access = first_present(access_primary, access_fallback);
    let secret = first_present(secret_primary, secret_fallback);
    match access {
        None => Err(Credential::AccessKey),
        Some(access_key) => match secret {
            None => Err(Credential::SecretKey),
            Some(secret_key) => Ok(StorageKeys { access_key, secret_key }),
        },
    }
}

impl Settings {
    /// The standard settings: a readiness wait of ninety seconds polled every
    /// second, and the given export directory.
    pub fn standard(export_dir: String, missing_credential: Option<Credential>) -> (r: Settings)
        ensures
            r == (Settings {
                readiness_timeout_ms: READINESS_TIMEOUT_MS,
                poll_interval_ms: POLL_INTERVAL_MS,
                export_dir,
                missing_credential,
            }),
    {
        Settings {
            readiness_timeout_ms: READINESS_TIMEOUT_MS,
            poll_interval_ms: POLL_INTERVAL_MS,
            export_dir,
            missing_credential,
        }
    }
}

} // verus!
