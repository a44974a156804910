//! Staleness of the lockfile against its manifest.
//!
//! The check goes by modification times only: a manifest saved without a
//! change of meaning still counts as newer, and one reverted to older
//! content without touching the lockfile does not.

use crate::holotree::Source;
use vstd::prelude::*;

verus! {

/// Why a run cannot start from its configuration.
#[derive(Clone, Copy, Debug, PartialEq, Eq, Structural)]
pub enum ConfigError {
    /// The manifest file does not exist.
    ManifestMissing,
}

/// Whether the lockfile is stale: both files exist and the manifest was
/// modified strictly later than the lockfile. Times are nanoseconds since
/// the Unix epoch; `None` stands for a missing file.
pub open spec fn is_stale(manifest: Option<u128>, lockfile: Option<u128>) -> bool {
    match (manifest, lockfile) {
        (Some(m), Some(l)) => m > l,
        _ => false,
    }
}

/// Decides whether the lockfile has to be regenerated before a run.
pub fn needs_relock(manifest: Option<u128>, lockfile: Option<u128>) -> (r: bool)
    ensures
        r == is_stale(manifest, lockfile),
{
    match (manifest, lockfile) {
        (Some(m), Some(l)) => m > l,
        _ => false,
    }
}

/// Picks the authoritative file once any re-lock is done: the lockfile when
/// it exists, else the manifest itself. The manifest must exist either way,
/// as it also gives the runtime version.
pub fn choose_source(manifest_exists: bool, lockfile_exists: bool) -> (r: Result<Source, ConfigError>)
    ensures
        !manifest_exists ==> r == Err::<Source, ConfigError>(ConfigError::ManifestMissing),
        manifest_exists && lockfile_exists ==> r == Ok::<Source, ConfigError>(Source::Lockfile),
        manifest_exists && !lockfile_exists ==> r == Ok::<Source, ConfigError>(Source::Manifest),
{
    if !manifest_exists {
        Err(ConfigError::ManifestMissing)
    } else if lockfile_exists {
        Ok(Source::Lockfile)
    } else {
        Ok(Source::Manifest)
    }
}

/// A manifest older than its lockfile triggers no re-lock; a newer one
/// triggers one, after which the rewritten lockfile (modified no earlier
/// than the manifest) is no longer stale, so the re-lock happens once.
pub proof fn lemma_relock_once(manifest: u128, lockfile: u128, relocked: u128)
    requires
        relocked >= manifest,
    ensures
        is_stale(Some(manifest), Some(lockfile)) == (manifest > lockfile),
        !is_stale(Some(manifest), Some(relocked)),
{
}

/// Without a lockfile there is nothing to be stale.
pub proof fn lemma_no_lockfile_never_stale(manifest: Option<u128>)
    ensures
        !is_stale(manifest, None),
{
}

} // verus!
