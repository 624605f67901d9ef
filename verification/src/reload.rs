//! Reloading: telling the token service to read the data again, and what the
//! token service does when it is told.

use crate::load::{LoadError, LoadWarning, Loaded};
use crate::models::Timestamp;
use crate::storage::{AdminStorage, DataSyncState, StorageView};
use crate::text::{parse_i32, parsed_i32_of, trim, trimmed_of};
use vstd::prelude::*;

verus! {

/// Why the token service was not told to reload.
#[derive(Clone, Copy, Debug, PartialEq, Eq, Structural)]
pub enum ReloadError {
    /// The process id file does not hold a process id.
    InvalidPid,
    /// The signal could not be delivered.
    SignalFailed,
}

/// Whether the reload signal reached the token service.
#[derive(Clone, Copy, Debug, PartialEq, Eq, Structural)]
pub enum SignalOutcome {
    Delivered,
    Failed,
}

/// What a reload did.
#[derive(Debug)]
pub enum ReloadReport {
    /// The freshly loaded store is now the active one.
    Swapped { users_count: usize, warnings: Vec<LoadWarning> },
    /// The load failed; the store that was active still is.
    Kept { error: LoadError },
}

/// The process id that the content of a process id file names: the content
/// without the white space round it, read as a decimal number.
pub open spec fn pid_in(content: Seq<char>) -> Option<i32> {
    parsed_i32_of(trimmed_of(content))
}

/// Reads the process id of the token service out of the content of its
/// process id file.
pub fn auth_pid(content: &str) -> (result: Result<i32, ReloadError>)
    ensures
        result == match pid_in(content@) {
            Some(pid) => Ok::<i32, ReloadError>(pid),
            None => Err(ReloadError::InvalidPid),
        },
{
    pid_or_invalid(parse_i32(trim(content)))
}

/// The process id that was read, or the error that says there was none.
pub fn pid_or_invalid(parsed: Option<i32>) -> (result: Result<i32, ReloadError>)
    ensures
        result == match parsed {
            Some(pid) => Ok::<i32, ReloadError>(pid),
            None => Err(ReloadError::InvalidPid),
        },
{
    match parsed {
        Some(pid) => Ok(pid),
        None => Err(ReloadError::InvalidPid),
    }
}

impl AdminStorage {
    /// Records what became of the reload signal. A delivered signal moves
    /// the time of the last reload to `now`; a failed one changes nothing.
    pub fn trigger_auth_reload(&mut self, signal: SignalOutcome, now: Timestamp) -> (result: Result<
        (),
        ReloadError,
    >)
        ensures
            result == match signal {
                SignalOutcome::Delivered => Ok::<(), ReloadError>(()),
                SignalOutcome::Failed => Err(ReloadError::SignalFailed),
            },
            final(self)@ == match signal {
                SignalOutcome::Delivered => StorageView {
                    sync_state: DataSyncState { last_auth_reload: now, ..old(self)@.sync_state },
                    ..old(self)@
                },
                SignalOutcome::Failed => old(self)@,
            },
            final(self).wf() == old(self).wf(),
    {
        match signal {
            SignalOutcome::Delivered => {
                self.mark_auth_reloaded(now);
                Ok(())
            },
            SignalOutcome::Failed => Err(ReloadError::SignalFailed),
        }
    }
}

/// Carries out a reload: a store that loaded takes the place of the active
/// one; a load that failed leaves the active store as it is.
pub fn reload(active: &mut AdminStorage, loaded: Result<Loaded, LoadError>) -> (report:
    ReloadReport)
    ensures
        match loaded {
            Ok(fresh) => *final(active) == fresh.storage && report == (ReloadReport::Swapped {
                users_count: fresh.storage@.user_ids.len() as usize,
                warnings: fresh.warnings,
            }),
            Err(error) => *final(active) == *old(active) && report == (ReloadReport::Kept {
                error,
            }),
        },
{
    match loaded {
        Ok(fresh) => {
            let users_count = fresh.storage.users_count();
            *active = fresh.storage;
            ReloadReport::Swapped { users_count, warnings: fresh.warnings }
        },
        Err(error) => ReloadReport::Kept { error },
    }
}

} // verus!
