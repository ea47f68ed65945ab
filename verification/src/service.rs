//! What the service decides for each request before the store is touched
//! and after it has answered.

use vstd::prelude::*;
use crate::allocation::{
    digit_free, generate_id, store_always_free, store_answered, store_failed, AllocationError,
};
use crate::candidate::{all_numeric, is_candidate};
use crate::gate::{Operation, SuspendGate};
use crate::owner::{normalize_owner, normalized_owner};
use crate::settings::{ConfigError, Settings};
use crate::signal::Signal;

verus! {

/// Opens an allocation request: refuses it while the service is suspended,
/// and otherwise gives the normalized owner or refuses the request as
/// invalid. The suspend gate is looked at first.
pub fn begin_allocation(gate: &SuspendGate, owner: &str) -> (r: Result<String, Signal>)
    ensures
        gate@ ==> r == Err::<String, Signal>(Signal::Suspended),
        !gate@ ==> match normalized_owner(owner@) {
            Some(name) => r matches Ok(clean) && clean@ == name,
            None => r == Err::<String, Signal>(Signal::Invalid),
        },
{
    match gate.permit(Operation::Allocate) {
        Err(signal) => Err(signal),
        Ok(_) => match normalize_owner(owner) {
            Some(clean) => Ok(clean),
            None => Err(Signal::Invalid),
        },
    }
}

/// The signal under which a failed allocation is reported.
pub open spec fn allocation_signal<E>(error: AllocationError<E>) -> Signal {
    match error {
        AllocationError::EmptyCharset => Signal::Misconfigured,
        AllocationError::Exhausted { .. } => Signal::Exhausted,
        AllocationError::Store(_) => Signal::StorageUnavailable,
    }
}

/// The signal under which a failed allocation is reported.
pub fn signal_of<E>(error: &AllocationError<E>) -> (signal: Signal)
    ensures
        signal == allocation_signal(*error),
{
    match error {
        AllocationError::EmptyCharset => Signal::Misconfigured,
        AllocationError::Exhausted { .. } => Signal::Exhausted,
        AllocationError::Store(_) => Signal::StorageUnavailable,
    }
}

/// Draws an identifier that is free at the moment, without recording it:
/// the allocation loop with nothing inserted afterwards. The suspend gate is not
/// asked; by the time of a real allocation the value may be taken.
pub fn preview<E, F: Fn(&str) -> Result<u64, E>>(count_matching: F, settings: &Settings) -> (r:
    Result<String, Signal>)
    requires
        forall|s: &str| count_matching.requires((s,)),
    ensures
        r matches Ok(id) ==> {
            &&& is_candidate(id@, settings@.charset, settings@.id_length)
            &&& !all_numeric(id@)
            &&& store_answered(count_matching, id@, Ok(0))
        },
        r matches Err(signal) ==> signal is Misconfigured || signal is Exhausted
            || signal is StorageUnavailable,
        r matches Err(Signal::Misconfigured) <==> settings@.charset.len() == 0,
        r matches Err(Signal::StorageUnavailable) ==> exists|e: E| #[trigger]
            store_failed(count_matching, settings@.charset, settings@.id_length, e),
        settings@.charset.len() > 0 && (settings@.id_length == 0 || all_numeric(
            settings@.charset,
        )) ==> r == Err::<String, Signal>(Signal::Exhausted),
        settings@.valid() && digit_free(settings@.charset) && store_always_free(count_matching)
            ==> r is Ok,
{
    match generate_id(count_matching, settings) {
        Ok(id) => Ok(id),
        Err(error) => Err(signal_of(&error)),
    }
}

/// Changing a record is not yet available: the request is refused, as
/// suspended while the service is suspended and as not implemented
/// otherwise. It never succeeds.
pub fn update_id(gate: &SuspendGate) -> (r: Result<String, Signal>)
    ensures
        r == Err::<String, Signal>(
            if gate@ {
                Signal::Suspended
            } else {
                Signal::NotImplemented
            },
        ),
{
    match gate.permit(Operation::Update) {
        Err(signal) => Err(signal),
        Ok(_) => Err(Signal::NotImplemented),
    }
}

/// Marking a record deleted is not yet available: the request is refused,
/// as suspended while the service is suspended and as not implemented
/// otherwise. It never succeeds.
pub fn delete_id(gate: &SuspendGate) -> (r: Result<String, Signal>)
    ensures
        r == Err::<String, Signal>(
            if gate@ {
                Signal::Suspended
            } else {
                Signal::NotImplemented
            },
        ),
{
    match gate.permit(Operation::Delete) {
        Err(signal) => Err(signal),
        Ok(_) => Err(Signal::NotImplemented),
    }
}

/// What the status request reports.
#[derive(Debug, Clone)]
pub struct HealthReport {
    /// `Suspended` or `ok`.
    pub status: String,
    /// The configured storage location.
    pub db_path: String,
    /// The settings in use.
    pub settings: Settings,
}

/// The word that reports the state of the suspend gate.
pub open spec fn status_word(suspended: bool) -> Seq<char> {
    if suspended {
        "Suspended"@
    } else {
        "ok"@
    }
}

/// The status report. It is given whether the service is suspended or not,
/// and fails only if the storage location cannot be told.
pub fn health(gate: &SuspendGate, db_path: Result<String, ConfigError>, settings: &Settings) -> (r:
    Result<HealthReport, Signal>)
    ensures
        db_path is Err ==> r == Err::<HealthReport, Signal>(Signal::Misconfigured),
        db_path matches Ok(path) ==> (r matches Ok(report) && {
            &&& report.status@ == status_word(gate@)
            &&& report.db_path == path
            &&& report.settings@ == settings@
        }),
{
    match db_path {
        Err(_) => Err(Signal::Misconfigured),
        Ok(path) => {
            let status = if gate.is_suspended() {
                "Suspended".to_owned()
            } else {
                "ok".to_owned()
            };
            let settings = Settings {
                id_length: settings.id_length,
                charset: settings.charset.clone(),
                admin_secret: settings.admin_secret.clone(),
            };
            Ok(HealthReport { status, db_path: path, settings })
        },
    }
}

} // verus!
