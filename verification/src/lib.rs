//! Allocation of short, shareable identifiers: settings, candidate drawing,
//! the bounded allocation loop, the suspend gate and the decisions taken on
//! what the registry store answers.

pub mod allocation;
pub mod candidate;
pub mod decimal;
pub mod gate;
pub mod owner;
pub mod registry;
pub mod service;
pub mod settings;
pub mod signal;
pub mod text;

pub use crate::allocation::{generate_id, id_exists, AllocationError, AllocationState, MAX_RETRIES};
pub use crate::candidate::{generate_candidate, is_all_numeric};
pub use crate::gate::{Operation, SuspendGate};
pub use crate::owner::normalize_owner;
pub use crate::registry::{allocated_record, confirm_response, lookup, ConfirmResponse, IdRecord};
pub use crate::service::{begin_allocation, delete_id, health, preview, update_id, HealthReport};
pub use crate::settings::{get_db_path, load_settings, ConfigError, LocationLookup, Settings};
pub use crate::signal::{api_error, ApiError, Signal};
