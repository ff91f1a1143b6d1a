//! Persistence rules for a desktop application's user settings, and a
//! short-lived in-memory cache of structured values.
//!
//! The library validates documents and decides what is loaded, saved and
//! adopted; the application around it reads and writes the settings file and
//! guards the shared state with locks.

pub mod cache;
pub mod error;
pub mod settings;
pub mod store;

pub use cache::{Cache, DEFAULT_TTL_SECONDS};
pub use error::AppError;
pub use settings::Settings;
pub use store::{load_settings, SettingsStore};
