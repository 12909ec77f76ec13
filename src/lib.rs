//! Live ATIS lookup over a cached VATSIM datafeed snapshot, with the settings
//! model of the desktop application around it.
pub mod atis;
pub mod datafeed;
pub mod profiles;
pub mod settings;
pub mod text;
pub mod update;
pub mod window;
