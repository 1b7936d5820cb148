//! The provider's catalogue and profile objects, as the web API returns them.
pub mod track_data;
pub mod user_profile;
