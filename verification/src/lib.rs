pub mod api;
pub mod cache;
pub mod compute;
pub mod envelope;
pub mod files;
pub mod host;
pub mod listing;
pub mod params;
pub mod router;
pub mod sql;
pub mod status;
pub mod text;
pub mod users;
pub mod validate;
