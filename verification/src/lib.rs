//! Typed client core for a workforce-management REST API: parameter
//! encoding, request building, response classification and pagination.

pub mod params;
pub mod dates;
pub mod sort_by;
pub mod json;
pub mod error;
pub mod client;
pub mod query;
pub mod endpoint;
pub mod ignore;
pub mod paged;
pub mod header;
pub mod resources;
pub mod projects;
pub mod booking_tags;
pub mod holidays;
pub mod bookings;
pub mod vacations;
pub mod time_entries;
