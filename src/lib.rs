//! Blue Scout: the schema layer of a competition scouting application.
//!
//! One field-list declaration yields the record type, its metadata tables,
//! dynamic field access, the SQL table definition, the additive migration
//! plan, the positional row mapping and the presentational views.

pub mod value;
pub mod text;
pub mod schema;
pub mod data;
pub mod reduced;
pub mod team;
pub mod info;
pub mod error;

pub use error::BlueScoutError;
