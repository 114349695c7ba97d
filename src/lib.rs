//! Table mapping for record types: schema analysis, SQL statement synthesis
//! and the create/read/update/delete operations over an SQLite connection.

pub mod value;
pub mod schema;
pub mod sql;
pub mod capability;
pub mod engine;
pub mod row;
pub mod table;
pub mod model;
