//! Verified core of the memecycle ride service: the data model, the
//! decisions each HTTP route makes on what the database answered, the
//! naming and classification of uploaded ride files, and the text the
//! service writes into its answers.

pub mod launch;
pub mod models;
pub mod routes;
pub mod schema;
pub mod simple;
pub mod text;
pub mod upload;
pub mod utils;
