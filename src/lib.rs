//! Data-access core of a desktop productivity application: typed entities
//! mapped onto schemaless documents of an embedded datastore.

pub mod error;
pub mod extract;
pub mod intent;
pub mod model;
pub mod store;
pub mod value;
