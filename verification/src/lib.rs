//! Name resolution logic of the consumer: TNS namehashing, reverse names,
//! the steps of a TNS primary-name lookup, and the steps of the resolver
//! that turn lookup results into account and atom updates.
pub mod address;
pub mod error;
pub mod hash;
pub mod records;
pub mod resolver;
pub mod text;
pub mod tns;
pub mod tns_lookup;
