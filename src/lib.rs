//! Authentication and relational-access core of a small user/tag HTTP API:
//! password credentials, a store that keeps users and tags under uniqueness and
//! referential-integrity rules, a closed error taxonomy and a response envelope.
pub mod credential;
pub mod errors;
pub mod model;
pub mod registry;
pub mod response;
pub mod store;
