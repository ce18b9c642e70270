//! Control-plane plumbing of a distributed indexing engine: a registry that
//! dispatches metastore URIs to the factory registered for their scheme, and
//! the identity, task-naming and error-translation layer of the indexing
//! service.
//!
//! Every executable function carries a contract over the mathematical views
//! of its arguments, and the laws that relate several functions are stated
//! as public proof functions next to them.

pub mod elastic_search_api;
pub mod text;

pub mod indexing;
pub mod metastore_resolver;
