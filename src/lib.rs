//! A typed query-construction layer: fluent builders that turn filter,
//! ordering, cursor and paging parameters into a GraphQL-shaped selection
//! tree, ready to be handed to a query engine.

pub mod args;
pub mod find_many;
pub mod query;
pub mod selection;
pub mod value;
