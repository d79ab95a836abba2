//! An in-memory task list: the record store, its identifier counter, and the
//! request handlers that turn each store outcome into a status and a payload.

pub mod handler;
pub mod laws;
pub mod message;
pub mod model;
pub mod store;
pub mod todo;
