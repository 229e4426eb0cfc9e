//! HTTP REST transport for the Animus daemon: the decisions its REST
//! handlers make, from the request they are given to the JSON envelope and
//! status they answer with.

pub mod handlers;
pub mod json;
