//! DNS query pipeline: name parsing, input selection, server and transport
//! selection, query parameters, cross-product dispatch planning, response
//! gathering and structural serialization of responses.

pub mod error;
pub mod input;
pub mod name;
pub mod server;
pub mod params;
pub mod dispatch;
pub mod message;
pub mod query;
