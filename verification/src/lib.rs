//! Order and menu management for a restaurant service: the request and
//! response rules of its HTTP endpoints, the rows it records for orders, the
//! database address it connects to, and the request script of its load client.

pub mod decimal;
pub mod request;
pub mod response;
pub mod text;
pub mod ordermgmt;
pub mod menumgmt;
pub mod doc;
pub mod args;
pub mod db;
pub mod client;
pub mod statements;
