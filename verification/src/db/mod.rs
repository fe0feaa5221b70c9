//! The logic of the data services that does not itself touch a connection: query
//! text, and the decisions taken around what the database returns.
pub mod bestiary_proxy;
pub mod cache;
pub mod data_providers;
pub mod db_cache;
pub mod db_proxy;
pub mod proxy;
