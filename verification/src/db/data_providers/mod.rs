//! Builders of the SQL text that the data providers send, and what is done with the
//! rows they get back.
pub mod creature_fetcher;
pub mod generic_fetcher;
pub mod raw_query_builder;
pub mod shop_fetcher;
