//! A typed client core for the Polygon.io reference-data REST API.
//!
//! The crate builds the requests of four endpoints (ticker listing, ticker
//! details, ticker news, dividends), decides what one HTTP exchange means for
//! the caller, reads response records from the fields of their JSON objects,
//! and resolves the client's configuration. Sending a request over the
//! network and parsing JSON text are left to the caller.
//!
//! Every function carries a contract over the mathematical view of its data,
//! and Verus proves each of them but one: what the `time` crate makes of a
//! calendar date is stated in `date` and trusted.

pub mod common;
pub mod date;
pub mod dividends;
pub mod fields;
pub mod params;
pub mod polygon_client;
pub mod rest_client;
pub mod text;
pub mod ticker_details;
pub mod ticker_news;
pub mod tickers;
pub mod utils;
