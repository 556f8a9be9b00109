//! A synchronous, pull-based HTTP client core.
//!
//! The library holds the decisions of a client that drives a non-blocking
//! transfer engine: the error taxonomy, request description, header parsing
//! and the response state machine that buffers body bytes until the caller
//! reads them. The engine itself is driven by the embedding program, which
//! feeds each event it observes into [`ResponseData`].
pub mod error;
pub mod header;
pub mod method;
pub mod number;
pub mod request;
pub mod response;
pub mod url;

pub use error::{Error, Kind};
pub use method::Method;
pub use request::Request;
pub use response::{ExecuteStep, Phase, Pump, ReadStep, ResponseData};
pub use url::{TryIntoUrl, Url};
