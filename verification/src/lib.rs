//! Error tagging: every error occurrence gets a fresh random identifier and
//! the source location where it was raised, and can be turned into the parts
//! of an HTTP error response. Clients see the status and the identifier;
//! the location stays on the server.

pub mod decimal;
pub mod idgen;
pub mod info;
pub mod location;
pub mod response;
pub mod status;

pub use idgen::IdGen;
pub use info::ErrorInfo;
pub use location::Location;
pub use response::{err_resp, error_body, ErrorBody, ErrorResponse};
pub use status::StatusCode;
