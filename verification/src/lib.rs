//! Relay layer for a fixed gazetteer web service.
//!
//! The library builds the outbound request for the two relay operations
//! (place-name search and per-identifier detail lookup) and classifies the
//! inbound response: a successful status yields the parsed JSON body, any
//! other outcome yields a descriptive text message. The network transport
//! itself stays outside; callers hand in the status line and body text of
//! whatever response they received.

pub mod outside;
pub mod query;
pub mod relay;
pub mod text;

pub use query::PlacenameQueryPayload;
pub use query::search_request_body;
pub use relay::RelayOperation;
pub use relay::detail_endpoint_url;
pub use relay::detail_response;
pub use relay::search_endpoint_url;
pub use relay::search_response;
pub use relay::transport_failure_message;
pub use relay::unreadable_body_placeholder;
pub use text::u32_decimal;
