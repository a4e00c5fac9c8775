//! An HTTP chat adapter: routes requests, turns a decoded JSON payload into a
//! typed conversation, prepends a fixed system directive and shapes the reply
//! into an HTTP response.
//!
//! The decisions are verified here; decoding the body with serde and awaiting
//! the inference call happen in the surrounding canister code.
pub mod turn;
pub mod chat;
pub mod http;
