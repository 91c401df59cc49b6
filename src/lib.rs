//! A single-request HTTP/2 client core.
//!
//! The library holds the decisions of a client that fetches one URL over
//! HTTP/2: how the URL is resolved, which transport it needs, whether the
//! negotiated application protocol is acceptable, which request is submitted,
//! how stream completion is tracked and when the pump stops. The frame engine,
//! the sockets and the TLS handshake stay with the caller, which reports what
//! they did through the methods of [`Session`].
pub mod error;
pub mod ffi;
pub mod session;
pub mod target;
pub mod tracker;

pub use error::ClientError;
pub use ffi::{nghttp2_session, nghttp2_session_callbacks};
pub use session::{
    read_outcome, HeaderField, Phase, PumpAction, ReadOutcome, Session, SessionView,
    DEFAULT_TIMEOUT_MS,
};
pub use target::{
    check_alpn, h2_alpn_id, parse_url, resolve_parts, select_transport, Target, TransportKind,
    UrlParts,
};
pub use tracker::Tracker;
