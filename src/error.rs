use vstd::prelude::*;

verus! {

/// Every way in which a request can fail.
#[derive(Debug, Clone, Copy, PartialEq, Eq, Structural)]
pub enum ClientError {
    /// The URL does not parse, has no host, or no port can be derived for it.
    UrlError,
    /// The scheme is neither `http` nor `https`.
    UnsupportedScheme,
    /// The TCP connection could not be opened.
    ConnectError,
    /// The system trust roots could not be loaded.
    CertStoreError,
    /// TLS negotiated no application protocol, or another one than HTTP/2.
    AlpnMismatch,
    /// The frame engine could not be set up.
    EngineInitError,
    /// Bytes handed out by the frame engine could not be written.
    WriteFailure,
    /// The streams did not all close before the deadline.
    Timeout,
}

} // verus!
