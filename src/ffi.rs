use vstd::prelude::*;

verus! {

/// Opaque handle of a frame-engine session; only ever seen behind a pointer.
#[allow(non_camel_case_types)]
pub struct nghttp2_session {
    _private: [u8; 0],
}

/// Opaque handle of a frame-engine callback table; only ever seen behind a pointer.
#[allow(non_camel_case_types)]
pub struct nghttp2_session_callbacks {
    _private: [u8; 0],
}

} // verus!
