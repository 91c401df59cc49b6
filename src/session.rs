use vstd::prelude::*;

use crate::error::ClientError;
use crate::target::{
    alpn_accepted, is_target, parse_url, select_transport, transport_for, url_host_of,
    url_parses, url_path_of, url_port_of, url_scheme_of, Target, TransportKind,
};
use crate::tracker::{advances, all_closed_in, ids_unique, tracks, Tracker};

verus! {

/// How long a request may take when the caller sets nothing else, in milliseconds.
pub const DEFAULT_TIMEOUT_MS: u64 = 10_000;

/// Text made of bytes by `String::from_utf8_lossy`: valid UTF-8 is kept and
/// each invalid sequence becomes U+FFFD.
pub uninterp spec fn utf8_lossy_of(b: Seq<u8>) -> Seq<char>;

/// Relies on `String::from_utf8_lossy` to decode the body; an empty input
/// gives an empty text.
#[verifier::external_body]
fn decode_lossy(b: &[u8]) -> (r: String)
    ensures
        r@ == utf8_lossy_of(b@),
        b@.len() == 0 ==> r@.len() == 0,
{
    String::from_utf8_lossy(b).into_owned()
}

/// Where a session stands.
#[derive(Debug, Clone, Copy, PartialEq, Eq, Structural)]
pub enum Phase {
    /// The transport is being opened.
    Connecting,
    /// The transport is open; the request is not submitted yet.
    Ready,
    /// The request is submitted and the pump runs.
    Running,
    /// Every stream closed; the body is decoded.
    Complete,
    /// The deadline passed before every stream closed.
    TimedOut,
    /// The session failed for good.
    Failed(ClientError),
}

/// What the pump does next.
#[derive(Debug, Clone, Copy, PartialEq, Eq, Structural)]
pub enum PumpAction {
    /// Read from the socket, feed the bytes to the frame engine, then flush it.
    Read,
    /// Every stream closed: the body is ready.
    Complete,
    /// The deadline passed: the session failed.
    TimedOut,
    /// The session is not running: there is nothing to pump.
    Stop,
}

/// What the pump does with the outcome of one read.
#[derive(Debug, Clone, Copy, PartialEq, Eq, Structural)]
pub enum ReadOutcome {
    /// Nothing arrived: check the deadline and read again.
    Retry,
    /// Bytes arrived: feed them to the frame engine and flush it.
    Feed,
}

/// One header entry of the request.
pub struct HeaderField {
    pub name: String,
    pub value: String,
}

/// The abstract state of a session.
pub struct SessionView {
    pub url: Seq<char>,
    pub scheme: Seq<char>,
    pub host: Seq<char>,
    pub path: Seq<char>,
    pub port: u16,
    pub transport: TransportKind,
    pub phase: Phase,
    /// Each stream seen, with its closed flag, in order of first sight.
    pub streams: Seq<(i32, bool)>,
    /// The body bytes received so far.
    pub body: Seq<u8>,
    /// The decoded body, once the session is complete.
    pub data: Option<Seq<char>>,
    pub timeout: u64,
    pub deadline: u64,
    pub cleaned_up: bool,
}

/// The phases after which nothing more happens.
pub open spec fn is_terminal(p: Phase) -> bool {
    p is Complete || p is TimedOut || p is Failed
}

/// The phase after the transport reports what it negotiated.
pub open spec fn phase_after_connect(
    transport: TransportKind,
    negotiated: Option<Seq<u8>>,
) -> Phase {
    if transport is Plain || alpn_accepted(negotiated) {
        Phase::Ready
    } else {
        Phase::Failed(ClientError::AlpnMismatch)
    }
}

/// Whether a session in this phase submits its request.
pub open spec fn submits_request(p: Phase) -> bool {
    p is Ready
}

/// Now plus the timeout, held at the largest instant.
pub open spec fn deadline_after(now: u64, timeout: u64) -> u64 {
    if now + timeout <= u64::MAX {
        (now + timeout) as u64
    } else {
        u64::MAX
    }
}

/// The request: method, scheme, authority and path, in that order.
pub open spec fn request_headers(scheme: Seq<char>, host: Seq<char>, path: Seq<char>) -> Seq<
    (Seq<char>, Seq<char>),
> {
    seq![(":method"@, "GET"@), (":scheme"@, scheme), (":authority"@, host), (":path"@, path)]
}

/// One call of cleanup: the flag is set, and the call is granted the release
/// only if the flag was not set before.
pub open spec fn cleanup_step(cleaned_up: bool) -> (bool, bool) {
    (true, !cleaned_up)
}

/// How many of `calls` successive cleanup calls are granted the release.
pub open spec fn cleanup_grants(cleaned_up: bool, calls: nat) -> nat
    decreases calls,
{
    if calls == 0 {
        0
    } else {
        let (next, granted) = cleanup_step(cleaned_up);
        (if granted {
            1nat
        } else {
            0nat
        }) + cleanup_grants(next, (calls - 1) as nat)
    }
}

/// Over TLS, a negotiated protocol other than the HTTP/2 identifier fails
/// the session with `AlpnMismatch`, and a session in that phase never
/// submits its request; nor does one in any other final phase.
pub proof fn lemma_alpn_mismatch_blocks_request(negotiated: Option<Seq<u8>>, p: Phase)
    requires
        !alpn_accepted(negotiated),
    ensures
        phase_after_connect(TransportKind::Tls, negotiated) == Phase::Failed(
            ClientError::AlpnMismatch,
        ),
        !submits_request(phase_after_connect(TransportKind::Tls, negotiated)),
        is_terminal(p) ==> !submits_request(p),
{
}

/// A tracker that knows no stream never reports that all streams closed, so
/// an empty session never completes.
pub proof fn lemma_empty_tracker_not_all_closed(streams: Seq<(i32, bool)>)
    requires
        streams.len() == 0,
    ensures
        !all_closed_in(streams),
{
}

/// However many times cleanup is asked for, from whatever phase, the release
/// is granted exactly once.
pub proof fn lemma_cleanup_exactly_once(calls: nat)
    requires
        calls >= 1,
    ensures
        cleanup_grants(false, calls) == 1,
{
    lemma_cleanup_never_again((calls - 1) as nat);
}

/// Once cleanup ran, no later call is granted the release.
pub proof fn lemma_cleanup_never_again(calls: nat)
    ensures
        cleanup_grants(true, calls) == 0,
    decreases calls,
{
    if calls > 0 {
        lemma_cleanup_never_again((calls - 1) as nat);
    }
}

/// What the pump does on a read of `n` bytes.
pub open spec fn outcome_of_read(n: usize) -> ReadOutcome {
    if n == 0 {
        ReadOutcome::Retry
    } else {
        ReadOutcome::Feed
    }
}

/// The request that a session was made for never changes.
pub open spec fn same_request(a: SessionView, b: SessionView) -> bool {
    &&& a.url == b.url
    &&& a.scheme == b.scheme
    &&& a.host == b.host
    &&& a.path == b.path
    &&& a.port == b.port
    &&& a.transport == b.transport
    &&& a.timeout == b.timeout
}

/// The progress of the exchange is the same in both: streams, body, result,
/// deadline and cleanup.
pub open spec fn same_progress(a: SessionView, b: SessionView) -> bool {
    &&& a.streams == b.streams
    &&& a.body == b.body
    &&& a.data == b.data
    &&& a.deadline == b.deadline
    &&& a.cleaned_up == b.cleaned_up
}

/// Decides what the pump does with a read of `n` bytes. A read of nothing is
/// no progress: the frame engine is not fed, nothing changes, and the next
/// step checks the deadline again.
pub fn read_outcome(n: usize) -> (r: ReadOutcome)
    ensures
        r == outcome_of_read(n),
        n == 0 <==> r == ReadOutcome::Retry,
{
    if n == 0 {
        ReadOutcome::Retry
    } else {
        ReadOutcome::Feed
    }
}

/// One GET request over HTTP/2, from the URL to the decoded body.
///
/// The caller owns the socket and the frame engine. It reports the transport,
/// hands on the engine's callbacks, and asks `pump_step` what to do next.
pub struct Session {
    url: String,
    target: Target,
    transport: TransportKind,
    phase: Phase,
    tracker: Tracker,
    raw_data: Vec<u8>,
    data: Option<String>,
    timeout: u64,
    deadline: u64,
    cleaned_up: bool,
}

impl View for Session {
    type V = SessionView;

    closed spec fn view(&self) -> SessionView {
        SessionView {
            url: self.url@,
            scheme: self.target.scheme@,
            host: self.target.host@,
            path: self.target.path@,
            port: self.target.port,
            transport: self.transport,
            phase: self.phase,
            streams: self.tracker@,
            body: self.raw_data@,
            data: match self.data {
                Some(s) => Some(s@),
                None => None,
            },
            timeout: self.timeout,
            deadline: self.deadline,
            cleaned_up: self.cleaned_up,
        }
    }
}

impl Session {
    pub open spec fn wf(&self) -> bool {
        ids_unique(self@.streams)
    }

    /// Starts a session for a URL: the URL must parse, with a host and a port,
    /// and its scheme must be `http` or `https`. `timeout_ms` bounds the pump.
    pub fn new(url: &str, timeout_ms: u64) -> (r: Result<Session, ClientError>)
        ensures
            r is Ok <==> {
                &&& url_parses(url@)
                &&& url_host_of(url@) is Some
                &&& url_port_of(url@) is Some
                &&& transport_for(url_scheme_of(url@)) is Some
            },
            r matches Err(e) ==> (e == ClientError::UnsupportedScheme <==> (url_parses(url@)
                && url_host_of(url@) is Some && url_port_of(url@) is Some)),
            r matches Err(e) ==> (e == ClientError::UrlError || e
                == ClientError::UnsupportedScheme),
            r matches Ok(s) ==> {
                &&& s.wf()
                &&& s@.url == url@
                &&& s@.scheme == url_scheme_of(url@)
                &&& url_host_of(url@) == Some(s@.host)
                &&& s@.path == crate::target::path_or_root(url_path_of(url@))
                &&& url_port_of(url@) == Some(s@.port)
                &&& transport_for(s@.scheme) == Some(s@.transport)
                &&& s@.phase == Phase::Connecting
                &&& s@.streams.len() == 0
                &&& s@.body.len() == 0
                &&& s@.data is None
                &&& s@.timeout == timeout_ms
                &&& !s@.cleaned_up
            },
    {
        let target = match parse_url(url) {
            Ok(t) => t,
            Err(e) => {
                return Err(e);
            },
        };
        let transport = match select_transport(target.scheme.as_str()) {
            Ok(k) => k,
            Err(e) => {
                return Err(e);
            },
        };
        let s = Session {
            url: url.to_owned(),
            target,
            transport,
            phase: Phase::Connecting,
            tracker: Tracker::new(),
            raw_data: Vec::new(),
            data: None,
            timeout: timeout_ms,
            deadline: 0,
            cleaned_up: false,
        };
        assert(is_target(s.target, url_scheme_of(url@), url_host_of(url@), url_path_of(url@), url_port_of(url@)));
        Ok(s)
    }

    /// The transport that the caller must open.
    pub fn transport(&self) -> (r: TransportKind)
        ensures
            r == self@.transport,
    {
        self.transport
    }

    /// The transport is open; `negotiated` is the application protocol that
    /// TLS agreed on, if any. Over TLS anything but the HTTP/2 identifier
    /// fails the session, so that no request is ever submitted; a plain
    /// transport negotiates nothing and is ready at once.
    pub fn connected(&mut self, negotiated: Option<&[u8]>) -> (r: Result<(), ClientError>)
        requires
            old(self).wf(),
            old(self)@.phase == Phase::Connecting,
        ensures
            final(self).wf(),
            same_request(old(self)@, final(self)@),
            same_progress(old(self)@, final(self)@),
            final(self)@.phase == phase_after_connect(
                old(self)@.transport,
                match negotiated {
                    Some(b) => Some(b@),
                    None => None,
                },
            ),
            r is Ok <==> final(self)@.phase == Phase::Ready,
            r matches Err(e) ==> e == ClientError::AlpnMismatch,
    {
        match self.transport {
            TransportKind::Plain => {
                self.phase = Phase::Ready;
                Ok(())
            },
            TransportKind::Tls => {
                match crate::target::check_alpn(negotiated) {
                    Ok(()) => {
                        self.phase = Phase::Ready;
                        Ok(())
                    },
                    Err(e) => {
                        self.phase = Phase::Failed(e);
                        Err(e)
                    },
                }
            },
        }
    }

    /// Something outside the session failed (the connection, the trust
    /// roots, the frame engine, a write). A session that has not ended fails
    /// with that error; one that has ended keeps its phase.
    pub fn fail(&mut self, e: ClientError)
        requires
            old(self).wf(),
        ensures
            final(self).wf(),
            same_request(old(self)@, final(self)@),
            same_progress(old(self)@, final(self)@),
            is_terminal(old(self)@.phase) ==> final(self)@.phase == old(self)@.phase,
            !is_terminal(old(self)@.phase) ==> final(self)@.phase == Phase::Failed(e),
    {
        if !(matches!(self.phase, Phase::Complete) || matches!(self.phase, Phase::TimedOut)
            || matches!(self.phase, Phase::Failed(_))) {
            self.phase = Phase::Failed(e);
        }
    }

    /// Submits the request once the transport is ready: the caller queues an
    /// empty SETTINGS frame, then a HEADERS frame with these entries, and
    /// flushes once. The deadline starts now. In any other phase nothing is
    /// submitted and nothing changes.
    pub fn submit_request(&mut self, now_ms: u64) -> (r: Option<Vec<HeaderField>>)
        requires
            old(self).wf(),
        ensures
            final(self).wf(),
            same_request(old(self)@, final(self)@),
            r is Some <==> submits_request(old(self)@.phase),
            r is None ==> final(self)@ == old(self)@,
            r matches Some(h) ==> {
                &&& h@.len() == 4
                &&& forall|i: int|
                    0 <= i < 4 ==> (#[trigger] h@[i].name@, h@[i].value@) == request_headers(
                        old(self)@.scheme,
                        old(self)@.host,
                        old(self)@.path,
                    )[i]
                &&& final(self)@.phase == Phase::Running
                &&& final(self)@.deadline == deadline_after(now_ms, old(self)@.timeout)
                &&& final(self)@.streams == old(self)@.streams
                &&& final(self)@.body == old(self)@.body
                &&& final(self)@.data == old(self)@.data
                &&& final(self)@.cleaned_up == old(self)@.cleaned_up
            },
    {
        if !matches!(self.phase, Phase::Ready) {
            return None;
        }
        let mut h: Vec<HeaderField> = Vec::new();
        h.push(HeaderField { name: ":method".to_owned(), value: "GET".to_owned() });
        h.push(HeaderField { name: ":scheme".to_owned(), value: self.target.scheme.clone() });
        h.push(HeaderField { name: ":authority".to_owned(), value: self.target.host.clone() });
        h.push(HeaderField { name: ":path".to_owned(), value: self.target.path.clone() });
        self.phase = Phase::Running;
        self.deadline = if now_ms <= u64::MAX - self.timeout {
            now_ms + self.timeout
        } else {
            u64::MAX
        };
        let ghost spec_h = request_headers(old(self)@.scheme, old(self)@.host, old(self)@.path);
        assert forall|i: int| 0 <= i < 4 implies (#[trigger] h@[i].name@, h@[i].value@) == spec_h[i] by {
            if i == 0 {
            } else if i == 1 {
            } else if i == 2 {
            } else {
            }
        }
        Some(h)
    }

    /// The frame engine received a chunk of body data on a stream: the bytes
    /// are appended to the body, and an unseen stream is tracked as open.
    pub fn on_data_chunk(&mut self, stream_id: i32, data: &[u8])
        requires
            old(self).wf(),
        ensures
            final(self).wf(),
            same_request(old(self)@, final(self)@),
            final(self)@.phase == old(self)@.phase,
            final(self)@.body == old(self)@.body + data@,
            tracks(old(self)@.streams, stream_id) ==> final(self)@.streams == old(self)@.streams,
            !tracks(old(self)@.streams, stream_id) ==> final(self)@.streams == old(self)@.streams.push(
                (stream_id, false),
            ),
            advances(old(self)@.streams, final(self)@.streams),
            final(self)@.data == old(self)@.data,
            final(self)@.deadline == old(self)@.deadline,
            final(self)@.cleaned_up == old(self)@.cleaned_up,
    {
        self.tracker.on_data(stream_id);
        self.raw_data.extend_from_slice(data);
        assert(self.raw_data@ =~= old(self).raw_data@ + data@);
    }

    /// The frame engine closed a stream: a tracked stream is marked closed.
    /// The error code is not looked at: every closure counts as done.
    pub fn on_stream_close(&mut self, stream_id: i32, error_code: u32)
        requires
            old(self).wf(),
        ensures
            final(self).wf(),
            same_request(old(self)@, final(self)@),
            final(self)@.phase == old(self)@.phase,
            final(self)@.body == old(self)@.body,
            final(self)@.streams.len() == old(self)@.streams.len(),
            forall|i: int|
                0 <= i < old(self)@.streams.len() ==> #[trigger] final(self)@.streams[i] == (
                    old(self)@.streams[i].0,
                    old(self)@.streams[i].1 || old(self)@.streams[i].0 == stream_id,
                ),
            advances(old(self)@.streams, final(self)@.streams),
            final(self)@.data == old(self)@.data,
            final(self)@.deadline == old(self)@.deadline,
            final(self)@.cleaned_up == old(self)@.cleaned_up,
    {
        self.tracker.on_close(stream_id);
    }

    /// One step of the pump, at time `now_ms`. A running session times out
    /// once the deadline is reached; else, once at least one stream is known
    /// and all are closed, it completes and the body is decoded, invalid
    /// UTF-8 replaced; else the caller reads. A session that is not running
    /// stays as it is.
    pub fn pump_step(&mut self, now_ms: u64) -> (r: PumpAction)
        requires
            old(self).wf(),
        ensures
            final(self).wf(),
            same_request(old(self)@, final(self)@),
            final(self)@.streams == old(self)@.streams,
            final(self)@.body == old(self)@.body,
            final(self)@.deadline == old(self)@.deadline,
            final(self)@.cleaned_up == old(self)@.cleaned_up,
            old(self)@.phase != Phase::Running ==> r == PumpAction::Stop && final(self)@
                == old(self)@,
            old(self)@.phase == Phase::Running && now_ms >= old(self)@.deadline ==> {
                &&& r == PumpAction::TimedOut
                &&& final(self)@.phase == Phase::TimedOut
                &&& final(self)@.data == old(self)@.data
            },
            old(self)@.phase == Phase::Running && now_ms < old(self)@.deadline && all_closed_in(
                old(self)@.streams,
            ) ==> {
                &&& r == PumpAction::Complete
                &&& final(self)@.phase == Phase::Complete
                &&& final(self)@.data == Some(utf8_lossy_of(old(self)@.body))
            },
            old(self)@.phase == Phase::Running && now_ms < old(self)@.deadline && !all_closed_in(
                old(self)@.streams,
            ) ==> r == PumpAction::Read && final(self)@ == old(self)@,
    {
        if !matches!(self.phase, Phase::Running) {
            return PumpAction::Stop;
        }
        if now_ms >= self.deadline {
            self.phase = Phase::TimedOut;
            return PumpAction::TimedOut;
        }
        if self.tracker.all_closed() {
            let text = decode_lossy(self.raw_data.as_slice());
            self.data = Some(text);
            self.phase = Phase::Complete;
            PumpAction::Complete
        } else {
            PumpAction::Read
        }
    }

    /// Asks to release the frame engine: it must be told to terminate,
    /// flushed once more and released, in that order. Only the first call is
    /// granted; later calls are told that the release is done. The body
    /// buffer is cleared; the phase and the decoded result stay.
    pub fn begin_cleanup(&mut self) -> (r: bool)
        requires
            old(self).wf(),
        ensures
            final(self).wf(),
            same_request(old(self)@, final(self)@),
            (final(self)@.cleaned_up, r) == cleanup_step(old(self)@.cleaned_up),
            final(self)@.phase == old(self)@.phase,
            final(self)@.streams == old(self)@.streams,
            final(self)@.body.len() == 0,
            final(self)@.data == old(self)@.data,
            final(self)@.deadline == old(self)@.deadline,
    {
        let granted = !self.cleaned_up;
        self.cleaned_up = true;
        self.raw_data.clear();
        granted
    }

    /// Where the session stands.
    pub fn phase(&self) -> (r: Phase)
        ensures
            r == self@.phase,
    {
        self.phase
    }

    /// The decoded body, once the session is complete.
    pub fn data(&self) -> (r: Option<String>)
        ensures
            r matches Some(t) ==> self@.data == Some(t@),
            r is None ==> self@.data is None,
    {
        match &self.data {
            Some(t) => Some(t.clone()),
            None => None,
        }
    }

    /// The closed flag of a stream, if the stream has been seen.
    pub fn stream_state(&self, stream_id: i32) -> (r: Option<bool>)
        requires
            self.wf(),
        ensures
            r is Some <==> tracks(self@.streams, stream_id),
            r matches Some(b) ==> exists|i: int|
                0 <= i < self@.streams.len() && self@.streams[i] == (stream_id, b),
    {
        self.tracker.get(stream_id)
    }

    /// How many streams have been seen.
    pub fn stream_count(&self) -> (r: usize)
        ensures
            r == self@.streams.len(),
    {
        self.tracker.len()
    }

    /// How many body bytes have been received and kept.
    pub fn body_len(&self) -> (r: usize)
        ensures
            r == self@.body.len(),
    {
        self.raw_data.len()
    }

    /// The URL that the session was made for.
    pub fn url(&self) -> (r: &str)
        ensures
            r@ == self@.url,
    {
        self.url.as_str()
    }

    /// The scheme of the URL.
    pub fn scheme(&self) -> (r: &str)
        ensures
            r@ == self@.scheme,
    {
        self.target.scheme.as_str()
    }

    /// The host of the URL.
    pub fn host(&self) -> (r: &str)
        ensures
            r@ == self@.host,
    {
        self.target.host.as_str()
    }

    /// The request path; `/` where the URL has none.
    pub fn path(&self) -> (r: &str)
        ensures
            r@ == self@.path,
    {
        self.target.path.as_str()
    }

    /// The port: the URL's own, or the scheme's default.
    pub fn port(&self) -> (r: u16)
        ensures
            r == self@.port,
    {
        self.target.port
    }

    /// The instant, in milliseconds, at which a running session times out.
    pub fn deadline(&self) -> (r: u64)
        ensures
            r == self@.deadline,
    {
        self.deadline
    }
}

} // verus!
