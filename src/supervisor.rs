//! Host-side supervision of the helper process: the single connection slot,
//! the half-duplex request discipline, and the policy of dropping the
//! connection on any failure. The caller does the spawning, piping and
//! waiting, and reports what happened; the connection handle itself lives in
//! the slot, so a dropped connection cannot be used again by mistake.

use vstd::prelude::*;

use crate::protocol::{command_line, wire_command, Command, FanStatus, Response};

verus! {

/// Bound on the first read after spawning, in milliseconds.
pub const HANDSHAKE_TIMEOUT_MS: u64 = 5000;

/// Bound on writing one request and reading its answer, in milliseconds.
pub const REQUEST_TIMEOUT_MS: u64 = 3000;

/// Bound on waiting for the slot before a status poll gives up, in milliseconds.
pub const LOCK_TIMEOUT_MS: u64 = 1000;

/// What came of waiting for one line from the helper.
#[derive(Debug)]
pub enum Exchange {
    /// A line was read (empty at end of stream) together with the decoder's
    /// verdict on it.
    Received { line: String, parsed: Result<Response, String> },
    /// Writing the request or reading the answer failed.
    Failed(String),
    /// The time bound elapsed first.
    TimedOut,
}

/// Why a host operation failed.
#[derive(Debug)]
pub enum HostError {
    /// No connection: connect first. `poll` tells a status poll from a write.
    NotRunning { poll: bool },
    /// Another request holds the connection.
    Busy,
    /// The helper process could not be spawned.
    SpawnFailed(String),
    /// The helper did not answer the handshake in time.
    StartupTimeout,
    /// The first line could not be read or understood.
    Handshake(String),
    /// A request was not answered in time. `poll` tells a status poll from a write.
    Timeout { poll: bool },
    /// A request could not be written, or its answer read or understood.
    Communication(String),
    /// The helper answered with an error.
    Remote(String),
    /// The first answer was not a status.
    UnexpectedHandshake,
    /// An answer was of the wrong kind for its request.
    Unexpected,
}

impl HostError {
    /// The human-readable message.
    pub open spec fn spec_message(self) -> Seq<char> {
        match self {
            HostError::NotRunning { poll } => if poll {
                "Sidecar not running. Click Connect first."@
            } else {
                "Sidecar not running"@
            },
            HostError::Busy => "Failed to acquire lock (busy)"@,
            HostError::SpawnFailed(e) => "Failed to start sidecar: "@ + e@,
            HostError::StartupTimeout => "Sidecar startup timeout"@,
            HostError::Handshake(e) => e@,
            HostError::Timeout { poll } => if poll {
                "Sidecar request timeout"@
            } else {
                "Command timeout"@
            },
            HostError::Communication(e) => "Communication error: "@ + e@,
            HostError::Remote(m) => m@,
            HostError::UnexpectedHandshake => "Unexpected initial response"@,
            HostError::Unexpected => "Unexpected response"@,
        }
    }

    pub fn message(&self) -> (r: String)
        ensures
            r@ == self.spec_message(),
    {
        match self {
            HostError::NotRunning { poll } => if *poll {
                String::from_str("Sidecar not running. Click Connect first.")
            } else {
                String::from_str("Sidecar not running")
            },
            HostError::Busy => String::from_str("Failed to acquire lock (busy)"),
            HostError::SpawnFailed(e) => {
                let mut s = String::from_str("Failed to start sidecar: ");
                s.append(e.as_str());
                s
            },
            HostError::StartupTimeout => String::from_str("Sidecar startup timeout"),
            HostError::Handshake(e) => e.clone(),
            HostError::Timeout { poll } => if *poll {
                String::from_str("Sidecar request timeout")
            } else {
                String::from_str("Command timeout")
            },
            HostError::Communication(e) => {
                let mut s = String::from_str("Communication error: ");
                s.append(e.as_str());
                s
            },
            HostError::Remote(m) => m.clone(),
            HostError::UnexpectedHandshake => String::from_str("Unexpected initial response"),
            HostError::Unexpected => String::from_str("Unexpected response"),
        }
    }
}

/// Unicode white space (the `White_Space` property).
pub open spec fn is_white(c: char) -> bool {
    ('\u{9}' <= c <= '\u{d}') || c == ' ' || c == '\u{85}' || c == '\u{a0}' || c == '\u{1680}'
        || ('\u{2000}' <= c <= '\u{200a}') || c == '\u{2028}' || c == '\u{2029}' || c
        == '\u{202f}' || c == '\u{205f}' || c == '\u{3000}'
}

fn white(c: char) -> (r: bool)
    ensures
        r == is_white(c),
{
    ('\u{9}' <= c && c <= '\u{d}') || c == ' ' || c == '\u{85}' || c == '\u{a0}' || c
        == '\u{1680}' || ('\u{2000}' <= c && c <= '\u{200a}') || c == '\u{2028}' || c
        == '\u{2029}' || c == '\u{202f}' || c == '\u{205f}' || c == '\u{3000}'
}

/// `s` without its trailing white space.
pub open spec fn trim_end(s: Seq<char>) -> Seq<char>
    decreases s.len(),
{
    if s.len() > 0 && is_white(s.last()) {
        trim_end(s.drop_last())
    } else {
        s
    }
}

/// `s` without its leading white space.
pub open spec fn trim_start(s: Seq<char>) -> Seq<char>
    decreases s.len(),
{
    if s.len() > 0 && is_white(s[0]) {
        trim_start(s.drop_first())
    } else {
        s
    }
}

/// `s` without white space at either end.
pub open spec fn trim(s: Seq<char>) -> Seq<char> {
    trim_start(trim_end(s))
}

fn white_at(line: &str, i: usize) -> (r: bool)
    requires
        i < line@.len(),
    ensures
        r == is_white(line@[i as int]),
{
    white(line.get_char(i))
}

fn trimmed(line: &str) -> (r: &str)
    ensures
        r@ == trim(line@),
{
    let mut n = line.unicode_len();
    assert(line@.subrange(0, n as int) =~= line@);
    while n > 0 && white_at(line, n - 1)
        invariant
            n <= line@.len(),
            trim_end(line@) == trim_end(line@.subrange(0, n as int)),
        decreases n,
    {
        assert(line@.subrange(0, n as int).drop_last() =~= line@.subrange(0, n - 1));
        n = n - 1;
    }
    let ghost kept = line@.subrange(0, n as int);
    assert(trim_end(line@) == kept);
    let mut i: usize = 0;
    assert(kept.subrange(0, n as int) =~= kept);
    while i < n && white_at(line, i)
        invariant
            i <= n <= line@.len(),
            kept == line@.subrange(0, n as int),
            trim_start(kept) == trim_start(line@.subrange(i as int, n as int)),
        decreases n - i,
    {
        assert(line@.subrange(i as int, n as int).drop_first() =~= line@.subrange(
            i + 1,
            n as int,
        ));
        i = i + 1;
    }
    line.substring_char(i, n)
}

/// A line that holds a decoded response.
pub open spec fn delivered(line: Seq<char>, parsed: Result<Response, String>) -> bool {
    line.len() > 0 && parsed is Ok
}

/// Why a line that was read holds no response.
pub open spec fn framing_error(line: Seq<char>, parsed: Result<Response, String>) -> Seq<char> {
    if line.len() == 0 {
        "Empty response from sidecar - EOF"@
    } else {
        match parsed {
            Ok(_) => Seq::empty(),
            Err(d) => "Parse error: "@ + d@ + " (line: "@ + trim(line) + ")"@,
        }
    }
}

/// Takes one line read from the helper apart: its response, or why there is none.
pub fn read_response(line: &String, parsed: Result<Response, String>) -> (r: Result<
    Response,
    String,
>)
    ensures
        delivered(line@, parsed) ==> r == parsed,
        !delivered(line@, parsed) ==> (r matches Err(e) && e@ == framing_error(line@, parsed)),
{
    if line.as_str().is_empty() {
        return Err(String::from_str("Empty response from sidecar - EOF"));
    }
    match parsed {
        Ok(response) => Ok(response),
        Err(d) => {
            let mut e = String::from_str("Parse error: ");
            e.append(d.as_str());
            e.append(" (line: ");
            e.append(trimmed(line.as_str()));
            e.append(")");
            Err(e)
        },
    }
}

/// A response of a kind that answers a request expecting a status or not:
/// an error answers any request.
pub open spec fn accepted(response: Response, expects_status: bool) -> bool {
    match response {
        Response::Error { .. } => true,
        Response::Status(_) => expects_status,
        Response::Ack { .. } => !expects_status,
    }
}

/// An exchange that brought back a response of an acceptable kind.
pub open spec fn exchange_kept(x: Exchange, expects_status: bool) -> bool {
    x matches Exchange::Received { line, parsed: Ok(response) } && line@.len() > 0 && accepted(
        response,
        expects_status,
    )
}

/// The state of the connection slot; `H` is the caller's process handle.
#[derive(Debug)]
pub enum Link<H> {
    Disconnected,
    Connected(H),
    /// A request is outstanding; its handle is lent to the caller.
    InFlight { expects_status: bool },
}

/// The slot's state without the handle.
#[derive(Clone, Copy, Debug, PartialEq, Eq, Structural)]
pub enum LinkState {
    Disconnected,
    Connected,
    InFlight,
}

impl<H> Link<H> {
    pub open spec fn state(self) -> LinkState {
        match self {
            Link::Disconnected => LinkState::Disconnected,
            Link::Connected(_) => LinkState::Connected,
            Link::InFlight { .. } => LinkState::InFlight,
        }
    }
}

/// Why a request, a status poll or not, cannot be issued on `link`, if it cannot.
pub open spec fn refusal<H>(link: Link<H>, poll: bool) -> Option<HostError> {
    match link {
        Link::Disconnected => Some(HostError::NotRunning { poll }),
        Link::InFlight { .. } => Some(HostError::Busy),
        Link::Connected(_) => None,
    }
}

/// The slot after an exchange on `handle`: kept when a response of an
/// acceptable kind came back, dropped on any failure, timeout, unreadable
/// line or response of the wrong kind.
pub open spec fn link_after<H>(handle: H, x: Exchange, expects_status: bool) -> Link<H> {
    if exchange_kept(x, expects_status) {
        Link::Connected(handle)
    } else {
        Link::Disconnected
    }
}

/// A successful answer to a request.
#[derive(Debug)]
pub enum Reply {
    Status(FanStatus),
    Message(String),
}

/// The answer that `response` gives to a request that expects a status or not.
pub open spec fn answers(
    response: Response,
    expects_status: bool,
    r: Result<Reply, HostError>,
) -> bool {
    match response {
        Response::Error { message } => r matches Err(HostError::Remote(m)) && m@ == message@,
        Response::Status(s) => if expects_status {
            r == Ok::<Reply, HostError>(Reply::Status(s))
        } else {
            r matches Err(HostError::Unexpected)
        },
        Response::Ack { message } => if expects_status {
            r matches Err(HostError::Unexpected)
        } else {
            r matches Ok(Reply::Message(m)) && m@ == message@
        },
    }
}

/// Owner of the one connection to the helper.
pub struct Supervisor<H> {
    link: Link<H>,
}

impl<H> Supervisor<H> {
    pub closed spec fn link(&self) -> Link<H> {
        self.link
    }

    pub fn new() -> (r: Self)
        ensures
            r.link() is Disconnected,
    {
        Supervisor { link: Link::Disconnected }
    }

    /// The slot's state.
    pub fn state(&self) -> (r: LinkState)
        ensures
            r == self.link().state(),
    {
        match &self.link {
            Link::Disconnected => LinkState::Disconnected,
            Link::Connected(_) => LinkState::Connected,
            Link::InFlight { .. } => LinkState::InFlight,
        }
    }

    /// Empties the slot before a new helper is spawned; a handle that was
    /// there comes back to be killed and reaped.
    pub fn begin_connect(&mut self) -> (r: Option<H>)
        ensures
            final(self).link() is Disconnected,
            old(self).link() matches Link::Connected(h) ==> r == Some(h),
            !(old(self).link() is Connected) ==> r is None,
    {
        let mut link = Link::Disconnected;
        core::mem::swap(&mut self.link, &mut link);
        match link {
            Link::Connected(h) => Some(h),
            _ => None,
        }
    }

    /// The handshake of a freshly spawned helper. The handle is kept when a
    /// status or an error came back; otherwise it comes back to be killed.
    /// Only a status answers the handshake successfully.
    pub fn finish_connect(&mut self, handle: H, x: Exchange) -> (r: (
        Option<H>,
        Result<FanStatus, HostError>,
    ))
        requires
            old(self).link() is Disconnected,
        ensures
            final(self).link() == link_after(handle, x, true),
            exchange_kept(x, true) ==> r.0 is None,
            !exchange_kept(x, true) ==> r.0 == Some(handle),
            x is TimedOut ==> r.1 matches Err(HostError::StartupTimeout),
            x matches Exchange::Failed(e) ==> (r.1 matches Err(HostError::Handshake(m)) && m@
                == e@),
            x matches Exchange::Received { line, parsed } ==> (!delivered(line@, parsed) ==> (
            r.1 matches Err(HostError::Handshake(m)) && m@ == framing_error(line@, parsed))),
            x matches Exchange::Received { line, parsed: Ok(response) } ==> (line@.len() > 0 ==> (
            match response {
                Response::Status(s) => r.1 == Ok::<FanStatus, HostError>(s),
                Response::Error { message } => r.1 matches Err(HostError::Remote(m)) && m@
                    == message@,
                Response::Ack { .. } => r.1 matches Err(HostError::UnexpectedHandshake),
            })),
    {
        match x {
            Exchange::TimedOut => (Some(handle), Err(HostError::StartupTimeout)),
            Exchange::Failed(e) => (Some(handle), Err(HostError::Handshake(e))),
            Exchange::Received { line, parsed } => match read_response(&line, parsed) {
                Err(e) => (Some(handle), Err(HostError::Handshake(e))),
                Ok(Response::Status(s)) => {
                    self.link = Link::Connected(handle);
                    (None, Ok(s))
                },
                Ok(Response::Error { message }) => {
                    self.link = Link::Connected(handle);
                    (None, Err(HostError::Remote(message)))
                },
                Ok(Response::Ack { .. }) => (Some(handle), Err(HostError::UnexpectedHandshake)),
            },
        }
    }

    /// Starts a request: lends the handle out together with the line to send.
    /// Refused while disconnected or while another request is outstanding.
    pub fn begin_request(&mut self, c: &Command) -> (r: Result<(H, String), HostError>)
        ensures
            refusal(old(self).link(), c is GetStatus) matches Some(e) ==> r == Err::<
                (H, String),
                HostError,
            >(e)
                && final(self).link() == old(self).link(),
            old(self).link() matches Link::Connected(h) ==> (r matches Ok((h2, line)) && h2 == h
                && line@ == wire_command(*c) && final(self).link() == (Link::<H>::InFlight {
                expects_status: c is GetStatus,
            })),
    {
        let poll = match c {
            Command::GetStatus => true,
            _ => false,
        };
        let mut link = Link::Disconnected;
        core::mem::swap(&mut self.link, &mut link);
        match link {
            Link::Disconnected => Err(HostError::NotRunning { poll }),
            Link::InFlight { expects_status } => {
                self.link = Link::InFlight { expects_status };
                Err(HostError::Busy)
            },
            Link::Connected(h) => {
                let expects_status = match c {
                    Command::GetStatus => true,
                    _ => false,
                };
                self.link = Link::InFlight { expects_status };
                Ok((h, command_line(c)))
            },
        }
    }

    /// Ends the outstanding request with what came of it. A response of the
    /// right kind, or an error response, keeps the connection; any failure,
    /// timeout, unreadable line or response of the wrong kind drops it and
    /// hands the handle back to be killed. With no request outstanding the
    /// exchange is discarded and its handle handed back.
    pub fn finish_request(&mut self, handle: H, x: Exchange) -> (r: (
        Option<H>,
        Result<Reply, HostError>,
    ))
        ensures
            !(old(self).link() is InFlight) ==> final(self).link() == old(self).link() && r.0
                == Some(handle) && r.1 matches Err(HostError::NotRunning { poll: false }),
            old(self).link() matches Link::InFlight { expects_status } ==> ({
                &&& final(self).link() == link_after(handle, x, expects_status)
                &&& exchange_kept(x, expects_status) ==> r.0 is None
                &&& !exchange_kept(x, expects_status) ==> r.0 == Some(handle)
                &&& (x is TimedOut ==> r.1 == Err::<Reply, HostError>(
                    HostError::Timeout { poll: expects_status },
                ))
                &&& (x matches Exchange::Failed(e) ==> (r.1 matches Err(
                    HostError::Communication(m),
                ) && m@ == e@))
                &&& (x matches Exchange::Received { line, parsed } ==> (!delivered(line@, parsed)
                    ==> (r.1 matches Err(HostError::Communication(m)) && m@ == framing_error(
                    line@,
                    parsed,
                ))))
                &&& (x matches Exchange::Received { line, parsed: Ok(response) } ==> (line@.len()
                    > 0 ==> answers(response, expects_status, r.1)))
            }),
    {
        let mut link = Link::Disconnected;
        core::mem::swap(&mut self.link, &mut link);
        let expects_status = match link {
            Link::InFlight { expects_status } => expects_status,
            other => {
                self.link = other;
                return (Some(handle), Err(HostError::NotRunning { poll: false }));
            },
        };
        match x {
            Exchange::TimedOut => (Some(handle), Err(HostError::Timeout { poll: expects_status })),
            Exchange::Failed(e) => (Some(handle), Err(HostError::Communication(e))),
            Exchange::Received { line, parsed } => match read_response(&line, parsed) {
                Err(e) => (Some(handle), Err(HostError::Communication(e))),
                Ok(Response::Error { message }) => {
                    self.link = Link::Connected(handle);
                    (None, Err(HostError::Remote(message)))
                },
                Ok(Response::Status(s)) => if expects_status {
                    self.link = Link::Connected(handle);
                    (None, Ok(Reply::Status(s)))
                } else {
                    (Some(handle), Err(HostError::Unexpected))
                },
                Ok(Response::Ack { message }) => if expects_status {
                    (Some(handle), Err(HostError::Unexpected))
                } else {
                    self.link = Link::Connected(handle);
                    (None, Ok(Reply::Message(message)))
                },
            },
        }
    }

    /// Drops the connection; a handle that was there comes back together
    /// with the farewell line to send before it is killed and reaped.
    pub fn disconnect(&mut self) -> (r: Option<(H, String)>)
        ensures
            final(self).link() is Disconnected,
            old(self).link() matches Link::Connected(h) ==> (r matches Some((h2, line)) && h2 == h
                && line@ == wire_command(Command::Exit)),
            !(old(self).link() is Connected) ==> r is None,
    {
        let mut link = Link::Disconnected;
        core::mem::swap(&mut self.link, &mut link);
        match link {
            Link::Connected(h) => Some((h, command_line(&Command::Exit))),
            _ => None,
        }
    }
}

/// A request whose exchange failed, timed out, or brought back an unreadable
/// line or a response of the wrong kind leaves no connection behind, and
/// every later request is refused as not running (rather than left to hang)
/// until a new connection is made.
pub proof fn lemma_failed_request_needs_reconnect<H>(
    handle: H,
    x: Exchange,
    expects_status: bool,
    poll: bool,
)
    requires
        !exchange_kept(x, expects_status),
    ensures
        link_after(handle, x, expects_status) is Disconnected,
        refusal(link_after(handle, x, expects_status), poll) == Some(HostError::NotRunning { poll }),
{
}

} // verus!
