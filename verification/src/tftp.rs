//! Fetching the operator's choice from a TFTP server.

use vstd::prelude::*;
use crate::config::{lookup_view, Choice, ChoiceLookupError, ChoiceView};
use crate::helpers::{choice_in, parse_choice_bytes};
use crate::text::{chars_of, string_of, trim, trim_range};

verus! {

/// Name of the choice file on the TFTP server.
pub const CHOICE_FILENAME: &'static str = "DECIDER.CHO";

/// Whether a text is an IPv4 or IPv6 address literal, as the standard
/// library's parser of `IpAddr` reads it.
pub uninterp spec fn ip_literal(text: Seq<char>) -> bool;

/// `str::parse::<IpAddr>`, for its verdict alone: it depends on the text only.
#[verifier::external_body]
fn is_ip_literal(text: &str) -> (ok: bool)
    ensures
        ok == ip_literal(text@),
{
    text.parse::<core::net::IpAddr>().is_ok()
}

/// A server address as plain text.
pub open spec fn address_view(r: Result<String, ChoiceLookupError>) -> Result<
    Seq<char>,
    ChoiceLookupError,
> {
    match r {
        Ok(ip) => Ok(ip@),
        Err(e) => Err(e),
    }
}

/// The server address in `raw`: its text without surrounding white space,
/// where that is an IP literal.
pub fn parse_tftp_ip(raw: &str) -> (r: Result<String, ChoiceLookupError>)
    ensures
        match r {
            Ok(ip) => ip@ == trim(raw@) && ip_literal(ip@),
            Err(e) => e == ChoiceLookupError::ParseError && !ip_literal(trim(raw@)),
        },
        address_view(r) == server_address(raw@),
{
    let v = chars_of(raw);
    assert(v@.subrange(0, v.len() as int) =~= v@);
    let (lo, hi) = trim_range(&v, 0, v.len());
    let ip = string_of(&v, lo, hi);
    if is_ip_literal(ip.as_str()) {
        Ok(ip)
    } else {
        Err(ChoiceLookupError::ParseError)
    }
}

/// What the caller did for a `TftpFetch` and what came of it.
#[derive(Debug, Clone, PartialEq, Eq)]
pub enum FetchEvent {
    /// The number of network interfaces that can boot over the network.
    Interfaces(usize),
    /// The interface was opened; whether it was started already, and whether
    /// it has its address.
    Opened { started: bool, dhcp_ack: bool },
    /// The interface was started; whether it has its address.
    Started { dhcp_ack: bool },
    /// The interface has negotiated its address.
    Negotiated,
    /// The size of the choice file on the server.
    Size(u64),
    /// The buffer after the download, and the number of bytes received.
    Data { buffer: Vec<u8>, received: u64 },
    /// The interface was stopped.
    Stopped,
    /// What was asked did not succeed.
    Failed,
}

/// A `FetchEvent` as plain values.
pub enum FetchEventView {
    Interfaces(usize),
    Opened { started: bool, dhcp_ack: bool },
    Started { dhcp_ack: bool },
    Negotiated,
    Size(u64),
    Data { buffer: Seq<u8>, received: u64 },
    Stopped,
    Failed,
}

impl View for FetchEvent {
    type V = FetchEventView;

    open spec fn view(&self) -> FetchEventView {
        match self {
            FetchEvent::Interfaces(n) => FetchEventView::Interfaces(*n),
            FetchEvent::Opened { started, dhcp_ack } => FetchEventView::Opened {
                started: *started,
                dhcp_ack: *dhcp_ack,
            },
            FetchEvent::Started { dhcp_ack } => FetchEventView::Started { dhcp_ack: *dhcp_ack },
            FetchEvent::Negotiated => FetchEventView::Negotiated,
            FetchEvent::Size(n) => FetchEventView::Size(*n),
            FetchEvent::Data { buffer, received } => FetchEventView::Data {
                buffer: buffer@,
                received: *received,
            },
            FetchEvent::Stopped => FetchEventView::Stopped,
            FetchEvent::Failed => FetchEventView::Failed,
        }
    }
}

/// What the caller is to do next for a `TftpFetch`. The number is that of
/// the interface, in the order of discovery.
#[derive(Debug, Clone, Copy, PartialEq, Eq, Structural)]
pub enum FetchAction {
    /// Count the interfaces that can boot over the network.
    CountInterfaces,
    /// Open the interface, and see whether it is started and has its address.
    Open(usize),
    /// Start the interface, and see whether it has its address.
    Start(usize),
    /// Let the interface negotiate its address.
    Dhcp(usize),
    /// Ask the server for the size of the choice file.
    QuerySize(usize),
    /// Download the choice file into a buffer of exactly `size` bytes.
    Download { interface: usize, size: usize },
    /// Stop the interface.
    Stop(usize),
    /// Nothing is left to do.
    Done,
}

/// Where a fetch stands on its current interface.
#[derive(Debug, PartialEq, Eq)]
pub enum FetchPhase {
    /// The interfaces are being counted.
    Counting,
    /// The interface is being opened.
    Opening,
    /// The interface is being started.
    Starting,
    /// The interface is negotiating its address.
    Negotiating { started_here: bool },
    /// The size of the file is being asked for.
    Sizing { started_here: bool },
    /// The file is being downloaded.
    Downloading { started_here: bool, size: usize },
    /// The interface, which this fetch started, is being stopped; `result`
    /// is what the interface gave.
    Stopping { result: Result<Choice, ChoiceLookupError> },
    /// The fetch is over.
    Finished(Result<Choice, ChoiceLookupError>),
}

/// A `FetchPhase` as plain values.
pub enum FetchPhaseView {
    Counting,
    Opening,
    Starting,
    Negotiating { started_here: bool },
    Sizing { started_here: bool },
    Downloading { started_here: bool, size: usize },
    Stopping { result: Result<ChoiceView, ChoiceLookupError> },
    Finished(Result<ChoiceView, ChoiceLookupError>),
}

impl View for FetchPhase {
    type V = FetchPhaseView;

    open spec fn view(&self) -> FetchPhaseView {
        match self {
            FetchPhase::Counting => FetchPhaseView::Counting,
            FetchPhase::Opening => FetchPhaseView::Opening,
            FetchPhase::Starting => FetchPhaseView::Starting,
            FetchPhase::Negotiating { started_here } => FetchPhaseView::Negotiating {
                started_here: *started_here,
            },
            FetchPhase::Sizing { started_here } => FetchPhaseView::Sizing {
                started_here: *started_here,
            },
            FetchPhase::Downloading { started_here, size } => FetchPhaseView::Downloading {
                started_here: *started_here,
                size: *size,
            },
            FetchPhase::Stopping { result } => FetchPhaseView::Stopping {
                result: lookup_view(*result),
            },
            FetchPhase::Finished(result) => FetchPhaseView::Finished(lookup_view(*result)),
        }
    }
}

/// The fetch of the choice file, interface by interface.
///
/// The caller does what `pending` says and hands what came of it to
/// `handle`, until `pending` says `Done`.
#[derive(Debug, PartialEq, Eq)]
pub struct TftpFetch {
    /// Address of the server.
    pub server: String,
    /// Number of interfaces.
    pub interfaces: usize,
    /// The interface that is being tried.
    pub interface: usize,
    /// Where the fetch stands on that interface.
    pub phase: FetchPhase,
}

/// A `TftpFetch` as plain values.
pub struct TftpFetchView {
    pub server: Seq<char>,
    pub interfaces: usize,
    pub interface: usize,
    pub phase: FetchPhaseView,
}

impl View for TftpFetch {
    type V = TftpFetchView;

    open spec fn view(&self) -> TftpFetchView {
        TftpFetchView {
            server: self.server@,
            interfaces: self.interfaces,
            interface: self.interface,
            phase: self.phase@,
        }
    }
}

impl TftpFetchView {
    /// This fetch in another phase.
    pub open spec fn at(self, phase: FetchPhaseView) -> TftpFetchView {
        TftpFetchView { phase, ..self }
    }

    /// Whether this fetch has started the current interface and not yet
    /// asked for it to be stopped.
    pub open spec fn holds_started(self) -> bool {
        match self.phase {
            FetchPhaseView::Negotiating { started_here } => started_here,
            FetchPhaseView::Sizing { started_here } => started_here,
            FetchPhaseView::Downloading { started_here, .. } => started_here,
            _ => false,
        }
    }
}

/// How a fetch begins: with counting the interfaces, unless there is no
/// server address.
pub open spec fn fetch_from(server: Result<Seq<char>, ChoiceLookupError>) -> TftpFetchView {
    match server {
        Ok(server) => TftpFetchView {
            server,
            interfaces: 0,
            interface: 0,
            phase: FetchPhaseView::Counting,
        },
        Err(e) => TftpFetchView {
            server: Seq::empty(),
            interfaces: 0,
            interface: 0,
            phase: FetchPhaseView::Finished(Err(e)),
        },
    }
}

/// The server address in a text: the text without surrounding white space,
/// where that is an IP literal.
pub open spec fn server_address(tftp_ip: Seq<char>) -> Result<Seq<char>, ChoiceLookupError> {
    if ip_literal(trim(tftp_ip)) {
        Ok(trim(tftp_ip))
    } else {
        Err(ChoiceLookupError::ParseError)
    }
}

/// How a fetch from the server at `tftp_ip` begins.
pub open spec fn fetch_start(tftp_ip: Seq<char>) -> TftpFetchView {
    fetch_from(server_address(tftp_ip))
}

/// The fetch once the current interface is done with: a choice ends it, an
/// error sends it to the next interface, and after the last interface that
/// error is the result.
pub open spec fn conclude(state: TftpFetchView, result: Result<ChoiceView, ChoiceLookupError>) -> TftpFetchView {
    if result is Err && state.interface + 1 < state.interfaces {
        TftpFetchView {
            interface: (state.interface + 1) as usize,
            phase: FetchPhaseView::Opening,
            ..state
        }
    } else {
        state.at(FetchPhaseView::Finished(result))
    }
}

/// The fetch once the current interface has given `result`: an interface
/// that this fetch started is stopped first.
pub open spec fn end_attempt(
    state: TftpFetchView,
    started_here: bool,
    result: Result<ChoiceView, ChoiceLookupError>,
) -> TftpFetchView {
    if started_here {
        state.at(FetchPhaseView::Stopping { result })
    } else {
        conclude(state, result)
    }
}

/// The fetch once the current interface runs: it negotiates its address
/// unless it has one.
pub open spec fn ready(state: TftpFetchView, started_here: bool, dhcp_ack: bool) -> TftpFetchView {
    if dhcp_ack {
        state.at(FetchPhaseView::Sizing { started_here })
    } else {
        state.at(FetchPhaseView::Negotiating { started_here })
    }
}

/// The bytes of the file in a download buffer of which `received` bytes were
/// filled.
pub open spec fn payload(buffer: Seq<u8>, received: u64) -> Seq<u8> {
    if received <= buffer.len() {
        buffer.subrange(0, received as int)
    } else {
        buffer
    }
}

/// One step of a fetch. An event that does not answer what was asked leaves
/// the fetch as it is.
pub open spec fn fetch_step(state: TftpFetchView, event: FetchEventView) -> TftpFetchView {
    match state.phase {
        FetchPhaseView::Counting => match event {
            FetchEventView::Interfaces(n) => if n == 0 {
                state.at(FetchPhaseView::Finished(Err(ChoiceLookupError::NotFound)))
            } else {
                TftpFetchView {
                    interfaces: n,
                    interface: 0,
                    phase: FetchPhaseView::Opening,
                    ..state
                }
            },
            FetchEventView::Failed => state.at(
                FetchPhaseView::Finished(Err(ChoiceLookupError::IoError)),
            ),
            _ => state,
        },
        FetchPhaseView::Opening => match event {
            FetchEventView::Opened { started, dhcp_ack } => if started {
                ready(state, false, dhcp_ack)
            } else {
                state.at(FetchPhaseView::Starting)
            },
            FetchEventView::Failed => conclude(state, Err(ChoiceLookupError::IoError)),
            _ => state,
        },
        FetchPhaseView::Starting => match event {
            FetchEventView::Started { dhcp_ack } => ready(state, true, dhcp_ack),
            FetchEventView::Failed => conclude(state, Err(ChoiceLookupError::ProtocolError)),
            _ => state,
        },
        FetchPhaseView::Negotiating { started_here } => match event {
            FetchEventView::Negotiated => state.at(FetchPhaseView::Sizing { started_here }),
            FetchEventView::Failed => end_attempt(
                state,
                started_here,
                Err(ChoiceLookupError::ProtocolError),
            ),
            _ => state,
        },
        FetchPhaseView::Sizing { started_here } => match event {
            FetchEventView::Size(n) => if n <= usize::MAX {
                state.at(FetchPhaseView::Downloading { started_here, size: n as usize })
            } else {
                end_attempt(state, started_here, Err(ChoiceLookupError::IoError))
            },
            FetchEventView::Failed => end_attempt(
                state,
                started_here,
                Err(ChoiceLookupError::ProtocolError),
            ),
            _ => state,
        },
        FetchPhaseView::Downloading { started_here, .. } => match event {
            FetchEventView::Data { buffer, received } => if received <= usize::MAX {
                end_attempt(state, started_here, choice_in(payload(buffer, received)))
            } else {
                end_attempt(state, started_here, Err(ChoiceLookupError::ProtocolError))
            },
            FetchEventView::Failed => end_attempt(
                state,
                started_here,
                Err(ChoiceLookupError::ProtocolError),
            ),
            _ => state,
        },
        FetchPhaseView::Stopping { result } => match event {
            FetchEventView::Stopped | FetchEventView::Failed => conclude(state, result),
            _ => state,
        },
        FetchPhaseView::Finished(_) => state,
    }
}

/// What the caller is to do in a given state.
pub open spec fn fetch_action(state: TftpFetchView) -> FetchAction {
    match state.phase {
        FetchPhaseView::Counting => FetchAction::CountInterfaces,
        FetchPhaseView::Opening => FetchAction::Open(state.interface),
        FetchPhaseView::Starting => FetchAction::Start(state.interface),
        FetchPhaseView::Negotiating { .. } => FetchAction::Dhcp(state.interface),
        FetchPhaseView::Sizing { .. } => FetchAction::QuerySize(state.interface),
        FetchPhaseView::Downloading { size, .. } => FetchAction::Download {
            interface: state.interface,
            size,
        },
        FetchPhaseView::Stopping { .. } => FetchAction::Stop(state.interface),
        FetchPhaseView::Finished(_) => FetchAction::Done,
    }
}

/// An interface that the fetch has started stays the current one until the
/// fetch asks for it to be stopped: no event takes the fetch to another
/// interface, or ends it, before that.
pub proof fn lemma_started_interface_is_stopped(state: TftpFetchView, event: FetchEventView)
    requires
        state.holds_started(),
    ensures
        fetch_step(state, event).interface == state.interface,
        fetch_step(state, event).holds_started() || (fetch_step(state, event).phase is Stopping
            && fetch_action(fetch_step(state, event)) == FetchAction::Stop(state.interface)),
{
}

/// The fetch asks for an interface to be stopped only after it has started
/// that interface itself: one that was found started is left running.
pub proof fn lemma_stops_only_what_it_started(state: TftpFetchView, event: FetchEventView)
    requires
        fetch_step(state, event).phase is Stopping,
    ensures
        state.holds_started() || state.phase is Stopping,
{
}

/// An interface that was found started is never held as started by the fetch.
pub proof fn lemma_found_started_is_not_held(state: TftpFetchView, event: FetchEventView)
    requires
        !state.holds_started(),
        fetch_step(state, event).holds_started(),
    ensures
        state.phase is Starting,
        event is Started,
{
}

/// A choice comes from a downloaded file alone: the fetch takes up a
/// choice only on the event that brings the file, and it is the choice that
/// the received bytes state.
pub proof fn lemma_choice_comes_from_a_download(state: TftpFetchView, event: FetchEventView)
    ensures
        match fetch_step(state, event).phase {
            FetchPhaseView::Finished(Ok(choice)) | FetchPhaseView::Stopping { result: Ok(choice) } => {
                ||| state.phase == fetch_step(state, event).phase
                ||| state.phase == (FetchPhaseView::Stopping { result: Ok(choice) })
                ||| state.phase is Downloading && match event {
                    FetchEventView::Data { buffer, received } => choice_in(
                        payload(buffer, received),
                    ) == Ok::<ChoiceView, ChoiceLookupError>(choice),
                    _ => false,
                }
            },
            _ => true,
        },
{
}

/// Once interfaces are being tried, an error ends the fetch only after the
/// last of them: while another interface is left, the fetch goes on.
pub proof fn lemma_error_ends_fetch_after_last_interface(
    state: TftpFetchView,
    event: FetchEventView,
)
    requires
        !(state.phase is Finished),
        !(state.phase is Counting),
        fetch_step(state, event).phase matches FetchPhaseView::Finished(r) && r is Err,
    ensures
        state.interface + 1 >= state.interfaces,
{
}

fn conclude_with(fetch: TftpFetch, result: Result<Choice, ChoiceLookupError>) -> (next: TftpFetch)
    ensures
        next@ == conclude(fetch@, lookup_view(result)),
{
    let TftpFetch { server, interfaces, interface, phase: _ } = fetch;
    if result.is_err() && interface < interfaces && interface + 1 < interfaces {
        TftpFetch { server, interfaces, interface: interface + 1, phase: FetchPhase::Opening }
    } else {
        TftpFetch { server, interfaces, interface, phase: FetchPhase::Finished(result) }
    }
}

fn end_attempt_with(
    fetch: TftpFetch,
    started_here: bool,
    result: Result<Choice, ChoiceLookupError>,
) -> (next: TftpFetch)
    ensures
        next@ == end_attempt(fetch@, started_here, lookup_view(result)),
{
    if started_here {
        fetch.enter(FetchPhase::Stopping { result })
    } else {
        conclude_with(fetch, result)
    }
}

fn ready_with(fetch: TftpFetch, started_here: bool, dhcp_ack: bool) -> (next: TftpFetch)
    ensures
        next@ == ready(fetch@, started_here, dhcp_ack),
{
    if dhcp_ack {
        fetch.enter(FetchPhase::Sizing { started_here })
    } else {
        fetch.enter(FetchPhase::Negotiating { started_here })
    }
}

impl TftpFetch {
    fn enter(self, phase: FetchPhase) -> (next: TftpFetch)
        ensures
            next@ == self@.at(phase@),
    {
        let TftpFetch { server, interfaces, interface, phase: _ } = self;
        TftpFetch { server, interfaces, interface, phase }
    }

    /// Begins a fetch from the server at `tftp_ip`.
    pub fn new(tftp_ip: &str) -> (fetch: TftpFetch)
        ensures
            fetch@ == fetch_start(tftp_ip@),
    {
        TftpFetch::with_server(parse_tftp_ip(tftp_ip))
    }

    /// Begins a fetch from a server whose address was read already, or ends
    /// it where there is no address.
    pub fn with_server(server: Result<String, ChoiceLookupError>) -> (fetch: TftpFetch)
        ensures
            fetch@ == fetch_from(address_view(server)),
    {
        match server {
            Ok(server) => TftpFetch {
                server,
                interfaces: 0,
                interface: 0,
                phase: FetchPhase::Counting,
            },
            Err(e) => TftpFetch {
                server: String::new(),
                interfaces: 0,
                interface: 0,
                phase: FetchPhase::Finished(Err(e)),
            },
        }
    }

    /// What the caller is to do next.
    pub fn pending(&self) -> (action: FetchAction)
        ensures
            action == fetch_action(self@),
    {
        match &self.phase {
            FetchPhase::Counting => FetchAction::CountInterfaces,
            FetchPhase::Opening => FetchAction::Open(self.interface),
            FetchPhase::Starting => FetchAction::Start(self.interface),
            FetchPhase::Negotiating { .. } => FetchAction::Dhcp(self.interface),
            FetchPhase::Sizing { .. } => FetchAction::QuerySize(self.interface),
            FetchPhase::Downloading { size, .. } => FetchAction::Download {
                interface: self.interface,
                size: *size,
            },
            FetchPhase::Stopping { .. } => FetchAction::Stop(self.interface),
            FetchPhase::Finished(_) => FetchAction::Done,
        }
    }

    /// Takes in what came of the pending action.
    pub fn handle(self, event: FetchEvent) -> (next: TftpFetch)
        ensures
            next@ == fetch_step(self@, event@),
    {
        let TftpFetch { server, interfaces, interface, phase } = self;
        match phase {
            FetchPhase::Counting => match event {
                FetchEvent::Interfaces(n) => if n == 0 {
                    TftpFetch {
                        server,
                        interfaces,
                        interface,
                        phase: FetchPhase::Finished(Err(ChoiceLookupError::NotFound)),
                    }
                } else {
                    TftpFetch { server, interfaces: n, interface: 0, phase: FetchPhase::Opening }
                },
                FetchEvent::Failed => TftpFetch {
                    server,
                    interfaces,
                    interface,
                    phase: FetchPhase::Finished(Err(ChoiceLookupError::IoError)),
                },
                _ => TftpFetch { server, interfaces, interface, phase: FetchPhase::Counting },
            },
            FetchPhase::Opening => {
                let fetch = TftpFetch { server, interfaces, interface, phase: FetchPhase::Opening };
                match event {
                    FetchEvent::Opened { started, dhcp_ack } => if started {
                        ready_with(fetch, false, dhcp_ack)
                    } else {
                        fetch.enter(FetchPhase::Starting)
                    },
                    FetchEvent::Failed => conclude_with(fetch, Err(ChoiceLookupError::IoError)),
                    _ => fetch,
                }
            },
            FetchPhase::Starting => {
                let fetch = TftpFetch { server, interfaces, interface, phase: FetchPhase::Starting };
                match event {
                    FetchEvent::Started { dhcp_ack } => ready_with(fetch, true, dhcp_ack),
                    FetchEvent::Failed => conclude_with(
                        fetch,
                        Err(ChoiceLookupError::ProtocolError),
                    ),
                    _ => fetch,
                }
            },
            FetchPhase::Negotiating { started_here } => {
                let fetch = TftpFetch {
                    server,
                    interfaces,
                    interface,
                    phase: FetchPhase::Negotiating { started_here },
                };
                match event {
                    FetchEvent::Negotiated => fetch.enter(FetchPhase::Sizing { started_here }),
                    FetchEvent::Failed => end_attempt_with(
                        fetch,
                        started_here,
                        Err(ChoiceLookupError::ProtocolError),
                    ),
                    _ => fetch,
                }
            },
            FetchPhase::Sizing { started_here } => {
                let fetch = TftpFetch {
                    server,
                    interfaces,
                    interface,
                    phase: FetchPhase::Sizing { started_here },
                };
                match event {
                    FetchEvent::Size(n) => if n <= usize::MAX as u64 {
                        fetch.enter(FetchPhase::Downloading { started_here, size: n as usize })
                    } else {
                        end_attempt_with(fetch, started_here, Err(ChoiceLookupError::IoError))
                    },
                    FetchEvent::Failed => end_attempt_with(
                        fetch,
                        started_here,
                        Err(ChoiceLookupError::ProtocolError),
                    ),
                    _ => fetch,
                }
            },
            FetchPhase::Downloading { started_here, size } => {
                let fetch = TftpFetch {
                    server,
                    interfaces,
                    interface,
                    phase: FetchPhase::Downloading { started_here, size },
                };
                match event {
                    FetchEvent::Data { buffer, received } => if received <= usize::MAX as u64 {
                        let mut buffer = buffer;
                        buffer.truncate(received as usize);
                        end_attempt_with(fetch, started_here, parse_choice_bytes(&buffer))
                    } else {
                        end_attempt_with(fetch, started_here, Err(ChoiceLookupError::ProtocolError))
                    },
                    FetchEvent::Failed => end_attempt_with(
                        fetch,
                        started_here,
                        Err(ChoiceLookupError::ProtocolError),
                    ),
                    _ => fetch,
                }
            },
            FetchPhase::Stopping { result } => match event {
                FetchEvent::Stopped | FetchEvent::Failed => conclude_with(
                    TftpFetch { server, interfaces, interface, phase: FetchPhase::Opening },
                    result,
                ),
                _ => TftpFetch {
                    server,
                    interfaces,
                    interface,
                    phase: FetchPhase::Stopping { result },
                },
            },
            FetchPhase::Finished(result) => TftpFetch {
                server,
                interfaces,
                interface,
                phase: FetchPhase::Finished(result),
            },
        }
    }

    /// The result of the fetch, once it is over.
    pub fn outcome(self) -> (r: Option<Result<Choice, ChoiceLookupError>>)
        ensures
            match self@.phase {
                FetchPhaseView::Finished(result) => r is Some && lookup_view(r->0) == result,
                _ => r is None,
            },
    {
        match self.phase {
            FetchPhase::Finished(result) => Some(result),
            _ => None,
        }
    }
}

} // verus!
