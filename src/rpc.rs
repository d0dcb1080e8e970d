//! Replies to the command-line client: progress, success with optional details, failure.
use vstd::prelude::*;

use crate::bus::{Error, Failure};
use crate::service::{InetSocketAddr, NodeAddr, OutPoint, ServiceId, SwapId};

verus! {

/// Optional details of a success.
#[derive(Clone, Debug, PartialEq, Eq, Default)]
pub struct OptionDetails(pub Option<String>);

impl OptionDetails {
    /// Details holding `s`.
    pub fn with(s: &str) -> (r: Self)
        ensures
            r.0 matches Some(m) && m@ == s@,
    {
        OptionDetails(Some(s.to_owned()))
    }

    /// No details.
    pub fn new() -> (r: Self)
        ensures
            r.0 is None,
    {
        OptionDetails(None)
    }

    /// The details as text; empty when there are none.
    pub fn to_string(&self) -> (r: String)
        ensures
            self.0 matches Some(m) ==> r@ == m@,
            self.0 is None ==> r@ == Seq::<char>::empty(),
    {
        match &self.0 {
            Some(m) => m.clone(),
            None => String::new(),
        }
    }
}

/// The code of every failure reported to a client.
pub const FAILURE_CODE: u16 = 1;

/// The text that describes an error.
pub open spec fn error_info(e: Error) -> Seq<char> {
    match e {
        Error::NotSupported(_, m) => m@,
        Error::InvalidToken => "invalid token"@,
        Error::TransportError => "transport error"@,
        Error::Timeout => "timeout"@,
        Error::DataIntegrityError(m) => m@,
        Error::ChainRpc(m) => m@,
        Error::ProtocolViolation(m) => m@,
        Error::Internal(m) => m@,
    }
}

impl Error {
    /// The text that describes the error.
    pub fn info(&self) -> (r: String)
        ensures
            r@ == error_info(*self),
    {
        match self {
            Error::NotSupported(_, m) => m.clone(),
            Error::InvalidToken => "invalid token".to_owned(),
            Error::TransportError => "transport error".to_owned(),
            Error::Timeout => "timeout".to_owned(),
            Error::DataIntegrityError(m) => m.clone(),
            Error::ChainRpc(m) => m.clone(),
            Error::ProtocolViolation(m) => m.clone(),
            Error::Internal(m) => m.clone(),
        }
    }
}

impl Failure {
    /// The failure that reports an error to the client.
    pub fn from_error(e: &Error) -> (r: Failure)
        ensures
            r.code == FAILURE_CODE,
            r.info@ == error_info(*e),
    {
        Failure { code: FAILURE_CODE, info: e.info() }
    }
}

/// A request to open or accept a swap: the protocol's open message in its encoded form,
/// the peer service that carries it, and where to report progress.
#[derive(Clone, Debug, PartialEq, Eq)]
pub struct CreateSwap {
    pub swap_req: Vec<u8>,
    pub peerd: ServiceId,
    pub report_to: Option<ServiceId>,
}

/// What the supervisor says about the node.
#[derive(Clone, Debug, PartialEq, Eq)]
pub struct NodeInfo {
    pub node_id: [u8; 33],
    pub listens: Vec<InetSocketAddr>,
    /// Seconds since start.
    pub uptime: u64,
    /// Start, in seconds since the epoch.
    pub since: u64,
    pub peers: Vec<NodeAddr>,
    pub swaps: Vec<SwapId>,
}

/// What a peer service says about its connection.
#[derive(Clone, Debug, PartialEq, Eq)]
pub struct PeerInfo {
    pub local_id: [u8; 33],
    pub remote_id: Vec<[u8; 33]>,
    pub local_socket: Option<InetSocketAddr>,
    pub remote_socket: Vec<InetSocketAddr>,
    pub uptime: u64,
    pub since: u64,
    pub messages_sent: u64,
    pub messages_received: u64,
    pub connected: bool,
    pub awaits_pong: bool,
}

/// What a swap service says about its swap.
#[derive(Clone, Debug, PartialEq, Eq)]
pub struct SwapInfo {
    pub swap_id: Option<SwapId>,
    pub temporary_swap_id: SwapId,
    /// The protocol state, in its encoded form.
    pub state: Vec<u8>,
    pub funding_outpoint: OutPoint,
    pub remote_peers: Vec<NodeAddr>,
    pub uptime: u64,
    pub since: u64,
    pub is_originator: bool,
}

/// Requests and replies between the client and the services.
#[derive(Clone, Debug, PartialEq, Eq)]
pub enum Request {
    Hello,
    UpdateSwapId(SwapId),
    /// A protocol message for the peer, in its encoded form.
    PeerMessage(Vec<u8>),
    /// A swap protocol message, in its encoded form.
    FarMsgs(Vec<u8>),
    GetInfo,
    ListPeers,
    ListSwaps,
    Listen(InetSocketAddr),
    ConnectPeer(NodeAddr),
    PingPeer,
    OpenSwapWith(CreateSwap),
    AcceptSwapFrom(CreateSwap),
    FundSwap(OutPoint),
    Progress(String),
    Success(OptionDetails),
    Failure(Failure),
    NodeInfo(NodeInfo),
    PeerInfo(PeerInfo),
    SwapInfo(SwapInfo),
    PeerList(Vec<NodeAddr>),
    SwapList(Vec<SwapId>),
    /// The funding script of a swap, in its encoded form.
    SwapFunding(Vec<u8>),
}

/// Turns the result of a step into the reply that reports its progress.
pub trait IntoProgressOrFalure {
    fn into_progress_or_failure(self) -> Request;
}

/// Turns the result of a command into the reply that reports its success.
pub trait IntoSuccessOrFalure {
    fn into_success_or_failure(self) -> Request;
}

impl IntoProgressOrFalure for Result<String, Error> {
    /// The progress message, or the error as a failure.
    fn into_progress_or_failure(self) -> (r: Request)
        ensures
            self matches Ok(s) ==> (r matches Request::Progress(p) && p@ == s@),
            self matches Err(e) ==> (r matches Request::Failure(f) && f.code == FAILURE_CODE
                && f.info@ == error_info(e)),
    {
        match self {
            Ok(val) => Request::Progress(val),
            Err(err) => Request::Failure(Failure::from_error(&err)),
        }
    }
}

impl IntoSuccessOrFalure for Result<String, Error> {
    /// Success with the message as details, or the error as a failure.
    fn into_success_or_failure(self) -> (r: Request)
        ensures
            self matches Ok(s) ==> (r matches Request::Success(d) && (d.0 matches Some(m) && m@
                == s@)),
            self matches Err(e) ==> (r matches Request::Failure(f) && f.code == FAILURE_CODE
                && f.info@ == error_info(e)),
    {
        match self {
            Ok(val) => Request::Success(OptionDetails::with(val.as_str())),
            Err(err) => Request::Failure(Failure::from_error(&err)),
        }
    }
}

impl IntoSuccessOrFalure for Result<(), Error> {
    /// Success without details, or the error as a failure.
    fn into_success_or_failure(self) -> (r: Request)
        ensures
            self is Ok ==> (r matches Request::Success(d) && d.0 is None),
            self matches Err(e) ==> (r matches Request::Failure(f) && f.code == FAILURE_CODE
                && f.info@ == error_info(e)),
    {
        match self {
            Ok(_) => Request::Success(OptionDetails::new()),
            Err(err) => Request::Failure(Failure::from_error(&err)),
        }
    }
}

} // verus!
