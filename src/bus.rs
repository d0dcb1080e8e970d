//! The service bus: its lanes, the three message families and the errors of a handler.
use vstd::prelude::*;

use farcaster_core::swap::btcxmr::KeyManager;

use crate::bytes::bytes_eq;
use crate::service::ServiceId;
use crate::sync::{SyncMsg, SyncerdTask};

verus! {

/// A lane of the bus. `Bridge` never leaves a syncer.
#[derive(Clone, Copy, Debug, PartialEq, Eq, Structural, Hash)]
pub enum ServiceBus {
    Msg,
    Ctl,
    Info,
    Sync,
    Bridge,
}

/// The family a message belongs to.
#[derive(Clone, Copy, Debug, PartialEq, Eq, Structural, Hash)]
pub enum Family {
    Ctl,
    Info,
    Sync,
}

/// A 16-byte capability granting the right to request key derivation.
#[derive(Clone, Copy, Debug, Eq, Hash)]
pub struct Token(pub [u8; 16]);

impl PartialEq for Token {
    /// Compares in constant time.
    fn eq(&self, o: &Token) -> (r: bool) {
        bytes_eq(&self.0, &o.0)
    }
}

impl vstd::std_specs::cmp::PartialEqSpecImpl for Token {
    open spec fn obeys_eq_spec() -> bool {
        true
    }

    open spec fn eq_spec(&self, o: &Token) -> bool {
        *self == *o
    }
}

/// A swap offer in its encoded form; the bus carries it without reading it.
#[derive(Clone, Debug, PartialEq, Eq, Hash)]
pub struct PublicOffer(pub Vec<u8>);

/// The wallet's answer to a key request: the key manager of a new swap, the index it was
/// derived with, and the offer it is for.
#[derive(Debug)]
pub struct SwapKeys {
    pub key_manager: KeyManager,
    pub swap_index: u32,
    pub public_offer: PublicOffer,
}

/// The node's long-term peer secret key and node id.
#[derive(Clone, Copy, Debug, PartialEq, Eq)]
pub struct Keys {
    pub secret_key: [u8; 32],
    pub node_id: [u8; 33],
}

/// A failure reported to the originator of a request.
#[derive(Clone, Debug, PartialEq, Eq)]
pub struct Failure {
    pub code: u16,
    pub info: String,
}

/// Messages of the Ctl family.
#[derive(Debug)]
pub enum CtlMsg {
    Hello,
    Terminate,
    CreateSwapKeys(PublicOffer, Token),
    GetKeys(Token),
    SwapKeys(SwapKeys),
    Keys(Keys),
    Failure(Failure),
}

/// What a syncer says about itself.
#[derive(Clone, Debug, PartialEq, Eq)]
pub struct SyncerInfo {
    pub syncer: ServiceId,
    pub uptime: u64,
    pub since: u64,
    pub tasks: Vec<SyncerdTask>,
}

/// Messages of the Info family.
#[derive(Clone, Debug, PartialEq, Eq)]
pub enum InfoMsg {
    GetInfo,
    ListPeers,
    ListSwaps,
    ListTasks,
    SyncerInfo(SyncerInfo),
    TaskList(Vec<SyncerdTask>),
}

/// Any message on the bus.
#[derive(Debug)]
pub enum BusMsg {
    Ctl(CtlMsg),
    Info(InfoMsg),
    Sync(SyncMsg),
}

/// The error kinds of a service.
#[derive(Clone, Debug, PartialEq, Eq)]
pub enum Error {
    NotSupported(ServiceBus, String),
    InvalidToken,
    TransportError,
    Timeout,
    DataIntegrityError(String),
    ChainRpc(String),
    ProtocolViolation(String),
    Internal(String),
}

/// The name under which a Ctl message is reported.
pub open spec fn ctl_name(m: CtlMsg) -> Seq<char> {
    match m {
        CtlMsg::Hello => "hello()"@,
        CtlMsg::Terminate => "terminate()"@,
        CtlMsg::CreateSwapKeys(..) => "create_swap_keys(..)"@,
        CtlMsg::GetKeys(..) => "get_keys(..)"@,
        CtlMsg::SwapKeys(..) => "swap_keys(..)"@,
        CtlMsg::Keys(..) => "keys(..)"@,
        CtlMsg::Failure(..) => "failure(..)"@,
    }
}

/// The name under which an Info message is reported.
pub open spec fn info_name(m: InfoMsg) -> Seq<char> {
    match m {
        InfoMsg::GetInfo => "get_info()"@,
        InfoMsg::ListPeers => "list_peers()"@,
        InfoMsg::ListSwaps => "list_swaps()"@,
        InfoMsg::ListTasks => "list_tasks()"@,
        InfoMsg::SyncerInfo(..) => "syncer_info(..)"@,
        InfoMsg::TaskList(..) => "task_list(..)"@,
    }
}

/// The name under which a Sync message is reported.
pub open spec fn sync_name(m: SyncMsg) -> Seq<char> {
    match m {
        SyncMsg::Task(..) => "task(..)"@,
        SyncMsg::Event(..) => "event(..)"@,
        SyncMsg::BridgeEvent(..) => "bridge_event(..)"@,
    }
}

/// The family of a message.
pub open spec fn family_of(m: BusMsg) -> Family {
    match m {
        BusMsg::Ctl(_) => Family::Ctl,
        BusMsg::Info(_) => Family::Info,
        BusMsg::Sync(_) => Family::Sync,
    }
}

/// The name under which a message is reported.
pub open spec fn msg_name(m: BusMsg) -> Seq<char> {
    match m {
        BusMsg::Ctl(c) => ctl_name(c),
        BusMsg::Info(i) => info_name(i),
        BusMsg::Sync(s) => sync_name(s),
    }
}

impl CtlMsg {
    pub fn name(&self) -> (r: String)
        ensures
            r@ == ctl_name(*self),
    {
        match self {
            CtlMsg::Hello => "hello()".to_owned(),
            CtlMsg::Terminate => "terminate()".to_owned(),
            CtlMsg::CreateSwapKeys(..) => "create_swap_keys(..)".to_owned(),
            CtlMsg::GetKeys(..) => "get_keys(..)".to_owned(),
            CtlMsg::SwapKeys(..) => "swap_keys(..)".to_owned(),
            CtlMsg::Keys(..) => "keys(..)".to_owned(),
            CtlMsg::Failure(..) => "failure(..)".to_owned(),
        }
    }
}

impl InfoMsg {
    pub fn name(&self) -> (r: String)
        ensures
            r@ == info_name(*self),
    {
        match self {
            InfoMsg::GetInfo => "get_info()".to_owned(),
            InfoMsg::ListPeers => "list_peers()".to_owned(),
            InfoMsg::ListSwaps => "list_swaps()".to_owned(),
            InfoMsg::ListTasks => "list_tasks()".to_owned(),
            InfoMsg::SyncerInfo(..) => "syncer_info(..)".to_owned(),
            InfoMsg::TaskList(..) => "task_list(..)".to_owned(),
        }
    }
}

impl SyncMsg {
    pub fn name(&self) -> (r: String)
        ensures
            r@ == sync_name(*self),
    {
        match self {
            SyncMsg::Task(..) => "task(..)".to_owned(),
            SyncMsg::Event(..) => "event(..)".to_owned(),
            SyncMsg::BridgeEvent(..) => "bridge_event(..)".to_owned(),
        }
    }
}

impl BusMsg {
    /// The name under which the message is reported, as in `NotSupported`.
    pub fn name(&self) -> (r: String)
        ensures
            r@ == msg_name(*self),
    {
        match self {
            BusMsg::Ctl(c) => c.name(),
            BusMsg::Info(i) => i.name(),
            BusMsg::Sync(s) => s.name(),
        }
    }

    pub fn family(&self) -> (r: Family)
        ensures
            r == family_of(*self),
    {
        match self {
            BusMsg::Ctl(_) => Family::Ctl,
            BusMsg::Info(_) => Family::Info,
            BusMsg::Sync(_) => Family::Sync,
        }
    }
}

} // verus!
